use chat_server::client::ClientState;
use chat_server::crypto::{seal_message, DecryptError};
use chat_server::message::{Payload, Sent};
use chat_server::outcome::{DeliveryOutcome, LineOutcome};
use chat_server::registry::Registry;
use chat_server::labels::Labels;
use chat_server::session::{
    broadcast_line, enter_chat, handle_delivery, handle_input, handle_line, handle_message, leave_chat,
    Fresh,
};
use chat_server::wire::{Command, Control, Delivery, Input};
use tokio::sync::mpsc::{unbounded_channel, UnboundedReceiver};

fn s(text: &str) -> String {
    text.to_string()
}

fn labels() -> Labels {
    Labels::plain()
}

fn key() -> Vec<u8> {
    vec![5u8; 32]
}

fn other_key() -> Vec<u8> {
    vec![6u8; 32]
}

fn fresh() -> Fresh {
    Fresh { key: Some(key()), nonce: Some(vec![3u8; 12]) }
}

fn waiting() -> ClientState {
    ClientState::WaitingForPrivateChatResponse { target_nick: s("bob"), sent_key: key() }
}

fn pending() -> ClientState {
    ClientState::HasPendingPrivateChatRequest { from_nick: s("bob"), shared_key: key() }
}

fn private() -> ClientState {
    ClientState::InPrivateChat { with_nick: s("bob"), shared_key: key() }
}

fn every_state() -> Vec<ClientState> {
    vec![ClientState::PublicChat, waiting(), pending(), private()]
}

fn table() -> (Registry, UnboundedReceiver<String>, UnboundedReceiver<String>) {
    let mut registry = Registry::new();
    let (alice_tx, alice_rx) = unbounded_channel::<String>();
    let (bob_tx, bob_rx) = unbounded_channel::<String>();
    registry.register(s("alice"), alice_tx).unwrap();
    registry.register(s("bob"), bob_tx).unwrap();
    (registry, alice_rx, bob_rx)
}

fn queued(rx: &mut UnboundedReceiver<String>) -> Vec<String> {
    let mut out = Vec::new();
    while let Ok(message) = rx.try_recv() {
        out.push(message);
    }
    out
}

fn type_line(state: &mut ClientState, registry: &Registry, line: &str) -> LineOutcome<String> {
    handle_line(state, registry, "alice", line, fresh(), &labels()).outcome
}

fn receive(state: &mut ClientState, registry: &Registry, message: &str) -> DeliveryOutcome<String> {
    handle_delivery(state, registry, "alice", message, &labels()).outcome
}

#[test]
fn every_input_has_an_outcome_in_every_state() {
    let (registry, _a, _b) = table();
    let lines = ["/pm bob", "/accept", "/reject", "hello", "exit", "/help", "/list", "/nope", "bob: hi"];
    for state in every_state() {
        for line in lines {
            let mut current = state.clone();
            let outcome = type_line(&mut current, &registry, line);
            assert_ne!(outcome, LineOutcome::Ignored, "{:?} on {:?}", line, state);
            assert!(current.is_valid());
        }
        let mut current = state.clone();
        assert_eq!(type_line(&mut current, &registry, "   "), LineOutcome::Ignored);
        assert_eq!(current, state);
    }
}

#[test]
fn every_control_message_has_an_outcome_in_every_state() {
    let (registry, _a, _b) = table();
    let messages = [
        format!("SYSTEM:PRIVATE_CHAT_REQUEST:bob:{}", hex::encode(key())),
        s("SYSTEM:PRIVATE_CHAT_ACCEPTED:bob"),
        s("SYSTEM:PRIVATE_CHAT_REJECTED:bob"),
        s("SYSTEM:PRIVATE_CHAT_ENDED:bob"),
        s("SYSTEM:PRIVATE_CHAT_BUSY:bob"),
        s("SYSTEM:ENCRYPTED_PRIVATE_MSG:bob:00:00"),
        s("SYSTEM:ENCRYPTED_PRIVATE_MSG:bob"),
        s("SYSTEM:UNHEARD_OF:bob"),
        s("Вам bob: hi\n"),
    ];
    for state in every_state() {
        for message in &messages {
            let mut current = state.clone();
            let outcome = receive(&mut current, &registry, message);
            assert_ne!(outcome, DeliveryOutcome::Suppressed, "{:?} on {:?}", message, state);
            assert!(current.is_valid());
        }
    }
}

#[test]
fn pm_needs_a_target_other_than_oneself() {
    let (registry, _a, mut bob) = table();
    let mut state = ClientState::PublicChat;
    assert_eq!(type_line(&mut state, &registry, "/pm"), LineOutcome::PmMissingTarget);
    assert_eq!(type_line(&mut state, &registry, "/pm   "), LineOutcome::PmMissingTarget);
    assert_eq!(type_line(&mut state, &registry, "/pm alice"), LineOutcome::PmSelf);
    assert_eq!(state, ClientState::PublicChat);
    assert!(queued(&mut bob).is_empty());
}

#[test]
fn pm_is_refused_outside_public_chat() {
    let (registry, _a, mut bob) = table();
    for state in [waiting(), pending(), private()] {
        let mut current = state.clone();
        assert_eq!(type_line(&mut current, &registry, "/pm bob"), LineOutcome::PmNotInPublic);
        assert_eq!(current, state);
    }
    assert!(queued(&mut bob).is_empty());
}

#[test]
fn pm_without_a_key_changes_nothing() {
    let (registry, _a, mut bob) = table();
    let mut state = ClientState::PublicChat;
    let r = handle_line(&mut state, &registry, "alice", "/pm bob", Fresh { key: None, nonce: None }, &labels());
    assert_eq!(r.outcome, LineOutcome::KeyUnavailable);
    assert_eq!(r.sent, Sent::Nothing);
    assert_eq!(state, ClientState::PublicChat);
    assert!(queued(&mut bob).is_empty());
}

#[test]
fn accept_without_request_is_refused() {
    let (registry, _a, _b) = table();
    for state in [ClientState::PublicChat, waiting(), private()] {
        let mut current = state.clone();
        assert_eq!(type_line(&mut current, &registry, "/accept"), LineOutcome::NothingToAccept);
        assert_eq!(current, state);
        assert_eq!(type_line(&mut current, &registry, "/reject"), LineOutcome::NothingToReject);
        assert_eq!(current, state);
    }
}

#[test]
fn accept_that_cannot_be_delivered_reverts_to_public_chat() {
    let (mut registry, _a, bob) = table();
    drop(bob);
    let mut state = pending();
    assert_eq!(type_line(&mut state, &registry, "/accept"), LineOutcome::AcceptUndelivered { partner: s("bob") });
    assert_eq!(state, ClientState::PublicChat);
    registry.unregister("bob");
    let mut state = pending();
    assert_eq!(type_line(&mut state, &registry, "/accept"), LineOutcome::AcceptUndelivered { partner: s("bob") });
    assert_eq!(state, ClientState::PublicChat);
}

#[test]
fn reject_returns_to_public_chat_either_way() {
    let (mut registry, _a, mut bob) = table();
    let mut state = pending();
    assert_eq!(type_line(&mut state, &registry, "/reject"), LineOutcome::Rejected { partner: s("bob") });
    assert_eq!(state, ClientState::PublicChat);
    assert_eq!(queued(&mut bob), vec![s("SYSTEM:PRIVATE_CHAT_REJECTED:alice")]);
    registry.unregister("bob");
    let mut state = pending();
    assert_eq!(type_line(&mut state, &registry, "/reject"), LineOutcome::RejectUndelivered { partner: s("bob") });
    assert_eq!(state, ClientState::PublicChat);
}

#[test]
fn exit_ends_the_private_chat_and_tells_the_partner() {
    let (registry, _a, mut bob) = table();
    let mut state = private();
    assert_eq!(type_line(&mut state, &registry, "EXIT"), LineOutcome::LeftPrivateChat { partner: s("bob") });
    assert_eq!(state, ClientState::PublicChat);
    assert_eq!(queued(&mut bob), vec![s("SYSTEM:PRIVATE_CHAT_ENDED:alice")]);
}

#[test]
fn exit_outside_a_private_chat_is_plain_text() {
    let (registry, _a, mut bob) = table();
    let mut state = ClientState::PublicChat;
    assert_eq!(type_line(&mut state, &registry, "exit"), LineOutcome::BroadcastSent { text: s("exit") });
    assert_eq!(queued(&mut bob), vec![s("Всем alice: exit\n")]);
    let mut state = waiting();
    assert_eq!(type_line(&mut state, &registry, "exit"), LineOutcome::AwaitingResponse { target: s("bob") });
}

#[test]
fn help_list_and_unknown_commands() {
    let (registry, _a, _b) = table();
    let mut state = ClientState::PublicChat;
    assert_eq!(type_line(&mut state, &registry, "/help"), LineOutcome::HelpShown);
    assert_eq!(type_line(&mut state, &registry, "/list"), LineOutcome::Roster { online: s("bob") });
    assert_eq!(type_line(&mut state, &registry, "/Frobnicate x"), LineOutcome::UnknownCommand { name: s("frobnicate") });
    let mut alone = Registry::new();
    let (tx, _rx) = unbounded_channel::<String>();
    alone.register(s("alice"), tx).unwrap();
    assert_eq!(type_line(&mut state, &alone, "/list"), LineOutcome::NobodyOnline);
    assert_eq!(state, ClientState::PublicChat);
}

#[test]
fn public_text_is_broadcast_to_everyone_else() {
    let (registry, mut alice, mut bob) = table();
    let mut state = ClientState::PublicChat;
    let r = handle_line(&mut state, &registry, "alice", "  hello all \n", fresh(), &labels());
    assert_eq!(r.outcome, LineOutcome::BroadcastSent { text: s("hello all") });
    assert_eq!(
        r.sent,
        Sent::Broadcast {
            payload: Payload::Labelled { label: s("Всем"), from: s("alice"), text: s("hello all") },
            addressed: 1,
        }
    );
    assert_eq!(queued(&mut bob), vec![s("Всем alice: hello all\n")]);
    assert!(queued(&mut alice).is_empty());
}

#[test]
fn public_text_with_a_colon_is_a_direct_message() {
    let (registry, _a, mut bob) = table();
    let mut state = ClientState::PublicChat;
    assert_eq!(type_line(&mut state, &registry, "bob :  see: you  "), LineOutcome::DirectSent { recipient: s("bob") });
    assert_eq!(queued(&mut bob), vec![s("Вам alice: see: you\n")]);
    assert_eq!(type_line(&mut state, &registry, "carol: hi"), LineOutcome::DirectUndelivered { recipient: s("carol") });
    assert_eq!(type_line(&mut state, &registry, " alice : hi"), LineOutcome::DirectToSelf);
    assert_eq!(type_line(&mut state, &registry, ": hi"), LineOutcome::DirectUndelivered { recipient: s("") });
    assert_eq!(state, ClientState::PublicChat);
    assert!(queued(&mut bob).is_empty());
}

#[test]
fn text_during_negotiation_is_held_back() {
    let (registry, _a, mut bob) = table();
    let mut state = waiting();
    assert_eq!(type_line(&mut state, &registry, "hello"), LineOutcome::AwaitingResponse { target: s("bob") });
    assert_eq!(state, waiting());
    let mut state = pending();
    assert_eq!(type_line(&mut state, &registry, "bob: hello"), LineOutcome::RequestPending { from: s("bob") });
    assert_eq!(state, pending());
    assert!(queued(&mut bob).is_empty());
}

#[test]
fn private_text_is_sealed_under_the_fresh_nonce() {
    let (registry, _a, mut bob) = table();
    let mut state = private();
    let r = handle_line(&mut state, &registry, "alice", " secret ", fresh(), &labels());
    let sealed = seal_message(&key(), &vec![3u8; 12], "secret").unwrap();
    assert_eq!(r.outcome, LineOutcome::PrivateSent { partner: s("bob") });
    assert_eq!(
        r.sent,
        Sent::Direct {
            to: s("bob"),
            payload: Payload::Control(Control::Encrypted {
                from: s("alice"),
                nonce_hex: sealed.nonce_hex.clone(),
                ciphertext_hex: sealed.ciphertext_hex.clone(),
            }),
            delivered: true,
        }
    );
    assert_eq!(
        queued(&mut bob),
        vec![format!("SYSTEM:ENCRYPTED_PRIVATE_MSG:alice:{}:{}", sealed.nonce_hex, sealed.ciphertext_hex)]
    );
    assert_eq!(state, private());
}

#[test]
fn private_text_that_cannot_be_delivered_reverts_to_public_chat() {
    let (mut registry, _a, _b) = table();
    registry.unregister("bob");
    let mut state = private();
    assert_eq!(type_line(&mut state, &registry, "secret"), LineOutcome::PrivateUndelivered { partner: s("bob") });
    assert_eq!(state, ClientState::PublicChat);
}

#[test]
fn private_text_without_a_nonce_fails_and_keeps_the_state() {
    let (registry, _a, mut bob) = table();
    let mut state = private();
    let r = handle_line(&mut state, &registry, "alice", "secret", Fresh { key: Some(key()), nonce: None }, &labels());
    assert_eq!(r.outcome, LineOutcome::EncryptionFailed);
    assert_eq!(state, private());
    assert!(queued(&mut bob).is_empty());
}

#[test]
fn request_is_taken_only_in_public_chat() {
    let (registry, _a, mut bob) = table();
    let request = format!("SYSTEM:PRIVATE_CHAT_REQUEST:bob:{}", hex::encode(other_key()));
    let mut state = ClientState::PublicChat;
    assert_eq!(receive(&mut state, &registry, &request), DeliveryOutcome::RequestReceived { from: s("bob") });
    assert_eq!(
        state,
        ClientState::HasPendingPrivateChatRequest { from_nick: s("bob"), shared_key: other_key() }
    );
    for busy in [waiting(), pending(), private()] {
        let mut current = busy.clone();
        let r = handle_delivery(&mut current, &registry, "alice", &request, &labels());
        assert_eq!(r.outcome, DeliveryOutcome::RequestWhileBusy { from: s("bob") });
        assert_eq!(
            r.sent,
            Sent::Direct {
                to: s("bob"),
                payload: Payload::Control(Control::Busy { from: s("alice") }),
                delivered: true,
            }
        );
        assert_eq!(current, busy);
        assert_eq!(queued(&mut bob), vec![s("SYSTEM:PRIVATE_CHAT_BUSY:alice")]);
    }
}

#[test]
fn request_with_a_bad_key_is_refused() {
    let (registry, _a, mut bob) = table();
    for state in every_state() {
        for key_hex in ["zz", "0102", "", &hex::encode(vec![1u8; 31]), &hex::encode(vec![1u8; 33])] {
            let mut current = state.clone();
            let message = format!("SYSTEM:PRIVATE_CHAT_REQUEST:bob:{}", key_hex);
            assert_eq!(receive(&mut current, &registry, &message), DeliveryOutcome::RequestBadKey { from: s("bob") });
            assert_eq!(current, state);
        }
        let mut current = state.clone();
        assert_eq!(receive(&mut current, &registry, "SYSTEM:PRIVATE_CHAT_REQUEST:bob"), DeliveryOutcome::RequestMalformed);
        assert_eq!(current, state);
    }
    assert!(queued(&mut bob).is_empty());
}

#[test]
fn answers_count_only_from_the_awaited_user() {
    let (registry, _a, _b) = table();
    let mut state = waiting();
    assert_eq!(receive(&mut state, &registry, "SYSTEM:PRIVATE_CHAT_ACCEPTED:carol"), DeliveryOutcome::StrayAccept { peer: s("carol") });
    assert_eq!(receive(&mut state, &registry, "SYSTEM:PRIVATE_CHAT_REJECTED:carol"), DeliveryOutcome::StrayReject { peer: s("carol") });
    assert_eq!(receive(&mut state, &registry, "SYSTEM:PRIVATE_CHAT_BUSY:carol"), DeliveryOutcome::StrayBusy { peer: s("carol") });
    assert_eq!(receive(&mut state, &registry, "SYSTEM:PRIVATE_CHAT_ENDED:bob"), DeliveryOutcome::StrayEnd { peer: s("bob") });
    assert_eq!(state, waiting());
    assert_eq!(receive(&mut state, &registry, "SYSTEM:PRIVATE_CHAT_REJECTED:bob"), DeliveryOutcome::RejectedByPeer { peer: s("bob") });
    assert_eq!(state, ClientState::PublicChat);
    let mut state = waiting();
    assert_eq!(receive(&mut state, &registry, "SYSTEM:PRIVATE_CHAT_BUSY:bob"), DeliveryOutcome::PeerBusy { peer: s("bob") });
    assert_eq!(state, ClientState::PublicChat);
    let mut state = waiting();
    assert_eq!(receive(&mut state, &registry, "SYSTEM:PRIVATE_CHAT_ACCEPTED:bob"), DeliveryOutcome::AcceptedByPeer { peer: s("bob") });
    assert_eq!(state, private());
    for other in [ClientState::PublicChat, pending(), private()] {
        let mut current = other.clone();
        assert_eq!(receive(&mut current, &registry, "SYSTEM:PRIVATE_CHAT_ACCEPTED:bob"), DeliveryOutcome::StrayAccept { peer: s("bob") });
        assert_eq!(receive(&mut current, &registry, "SYSTEM:PRIVATE_CHAT_REJECTED:bob"), DeliveryOutcome::StrayReject { peer: s("bob") });
        assert_eq!(receive(&mut current, &registry, "SYSTEM:PRIVATE_CHAT_BUSY:bob"), DeliveryOutcome::StrayBusy { peer: s("bob") });
        assert_eq!(current, other);
    }
}

#[test]
fn end_notice_counts_only_from_the_partner() {
    let (registry, _a, _b) = table();
    let mut state = private();
    assert_eq!(receive(&mut state, &registry, "SYSTEM:PRIVATE_CHAT_ENDED:carol"), DeliveryOutcome::StrayEnd { peer: s("carol") });
    assert_eq!(state, private());
    assert_eq!(receive(&mut state, &registry, "SYSTEM:PRIVATE_CHAT_ENDED:bob"), DeliveryOutcome::EndedByPeer { peer: s("bob") });
    assert_eq!(state, ClientState::PublicChat);
    assert_eq!(receive(&mut state, &registry, "SYSTEM:PRIVATE_CHAT_ENDED:bob"), DeliveryOutcome::StrayEnd { peer: s("bob") });
}

#[test]
fn encrypted_message_is_read_only_from_the_partner() {
    let (registry, _a, _b) = table();
    let sealed = seal_message(&key(), &vec![8u8; 12], "hi alice").unwrap();
    let from_bob = format!("SYSTEM:ENCRYPTED_PRIVATE_MSG:bob:{}:{}", sealed.nonce_hex, sealed.ciphertext_hex);
    let from_carol = format!("SYSTEM:ENCRYPTED_PRIVATE_MSG:carol:{}:{}", sealed.nonce_hex, sealed.ciphertext_hex);
    let mut state = private();
    assert_eq!(
        receive(&mut state, &registry, &from_bob),
        DeliveryOutcome::PrivateReceived { from: s("bob"), text: s("hi alice") }
    );
    assert_eq!(receive(&mut state, &registry, &from_carol), DeliveryOutcome::PrivateFromStranger { from: s("carol") });
    assert_eq!(state, private());
    for other in [ClientState::PublicChat, waiting(), pending()] {
        let mut current = other.clone();
        assert_eq!(receive(&mut current, &registry, &from_bob), DeliveryOutcome::PrivateFromStranger { from: s("bob") });
        assert_eq!(current, other);
    }
}

#[test]
fn interpreted_input_is_handled_as_the_line_is() {
    let (registry, _a, mut bob) = table();
    let mut state = ClientState::PublicChat;
    let r = handle_input(&mut state, &registry, "alice", Input::Command(Command::Pm(s("bob"))), fresh(), &labels());
    assert_eq!(r.outcome, LineOutcome::PmRequested { target: s("bob") });
    assert_eq!(state, waiting());
    assert_eq!(queued(&mut bob), vec![format!("SYSTEM:PRIVATE_CHAT_REQUEST:alice:{}", hex::encode(key()))]);
    let mut state = pending();
    let r = handle_input(&mut state, &registry, "alice", Input::Command(Command::Accept), fresh(), &labels());
    assert_eq!(r.outcome, LineOutcome::Accepted { partner: s("bob") });
    assert_eq!(state, private());
    let r = handle_input(&mut state, &registry, "alice", Input::Exit, fresh(), &labels());
    assert_eq!(r.outcome, LineOutcome::LeftPrivateChat { partner: s("bob") });
    assert_eq!(state, ClientState::PublicChat);
    let r = handle_input(&mut state, &registry, "alice", Input::Exit, fresh(), &labels());
    assert_eq!(r.outcome, LineOutcome::Ignored);
    let r = handle_input(&mut state, &registry, "alice", Input::Blank, fresh(), &labels());
    assert_eq!(r.outcome, LineOutcome::Ignored);
    let r = handle_input(&mut state, &registry, "alice", Input::Text(s("hi")), fresh(), &labels());
    assert_eq!(r.outcome, LineOutcome::BroadcastSent { text: s("hi") });
    assert_eq!(state, ClientState::PublicChat);
}

#[test]
fn interpreted_messages_are_handled_as_the_string_is() {
    let (registry, _a, _b) = table();
    let mut state = waiting();
    let accepted = Delivery::Control(Control::Accepted { from: s("bob") });
    let r = handle_message(&mut state, &registry, "alice", accepted, &labels());
    assert_eq!(r.outcome, DeliveryOutcome::AcceptedByPeer { peer: s("bob") });
    assert_eq!(state, private());
    let r = handle_message(&mut state, &registry, "alice", Delivery::Display(s("Всем bob: hi\n")), &labels());
    assert_eq!(r.outcome, DeliveryOutcome::Suppressed);
    let r = handle_message(&mut state, &registry, "alice", Delivery::MalformedRequest, &labels());
    assert_eq!(r.outcome, DeliveryOutcome::RequestMalformed);
    let ended = Delivery::Control(Control::Ended { from: s("bob") });
    let r = handle_message(&mut state, &registry, "alice", ended, &labels());
    assert_eq!(r.outcome, DeliveryOutcome::EndedByPeer { peer: s("bob") });
    assert_eq!(state, ClientState::PublicChat);
}

#[test]
fn painted_chat_lines_are_never_read_as_control_messages() {
    let (registry, mut alice, _b) = table();
    let painted = Labels::paint();
    let mut bob = ClientState::PublicChat;
    for text in ["SYSTEM:PRIVATE_CHAT_ENDED:bob", "hi", ""] {
        handle_input(&mut bob, &registry, "bob", Input::Text(s(text)), fresh(), &painted);
    }
    handle_input(&mut bob, &registry, "bob", Input::Text(s("alice: SYSTEM:PRIVATE_CHAT_BUSY:bob")), fresh(), &painted);
    let mut state = private();
    for message in queued(&mut alice) {
        let r = handle_delivery(&mut state, &registry, "alice", &message, &painted);
        assert!(
            matches!(r.outcome, DeliveryOutcome::Suppressed | DeliveryOutcome::Displayed { .. }),
            "{:?}",
            r.outcome
        );
    }
    assert_eq!(state, private());
}

#[test]
fn what_one_session_seals_the_other_reads_back() {
    let (registry, mut alice_rx, _b) = table();
    let mut bob = ClientState::InPrivateChat { with_nick: s("alice"), shared_key: key() };
    let mut alice = ClientState::InPrivateChat { with_nick: s("bob"), shared_key: key() };
    for text in ["hi", "привет: как дела?", "a:b:c", "x"] {
        let sent = handle_line(&mut bob, &registry, "bob", text, Fresh::draw(), &labels());
        assert_eq!(sent.outcome, LineOutcome::PrivateSent { partner: s("alice") });
        let queued = queued(&mut alice_rx);
        assert_eq!(queued.len(), 1);
        assert_eq!(
            receive(&mut alice, &registry, &queued[0]),
            DeliveryOutcome::PrivateReceived { from: s("bob"), text: s(text) }
        );
    }
}

#[test]
fn unreadable_messages_are_reported_and_change_nothing() {
    let (registry, _a, _b) = table();
    let sealed = seal_message(&other_key(), &vec![8u8; 12], "hi").unwrap();
    let cases = [
        (format!("SYSTEM:ENCRYPTED_PRIVATE_MSG:bob:{}:{}", sealed.nonce_hex, sealed.ciphertext_hex), DecryptError::Authentication),
        (format!("SYSTEM:ENCRYPTED_PRIVATE_MSG:bob:xx:{}", sealed.ciphertext_hex), DecryptError::NonceNotHex),
        (format!("SYSTEM:ENCRYPTED_PRIVATE_MSG:bob:00:{}", sealed.ciphertext_hex), DecryptError::NonceLength),
        (format!("SYSTEM:ENCRYPTED_PRIVATE_MSG:bob:{}:xyz", sealed.nonce_hex), DecryptError::CiphertextNotHex),
    ];
    for (message, reason) in cases {
        let mut state = private();
        assert_eq!(
            receive(&mut state, &registry, &message),
            DeliveryOutcome::PrivateUnreadable { from: s("bob"), reason }
        );
        assert_eq!(state, private());
    }
    let mut state = private();
    assert_eq!(receive(&mut state, &registry, "SYSTEM:ENCRYPTED_PRIVATE_MSG:bob:00"), DeliveryOutcome::PrivateMalformed);
    assert_eq!(receive(&mut state, &registry, "SYSTEM:WHAT"), DeliveryOutcome::UnknownControl { tag: s("WHAT") });
    assert_eq!(state, private());
}

#[test]
fn broadcast_lines_are_hidden_only_during_a_private_chat() {
    let (registry, _a, _b) = table();
    let line = "Всем bob: hi\n";
    for state in [ClientState::PublicChat, waiting(), pending()] {
        let mut current = state.clone();
        assert_eq!(receive(&mut current, &registry, line), DeliveryOutcome::Displayed { text: s(line) });
    }
    let mut state = private();
    assert_eq!(receive(&mut state, &registry, line), DeliveryOutcome::Suppressed);
    assert_eq!(receive(&mut state, &registry, "Вам bob: hi\n"), DeliveryOutcome::Displayed { text: s("Вам bob: hi\n") });
    assert_eq!(receive(&mut state, &registry, "Всем"), DeliveryOutcome::Displayed { text: s("Всем") });
    assert_eq!(receive(&mut state, &registry, "Пользователь 'carol' вошёл в чат\n"), DeliveryOutcome::Displayed { text: s("Пользователь 'carol' вошёл в чат\n") });
    assert_eq!(state, private());
}

#[test]
fn broadcast_line_is_told_by_its_label() {
    assert!(broadcast_line("Всем alice: hi\n", &labels()));
    assert!(broadcast_line("Всем ", &labels()));
    assert!(!broadcast_line("Всем", &labels()));
    assert!(!broadcast_line("Вам alice: hi\n", &labels()));
    let painted = Labels::paint();
    let mut line = painted.everyone.clone();
    line.push_str(" alice: hi\n");
    assert!(broadcast_line(&line, &painted));
    assert!(painted.everyone.contains("Всем"));
    assert!(painted.you.contains("Вам"));
}

#[test]
fn entering_tells_the_others_and_refuses_a_duplicate() {
    let mut registry = Registry::new();
    let (alice_tx, mut alice) = unbounded_channel::<String>();
    let entrance = enter_chat(&mut registry, "alice", alice_tx).unwrap();
    assert_eq!((entrance.others, entrance.online.as_str()), (0, ""));
    assert_eq!(
        entrance.announced,
        Sent::Broadcast { payload: Payload::Notice(s("Пользователь 'alice' вошёл в чат")), addressed: 0 }
    );
    let (bob_tx, mut bob) = unbounded_channel::<String>();
    let entrance = enter_chat(&mut registry, "bob", bob_tx).unwrap();
    assert_eq!((entrance.others, entrance.online.as_str()), (1, "alice"));
    assert_eq!(queued(&mut alice), vec![s("Пользователь 'bob' вошёл в чат\n")]);
    assert!(queued(&mut bob).is_empty());

    let (again_tx, mut again) = unbounded_channel::<String>();
    assert!(enter_chat(&mut registry, "alice", again_tx).is_err());
    assert_eq!(registry.len(), 2);
    assert!(queued(&mut bob).is_empty());
    assert!(queued(&mut again).is_empty());
    assert_eq!(registry.send_to("alice", s("still first")), Ok(()));
    assert_eq!(queued(&mut alice), vec![s("still first")]);
}

#[test]
fn leaving_from_public_chat_tells_only_of_the_departure() {
    let (mut registry, _alice, mut bob) = table();
    let departure = leave_chat(&mut registry, "alice", &ClientState::PublicChat);
    assert_eq!(departure.farewell, Sent::Nothing);
    assert_eq!(
        departure.announced,
        Sent::Broadcast { payload: Payload::Notice(s("Пользователь 'alice' вышел из чата")), addressed: 1 }
    );
    assert_eq!(queued(&mut bob), vec![s("Пользователь 'alice' вышел из чата\n")]);
    assert!(!registry.contains("alice"));
    let departure = leave_chat(&mut registry, "alice", &waiting());
    assert_eq!(departure.farewell, Sent::Nothing);
    assert_eq!(registry.len(), 1);
}

#[test]
fn fresh_values_are_checked_and_drawn() {
    assert!(fresh().is_valid());
    assert!(Fresh { key: None, nonce: None }.is_valid());
    assert!(!Fresh { key: Some(vec![1u8; 16]), nonce: None }.is_valid());
    assert!(!Fresh { key: None, nonce: Some(vec![1u8; 16]) }.is_valid());
    let drawn = Fresh::draw();
    assert!(drawn.is_valid());
    assert_eq!(drawn.key.map(|k| k.len()), Some(32));
    assert_eq!(drawn.nonce.map(|n| n.len()), Some(12));
}

#[test]
fn client_state_is_checked() {
    assert!(ClientState::new().is_valid());
    assert_eq!(ClientState::new(), ClientState::PublicChat);
    assert!(private().is_valid());
    assert!(private().in_private_chat());
    assert!(!waiting().in_private_chat());
    assert_eq!(private().partner(), Some(s("bob")));
    assert_eq!(pending().partner(), None);
    assert!(!ClientState::InPrivateChat { with_nick: s("bob"), shared_key: vec![1u8; 8] }.is_valid());
    assert!(!ClientState::WaitingForPrivateChatResponse { target_nick: s("bob"), sent_key: vec![] }.is_valid());
    assert!(!ClientState::HasPendingPrivateChatRequest { from_nick: s("bob"), shared_key: vec![0u8; 33] }.is_valid());
}
