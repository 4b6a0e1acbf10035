//! The session engine: what one session does with a line that its user typed
//! and with a string that arrived on its queue, and how a session enters and
//! leaves the chat.

use vstd::prelude::*;
use vstd::string::*;
use vstd::utf8::encode_utf8;
use tokio::sync::mpsc::UnboundedSender;
use crate::client::{ClientState, StateView};
use crate::crypto::{
    from_hex, generate_key, generate_nonce, hex_bytes, hex_digit, hex_digits, is_hex,
    open_message, open_outcome, opened, seal_message, seal_outcome, sealed, to_hex, DecryptError,
    KEY_LEN, MAX_PLAINTEXT, NONCE_LEN,
};
use crate::labels::{lemma_painted_begins, painted, Labels, LabelsView};
use crate::message::{broadcast_message, deliver, payload_text, was_delivered, Payload, Sent};
use crate::outcome::{DeliveryOutcome, DeliveryReaction, LineOutcome, LineReaction};
use crate::registry::{joined, others, Entry, Registry, RegistryError};
use crate::text::{
    after, before, begins_with, chars_of, has_char, has_prefix, lemma_position_is, same_text,
    split_first, text_of, trim_bounds, trimmed,
};
use crate::wire::{
    lemma_control_round_trip, parse_delivery, parse_input, read_delivery, read_input, Command,
    Control, Delivery, Input, SYSTEM_PREFIX,
};

verus! {

/// The random values that one line of input may use up.
#[derive(Debug, Clone, PartialEq, Eq)]
pub struct Fresh {
    /// A key for a private chat that the line may ask for.
    pub key: Option<Vec<u8>>,
    /// A nonce for a private message that the line may send.
    pub nonce: Option<Vec<u8>>,
}

/// What a `Fresh` holds, as mathematical values.
pub struct FreshView {
    pub key: Option<Seq<u8>>,
    pub nonce: Option<Seq<u8>>,
}

impl FreshView {
    /// A key has 32 bytes and a nonce 12.
    pub open spec fn wf(self) -> bool {
        &&& self.key matches Some(k) ==> k.len() == KEY_LEN
        &&& self.nonce matches Some(n) ==> n.len() == NONCE_LEN
    }
}

impl View for Fresh {
    type V = FreshView;

    open spec fn view(&self) -> FreshView {
        FreshView {
            key: match self.key {
                Some(k) => Some(k@),
                None => None,
            },
            nonce: match self.nonce {
                Some(n) => Some(n@),
                None => None,
            },
        }
    }
}

impl Fresh {
    /// A key has 32 bytes and a nonce 12.
    pub open spec fn wf(&self) -> bool {
        self@.wf()
    }

    /// Whether the key, if there is one, has 32 bytes and the nonce 12.
    pub fn is_valid(&self) -> (r: bool)
        ensures
            r == self.wf(),
    {
        let key_fits = match &self.key {
            Some(k) => k.len() == KEY_LEN,
            None => true,
        };
        let nonce_fits = match &self.nonce {
            Some(n) => n.len() == NONCE_LEN,
            None => true,
        };
        key_fits && nonce_fits
    }

    /// A key and a nonce from the random source of the operating system;
    /// either is missing where the source fails.
    pub fn draw() -> (r: Fresh)
        ensures
            r.wf(),
    {
        Fresh { key: generate_key(), nonce: generate_nonce() }
    }
}

/// A reaction that put nothing on another queue.
pub open spec fn quiet(outcome: LineOutcome<Seq<char>>) -> LineReaction<Seq<char>> {
    LineReaction { outcome, sent: Sent::Nothing }
}

/// A reaction that put one message on the queue of `to`.
pub open spec fn direct(
    to: Seq<char>,
    payload: Payload<Seq<char>>,
    delivered: bool,
    reached: LineOutcome<Seq<char>>,
    missed: LineOutcome<Seq<char>>,
) -> LineReaction<Seq<char>> {
    LineReaction {
        outcome: if delivered {
            reached
        } else {
            missed
        },
        sent: Sent::Direct { to, payload, delivered },
    }
}

/// The exit word: the private chat ends, and the partner is told.
pub open spec fn exit_result(pre: StateView, me: Seq<char>, delivered: bool) -> (
    StateView,
    LineReaction<Seq<char>>,
) {
    match pre {
        StateView::Private { partner, .. } => (
            StateView::PublicChat,
            direct(
                partner,
                Payload::Control(Control::Ended { from: me }),
                delivered,
                LineOutcome::LeftPrivateChat { partner },
                LineOutcome::LeftPrivateChat { partner },
            ),
        ),
        _ => (pre, quiet(LineOutcome::Ignored)),
    }
}

/// `/pm <nick>`: from public chat, with a nickname other than the user's
/// own, the session waits for `target` with a fresh key, which goes out in a
/// request. The session waits also where the request does not reach `target`.
pub open spec fn pm_result(
    pre: StateView,
    me: Seq<char>,
    target: Seq<char>,
    fresh: FreshView,
    delivered: bool,
) -> (StateView, LineReaction<Seq<char>>) {
    if target.len() == 0 {
        (pre, quiet(LineOutcome::PmMissingTarget))
    } else if target == me {
        (pre, quiet(LineOutcome::PmSelf))
    } else if !(pre is PublicChat) {
        (pre, quiet(LineOutcome::PmNotInPublic))
    } else {
        match fresh.key {
            None => (pre, quiet(LineOutcome::KeyUnavailable)),
            Some(key) => (
                StateView::Waiting { target, key },
                direct(
                    target,
                    Payload::Control(Control::Request { from: me, key_hex: hex_digits(key) }),
                    delivered,
                    LineOutcome::PmRequested { target },
                    LineOutcome::PmUnreachable { target },
                ),
            ),
        }
    }
}

/// `/accept`: with a request pending, the private chat begins under the
/// offered key and the partner is told; where the partner cannot be reached,
/// the session is back in public chat.
pub open spec fn accept_result(pre: StateView, me: Seq<char>, delivered: bool) -> (
    StateView,
    LineReaction<Seq<char>>,
) {
    match pre {
        StateView::Pending { from, key } => (
            if delivered {
                StateView::Private { partner: from, key }
            } else {
                StateView::PublicChat
            },
            direct(
                from,
                Payload::Control(Control::Accepted { from: me }),
                delivered,
                LineOutcome::Accepted { partner: from },
                LineOutcome::AcceptUndelivered { partner: from },
            ),
        ),
        _ => (pre, quiet(LineOutcome::NothingToAccept)),
    }
}

/// `/reject`: with a request pending, the session is back in public chat,
/// whether or not the partner can be told.
pub open spec fn reject_result(pre: StateView, me: Seq<char>, delivered: bool) -> (
    StateView,
    LineReaction<Seq<char>>,
) {
    match pre {
        StateView::Pending { from, .. } => (
            StateView::PublicChat,
            direct(
                from,
                Payload::Control(Control::Rejected { from: me }),
                delivered,
                LineOutcome::Rejected { partner: from },
                LineOutcome::RejectUndelivered { partner: from },
            ),
        ),
        _ => (pre, quiet(LineOutcome::NothingToReject)),
    }
}

/// A command.
pub open spec fn command_result(
    pre: StateView,
    me: Seq<char>,
    command: Command<Seq<char>>,
    fresh: FreshView,
    entries: Seq<Entry>,
    delivered: bool,
) -> (StateView, LineReaction<Seq<char>>) {
    match command {
        Command::Help => (pre, quiet(LineOutcome::HelpShown)),
        Command::List => (
            pre,
            quiet(
                if others(entries, me).len() == 0 {
                    LineOutcome::NobodyOnline
                } else {
                    LineOutcome::Roster { online: joined(others(entries, me)) }
                },
            ),
        ),
        Command::Pm(target) => pm_result(pre, me, target, fresh, delivered),
        Command::Accept => accept_result(pre, me, delivered),
        Command::Reject => reject_result(pre, me, delivered),
        Command::Unknown(name) => (pre, quiet(LineOutcome::UnknownCommand { name })),
    }
}

/// Plain text in a private chat: sealed under the shared key and a fresh
/// nonce, and sent to the partner; where the partner cannot be reached, the
/// session is back in public chat.
pub open spec fn private_text_result(
    pre: StateView,
    me: Seq<char>,
    text: Seq<char>,
    fresh: FreshView,
    delivered: bool,
) -> (StateView, LineReaction<Seq<char>>) {
    match (pre, fresh.nonce) {
        (StateView::Private { partner, key }, Some(nonce)) => match seal_outcome(key, nonce, text) {
            Ok((nonce_hex, ciphertext_hex)) => (
                if delivered {
                    pre
                } else {
                    StateView::PublicChat
                },
                direct(
                    partner,
                    Payload::Control(Control::Encrypted { from: me, nonce_hex, ciphertext_hex }),
                    delivered,
                    LineOutcome::PrivateSent { partner },
                    LineOutcome::PrivateUndelivered { partner },
                ),
            ),
            Err(_) => (pre, quiet(LineOutcome::EncryptionFailed)),
        },
        _ => (pre, quiet(LineOutcome::EncryptionFailed)),
    }
}

/// Plain text in public chat: with a `:` in it, a direct message to the
/// nickname before the first `:`; without, a broadcast to everyone else.
pub open spec fn public_text_result(
    me: Seq<char>,
    text: Seq<char>,
    labels: LabelsView,
    entries: Seq<Entry>,
    delivered: bool,
) -> LineReaction<Seq<char>> {
    if has_char(text, ':') {
        let recipient = trimmed(before(text, ':'));
        if recipient == me {
            quiet(LineOutcome::DirectToSelf)
        } else {
            direct(
                recipient,
                Payload::Labelled { label: labels.you, from: me, text: trimmed(after(text, ':')) },
                delivered,
                LineOutcome::DirectSent { recipient },
                LineOutcome::DirectUndelivered { recipient },
            )
        }
    } else {
        LineReaction {
            outcome: LineOutcome::BroadcastSent { text },
            sent: Sent::Broadcast {
                payload: Payload::Labelled { label: labels.everyone, from: me, text },
                addressed: others(entries, me).len() as usize,
            },
        }
    }
}

/// Plain text.
pub open spec fn text_result(
    pre: StateView,
    me: Seq<char>,
    text: Seq<char>,
    fresh: FreshView,
    labels: LabelsView,
    entries: Seq<Entry>,
    delivered: bool,
) -> (StateView, LineReaction<Seq<char>>) {
    match pre {
        StateView::Private { .. } => private_text_result(pre, me, text, fresh, delivered),
        StateView::PublicChat => (pre, public_text_result(me, text, labels, entries, delivered)),
        StateView::Waiting { target, .. } => (
            pre,
            quiet(LineOutcome::AwaitingResponse { target }),
        ),
        StateView::Pending { from, .. } => (pre, quiet(LineOutcome::RequestPending { from })),
    }
}

/// What an interpreted line of user input does to a session in state `pre`
/// with the nickname `me`: the state after it and the reaction. `delivered`
/// tells whether the one direct message of the step, if there is one, was
/// taken by a queue. The exit word is read as one only during a private
/// chat; it does nothing where it is handed in outside of one.
pub open spec fn input_result(
    pre: StateView,
    me: Seq<char>,
    input: Input<Seq<char>>,
    fresh: FreshView,
    labels: LabelsView,
    entries: Seq<Entry>,
    delivered: bool,
) -> (StateView, LineReaction<Seq<char>>) {
    match input {
        Input::Blank => (pre, quiet(LineOutcome::Ignored)),
        Input::Exit => exit_result(pre, me, delivered),
        Input::Command(command) => command_result(pre, me, command, fresh, entries, delivered),
        Input::Text(text) => text_result(pre, me, text, fresh, labels, entries, delivered),
    }
}

/// What a line of user input does to a session in state `pre` with the
/// nickname `me`: what the line, interpreted, does.
pub open spec fn line_result(
    pre: StateView,
    me: Seq<char>,
    line: Seq<char>,
    fresh: FreshView,
    labels: LabelsView,
    entries: Seq<Entry>,
    delivered: bool,
) -> (StateView, LineReaction<Seq<char>>) {
    input_result(pre, me, parse_input(line, pre is Private), fresh, labels, entries, delivered)
}

/// A reaction without a message.
fn silent(outcome: LineOutcome<String>) -> (r: LineReaction<String>)
    ensures
        r@ == quiet(outcome@),
{
    LineReaction { outcome, sent: Sent::Nothing }
}

/// Sends one payload to one user and picks the outcome by whether a queue
/// took it.
fn dispatch(
    registry: &Registry,
    to: String,
    payload: Payload<String>,
    reached: LineOutcome<String>,
    missed: LineOutcome<String>,
) -> (r: LineReaction<String>)
    ensures
        r@ == direct(to@, payload@, was_delivered(r@.sent), reached@, missed@),
        was_delivered(r@.sent) ==> registry.has(to@),
{
    let sent = deliver(registry, to, payload);
    let delivered = match &sent {
        Sent::Direct { delivered, .. } => *delivered,
        _ => false,
    };
    LineReaction {
        outcome: if delivered {
            reached
        } else {
            missed
        },
        sent,
    }
}

/// The exit word in a private chat.
fn on_exit(state: &mut ClientState, registry: &Registry, me: &str) -> (r: LineReaction<String>)
    requires
        old(state).wf(),
    ensures
        final(state).wf(),
        (final(state)@, r@) == exit_result(old(state)@, me@, was_delivered(r@.sent)),
        was_delivered(r@.sent) ==> (r@.sent matches Sent::Direct { to, .. } && registry.has(to)),
{
    match state.partner() {
        Some(partner) => {
            *state = ClientState::PublicChat;
            dispatch(
                registry,
                partner.clone(),
                Payload::Control(Control::Ended { from: me.to_owned() }),
                LineOutcome::LeftPrivateChat { partner: partner.clone() },
                LineOutcome::LeftPrivateChat { partner },
            )
        },
        None => silent(LineOutcome::Ignored),
    }
}

/// `/pm` with its argument.
fn on_pm(state: &mut ClientState, registry: &Registry, me: &str, target: String, fresh: Fresh) -> (r:
    LineReaction<String>)
    requires
        old(state).wf(),
        fresh.wf(),
    ensures
        final(state).wf(),
        (final(state)@, r@) == pm_result(old(state)@, me@, target@, fresh@, was_delivered(r@.sent)),
        was_delivered(r@.sent) ==> (r@.sent matches Sent::Direct { to, .. } && registry.has(to)),
{
    if target.as_str().is_empty() {
        return silent(LineOutcome::PmMissingTarget);
    }
    if same_text(target.as_str(), me) {
        return silent(LineOutcome::PmSelf);
    }
    match state {
        ClientState::PublicChat => {},
        _ => {
            return silent(LineOutcome::PmNotInPublic);
        },
    }
    match fresh.key {
        None => silent(LineOutcome::KeyUnavailable),
        Some(key) => {
            let key_hex = to_hex(&key);
            *state = ClientState::WaitingForPrivateChatResponse {
                target_nick: target.clone(),
                sent_key: key,
            };
            dispatch(
                registry,
                target.clone(),
                Payload::Control(Control::Request { from: me.to_owned(), key_hex }),
                LineOutcome::PmRequested { target: target.clone() },
                LineOutcome::PmUnreachable { target },
            )
        },
    }
}

/// `/accept`.
fn on_accept(state: &mut ClientState, registry: &Registry, me: &str) -> (r: LineReaction<String>)
    requires
        old(state).wf(),
    ensures
        final(state).wf(),
        (final(state)@, r@) == accept_result(old(state)@, me@, was_delivered(r@.sent)),
        was_delivered(r@.sent) ==> (r@.sent matches Sent::Direct { to, .. } && registry.has(to)),
{
    let current = state.clone();
    match current {
        ClientState::HasPendingPrivateChatRequest { from_nick, shared_key } => {
            let r = dispatch(
                registry,
                from_nick.clone(),
                Payload::Control(Control::Accepted { from: me.to_owned() }),
                LineOutcome::Accepted { partner: from_nick.clone() },
                LineOutcome::AcceptUndelivered { partner: from_nick.clone() },
            );
            let delivered = match &r.sent {
                Sent::Direct { delivered, .. } => *delivered,
                _ => false,
            };
            if delivered {
                *state = ClientState::InPrivateChat { with_nick: from_nick, shared_key };
            } else {
                *state = ClientState::PublicChat;
            }
            r
        },
        _ => silent(LineOutcome::NothingToAccept),
    }
}

/// `/reject`.
fn on_reject(state: &mut ClientState, registry: &Registry, me: &str) -> (r: LineReaction<String>)
    requires
        old(state).wf(),
    ensures
        final(state).wf(),
        (final(state)@, r@) == reject_result(old(state)@, me@, was_delivered(r@.sent)),
        was_delivered(r@.sent) ==> (r@.sent matches Sent::Direct { to, .. } && registry.has(to)),
{
    let current = state.clone();
    match current {
        ClientState::HasPendingPrivateChatRequest { from_nick, .. } => {
            *state = ClientState::PublicChat;
            dispatch(
                registry,
                from_nick.clone(),
                Payload::Control(Control::Rejected { from: me.to_owned() }),
                LineOutcome::Rejected { partner: from_nick.clone() },
                LineOutcome::RejectUndelivered { partner: from_nick },
            )
        },
        _ => silent(LineOutcome::NothingToReject),
    }
}

/// Plain text during a private chat.
fn on_private_text(
    state: &mut ClientState,
    registry: &Registry,
    me: &str,
    text: String,
    fresh: Fresh,
) -> (r: LineReaction<String>)
    requires
        old(state).wf(),
        old(state)@ is Private,
        fresh.wf(),
    ensures
        final(state).wf(),
        (final(state)@, r@) == private_text_result(
            old(state)@,
            me@,
            text@,
            fresh@,
            was_delivered(r@.sent),
        ),
        was_delivered(r@.sent) ==> (r@.sent matches Sent::Direct { to, .. } && registry.has(to)),
{
    let current = state.clone();
    match (current, fresh.nonce) {
        (ClientState::InPrivateChat { with_nick, shared_key }, Some(nonce)) => {
            match seal_message(&shared_key, &nonce, text.as_str()) {
                Ok(sealed) => {
                    let r = dispatch(
                        registry,
                        with_nick.clone(),
                        Payload::Control(
                            Control::Encrypted {
                                from: me.to_owned(),
                                nonce_hex: sealed.nonce_hex,
                                ciphertext_hex: sealed.ciphertext_hex,
                            },
                        ),
                        LineOutcome::PrivateSent { partner: with_nick.clone() },
                        LineOutcome::PrivateUndelivered { partner: with_nick },
                    );
                    let delivered = match &r.sent {
                        Sent::Direct { delivered, .. } => *delivered,
                        _ => false,
                    };
                    if !delivered {
                        *state = ClientState::PublicChat;
                    }
                    r
                },
                Err(_) => silent(LineOutcome::EncryptionFailed),
            }
        },
        _ => silent(LineOutcome::EncryptionFailed),
    }
}

/// Plain text in public chat.
fn on_public_text(registry: &Registry, me: &str, text: String, labels: &Labels) -> (r: LineReaction<
    String,
>)
    ensures
        r@ == public_text_result(me@, text@, labels@, registry@, was_delivered(r@.sent)),
        was_delivered(r@.sent) ==> (r@.sent matches Sent::Direct { to, .. } && registry.has(to)),
{
    let chars = chars_of(text.as_str());
    let end = chars.len();
    assert(chars@.subrange(0, end as int) =~= chars@);
    let (mid, next) = split_first(&chars, 0, end, ':');
    if mid < end {
        let (a, b) = trim_bounds(&chars, 0, mid);
        let recipient = text_of(&chars, a, b);
        if same_text(recipient.as_str(), me) {
            return silent(LineOutcome::DirectToSelf);
        }
        let (c, d) = trim_bounds(&chars, next, end);
        let content = text_of(&chars, c, d);
        dispatch(
            registry,
            recipient.clone(),
            Payload::Labelled { label: labels.you.clone(), from: me.to_owned(), text: content },
            LineOutcome::DirectSent { recipient: recipient.clone() },
            LineOutcome::DirectUndelivered { recipient },
        )
    } else {
        let sent = broadcast_message(registry, me, text.as_str(), false, labels.everyone.as_str());
        LineReaction { outcome: LineOutcome::BroadcastSent { text }, sent }
    }
}

/// Reacts to one interpreted line of the user of the session: moves the
/// state, and routes what the line calls for through the registry.
pub fn handle_input(
    state: &mut ClientState,
    registry: &Registry,
    me: &str,
    input: Input<String>,
    fresh: Fresh,
    labels: &Labels,
) -> (r: LineReaction<String>)
    requires
        old(state).wf(),
        fresh.wf(),
    ensures
        final(state).wf(),
        (final(state)@, r@) == input_result(
            old(state)@,
            me@,
            input@,
            fresh@,
            labels@,
            registry@,
            was_delivered(r@.sent),
        ),
        was_delivered(r@.sent) ==> (r@.sent matches Sent::Direct { to, .. } && registry.has(to)),
{
    match input {
        Input::Blank => silent(LineOutcome::Ignored),
        Input::Exit => on_exit(state, registry, me),
        Input::Command(command) => match command {
            Command::Help => silent(LineOutcome::HelpShown),
            Command::List => {
                if registry.count_except(me) == 0 {
                    silent(LineOutcome::NobodyOnline)
                } else {
                    silent(LineOutcome::Roster { online: registry.roster(me) })
                }
            },
            Command::Pm(target) => on_pm(state, registry, me, target, fresh),
            Command::Accept => on_accept(state, registry, me),
            Command::Reject => on_reject(state, registry, me),
            Command::Unknown(name) => silent(LineOutcome::UnknownCommand { name }),
        },
        Input::Text(text) => {
            let current = state.clone();
            match current {
                ClientState::InPrivateChat { .. } => on_private_text(state, registry, me, text, fresh),
                ClientState::PublicChat => on_public_text(registry, me, text, labels),
                ClientState::WaitingForPrivateChatResponse { target_nick, .. } => silent(
                    LineOutcome::AwaitingResponse { target: target_nick },
                ),
                ClientState::HasPendingPrivateChatRequest { from_nick, .. } => silent(
                    LineOutcome::RequestPending { from: from_nick },
                ),
            }
        },
    }
}

/// Reacts to one line that the user of the session typed: interprets it,
/// moves the state, and routes what the line calls for through the registry.
pub fn handle_line(
    state: &mut ClientState,
    registry: &Registry,
    me: &str,
    line: &str,
    fresh: Fresh,
    labels: &Labels,
) -> (r: LineReaction<String>)
    requires
        old(state).wf(),
        fresh.wf(),
    ensures
        final(state).wf(),
        (final(state)@, r@) == line_result(
            old(state)@,
            me@,
            line@,
            fresh@,
            labels@,
            registry@,
            was_delivered(r@.sent),
        ),
        was_delivered(r@.sent) ==> (r@.sent matches Sent::Direct { to, .. } && registry.has(to)),
{
    let input = read_input(line, state.in_private_chat());
    handle_input(state, registry, me, input, fresh, labels)
}

/// A reaction to a queued string that put nothing on another queue.
pub open spec fn noted(outcome: DeliveryOutcome<Seq<char>>) -> DeliveryReaction<Seq<char>> {
    DeliveryReaction { outcome, sent: Sent::Nothing }
}

/// Whether `text` is a broadcast line: it begins with the label for
/// everyone and a space.
pub open spec fn is_broadcast_line(text: Seq<char>, labels: LabelsView) -> bool {
    begins_with(text, labels.everyone + " "@)
}

/// Whether `key_hex` holds a private-chat key: 32 bytes in hexadecimal.
pub open spec fn holds_key(key_hex: Seq<char>) -> bool {
    is_hex(key_hex) && hex_bytes(key_hex).len() == KEY_LEN
}

/// What a control message from a peer does to a session in state `pre` with
/// the nickname `me`. A request is taken only in public chat, and answered
/// with a busy notice otherwise; an acceptance, a refusal and a busy notice
/// count only from the user that the session waits for, an end notice and an
/// encrypted message only from the partner of the private chat.
pub open spec fn control_result(
    pre: StateView,
    me: Seq<char>,
    message: Control<Seq<char>>,
    delivered: bool,
) -> (StateView, DeliveryReaction<Seq<char>>) {
    match message {
        Control::Request { from, key_hex } => if !holds_key(key_hex) {
            (pre, noted(DeliveryOutcome::RequestBadKey { from }))
        } else if pre is PublicChat {
            (
                StateView::Pending { from, key: hex_bytes(key_hex) },
                noted(DeliveryOutcome::RequestReceived { from }),
            )
        } else {
            (
                pre,
                DeliveryReaction {
                    outcome: DeliveryOutcome::RequestWhileBusy { from },
                    sent: Sent::Direct {
                        to: from,
                        payload: Payload::Control(Control::Busy { from: me }),
                        delivered,
                    },
                },
            )
        },
        Control::Accepted { from } => match pre {
            StateView::Waiting { target, key } if target == from => (
                StateView::Private { partner: from, key },
                noted(DeliveryOutcome::AcceptedByPeer { peer: from }),
            ),
            _ => (pre, noted(DeliveryOutcome::StrayAccept { peer: from })),
        },
        Control::Rejected { from } => match pre {
            StateView::Waiting { target, .. } if target == from => (
                StateView::PublicChat,
                noted(DeliveryOutcome::RejectedByPeer { peer: from }),
            ),
            _ => (pre, noted(DeliveryOutcome::StrayReject { peer: from })),
        },
        Control::Ended { from } => match pre {
            StateView::Private { partner, .. } if partner == from => (
                StateView::PublicChat,
                noted(DeliveryOutcome::EndedByPeer { peer: from }),
            ),
            _ => (pre, noted(DeliveryOutcome::StrayEnd { peer: from })),
        },
        Control::Busy { from } => match pre {
            StateView::Waiting { target, .. } if target == from => (
                StateView::PublicChat,
                noted(DeliveryOutcome::PeerBusy { peer: from }),
            ),
            _ => (pre, noted(DeliveryOutcome::StrayBusy { peer: from })),
        },
        Control::Encrypted { from, nonce_hex, ciphertext_hex } => match pre {
            StateView::Private { partner, key } if partner == from => (
                pre,
                noted(
                    match open_outcome(key, nonce_hex, ciphertext_hex) {
                        Ok(text) => DeliveryOutcome::PrivateReceived { from, text },
                        Err(reason) => DeliveryOutcome::PrivateUnreadable { from, reason },
                    },
                ),
            ),
            _ => (pre, noted(DeliveryOutcome::PrivateFromStranger { from })),
        },
    }
}

/// A private message that its sender sealed is read back: where the session
/// is in a private chat with the sender, and the fields of the message are
/// what `seal_message` gave for a text under the key of the chat and some
/// nonce, the outcome is that text, received from the sender.
pub open spec fn reads_back(
    pre: StateView,
    message: Control<Seq<char>>,
    outcome: DeliveryOutcome<Seq<char>>,
) -> bool {
    match (pre, message) {
        (
            StateView::Private { partner, key },
            Control::Encrypted { from, nonce_hex, ciphertext_hex },
        ) => partner == from ==> forall|nonce: Seq<u8>, text: Seq<char>|
            nonce.len() == NONCE_LEN && #[trigger] seal_outcome(key, nonce, text) == Ok::<
                (Seq<char>, Seq<char>),
                crate::crypto::EncryptError,
            >((nonce_hex, ciphertext_hex)) ==> outcome == (DeliveryOutcome::PrivateReceived {
                from,
                text,
            }),
        _ => true,
    }
}

/// The text on the wire of a private message that `from` sealed for `text`
/// under `key` and `nonce`.
pub open spec fn sealed_line(from: Seq<char>, key: Seq<u8>, nonce: Seq<u8>, text: Seq<char>) -> Seq<
    char,
> {
    payload_text(
        Payload::Control(
            Control::Encrypted {
                from,
                nonce_hex: hex_digits(nonce),
                ciphertext_hex: hex_digits(sealed(key, nonce, encode_utf8(text))),
            },
        ),
    )
}

/// Whether `outcome` gives back every text that `partner` can have sealed
/// into `message` under `key` and a nonce of 12 bytes.
pub open spec fn reads_sealed_from(
    partner: Seq<char>,
    key: Seq<u8>,
    message: Seq<char>,
    outcome: DeliveryOutcome<Seq<char>>,
) -> bool {
    forall|nonce: Seq<u8>, text: Seq<char>|
        #![trigger sealed_line(partner, key, nonce, text)]
        nonce.len() == NONCE_LEN && encode_utf8(text).len() <= MAX_PLAINTEXT && message
            == sealed_line(partner, key, nonce, text) ==> outcome == (
        DeliveryOutcome::PrivateReceived { from: partner, text })
}

/// What one session seals, the other reads: where the session is in a
/// private chat with a partner whose nickname holds no `:`, and the string
/// is the line that the partner sealed for a text under the key of the chat
/// and a nonce of 12 bytes, the outcome is that text, received from the
/// partner.
pub open spec fn reads_sealed_line(
    pre: StateView,
    message: Seq<char>,
    outcome: DeliveryOutcome<Seq<char>>,
) -> bool {
    match pre {
        StateView::Private { partner, key } => !has_char(partner, ':') ==> reads_sealed_from(
            partner,
            key,
            message,
            outcome,
        ),
        _ => true,
    }
}

/// What an interpreted string from the queue does to a session in state
/// `pre` with the nickname `me`: the state after it and the reaction.
/// `delivered` tells whether the busy notice of the step, if there is one,
/// was taken by a queue.
pub open spec fn message_result(
    pre: StateView,
    me: Seq<char>,
    delivery: Delivery<Seq<char>>,
    labels: LabelsView,
    delivered: bool,
) -> (StateView, DeliveryReaction<Seq<char>>) {
    match delivery {
        Delivery::Display(text) => (
            pre,
            noted(
                if pre is Private && is_broadcast_line(text, labels) {
                    DeliveryOutcome::Suppressed
                } else {
                    DeliveryOutcome::Displayed { text }
                },
            ),
        ),
        Delivery::Control(control) => control_result(pre, me, control, delivered),
        Delivery::MalformedRequest => (pre, noted(DeliveryOutcome::RequestMalformed)),
        Delivery::MalformedEncrypted => (pre, noted(DeliveryOutcome::PrivateMalformed)),
        Delivery::UnknownControl(tag) => (pre, noted(DeliveryOutcome::UnknownControl { tag })),
    }
}

/// What a string from the queue does to a session in state `pre` with the
/// nickname `me`: what the string, interpreted, does.
pub open spec fn delivery_result(
    pre: StateView,
    me: Seq<char>,
    message: Seq<char>,
    labels: LabelsView,
    delivered: bool,
) -> (StateView, DeliveryReaction<Seq<char>>) {
    message_result(pre, me, parse_delivery(message), labels, delivered)
}

/// A reaction to a queued string without a message.
fn note(outcome: DeliveryOutcome<String>) -> (r: DeliveryReaction<String>)
    ensures
        r@ == noted(outcome@),
{
    DeliveryReaction { outcome, sent: Sent::Nothing }
}

/// Whether `text` begins with the label for everyone and a space.
pub fn broadcast_line(text: &str, labels: &Labels) -> (r: bool)
    ensures
        r == is_broadcast_line(text@, labels@),
{
    let mut prefix = labels.everyone.clone();
    prefix.append(" ");
    let chars = chars_of(text);
    assert(chars@.subrange(0, chars@.len() as int) =~= chars@);
    has_prefix(&chars, 0, chars.len(), &chars_of(prefix.as_str()))
}

/// A request of a peer for a private chat.
fn on_request(state: &mut ClientState, registry: &Registry, me: &str, from: String, key_hex: String) -> (r:
    DeliveryReaction<String>)
    requires
        old(state).wf(),
    ensures
        final(state).wf(),
        (final(state)@, r@) == control_result(
            old(state)@,
            me@,
            Control::Request { from: from@, key_hex: key_hex@ },
            was_delivered(r@.sent),
        ),
        was_delivered(r@.sent) ==> (r@.sent matches Sent::Direct { to, .. } && registry.has(to)),
{
    let key = match from_hex(key_hex.as_str()) {
        Some(key) => key,
        None => {
            return note(DeliveryOutcome::RequestBadKey { from });
        },
    };
    if key.len() != KEY_LEN {
        return note(DeliveryOutcome::RequestBadKey { from });
    }
    match state {
        ClientState::PublicChat => {
            *state = ClientState::HasPendingPrivateChatRequest {
                from_nick: from.clone(),
                shared_key: key,
            };
            note(DeliveryOutcome::RequestReceived { from })
        },
        _ => {
            let sent = deliver(
                registry,
                from.clone(),
                Payload::Control(Control::Busy { from: me.to_owned() }),
            );
            DeliveryReaction { outcome: DeliveryOutcome::RequestWhileBusy { from }, sent }
        },
    }
}

/// A control message of a peer.
fn on_control(state: &mut ClientState, registry: &Registry, me: &str, message: Control<String>) -> (r:
    DeliveryReaction<String>)
    requires
        old(state).wf(),
    ensures
        final(state).wf(),
        (final(state)@, r@) == control_result(old(state)@, me@, message@, was_delivered(r@.sent)),
        was_delivered(r@.sent) ==> (r@.sent matches Sent::Direct { to, .. } && registry.has(to)),
        reads_back(old(state)@, message@, r@.outcome),
{
    let current = state.clone();
    match message {
        Control::Request { from, key_hex } => on_request(state, registry, me, from, key_hex),
        Control::Accepted { from } => match current {
            ClientState::WaitingForPrivateChatResponse { target_nick, sent_key } => {
                if same_text(target_nick.as_str(), from.as_str()) {
                    *state = ClientState::InPrivateChat { with_nick: from.clone(), shared_key: sent_key };
                    note(DeliveryOutcome::AcceptedByPeer { peer: from })
                } else {
                    note(DeliveryOutcome::StrayAccept { peer: from })
                }
            },
            _ => note(DeliveryOutcome::StrayAccept { peer: from }),
        },
        Control::Rejected { from } => match current {
            ClientState::WaitingForPrivateChatResponse { target_nick, .. } => {
                if same_text(target_nick.as_str(), from.as_str()) {
                    *state = ClientState::PublicChat;
                    note(DeliveryOutcome::RejectedByPeer { peer: from })
                } else {
                    note(DeliveryOutcome::StrayReject { peer: from })
                }
            },
            _ => note(DeliveryOutcome::StrayReject { peer: from }),
        },
        Control::Ended { from } => match current {
            ClientState::InPrivateChat { with_nick, .. } => {
                if same_text(with_nick.as_str(), from.as_str()) {
                    *state = ClientState::PublicChat;
                    note(DeliveryOutcome::EndedByPeer { peer: from })
                } else {
                    note(DeliveryOutcome::StrayEnd { peer: from })
                }
            },
            _ => note(DeliveryOutcome::StrayEnd { peer: from }),
        },
        Control::Busy { from } => match current {
            ClientState::WaitingForPrivateChatResponse { target_nick, .. } => {
                if same_text(target_nick.as_str(), from.as_str()) {
                    *state = ClientState::PublicChat;
                    note(DeliveryOutcome::PeerBusy { peer: from })
                } else {
                    note(DeliveryOutcome::StrayBusy { peer: from })
                }
            },
            _ => note(DeliveryOutcome::StrayBusy { peer: from }),
        },
        Control::Encrypted { from, nonce_hex, ciphertext_hex } => match current {
            ClientState::InPrivateChat { with_nick, shared_key } => {
                if same_text(with_nick.as_str(), from.as_str()) {
                    match open_message(&shared_key, nonce_hex.as_str(), ciphertext_hex.as_str()) {
                        Ok(text) => note(DeliveryOutcome::PrivateReceived { from, text }),
                        Err(reason) => note(DeliveryOutcome::PrivateUnreadable { from, reason }),
                    }
                } else {
                    note(DeliveryOutcome::PrivateFromStranger { from })
                }
            },
            _ => note(DeliveryOutcome::PrivateFromStranger { from }),
        },
    }
}

/// Reacts to one interpreted string from the queue of the session: shows or
/// hides display text, and follows a control message of a peer.
pub fn handle_message(
    state: &mut ClientState,
    registry: &Registry,
    me: &str,
    delivery: Delivery<String>,
    labels: &Labels,
) -> (r: DeliveryReaction<String>)
    requires
        old(state).wf(),
    ensures
        final(state).wf(),
        (final(state)@, r@) == message_result(
            old(state)@,
            me@,
            delivery@,
            labels@,
            was_delivered(r@.sent),
        ),
        was_delivered(r@.sent) ==> (r@.sent matches Sent::Direct { to, .. } && registry.has(to)),
        delivery@ matches Delivery::Control(control) ==> reads_back(
            old(state)@,
            control,
            r@.outcome,
        ),
{
    match delivery {
        Delivery::Display(text) => {
            if state.in_private_chat() && broadcast_line(text.as_str(), labels) {
                note(DeliveryOutcome::Suppressed)
            } else {
                note(DeliveryOutcome::Displayed { text })
            }
        },
        Delivery::Control(control) => on_control(state, registry, me, control),
        Delivery::MalformedRequest => note(DeliveryOutcome::RequestMalformed),
        Delivery::MalformedEncrypted => note(DeliveryOutcome::PrivateMalformed),
        Delivery::UnknownControl(tag) => note(DeliveryOutcome::UnknownControl { tag }),
    }
}

/// Reacts to one string from the queue of the session: interprets it, shows
/// or hides display text, and follows a control message of a peer. A private
/// message that the partner sealed is read back.
pub fn handle_delivery(
    state: &mut ClientState,
    registry: &Registry,
    me: &str,
    message: &str,
    labels: &Labels,
) -> (r: DeliveryReaction<String>)
    requires
        old(state).wf(),
    ensures
        final(state).wf(),
        (final(state)@, r@) == delivery_result(
            old(state)@,
            me@,
            message@,
            labels@,
            was_delivered(r@.sent),
        ),
        was_delivered(r@.sent) ==> (r@.sent matches Sent::Direct { to, .. } && registry.has(to)),
        parse_delivery(message@) matches Delivery::Control(control) ==> reads_back(
            old(state)@,
            control,
            r@.outcome,
        ),
        reads_sealed_line(old(state)@, message@, r@.outcome),
{
    let delivery = read_delivery(message);
    let r = handle_message(state, registry, me, delivery, labels);
    proof {
        lemma_sealed_line_is_read(old(state)@, message@, r@.outcome);
    }
    r
}

/// A sealed line parses as the encrypted message that it was written from,
/// so that what is read back of the message is read back of the line.
proof fn lemma_sealed_line_is_read(
    pre: StateView,
    message: Seq<char>,
    outcome: DeliveryOutcome<Seq<char>>,
)
    requires
        parse_delivery(message) matches Delivery::Control(control) ==> reads_back(
            pre,
            control,
            outcome,
        ),
    ensures
        reads_sealed_line(pre, message, outcome),
{
    match pre {
        StateView::Private { partner, key } => {
            if !has_char(partner, ':') {
                assert forall|nonce: Seq<u8>, text: Seq<char>|
                    #![trigger sealed_line(partner, key, nonce, text)]
                    nonce.len() == NONCE_LEN && encode_utf8(text).len() <= MAX_PLAINTEXT && message
                        == sealed_line(partner, key, nonce, text) implies outcome == (
                DeliveryOutcome::PrivateReceived { from: partner, text }) by {
                    let nonce_hex = hex_digits(nonce);
                    let ciphertext_hex = hex_digits(sealed(key, nonce, encode_utf8(text)));
                    let control = Control::Encrypted { from: partner, nonce_hex, ciphertext_hex };
                    lemma_hex_has_no_colon(nonce);
                    lemma_control_round_trip(control);
                    assert(seal_outcome(key, nonce, text) == Ok::<
                        (Seq<char>, Seq<char>),
                        crate::crypto::EncryptError,
                    >((nonce_hex, ciphertext_hex)));
                }
            }
        },
        _ => {},
    }
}

/// Hexadecimal text holds no `:`.
proof fn lemma_hex_has_no_colon(bytes: Seq<u8>)
    ensures
        !has_char(hex_digits(bytes), ':'),
{
    let s = hex_digits(bytes);
    assert forall|j: int| 0 <= j < s.len() implies s[j] != ':' by {
        let n = if j % 2 == 0 {
            bytes[j / 2] as int / 16
        } else {
            bytes[j / 2] as int % 16
        };
        assert(s[j] == hex_digit(n));
        crate::crypto::lemma_hex_digit_value(n);
    }
    lemma_position_is(s, ':', s.len() as int);
}

/// The notice that tells everyone else of a user's arrival.
pub open spec fn join_text(nickname: Seq<char>) -> Seq<char> {
    "Пользователь '"@ + nickname + "' вошёл в чат"@
}

/// The notice that tells everyone else of a user's departure.
pub open spec fn leave_text(nickname: Seq<char>) -> Seq<char> {
    "Пользователь '"@ + nickname + "' вышел из чата"@
}

/// What a session finds and causes when it enters the chat.
#[derive(Debug, Clone, PartialEq, Eq)]
pub struct Entrance {
    /// The number of sessions that were online before.
    pub others: usize,
    /// Their nicknames, joined by commas.
    pub online: String,
    /// The record of the arrival notice.
    pub announced: Sent<String>,
}

/// What a session causes when it leaves the chat.
#[derive(Debug, Clone, PartialEq, Eq)]
pub struct Departure {
    /// The record of the end notice to the partner of a private chat.
    pub farewell: Sent<String>,
    /// The record of the departure notice.
    pub announced: Sent<String>,
}

/// Enters the chat under `nickname`: registers the handle and tells everyone
/// else. Where a live session holds the nickname already, nothing is
/// registered and nobody is told.
pub fn enter_chat(registry: &mut Registry, nickname: &str, handle: UnboundedSender<String>) -> (r:
    Result<Entrance, RegistryError>)
    ensures
        final(registry).wf(),
        old(registry).has(nickname@) ==> r matches Err(RegistryError::DuplicateNickname),
        old(registry).has(nickname@) ==> final(registry)@ == old(registry)@,
        !old(registry).has(nickname@) ==> r is Ok,
        r matches Ok(e) ==> {
            &&& final(registry)@.len() == old(registry)@.len() + 1
            &&& final(registry)@.drop_last() == old(registry)@
            &&& final(registry)@.last().nickname@ == nickname@
            &&& final(registry)@.last().handle == handle
            &&& e.others == old(registry)@.len()
            &&& e.online@ == joined(old(registry)@)
            &&& e.announced@ == (Sent::Broadcast {
                payload: Payload::Notice(join_text(nickname@)),
                addressed: old(registry)@.len() as usize,
            })
        },
{
    if registry.contains(nickname) {
        return Err(RegistryError::DuplicateNickname);
    }
    proof {
        crate::registry::lemma_others(registry@, nickname@);
    }
    let present = registry.len();
    let online = registry.roster(nickname);
    let ghost before_entry = registry@;
    match registry.register(nickname.to_owned(), handle) {
        Ok(_) => {},
        Err(e) => {
            return Err(e);
        },
    }
    let mut notice = String::from_str("Пользователь '");
    notice.append(nickname);
    notice.append("' вошёл в чат");
    let announced = broadcast_message(registry, nickname, notice.as_str(), true, "");
    proof {
        assert(registry@.drop_last() =~= before_entry);
        assert(others(registry@, nickname@) == before_entry);
    }
    Ok(Entrance { others: present, online, announced })
}

/// Leaves the chat: removes the row of `nickname`, tells the partner of an
/// active private chat that it has ended, and tells everyone else of the
/// departure.
pub fn leave_chat(registry: &mut Registry, nickname: &str, last: &ClientState) -> (r: Departure)
    ensures
        final(registry).wf(),
        final(registry)@ == others(old(registry)@, nickname@),
        match last@ {
            StateView::Private { partner, .. } => r.farewell@ == (Sent::Direct {
                to: partner,
                payload: Payload::Control(Control::Ended { from: nickname@ }),
                delivered: was_delivered(r.farewell@),
            }) && (was_delivered(r.farewell@) ==> final(registry).has(partner)),
            _ => r.farewell@ == Sent::<Seq<char>>::Nothing,
        },
        r.announced@ == (Sent::Broadcast {
            payload: Payload::Notice(leave_text(nickname@)),
            addressed: final(registry)@.len() as usize,
        }),
{
    registry.unregister(nickname);
    let farewell = match last.partner() {
        Some(partner) => deliver(
            registry,
            partner,
            Payload::Control(Control::Ended { from: nickname.to_owned() }),
        ),
        None => Sent::Nothing,
    };
    let mut notice = String::from_str("Пользователь '");
    notice.append(nickname);
    notice.append("' вышел из чата");
    let announced = broadcast_message(registry, nickname, notice.as_str(), true, "");
    proof {
        crate::registry::lemma_others(registry@, nickname@);
    }
    Departure { farewell, announced }
}

/// No line is dropped in silence: from every state, every line but a blank
/// one ends in an outcome of its own.
pub proof fn lemma_line_never_dropped(
    pre: StateView,
    me: Seq<char>,
    line: Seq<char>,
    fresh: FreshView,
    labels: LabelsView,
    entries: Seq<Entry>,
    delivered: bool,
)
    ensures
        line_result(pre, me, line, fresh, labels, entries, delivered).1.outcome is Ignored
            <==> trimmed(line).len() == 0,
{
}

/// No queued string is dropped in silence: from every state, every string
/// ends in an outcome, and the one outcome that shows nothing is that of a
/// broadcast line during a private chat.
pub proof fn lemma_delivery_never_dropped(
    pre: StateView,
    me: Seq<char>,
    message: Seq<char>,
    labels: LabelsView,
    delivered: bool,
)
    ensures
        delivery_result(pre, me, message, labels, delivered).1.outcome is Suppressed <==> (
        parse_delivery(message) is Display && pre is Private && is_broadcast_line(message, labels)),
{
}

/// A line keeps the state well formed, and moves it only along the
/// transitions of the negotiation: from public chat to waiting, from a
/// pending request or an active private chat to the private chat with the
/// user who asked or back to public chat.
pub proof fn lemma_line_transitions(
    pre: StateView,
    me: Seq<char>,
    line: Seq<char>,
    fresh: FreshView,
    labels: LabelsView,
    entries: Seq<Entry>,
    delivered: bool,
)
    requires
        pre.wf(),
        fresh.wf(),
    ensures
        ({
            let post = line_result(pre, me, line, fresh, labels, entries, delivered).0;
            &&& post.wf()
            &&& post != pre ==> match pre {
                StateView::PublicChat => post is Waiting,
                StateView::Waiting { .. } => false,
                StateView::Pending { from, key } => post is PublicChat || post == (
                StateView::Private { partner: from, key }),
                StateView::Private { .. } => post is PublicChat,
            }
        }),
{
}

/// A queued string keeps the state well formed, and moves it only along the
/// transitions of the negotiation: from public chat to a pending request,
/// from waiting to the private chat under the key that was sent or back to
/// public chat, from a private chat back to public chat.
pub proof fn lemma_delivery_transitions(
    pre: StateView,
    me: Seq<char>,
    message: Seq<char>,
    labels: LabelsView,
    delivered: bool,
)
    requires
        pre.wf(),
    ensures
        ({
            let post = delivery_result(pre, me, message, labels, delivered).0;
            &&& post.wf()
            &&& post != pre ==> match pre {
                StateView::PublicChat => post is Pending,
                StateView::Waiting { target, key } => post is PublicChat || post == (
                StateView::Private { partner: target, key }),
                StateView::Pending { .. } => false,
                StateView::Private { .. } => post is PublicChat,
            }
        }),
{
}

/// The handshake: `alice` asks `bob`, both in public chat, for a private
/// chat; the request reaches the queue of `bob`, who accepts; the acceptance
/// reaches the queue of `alice`. Then each is in a private chat with the
/// other, under the key that `alice` drew.
pub proof fn lemma_handshake(alice: Seq<char>, bob: Seq<char>, key: Seq<u8>, labels: LabelsView)
    requires
        alice != bob,
        bob.len() > 0,
        !has_char(alice, ':'),
        key.len() == KEY_LEN,
    ensures
        ({
            let fresh = FreshView { key: Some(key), nonce: None };
            let asked = pm_result(StateView::PublicChat, alice, bob, fresh, true);
            let request = Payload::Control(Control::Request { from: alice, key_hex: hex_digits(key) });
            let offered = delivery_result(
                StateView::PublicChat,
                bob,
                payload_text(request),
                labels,
                false,
            );
            let accepted = accept_result(offered.0, bob, true);
            let answer = Payload::Control(Control::Accepted { from: bob });
            let begun = delivery_result(asked.0, alice, payload_text(answer), labels, false);
            &&& asked.1.sent == (Sent::Direct { to: bob, payload: request, delivered: true })
            &&& accepted.1.sent == (Sent::Direct { to: alice, payload: answer, delivered: true })
            &&& accepted.0 == (StateView::Private { partner: alice, key })
            &&& begun.0 == (StateView::Private { partner: bob, key })
        }),
{
    crate::crypto::lemma_hex_round_trip(key);
    lemma_control_round_trip(Control::Request { from: alice, key_hex: hex_digits(key) });
    lemma_control_round_trip(Control::Accepted { from: bob });
}

/// A session that leaves a private chat by the exit word tells its partner,
/// and the notice, once on the partner's queue, brings the partner back to
/// public chat too.
pub proof fn lemma_exit_ends_both_sides(
    alice: Seq<char>,
    bob: Seq<char>,
    key: Seq<u8>,
    labels: LabelsView,
)
    ensures
        ({
            let left = exit_result(StateView::Private { partner: bob, key }, alice, true);
            let notice = Payload::Control(Control::Ended { from: alice });
            let told = delivery_result(
                StateView::Private { partner: alice, key },
                bob,
                payload_text(notice),
                labels,
                false,
            );
            &&& left.0 == StateView::PublicChat
            &&& left.1.sent == (Sent::Direct { to: bob, payload: notice, delivered: true })
            &&& told.0 == StateView::PublicChat
            &&& told.1.outcome == (DeliveryOutcome::EndedByPeer { peer: alice })
        }),
{
    lemma_control_round_trip(Control::Ended { from: alice });
}

/// A request that cannot reach its target leaves the session waiting.
pub proof fn lemma_unreachable_target_keeps_waiting(
    me: Seq<char>,
    target: Seq<char>,
    key: Seq<u8>,
)
    requires
        target != me,
        target.len() > 0,
    ensures
        ({
            let fresh = FreshView { key: Some(key), nonce: None };
            let r = pm_result(StateView::PublicChat, me, target, fresh, false);
            &&& r.0 == (StateView::Waiting { target, key })
            &&& r.1.outcome == (LineOutcome::PmUnreachable { target })
        }),
{
}

/// A private message that cannot be read leaves the state as it was.
pub proof fn lemma_unreadable_message_keeps_state(
    pre: StateView,
    me: Seq<char>,
    from: Seq<char>,
    nonce_hex: Seq<char>,
    ciphertext_hex: Seq<char>,
)
    ensures
        control_result(
            pre,
            me,
            Control::Encrypted { from, nonce_hex, ciphertext_hex },
            false,
        ).0 == pre,
{
}

/// No session stays in a private chat with a partner that cannot be reached:
/// an acceptance or a private message that no queue takes brings the session
/// back to public chat.
pub proof fn lemma_unreachable_partner_ends_private_chat(
    pre: StateView,
    me: Seq<char>,
    text: Seq<char>,
    fresh: FreshView,
)
    ensures
        pre is Pending ==> accept_result(pre, me, false).0 is PublicChat,
        pre is Private && !(private_text_result(pre, me, text, fresh, false).1.outcome
            is EncryptionFailed) ==> private_text_result(pre, me, text, fresh, false).0
            is PublicChat,
{
}

/// A text that does not begin with `S` is display text.
proof fn lemma_display_text(message: Seq<char>)
    requires
        message.len() > 0,
        message[0] != 'S',
    ensures
        parse_delivery(message) == Delivery::Display(message),
{
    reveal_strlit("SYSTEM:");
    if begins_with(message, SYSTEM_PREFIX@) {
        assert(message.take(7)[0] == SYSTEM_PREFIX@[0]);
    }
}

/// A chat line and a notice of the service are display text: neither is
/// read as a control message, whatever the terminal made of the label and
/// whatever the user wrote.
pub proof fn lemma_chat_lines_are_display_text(
    labels: LabelsView,
    nickname: Seq<char>,
    text: Seq<char>,
)
    requires
        painted(labels.everyone, "Всем"@),
        painted(labels.you, "Вам"@),
    ensures
        ({
            let broadcast = payload_text(
                Payload::Labelled { label: labels.everyone, from: nickname, text },
            );
            let direct = payload_text(Payload::Labelled { label: labels.you, from: nickname, text });
            let arrival = payload_text(Payload::Notice(join_text(nickname)));
            let departure = payload_text(Payload::Notice(leave_text(nickname)));
            &&& parse_delivery(broadcast) == Delivery::Display(broadcast)
            &&& parse_delivery(direct) == Delivery::Display(direct)
            &&& parse_delivery(arrival) == Delivery::Display(arrival)
            &&& parse_delivery(departure) == Delivery::Display(departure)
            &&& is_broadcast_line(broadcast, labels)
        }),
{
    reveal_strlit("Всем");
    reveal_strlit("Вам");
    reveal_strlit("Пользователь '");
    lemma_painted_begins(labels.everyone, "Всем"@);
    lemma_painted_begins(labels.you, "Вам"@);
    let broadcast = payload_text(Payload::Labelled { label: labels.everyone, from: nickname, text });
    let direct = payload_text(Payload::Labelled { label: labels.you, from: nickname, text });
    let arrival = payload_text(Payload::Notice(join_text(nickname)));
    let departure = payload_text(Payload::Notice(leave_text(nickname)));
    assert(broadcast[0] == labels.everyone[0]);
    assert(direct[0] == labels.you[0]);
    assert(arrival[0] == 'П');
    assert(departure[0] == 'П');
    lemma_display_text(broadcast);
    lemma_display_text(direct);
    lemma_display_text(arrival);
    lemma_display_text(departure);
    assert(broadcast.take((labels.everyone + " "@).len() as int) =~= labels.everyone + " "@);
}

/// What a session in a private chat sends for a line of plain text is the
/// sealed line of that text, for the partner and for nobody else; the state
/// stays where a queue took the line.
pub proof fn lemma_private_text_goes_out_sealed(
    me: Seq<char>,
    partner: Seq<char>,
    key: Seq<u8>,
    nonce: Seq<u8>,
    text: Seq<char>,
    fresh_key: Option<Seq<u8>>,
    delivered: bool,
)
    requires
        encode_utf8(text).len() <= MAX_PLAINTEXT,
    ensures
        ({
            let pre = StateView::Private { partner, key };
            let fresh = FreshView { key: fresh_key, nonce: Some(nonce) };
            let (post, reaction) = private_text_result(pre, me, text, fresh, delivered);
            &&& reaction.sent matches Sent::Direct { to, payload, delivered: taken }
            &&& to == partner
            &&& taken == delivered
            &&& payload_text(payload) == sealed_line(me, key, nonce, text)
            &&& delivered ==> post == pre
        }),
{
}

/// A private message that the cipher does not accept, as one sealed under
/// another key, is reported as unauthentic: nothing of it is shown, nothing
/// is sent, and the state stays.
pub proof fn lemma_unauthentic_message_is_refused(
    me: Seq<char>,
    partner: Seq<char>,
    key: Seq<u8>,
    nonce_hex: Seq<char>,
    ciphertext_hex: Seq<char>,
    delivered: bool,
)
    requires
        is_hex(nonce_hex),
        hex_bytes(nonce_hex).len() == NONCE_LEN,
        is_hex(ciphertext_hex),
        opened(key, hex_bytes(nonce_hex), hex_bytes(ciphertext_hex)) is None,
    ensures
        ({
            let pre = StateView::Private { partner, key };
            let message = Control::Encrypted { from: partner, nonce_hex, ciphertext_hex };
            let (post, reaction) = control_result(pre, me, message, delivered);
            &&& post == pre
            &&& reaction.sent == Sent::<Seq<char>>::Nothing
            &&& reaction.outcome == (DeliveryOutcome::PrivateUnreadable {
                from: partner,
                reason: DecryptError::Authentication,
            })
        }),
{
}

} // verus!
