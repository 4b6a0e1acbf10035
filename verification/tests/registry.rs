use chat_server::message::{broadcast_message, deliver, send_to_user, write_payload, Payload, Sent};
use chat_server::registry::{delivery, Registry, RegistryError};
use chat_server::wire::Control;
use tokio::sync::mpsc::{unbounded_channel, UnboundedReceiver};

fn add(registry: &mut Registry, nickname: &str) -> UnboundedReceiver<String> {
    let (tx, rx) = unbounded_channel::<String>();
    assert_eq!(registry.register(nickname.to_string(), tx), Ok(()));
    rx
}

fn queued(rx: &mut UnboundedReceiver<String>) -> Vec<String> {
    let mut out = Vec::new();
    while let Ok(message) = rx.try_recv() {
        out.push(message);
    }
    out
}

#[test]
fn register_refuses_a_nickname_that_is_present() {
    let mut registry = Registry::new();
    let mut first = add(&mut registry, "alice");
    let (tx, mut second) = unbounded_channel::<String>();
    assert_eq!(registry.register("alice".to_string(), tx), Err(RegistryError::DuplicateNickname));
    assert_eq!(registry.len(), 1);
    assert_eq!(registry.send_to("alice", "hi".to_string()), Ok(()));
    assert_eq!(queued(&mut first), vec!["hi".to_string()]);
    assert!(queued(&mut second).is_empty());
}

#[test]
fn register_after_unregister_succeeds() {
    let mut registry = Registry::new();
    let _rx = add(&mut registry, "alice");
    registry.unregister("alice");
    assert!(!registry.contains("alice"));
    let _again = add(&mut registry, "alice");
    assert!(registry.contains("alice"));
    assert_eq!(registry.len(), 1);
}

#[test]
fn unregister_twice_is_unregister_once() {
    let mut registry = Registry::new();
    let _a = add(&mut registry, "alice");
    let _b = add(&mut registry, "bob");
    let _c = add(&mut registry, "carol");
    registry.unregister("bob");
    assert_eq!(registry.list_except(""), vec!["alice".to_string(), "carol".to_string()]);
    registry.unregister("bob");
    assert_eq!(registry.list_except(""), vec!["alice".to_string(), "carol".to_string()]);
    assert_eq!(registry.len(), 2);
    registry.unregister("nobody");
    assert_eq!(registry.len(), 2);
}

#[test]
fn send_to_reaches_only_the_named_session() {
    let mut registry = Registry::new();
    let mut alice = add(&mut registry, "alice");
    let mut bob = add(&mut registry, "bob");
    assert_eq!(registry.send_to("bob", "one".to_string()), Ok(()));
    assert_eq!(registry.send_to("bob", "two".to_string()), Ok(()));
    assert_eq!(queued(&mut bob), vec!["one".to_string(), "two".to_string()]);
    assert!(queued(&mut alice).is_empty());
}

#[test]
fn send_to_fails_for_absent_and_for_closed() {
    let mut registry = Registry::new();
    let alice = add(&mut registry, "alice");
    assert_eq!(registry.send_to("bob", "x".to_string()), Err(RegistryError::NotFound));
    drop(alice);
    assert_eq!(registry.send_to("alice", "x".to_string()), Err(RegistryError::NotFound));
    assert!(registry.contains("alice"));
}

#[test]
fn delivery_needs_a_row_and_an_open_queue() {
    assert_eq!(delivery(true, true), Ok(()));
    assert_eq!(delivery(true, false), Err(RegistryError::NotFound));
    assert_eq!(delivery(false, true), Err(RegistryError::NotFound));
    assert_eq!(delivery(false, false), Err(RegistryError::NotFound));
}

#[test]
fn broadcast_reaches_everyone_but_the_sender() {
    let mut registry = Registry::new();
    let mut alice = add(&mut registry, "alice");
    let mut bob = add(&mut registry, "bob");
    let carol = add(&mut registry, "carol");
    drop(carol);
    assert_eq!(registry.broadcast_except("alice", "news"), 2);
    assert!(queued(&mut alice).is_empty());
    assert_eq!(queued(&mut bob), vec!["news".to_string()]);
    assert_eq!(registry.broadcast_except("nobody", "all"), 3);
    assert_eq!(queued(&mut alice), vec!["all".to_string()]);
    assert_eq!(Registry::new().broadcast_except("alice", "void"), 0);
}

#[test]
fn list_and_roster_leave_out_the_caller() {
    let mut registry = Registry::new();
    assert_eq!(registry.roster("alice"), "");
    let _a = add(&mut registry, "alice");
    assert_eq!(registry.list_except("alice"), Vec::<String>::new());
    assert_eq!(registry.roster("alice"), "");
    assert_eq!(registry.count_except("alice"), 0);
    let _b = add(&mut registry, "bob");
    let _c = add(&mut registry, "carol");
    assert_eq!(registry.list_except("alice"), vec!["bob".to_string(), "carol".to_string()]);
    assert_eq!(registry.roster("alice"), "bob, carol");
    assert_eq!(registry.roster("bob"), "alice, carol");
    assert_eq!(registry.roster("carol"), "alice, bob");
    assert_eq!(registry.roster("dave"), "alice, bob, carol");
    assert_eq!(registry.count_except("bob"), 2);
    assert_eq!(registry.count_except("dave"), 3);
}

#[test]
fn send_to_user_says_why_it_failed() {
    let mut registry = Registry::new();
    let alice = add(&mut registry, "alice");
    assert_eq!(
        send_to_user(&registry, "bob", "x".to_string()),
        Err("Пользователь bob не найден или не в сети.".to_string())
    );
    assert_eq!(send_to_user(&registry, "alice", "x".to_string()), Ok(()));
    drop(alice);
    assert_eq!(
        send_to_user(&registry, "alice", "x".to_string()),
        Err("Не удалось отправить сообщение пользователю alice".to_string())
    );
}

#[test]
fn broadcast_message_formats_user_and_system_lines() {
    let mut registry = Registry::new();
    let mut alice = add(&mut registry, "alice");
    let mut bob = add(&mut registry, "bob");
    let sent = broadcast_message(&registry, "alice", "hello all", false, "Всем");
    assert_eq!(
        sent,
        Sent::Broadcast {
            payload: Payload::Labelled {
                label: "Всем".to_string(),
                from: "alice".to_string(),
                text: "hello all".to_string(),
            },
            addressed: 1,
        }
    );
    assert_eq!(queued(&mut bob), vec!["Всем alice: hello all\n".to_string()]);
    let sent = broadcast_message(&registry, "bob", "maintenance", true, "Всем");
    assert_eq!(
        sent,
        Sent::Broadcast { payload: Payload::Notice("maintenance".to_string()), addressed: 1 }
    );
    assert_eq!(queued(&mut alice), vec!["maintenance\n".to_string()]);
}

#[test]
fn deliver_records_what_went_where() {
    let mut registry = Registry::new();
    let mut bob = add(&mut registry, "bob");
    let payload = Payload::Control(Control::Busy { from: "alice".to_string() });
    assert_eq!(
        deliver(&registry, "bob".to_string(), payload.clone()),
        Sent::Direct { to: "bob".to_string(), payload: payload.clone(), delivered: true }
    );
    assert_eq!(queued(&mut bob), vec!["SYSTEM:PRIVATE_CHAT_BUSY:alice".to_string()]);
    assert_eq!(
        deliver(&registry, "carol".to_string(), payload.clone()),
        Sent::Direct { to: "carol".to_string(), payload, delivered: false }
    );
}

#[test]
fn payload_text_of_each_kind() {
    assert_eq!(
        write_payload(&Payload::Labelled {
            label: "Вам".to_string(),
            from: "alice".to_string(),
            text: "psst".to_string(),
        }),
        "Вам alice: psst\n"
    );
    assert_eq!(write_payload(&Payload::Notice("note".to_string())), "note\n");
    assert_eq!(
        write_payload(&Payload::Control(Control::Ended { from: "bob".to_string() })),
        "SYSTEM:PRIVATE_CHAT_ENDED:bob"
    );
}
