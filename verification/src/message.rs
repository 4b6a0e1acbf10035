//! Routing: what is put on the queues of other sessions, and the two
//! operations that put it there.

use vstd::prelude::*;
use vstd::string::*;
use crate::registry::{others, Registry};
use crate::wire::{control_text, write_control, Control};

verus! {

/// What one session puts on the queue of another. `T` is the type of its
/// text: `String` in running code, `Seq<char>` in contracts.
#[derive(Debug, Clone, PartialEq, Eq)]
pub enum Payload<T> {
    /// A control message.
    Control(Control<T>),
    /// A chat line under a label: a broadcast to everyone, or a direct
    /// message to one user.
    Labelled { label: T, from: T, text: T },
    /// A notice of the service, such as a user's arrival.
    Notice(T),
}

/// A record of what a step of a session put on other queues.
#[derive(Debug, Clone, PartialEq, Eq)]
pub enum Sent<T> {
    Nothing,
    /// One message for one user; `delivered` tells whether a queue took it.
    Direct { to: T, payload: Payload<T>, delivered: bool },
    /// One message for everyone else; `addressed` counts the other sessions.
    Broadcast { payload: Payload<T>, addressed: usize },
}

impl View for Payload<String> {
    type V = Payload<Seq<char>>;

    open spec fn view(&self) -> Payload<Seq<char>> {
        match self {
            Payload::Control(c) => Payload::Control(c@),
            Payload::Labelled { label, from, text } => Payload::Labelled {
                label: label@,
                from: from@,
                text: text@,
            },
            Payload::Notice(t) => Payload::Notice(t@),
        }
    }
}

impl View for Sent<String> {
    type V = Sent<Seq<char>>;

    open spec fn view(&self) -> Sent<Seq<char>> {
        match self {
            Sent::Nothing => Sent::Nothing,
            Sent::Direct { to, payload, delivered } => Sent::Direct {
                to: to@,
                payload: payload@,
                delivered: *delivered,
            },
            Sent::Broadcast { payload, addressed } => Sent::Broadcast {
                payload: payload@,
                addressed: *addressed,
            },
        }
    }
}

/// Whether the record is of a direct message that a queue took.
pub open spec fn was_delivered(sent: Sent<Seq<char>>) -> bool {
    sent matches Sent::Direct { delivered, .. } && delivered
}

/// The text of a chat line: label, sender, a colon, the text, a line end.
pub open spec fn labelled_text(label: Seq<char>, from: Seq<char>, text: Seq<char>) -> Seq<char> {
    label + " "@ + from + ": "@ + text + "\n"@
}

/// The string that stands on the queue for a payload.
pub open spec fn payload_text(p: Payload<Seq<char>>) -> Seq<char> {
    match p {
        Payload::Control(c) => control_text(c),
        Payload::Labelled { label, from, text } => labelled_text(label, from, text),
        Payload::Notice(t) => t + "\n"@,
    }
}

/// The error text for a recipient that no live session holds.
pub open spec fn not_found_text(nickname: Seq<char>) -> Seq<char> {
    "Пользователь "@ + nickname + " не найден или не в сети."@
}

/// The error text for a recipient whose queue no longer takes messages.
pub open spec fn closed_text(nickname: Seq<char>) -> Seq<char> {
    "Не удалось отправить сообщение пользователю "@ + nickname
}

/// Writes a payload as it stands on a queue.
pub fn write_payload(p: &Payload<String>) -> (r: String)
    ensures
        r@ == payload_text(p@),
{
    match p {
        Payload::Control(c) => write_control(c),
        Payload::Labelled { label, from, text } => {
            let mut out = label.clone();
            out.append(" ");
            out.append(from.as_str());
            out.append(": ");
            out.append(text.as_str());
            out.append("\n");
            out
        },
        Payload::Notice(t) => {
            let mut out = t.clone();
            out.append("\n");
            out
        },
    }
}

/// Enqueues `message` for `recipient_nick`. Fails, with a text that says
/// why, where no live session holds the nickname or its queue no longer
/// takes messages.
pub fn send_to_user(registry: &Registry, recipient_nick: &str, message: String) -> (r: Result<
    (),
    String,
>)
    ensures
        !registry.has(recipient_nick@) ==> (r matches Err(e) && e@ == not_found_text(
            recipient_nick@,
        )),
        registry.has(recipient_nick@) ==> (r is Ok || (r matches Err(e) && e@ == closed_text(
            recipient_nick@,
        ))),
{
    if !registry.contains(recipient_nick) {
        let mut e = String::from_str("Пользователь ");
        e.append(recipient_nick);
        e.append(" не найден или не в сети.");
        return Err(e);
    }
    match registry.send_to(recipient_nick, message) {
        Ok(_) => Ok(()),
        Err(_) => {
            let mut e = String::from_str("Не удалось отправить сообщение пользователю ");
            e.append(recipient_nick);
            Err(e)
        },
    }
}

/// The payload of a broadcast: a notice of the service as it is, a user's
/// message under the label for everyone.
pub open spec fn broadcast_payload(
    sender: Seq<char>,
    message: Seq<char>,
    is_system_message: bool,
    label: Seq<char>,
) -> Payload<Seq<char>> {
    if is_system_message {
        Payload::Notice(message)
    } else {
        Payload::Labelled { label, from: sender, text: message }
    }
}

/// Enqueues `message` for every live session but the sender's, and gives the
/// record of it. A queue that no longer takes messages is passed over.
pub fn broadcast_message(
    registry: &Registry,
    sender: &str,
    message: &str,
    is_system_message: bool,
    label: &str,
) -> (r: Sent<String>)
    ensures
        r@ == (Sent::Broadcast {
            payload: broadcast_payload(sender@, message@, is_system_message, label@),
            addressed: others(registry@, sender@).len() as usize,
        }),
{
    let payload = if is_system_message {
        Payload::Notice(message.to_owned())
    } else {
        Payload::Labelled { label: label.to_owned(), from: sender.to_owned(), text: message.to_owned() }
    };
    let line = write_payload(&payload);
    let addressed = registry.broadcast_except(sender, line.as_str());
    Sent::Broadcast { payload, addressed }
}

/// Enqueues a payload for one user, and gives the record of it.
pub fn deliver(registry: &Registry, to: String, payload: Payload<String>) -> (r: Sent<String>)
    ensures
        r@ == (Sent::Direct { to: to@, payload: payload@, delivered: was_delivered(r@) }),
        was_delivered(r@) ==> registry.has(to@),
{
    let delivered = send_to_user(registry, to.as_str(), write_payload(&payload)).is_ok();
    Sent::Direct { to, payload, delivered }
}

} // verus!
