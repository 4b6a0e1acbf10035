//! The line-oriented text protocol: what a user types, and the control
//! messages that sessions exchange through the registry.

use vstd::prelude::*;
use vstd::string::*;
use crate::text::{lemma_position_is, lemma_split_joined, after, before, begins_with, chars_of, has_char, has_prefix, lowercased, same_text, split_first, text_of, trim_bounds, trimmed};

verus! {

/// The prefix that marks a queued string as a control message.
pub const SYSTEM_PREFIX: &'static str = "SYSTEM:";

/// The tags of the control messages.
pub const TAG_REQUEST: &'static str = "PRIVATE_CHAT_REQUEST";

pub const TAG_ACCEPTED: &'static str = "PRIVATE_CHAT_ACCEPTED";

pub const TAG_REJECTED: &'static str = "PRIVATE_CHAT_REJECTED";

pub const TAG_ENDED: &'static str = "PRIVATE_CHAT_ENDED";

pub const TAG_BUSY: &'static str = "PRIVATE_CHAT_BUSY";

pub const TAG_ENCRYPTED: &'static str = "ENCRYPTED_PRIVATE_MSG";

/// The word that ends a private chat, compared without regard to case.
pub const EXIT_TOKEN: &'static str = "exit";

/// A command that a user types after `/`. `T` is the type of its text:
/// `String` in running code, `Seq<char>` in contracts.
#[derive(Debug, Clone, PartialEq, Eq)]
pub enum Command<T> {
    Help,
    List,
    /// `/pm <nick>`, with the trimmed argument.
    Pm(T),
    Accept,
    Reject,
    /// Any other word, in lowercase.
    Unknown(T),
}

/// One line of user input, interpreted.
#[derive(Debug, Clone, PartialEq, Eq)]
pub enum Input<T> {
    /// Nothing but white space.
    Blank,
    /// The exit word, typed during a private chat.
    Exit,
    Command(Command<T>),
    /// Plain text, trimmed.
    Text(T),
}

/// A control message: a private-chat protocol event or an encrypted payload.
#[derive(Debug, Clone, PartialEq, Eq)]
pub enum Control<T> {
    Request { from: T, key_hex: T },
    Accepted { from: T },
    Rejected { from: T },
    Ended { from: T },
    Busy { from: T },
    Encrypted { from: T, nonce_hex: T, ciphertext_hex: T },
}

/// One queued string, interpreted.
#[derive(Debug, Clone, PartialEq, Eq)]
pub enum Delivery<T> {
    /// Text for direct display.
    Display(T),
    Control(Control<T>),
    /// A private-chat request without its two fields.
    MalformedRequest,
    /// An encrypted message without its three fields.
    MalformedEncrypted,
    /// A control message with a tag that the protocol does not know.
    UnknownControl(T),
}

impl View for Command<String> {
    type V = Command<Seq<char>>;

    open spec fn view(&self) -> Command<Seq<char>> {
        match self {
            Command::Help => Command::Help,
            Command::List => Command::List,
            Command::Pm(target) => Command::Pm(target@),
            Command::Accept => Command::Accept,
            Command::Reject => Command::Reject,
            Command::Unknown(name) => Command::Unknown(name@),
        }
    }
}

impl View for Input<String> {
    type V = Input<Seq<char>>;

    open spec fn view(&self) -> Input<Seq<char>> {
        match self {
            Input::Blank => Input::Blank,
            Input::Exit => Input::Exit,
            Input::Command(c) => Input::Command(c@),
            Input::Text(t) => Input::Text(t@),
        }
    }
}

impl View for Control<String> {
    type V = Control<Seq<char>>;

    open spec fn view(&self) -> Control<Seq<char>> {
        match self {
            Control::Request { from, key_hex } => Control::Request { from: from@, key_hex: key_hex@ },
            Control::Accepted { from } => Control::Accepted { from: from@ },
            Control::Rejected { from } => Control::Rejected { from: from@ },
            Control::Ended { from } => Control::Ended { from: from@ },
            Control::Busy { from } => Control::Busy { from: from@ },
            Control::Encrypted { from, nonce_hex, ciphertext_hex } => Control::Encrypted {
                from: from@,
                nonce_hex: nonce_hex@,
                ciphertext_hex: ciphertext_hex@,
            },
        }
    }
}

impl View for Delivery<String> {
    type V = Delivery<Seq<char>>;

    open spec fn view(&self) -> Delivery<Seq<char>> {
        match self {
            Delivery::Display(t) => Delivery::Display(t@),
            Delivery::Control(c) => Delivery::Control(c@),
            Delivery::MalformedRequest => Delivery::MalformedRequest,
            Delivery::MalformedEncrypted => Delivery::MalformedEncrypted,
            Delivery::UnknownControl(tag) => Delivery::UnknownControl(tag@),
        }
    }
}

/// The command that a lowercase name and a trimmed argument stand for.
pub open spec fn command_named(name: Seq<char>, args: Seq<char>) -> Command<Seq<char>> {
    if name == "help"@ {
        Command::Help
    } else if name == "list"@ {
        Command::List
    } else if name == "pm"@ {
        Command::Pm(args)
    } else if name == "accept"@ {
        Command::Accept
    } else if name == "reject"@ {
        Command::Reject
    } else {
        Command::Unknown(name)
    }
}

/// What a line of user input means. White space at either end does not
/// count. The exit word is one only during a private chat; a line that starts
/// with `/` is a command, its name the text up to the first space, taken in
/// lowercase, its argument the trimmed rest; anything else is plain text.
pub open spec fn parse_input(line: Seq<char>, in_private_chat: bool) -> Input<Seq<char>> {
    let t = trimmed(line);
    if t.len() == 0 {
        Input::Blank
    } else if in_private_chat && lowercased(t) == EXIT_TOKEN@ {
        Input::Exit
    } else if t[0] == '/' {
        let body = t.skip(1);
        Input::Command(command_named(lowercased(before(body, ' ')), trimmed(after(body, ' '))))
    } else {
        Input::Text(t)
    }
}

/// The text of a control message on the wire.
pub open spec fn control_text(m: Control<Seq<char>>) -> Seq<char> {
    match m {
        Control::Request { from, key_hex } => SYSTEM_PREFIX@ + TAG_REQUEST@ + ":"@ + from + ":"@
            + key_hex,
        Control::Accepted { from } => SYSTEM_PREFIX@ + TAG_ACCEPTED@ + ":"@ + from,
        Control::Rejected { from } => SYSTEM_PREFIX@ + TAG_REJECTED@ + ":"@ + from,
        Control::Ended { from } => SYSTEM_PREFIX@ + TAG_ENDED@ + ":"@ + from,
        Control::Busy { from } => SYSTEM_PREFIX@ + TAG_BUSY@ + ":"@ + from,
        Control::Encrypted { from, nonce_hex, ciphertext_hex } => SYSTEM_PREFIX@ + TAG_ENCRYPTED@
            + ":"@ + from + ":"@ + nonce_hex + ":"@ + ciphertext_hex,
    }
}

/// What a queued string means. One that does not begin with `SYSTEM:` is
/// display text. In a control message the tag runs up to the next `:`; a
/// request holds a nickname and a key, an encrypted message a nickname, a
/// nonce and a ciphertext, each up to the next `:` and the last to the end;
/// the other messages hold a nickname that runs to the end.
pub open spec fn parse_delivery(message: Seq<char>) -> Delivery<Seq<char>> {
    if !begins_with(message, SYSTEM_PREFIX@) {
        Delivery::Display(message)
    } else {
        let rest = after(message, ':');
        let tag = before(rest, ':');
        let args = after(rest, ':');
        if tag == TAG_REQUEST@ {
            if has_char(args, ':') {
                Delivery::Control(
                    Control::Request { from: before(args, ':'), key_hex: after(args, ':') },
                )
            } else {
                Delivery::MalformedRequest
            }
        } else if tag == TAG_ACCEPTED@ {
            Delivery::Control(Control::Accepted { from: args })
        } else if tag == TAG_REJECTED@ {
            Delivery::Control(Control::Rejected { from: args })
        } else if tag == TAG_ENDED@ {
            Delivery::Control(Control::Ended { from: args })
        } else if tag == TAG_BUSY@ {
            Delivery::Control(Control::Busy { from: args })
        } else if tag == TAG_ENCRYPTED@ {
            if has_char(args, ':') && has_char(after(args, ':'), ':') {
                Delivery::Control(
                    Control::Encrypted {
                        from: before(args, ':'),
                        nonce_hex: before(after(args, ':'), ':'),
                        ciphertext_hex: after(after(args, ':'), ':'),
                    },
                )
            } else {
                Delivery::MalformedEncrypted
            }
        } else {
            Delivery::UnknownControl(tag)
        }
    }
}

/// The command that a name, already in lowercase, and a trimmed argument
/// stand for.
pub fn command_of(name: String, args: String) -> (r: Command<String>)
    ensures
        r@ == command_named(name@, args@),
{
    if same_text(name.as_str(), "help") {
        Command::Help
    } else if same_text(name.as_str(), "list") {
        Command::List
    } else if same_text(name.as_str(), "pm") {
        Command::Pm(args)
    } else if same_text(name.as_str(), "accept") {
        Command::Accept
    } else if same_text(name.as_str(), "reject") {
        Command::Reject
    } else {
        Command::Unknown(name)
    }
}

/// Whether a text, already in lowercase, is the exit word.
pub fn is_exit_word(lowered: &str) -> (r: bool)
    ensures
        r == (lowered@ == EXIT_TOKEN@),
{
    same_text(lowered, EXIT_TOKEN)
}

/// Interprets one line of user input.
pub fn read_input(line: &str, in_private_chat: bool) -> (r: Input<String>)
    ensures
        r@ == parse_input(line@, in_private_chat),
{
    let chars = chars_of(line);
    let (from, to) = trim_bounds(&chars, 0, chars.len());
    assert(chars@.subrange(0, chars@.len() as int) =~= chars@);
    let ghost t = trimmed(line@);
    if from == to {
        return Input::Blank;
    }
    let text = text_of(&chars, from, to);
    if in_private_chat && is_exit_word(text.as_str().to_lowercase().as_str()) {
        return Input::Exit;
    }
    if chars[from] == '/' {
        let ghost body = t.skip(1);
        assert(body =~= chars@.subrange(from + 1, to as int));
        let (mid, next) = split_first(&chars, from + 1, to, ' ');
        let name = text_of(&chars, from + 1, mid).as_str().to_lowercase();
        let (args_from, args_to) = trim_bounds(&chars, next, to);
        let args = text_of(&chars, args_from, args_to);
        Input::Command(command_of(name, args))
    } else {
        Input::Text(text)
    }
}

/// Writes a control message as it travels.
pub fn write_control(m: &Control<String>) -> (r: String)
    ensures
        r@ == control_text(m@),
{
    let mut out = String::from_str(SYSTEM_PREFIX);
    match m {
        Control::Request { from, key_hex } => {
            out.append(TAG_REQUEST);
            out.append(":");
            out.append(from.as_str());
            out.append(":");
            out.append(key_hex.as_str());
        },
        Control::Accepted { from } => {
            out.append(TAG_ACCEPTED);
            out.append(":");
            out.append(from.as_str());
        },
        Control::Rejected { from } => {
            out.append(TAG_REJECTED);
            out.append(":");
            out.append(from.as_str());
        },
        Control::Ended { from } => {
            out.append(TAG_ENDED);
            out.append(":");
            out.append(from.as_str());
        },
        Control::Busy { from } => {
            out.append(TAG_BUSY);
            out.append(":");
            out.append(from.as_str());
        },
        Control::Encrypted { from, nonce_hex, ciphertext_hex } => {
            out.append(TAG_ENCRYPTED);
            out.append(":");
            out.append(from.as_str());
            out.append(":");
            out.append(nonce_hex.as_str());
            out.append(":");
            out.append(ciphertext_hex.as_str());
        },
    }
    out
}

/// Interprets one queued string.
pub fn read_delivery(message: &str) -> (r: Delivery<String>)
    ensures
        r@ == parse_delivery(message@),
{
    let chars = chars_of(message);
    let end = chars.len();
    assert(chars@.subrange(0, end as int) =~= chars@);
    let prefix = chars_of(SYSTEM_PREFIX);
    if !has_prefix(&chars, 0, end, &prefix) {
        return Delivery::Display(message.to_owned());
    }
    let (_, rest) = split_first(&chars, 0, end, ':');
    let (tag_end, args) = split_first(&chars, rest, end, ':');
    let tag = text_of(&chars, rest, tag_end);
    if same_text(tag.as_str(), TAG_REQUEST) {
        let (from_end, key) = split_first(&chars, args, end, ':');
        if from_end < end {
            Delivery::Control(
                Control::Request {
                    from: text_of(&chars, args, from_end),
                    key_hex: text_of(&chars, key, end),
                },
            )
        } else {
            Delivery::MalformedRequest
        }
    } else if same_text(tag.as_str(), TAG_ACCEPTED) {
        Delivery::Control(Control::Accepted { from: text_of(&chars, args, end) })
    } else if same_text(tag.as_str(), TAG_REJECTED) {
        Delivery::Control(Control::Rejected { from: text_of(&chars, args, end) })
    } else if same_text(tag.as_str(), TAG_ENDED) {
        Delivery::Control(Control::Ended { from: text_of(&chars, args, end) })
    } else if same_text(tag.as_str(), TAG_BUSY) {
        Delivery::Control(Control::Busy { from: text_of(&chars, args, end) })
    } else if same_text(tag.as_str(), TAG_ENCRYPTED) {
        let (from_end, nonce) = split_first(&chars, args, end, ':');
        let (nonce_end, ciphertext) = split_first(&chars, nonce, end, ':');
        if from_end < end && nonce_end < end {
            Delivery::Control(
                Control::Encrypted {
                    from: text_of(&chars, args, from_end),
                    nonce_hex: text_of(&chars, nonce, nonce_end),
                    ciphertext_hex: text_of(&chars, ciphertext, end),
                },
            )
        } else {
            Delivery::MalformedEncrypted
        }
    } else {
        Delivery::UnknownControl(tag)
    }
}

/// Whether the fields of a control message can be told apart on the wire:
/// every field but the last is free of `:`.
pub open spec fn separable(m: Control<Seq<char>>) -> bool {
    match m {
        Control::Request { from, .. } => !has_char(from, ':'),
        Control::Encrypted { from, nonce_hex, .. } => !has_char(from, ':') && !has_char(
            nonce_hex,
            ':',
        ),
        _ => true,
    }
}

/// The text `SYSTEM:` + `tag` + `:` + `args` is read as a control message
/// with that tag and those arguments.
proof fn lemma_framing(tag: Seq<char>, args: Seq<char>)
    requires
        !has_char(tag, ':'),
    ensures
        ({
            let text = SYSTEM_PREFIX@ + tag + ":"@ + args;
            &&& begins_with(text, SYSTEM_PREFIX@)
            &&& before(after(text, ':'), ':') == tag
            &&& after(after(text, ':'), ':') == args
        }),
{
    reveal_strlit("SYSTEM:");
    reveal_strlit(":");
    let text = SYSTEM_PREFIX@ + tag + ":"@ + args;
    let rest = tag + ":"@ + args;
    assert(text.take(7) =~= SYSTEM_PREFIX@);
    lemma_position_is(text, ':', 6);
    assert(text.skip(7) =~= rest);
    assert(":"@ =~= seq![':']);
    lemma_split_joined(tag, ':', args);
}

/// No tag holds a `:`, and no two tags are the same.
proof fn lemma_tags()
    ensures
        !has_char(TAG_REQUEST@, ':'),
        !has_char(TAG_ACCEPTED@, ':'),
        !has_char(TAG_REJECTED@, ':'),
        !has_char(TAG_ENDED@, ':'),
        !has_char(TAG_BUSY@, ':'),
        !has_char(TAG_ENCRYPTED@, ':'),
        TAG_REQUEST@ != TAG_ACCEPTED@,
        TAG_REQUEST@ != TAG_REJECTED@,
        TAG_REQUEST@ != TAG_ENDED@,
        TAG_REQUEST@ != TAG_BUSY@,
        TAG_REQUEST@ != TAG_ENCRYPTED@,
        TAG_ACCEPTED@ != TAG_REJECTED@,
        TAG_ACCEPTED@ != TAG_ENDED@,
        TAG_ACCEPTED@ != TAG_BUSY@,
        TAG_ACCEPTED@ != TAG_ENCRYPTED@,
        TAG_REJECTED@ != TAG_ENDED@,
        TAG_REJECTED@ != TAG_BUSY@,
        TAG_REJECTED@ != TAG_ENCRYPTED@,
        TAG_ENDED@ != TAG_BUSY@,
        TAG_ENDED@ != TAG_ENCRYPTED@,
        TAG_BUSY@ != TAG_ENCRYPTED@,
{
    reveal_strlit("PRIVATE_CHAT_REQUEST");
    reveal_strlit("PRIVATE_CHAT_ACCEPTED");
    reveal_strlit("PRIVATE_CHAT_REJECTED");
    reveal_strlit("PRIVATE_CHAT_ENDED");
    reveal_strlit("PRIVATE_CHAT_BUSY");
    reveal_strlit("ENCRYPTED_PRIVATE_MSG");
    lemma_position_is(TAG_REQUEST@, ':', 20);
    lemma_position_is(TAG_ACCEPTED@, ':', 21);
    lemma_position_is(TAG_REJECTED@, ':', 21);
    lemma_position_is(TAG_ENDED@, ':', 18);
    lemma_position_is(TAG_BUSY@, ':', 17);
    lemma_position_is(TAG_ENCRYPTED@, ':', 21);
    assert(TAG_ACCEPTED@[13] != TAG_REJECTED@[13]);
    assert(TAG_ACCEPTED@[0] != TAG_ENCRYPTED@[0]);
    assert(TAG_REJECTED@[0] != TAG_ENCRYPTED@[0]);
}

/// What is written is read back: a control message whose fields can be told
/// apart comes out of `parse_delivery` as it went into `control_text`.
pub proof fn lemma_control_round_trip(m: Control<Seq<char>>)
    requires
        separable(m),
    ensures
        parse_delivery(control_text(m)) == Delivery::Control(m),
{
    lemma_tags();
    reveal_strlit(":");
    assert(":"@ =~= seq![':']);
    match m {
        Control::Request { from, key_hex } => {
            let args = from + ":"@ + key_hex;
            assert(control_text(m) =~= SYSTEM_PREFIX@ + TAG_REQUEST@ + ":"@ + args);
            lemma_framing(TAG_REQUEST@, args);
            lemma_split_joined(from, ':', key_hex);
        },
        Control::Accepted { from } => {
            lemma_framing(TAG_ACCEPTED@, from);
        },
        Control::Rejected { from } => {
            lemma_framing(TAG_REJECTED@, from);
        },
        Control::Ended { from } => {
            lemma_framing(TAG_ENDED@, from);
        },
        Control::Busy { from } => {
            lemma_framing(TAG_BUSY@, from);
        },
        Control::Encrypted { from, nonce_hex, ciphertext_hex } => {
            let tail = nonce_hex + ":"@ + ciphertext_hex;
            let args = from + ":"@ + tail;
            assert(control_text(m) =~= SYSTEM_PREFIX@ + TAG_ENCRYPTED@ + ":"@ + args);
            lemma_framing(TAG_ENCRYPTED@, args);
            lemma_split_joined(from, ':', tail);
            lemma_split_joined(nonce_hex, ':', ciphertext_hex);
        },
    }
}

} // verus!
