//! What a step of a session ends in: one outcome for each line that the user
//! typed and for each string that arrived on the session's queue.

use vstd::prelude::*;
use vstd::string::*;
use crate::crypto::DecryptError;
use crate::message::Sent;

verus! {

/// The outcome of one line of user input. `T` is the type of its text:
/// `String` in running code, `Seq<char>` in contracts.
#[derive(Debug, Clone, PartialEq, Eq)]
pub enum LineOutcome<T> {
    /// The line was blank.
    Ignored,
    /// The user left the private chat with `partner`.
    LeftPrivateChat { partner: T },
    /// The user asked for the list of commands.
    HelpShown,
    /// The user asked who is online, and nobody else is.
    NobodyOnline,
    /// The user asked who is online; `online` joins the other nicknames.
    Roster { online: T },
    /// `/pm` without a nickname.
    PmMissingTarget,
    /// `/pm` with the user's own nickname.
    PmSelf,
    /// The request for a private chat went out to `target`.
    PmRequested { target: T },
    /// The request could not reach `target`.
    PmUnreachable { target: T },
    /// `/pm` while a private chat is asked for, offered or active.
    PmNotInPublic,
    /// The random source gave no key.
    KeyUnavailable,
    /// The private chat with `partner` has begun.
    Accepted { partner: T },
    /// The acceptance could not reach `partner`; the session is back in public chat.
    AcceptUndelivered { partner: T },
    /// `/accept` without a pending request.
    NothingToAccept,
    /// The request of `partner` was declined, and `partner` was told.
    Rejected { partner: T },
    /// The request of `partner` was declined; the notice could not reach `partner`.
    RejectUndelivered { partner: T },
    /// `/reject` without a pending request.
    NothingToReject,
    /// A command that the service does not know.
    UnknownCommand { name: T },
    /// An encrypted message went out to `partner`.
    PrivateSent { partner: T },
    /// An encrypted message could not reach `partner`; the session is back in public chat.
    PrivateUndelivered { partner: T },
    /// The message could not be encrypted.
    EncryptionFailed,
    /// A direct message to the user's own nickname.
    DirectToSelf,
    /// A direct message went out to `recipient`.
    DirectSent { recipient: T },
    /// A direct message could not reach `recipient`.
    DirectUndelivered { recipient: T },
    /// The text went out to everyone else.
    BroadcastSent { text: T },
    /// Plain text while the answer of `target` is awaited.
    AwaitingResponse { target: T },
    /// Plain text while the request of `from` is unanswered.
    RequestPending { from: T },
}

/// The outcome of one string from the session's queue.
#[derive(Debug, Clone, PartialEq, Eq)]
pub enum DeliveryOutcome<T> {
    /// Display text, to be shown as it is.
    Displayed { text: T },
    /// A broadcast line, hidden during a private chat.
    Suppressed,
    /// `from` asks for a private chat.
    RequestReceived { from: T },
    /// `from` asked while this session was not in public chat, and was told so.
    RequestWhileBusy { from: T },
    /// The request of `from` holds no 32-byte key in hexadecimal.
    RequestBadKey { from: T },
    /// A request without its two fields.
    RequestMalformed,
    /// `peer` accepted; the private chat has begun.
    AcceptedByPeer { peer: T },
    /// An acceptance from `peer`, whom this session is not waiting for.
    StrayAccept { peer: T },
    /// `peer` declined; the session is back in public chat.
    RejectedByPeer { peer: T },
    /// A refusal from `peer`, whom this session is not waiting for.
    StrayReject { peer: T },
    /// `peer` ended the private chat; the session is back in public chat.
    EndedByPeer { peer: T },
    /// An end notice from `peer`, with whom this session has no private chat.
    StrayEnd { peer: T },
    /// `peer` is busy; the session is back in public chat.
    PeerBusy { peer: T },
    /// A busy notice from `peer`, whom this session is not waiting for.
    StrayBusy { peer: T },
    /// A private message of `from`, decrypted.
    PrivateReceived { from: T, text: T },
    /// A private message of `from` that could not be read.
    PrivateUnreadable { from: T, reason: DecryptError },
    /// An encrypted message of `from`, with whom this session has no private chat.
    PrivateFromStranger { from: T },
    /// An encrypted message without its three fields.
    PrivateMalformed,
    /// A control message with an unknown tag.
    UnknownControl { tag: T },
}

/// What one line of user input led to.
#[derive(Debug, Clone, PartialEq, Eq)]
pub struct LineReaction<T> {
    pub outcome: LineOutcome<T>,
    pub sent: Sent<T>,
}

/// What one queued string led to.
#[derive(Debug, Clone, PartialEq, Eq)]
pub struct DeliveryReaction<T> {
    pub outcome: DeliveryOutcome<T>,
    pub sent: Sent<T>,
}

impl View for LineOutcome<String> {
    type V = LineOutcome<Seq<char>>;

    open spec fn view(&self) -> LineOutcome<Seq<char>> {
        match self {
            LineOutcome::Ignored => LineOutcome::Ignored,
            LineOutcome::LeftPrivateChat { partner } => LineOutcome::LeftPrivateChat {
                partner: partner@,
            },
            LineOutcome::HelpShown => LineOutcome::HelpShown,
            LineOutcome::NobodyOnline => LineOutcome::NobodyOnline,
            LineOutcome::Roster { online } => LineOutcome::Roster { online: online@ },
            LineOutcome::PmMissingTarget => LineOutcome::PmMissingTarget,
            LineOutcome::PmSelf => LineOutcome::PmSelf,
            LineOutcome::PmRequested { target } => LineOutcome::PmRequested { target: target@ },
            LineOutcome::PmUnreachable { target } => LineOutcome::PmUnreachable { target: target@ },
            LineOutcome::PmNotInPublic => LineOutcome::PmNotInPublic,
            LineOutcome::KeyUnavailable => LineOutcome::KeyUnavailable,
            LineOutcome::Accepted { partner } => LineOutcome::Accepted { partner: partner@ },
            LineOutcome::AcceptUndelivered { partner } => LineOutcome::AcceptUndelivered {
                partner: partner@,
            },
            LineOutcome::NothingToAccept => LineOutcome::NothingToAccept,
            LineOutcome::Rejected { partner } => LineOutcome::Rejected { partner: partner@ },
            LineOutcome::RejectUndelivered { partner } => LineOutcome::RejectUndelivered {
                partner: partner@,
            },
            LineOutcome::NothingToReject => LineOutcome::NothingToReject,
            LineOutcome::UnknownCommand { name } => LineOutcome::UnknownCommand { name: name@ },
            LineOutcome::PrivateSent { partner } => LineOutcome::PrivateSent { partner: partner@ },
            LineOutcome::PrivateUndelivered { partner } => LineOutcome::PrivateUndelivered {
                partner: partner@,
            },
            LineOutcome::EncryptionFailed => LineOutcome::EncryptionFailed,
            LineOutcome::DirectToSelf => LineOutcome::DirectToSelf,
            LineOutcome::DirectSent { recipient } => LineOutcome::DirectSent {
                recipient: recipient@,
            },
            LineOutcome::DirectUndelivered { recipient } => LineOutcome::DirectUndelivered {
                recipient: recipient@,
            },
            LineOutcome::BroadcastSent { text } => LineOutcome::BroadcastSent { text: text@ },
            LineOutcome::AwaitingResponse { target } => LineOutcome::AwaitingResponse {
                target: target@,
            },
            LineOutcome::RequestPending { from } => LineOutcome::RequestPending { from: from@ },
        }
    }
}

impl View for DeliveryOutcome<String> {
    type V = DeliveryOutcome<Seq<char>>;

    open spec fn view(&self) -> DeliveryOutcome<Seq<char>> {
        match self {
            DeliveryOutcome::Displayed { text } => DeliveryOutcome::Displayed { text: text@ },
            DeliveryOutcome::Suppressed => DeliveryOutcome::Suppressed,
            DeliveryOutcome::RequestReceived { from } => DeliveryOutcome::RequestReceived {
                from: from@,
            },
            DeliveryOutcome::RequestWhileBusy { from } => DeliveryOutcome::RequestWhileBusy {
                from: from@,
            },
            DeliveryOutcome::RequestBadKey { from } => DeliveryOutcome::RequestBadKey { from: from@ },
            DeliveryOutcome::RequestMalformed => DeliveryOutcome::RequestMalformed,
            DeliveryOutcome::AcceptedByPeer { peer } => DeliveryOutcome::AcceptedByPeer {
                peer: peer@,
            },
            DeliveryOutcome::StrayAccept { peer } => DeliveryOutcome::StrayAccept { peer: peer@ },
            DeliveryOutcome::RejectedByPeer { peer } => DeliveryOutcome::RejectedByPeer {
                peer: peer@,
            },
            DeliveryOutcome::StrayReject { peer } => DeliveryOutcome::StrayReject { peer: peer@ },
            DeliveryOutcome::EndedByPeer { peer } => DeliveryOutcome::EndedByPeer { peer: peer@ },
            DeliveryOutcome::StrayEnd { peer } => DeliveryOutcome::StrayEnd { peer: peer@ },
            DeliveryOutcome::PeerBusy { peer } => DeliveryOutcome::PeerBusy { peer: peer@ },
            DeliveryOutcome::StrayBusy { peer } => DeliveryOutcome::StrayBusy { peer: peer@ },
            DeliveryOutcome::PrivateReceived { from, text } => DeliveryOutcome::PrivateReceived {
                from: from@,
                text: text@,
            },
            DeliveryOutcome::PrivateUnreadable { from, reason } => DeliveryOutcome::PrivateUnreadable {
                from: from@,
                reason: *reason,
            },
            DeliveryOutcome::PrivateFromStranger { from } => DeliveryOutcome::PrivateFromStranger {
                from: from@,
            },
            DeliveryOutcome::PrivateMalformed => DeliveryOutcome::PrivateMalformed,
            DeliveryOutcome::UnknownControl { tag } => DeliveryOutcome::UnknownControl { tag: tag@ },
        }
    }
}

impl View for LineReaction<String> {
    type V = LineReaction<Seq<char>>;

    open spec fn view(&self) -> LineReaction<Seq<char>> {
        LineReaction { outcome: self.outcome@, sent: self.sent@ }
    }
}

impl View for DeliveryReaction<String> {
    type V = DeliveryReaction<Seq<char>>;

    open spec fn view(&self) -> DeliveryReaction<Seq<char>> {
        DeliveryReaction { outcome: self.outcome@, sent: self.sent@ }
    }
}

} // verus!
