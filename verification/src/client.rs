//! The state of one session: public chat, or one of the three stages of a
//! private chat with one other user.

use vstd::prelude::*;
use vstd::string::*;
use crate::crypto::KEY_LEN;

verus! {

/// The state of one session.
#[derive(Debug, PartialEq, Eq)]
pub enum ClientState {
    /// No private chat is under way.
    PublicChat,
    /// This session asked `target_nick` for a private chat and sent it `sent_key`.
    WaitingForPrivateChatResponse { target_nick: String, sent_key: Vec<u8> },
    /// `from_nick` asked this session for a private chat and offered `shared_key`.
    HasPendingPrivateChatRequest { from_nick: String, shared_key: Vec<u8> },
    /// An encrypted chat with `with_nick` under `shared_key`.
    InPrivateChat { with_nick: String, shared_key: Vec<u8> },
}

/// What a `ClientState` holds, as mathematical values.
pub enum StateView {
    PublicChat,
    Waiting { target: Seq<char>, key: Seq<u8> },
    Pending { from: Seq<char>, key: Seq<u8> },
    Private { partner: Seq<char>, key: Seq<u8> },
}

impl StateView {
    /// Every key that the state holds has 32 bytes.
    pub open spec fn wf(self) -> bool {
        match self {
            StateView::PublicChat => true,
            StateView::Waiting { key, .. } => key.len() == KEY_LEN,
            StateView::Pending { key, .. } => key.len() == KEY_LEN,
            StateView::Private { key, .. } => key.len() == KEY_LEN,
        }
    }
}

impl View for ClientState {
    type V = StateView;

    open spec fn view(&self) -> StateView {
        match self {
            ClientState::PublicChat => StateView::PublicChat,
            ClientState::WaitingForPrivateChatResponse { target_nick, sent_key } => StateView::Waiting {
                target: target_nick@,
                key: sent_key@,
            },
            ClientState::HasPendingPrivateChatRequest { from_nick, shared_key } => StateView::Pending {
                from: from_nick@,
                key: shared_key@,
            },
            ClientState::InPrivateChat { with_nick, shared_key } => StateView::Private {
                partner: with_nick@,
                key: shared_key@,
            },
        }
    }
}

impl Clone for ClientState {
    fn clone(&self) -> (r: Self)
        ensures
            r@ == self@,
    {
        match self {
            ClientState::PublicChat => ClientState::PublicChat,
            ClientState::WaitingForPrivateChatResponse { target_nick, sent_key } => {
                ClientState::WaitingForPrivateChatResponse {
                    target_nick: target_nick.clone(),
                    sent_key: sent_key.clone(),
                }
            },
            ClientState::HasPendingPrivateChatRequest { from_nick, shared_key } => {
                ClientState::HasPendingPrivateChatRequest {
                    from_nick: from_nick.clone(),
                    shared_key: shared_key.clone(),
                }
            },
            ClientState::InPrivateChat { with_nick, shared_key } => ClientState::InPrivateChat {
                with_nick: with_nick.clone(),
                shared_key: shared_key.clone(),
            },
        }
    }
}

impl ClientState {
    /// Every key that the state holds has 32 bytes.
    pub open spec fn wf(&self) -> bool {
        self@.wf()
    }

    /// The state of a session that has just begun.
    pub fn new() -> (r: ClientState)
        ensures
            r@ == StateView::PublicChat,
            r.wf(),
    {
        ClientState::PublicChat
    }

    /// Whether every key that the state holds has 32 bytes.
    pub fn is_valid(&self) -> (r: bool)
        ensures
            r == self.wf(),
    {
        match self {
            ClientState::PublicChat => true,
            ClientState::WaitingForPrivateChatResponse { sent_key, .. } => sent_key.len() == KEY_LEN,
            ClientState::HasPendingPrivateChatRequest { shared_key, .. } => shared_key.len()
                == KEY_LEN,
            ClientState::InPrivateChat { shared_key, .. } => shared_key.len() == KEY_LEN,
        }
    }

    /// Whether a private chat is active.
    pub fn in_private_chat(&self) -> (r: bool)
        ensures
            r == (self@ is Private),
    {
        match self {
            ClientState::InPrivateChat { .. } => true,
            _ => false,
        }
    }

    /// The partner of the active private chat, if there is one.
    pub fn partner(&self) -> (r: Option<String>)
        ensures
            match self@ {
                StateView::Private { partner, .. } => r matches Some(p) && p@ == partner,
                _ => r is None,
            },
    {
        match self {
            ClientState::InPrivateChat { with_nick, .. } => Some(with_nick.clone()),
            _ => None,
        }
    }
}

} // verus!
