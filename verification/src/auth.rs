//! The credential gate: the dialogue of at most three attempts that turns a
//! new connection into an authenticated nickname.

use vstd::prelude::*;
use vstd::string::*;
use crate::text::{chars_of, lowercased, same_text, text_of, trim_bounds, trimmed};
use crate::users::{record_text, write_record, UserStore};

verus! {

/// The attempts that a connection has.
pub const MAX_ATTEMPTS: u8 = 3;

/// Where the dialogue stands. `T` is the type of its text: `String` in
/// running code, `Seq<char>` in contracts.
#[derive(Debug, Clone, PartialEq, Eq)]
pub enum GateState<T> {
    /// The nickname is asked for; `attempts` are left, at least one.
    AwaitNickname { attempts: u8 },
    /// The password is asked for; the nickname is not empty.
    AwaitPassword { attempts: u8, nickname: T },
    /// The nickname is unknown, and the user is asked whether to register it
    /// with the password.
    AwaitConsent { attempts: u8, nickname: T, password: T },
    /// The dialogue ended with an authenticated nickname.
    Authorized { nickname: T },
    /// The attempts are used up.
    Refused,
}

/// What one answer of the user led to.
#[derive(Debug, Clone, PartialEq, Eq)]
pub enum GateEvent<T> {
    /// The nickname was taken down.
    NicknameGiven,
    /// The nickname is empty; `attempts` are left.
    NicknameRefused { attempts: u8 },
    /// The password matches the stored one.
    Welcome { nickname: T },
    /// The store holds no such nickname.
    UnknownUser,
    /// The user agreed to register, but the store has come to hold the
    /// nickname since the offer; `attempts` are left.
    NicknameTaken { attempts: u8 },
    /// The user agreed to register; `record` is the line for the store's file.
    Registered { nickname: T, record: T },
    /// The user declined to register; `attempts` are left.
    Declined { attempts: u8 },
    /// The password does not match; `attempts` are left.
    WrongPassword { attempts: u8 },
    /// The dialogue had ended before.
    Closed,
}

impl View for GateState<String> {
    type V = GateState<Seq<char>>;

    open spec fn view(&self) -> GateState<Seq<char>> {
        match self {
            GateState::AwaitNickname { attempts } => GateState::AwaitNickname { attempts: *attempts },
            GateState::AwaitPassword { attempts, nickname } => GateState::AwaitPassword {
                attempts: *attempts,
                nickname: nickname@,
            },
            GateState::AwaitConsent { attempts, nickname, password } => GateState::AwaitConsent {
                attempts: *attempts,
                nickname: nickname@,
                password: password@,
            },
            GateState::Authorized { nickname } => GateState::Authorized { nickname: nickname@ },
            GateState::Refused => GateState::Refused,
        }
    }
}

impl View for GateEvent<String> {
    type V = GateEvent<Seq<char>>;

    open spec fn view(&self) -> GateEvent<Seq<char>> {
        match self {
            GateEvent::NicknameGiven => GateEvent::NicknameGiven,
            GateEvent::NicknameRefused { attempts } => GateEvent::NicknameRefused {
                attempts: *attempts,
            },
            GateEvent::NicknameTaken { attempts } => GateEvent::NicknameTaken { attempts: *attempts },
            GateEvent::Welcome { nickname } => GateEvent::Welcome { nickname: nickname@ },
            GateEvent::UnknownUser => GateEvent::UnknownUser,
            GateEvent::Registered { nickname, record } => GateEvent::Registered {
                nickname: nickname@,
                record: record@,
            },
            GateEvent::Declined { attempts } => GateEvent::Declined { attempts: *attempts },
            GateEvent::WrongPassword { attempts } => GateEvent::WrongPassword { attempts: *attempts },
            GateEvent::Closed => GateEvent::Closed,
        }
    }
}

/// Whether a text can be a nickname: any text but the empty one.
pub open spec fn usable_nickname(nickname: Seq<char>) -> bool {
    nickname.len() > 0
}

/// Whether the state is one that the dialogue can be in: a state that
/// waits for an answer has an attempt left, and no more than three, and a
/// nickname that was taken down is not empty.
pub open spec fn gate_wf(state: GateState<Seq<char>>) -> bool {
    match state {
        GateState::AwaitNickname { attempts } => 1 <= attempts <= MAX_ATTEMPTS,
        GateState::AwaitPassword { attempts, nickname } => 1 <= attempts <= MAX_ATTEMPTS
            && usable_nickname(nickname),
        GateState::AwaitConsent { attempts, nickname, .. } => 1 <= attempts <= MAX_ATTEMPTS
            && usable_nickname(nickname),
        GateState::Authorized { nickname } => usable_nickname(nickname),
        GateState::Refused => true,
    }
}

/// Whether an answer agrees to register: `yes` or `да`, in any case, white
/// space at either end not counted.
pub open spec fn agrees(answer: Seq<char>) -> bool {
    let a = lowercased(trimmed(answer));
    a == "да"@ || a == "yes"@
}

/// The state after a failed attempt that left `attempts`.
pub open spec fn after_failure(attempts: u8) -> GateState<Seq<char>> {
    if attempts == 0 {
        GateState::Refused
    } else {
        GateState::AwaitNickname { attempts }
    }
}

/// What an answer does to the dialogue in state `pre` over the store
/// `users`: the state and the store after it, and what happened. `text` is
/// the answer without the white space at either end, and `consent` tells
/// whether it is a yes.
///
/// Every text that is not empty is taken as the nickname. A known nickname
/// is authorized by its stored password and by no other. An unknown one is
/// offered registration with the password as it was given; the user who
/// agrees is registered, unless the store has come to hold the nickname
/// since the offer: a stored password is never replaced. Every other answer
/// is a failed attempt.
///
/// A nickname or a password may hold a `:`. The record of such a user has
/// more than one `:`, and is passed over as malformed when the store is next
/// built from its file: the registration then lasts as long as the store.
pub open spec fn gate_answer(
    pre: GateState<Seq<char>>,
    users: Map<Seq<char>, Seq<char>>,
    text: Seq<char>,
    consent: bool,
) -> (GateState<Seq<char>>, Map<Seq<char>, Seq<char>>, GateEvent<Seq<char>>) {
    match pre {
        GateState::AwaitNickname { attempts } => {
            let left = (attempts - 1) as u8;
            if usable_nickname(text) {
                (
                    GateState::AwaitPassword { attempts, nickname: text },
                    users,
                    GateEvent::NicknameGiven,
                )
            } else {
                (after_failure(left), users, GateEvent::NicknameRefused { attempts: left })
            }
        },
        GateState::AwaitPassword { attempts, nickname } => {
            let left = (attempts - 1) as u8;
            if !users.contains_key(nickname) {
                (
                    GateState::AwaitConsent { attempts, nickname, password: text },
                    users,
                    GateEvent::UnknownUser,
                )
            } else if users[nickname] == text {
                (GateState::Authorized { nickname }, users, GateEvent::Welcome { nickname })
            } else {
                (after_failure(left), users, GateEvent::WrongPassword { attempts: left })
            }
        },
        GateState::AwaitConsent { attempts, nickname, password } => {
            let left = (attempts - 1) as u8;
            if !consent {
                (after_failure(left), users, GateEvent::Declined { attempts: left })
            } else if users.contains_key(nickname) {
                (after_failure(left), users, GateEvent::NicknameTaken { attempts: left })
            } else {
                (
                    GateState::Authorized { nickname },
                    users.insert(nickname, password),
                    GateEvent::Registered { nickname, record: record_text(nickname, password) },
                )
            }
        },
        GateState::Authorized { .. } => (pre, users, GateEvent::Closed),
        GateState::Refused => (pre, users, GateEvent::Closed),
    }
}

/// What a line that the user typed does to the dialogue: what the line,
/// trimmed, does as an answer.
pub open spec fn gate_step(
    pre: GateState<Seq<char>>,
    users: Map<Seq<char>, Seq<char>>,
    line: Seq<char>,
) -> (GateState<Seq<char>>, Map<Seq<char>, Seq<char>>, GateEvent<Seq<char>>) {
    gate_answer(pre, users, trimmed(line), agrees(line))
}

/// Whether a text can be a nickname.
pub fn is_usable_nickname(nickname: &str) -> (r: bool)
    ensures
        r == usable_nickname(nickname@),
{
    !nickname.is_empty()
}

/// Whether the state is one that the dialogue can be in.
pub fn gate_is_valid(state: &GateState<String>) -> (r: bool)
    ensures
        r == gate_wf(state@),
{
    match state {
        GateState::AwaitNickname { attempts } => 1 <= *attempts && *attempts <= MAX_ATTEMPTS,
        GateState::AwaitPassword { attempts, nickname } => 1 <= *attempts && *attempts
            <= MAX_ATTEMPTS && is_usable_nickname(nickname.as_str()),
        GateState::AwaitConsent { attempts, nickname, .. } => 1 <= *attempts && *attempts
            <= MAX_ATTEMPTS && is_usable_nickname(nickname.as_str()),
        GateState::Authorized { nickname } => is_usable_nickname(nickname.as_str()),
        GateState::Refused => true,
    }
}

/// `line` without the white space at either end.
pub fn trim(line: &str) -> (r: String)
    ensures
        r@ == trimmed(line@),
{
    let chars = chars_of(line);
    assert(chars@.subrange(0, chars@.len() as int) =~= chars@);
    let (from, to) = trim_bounds(&chars, 0, chars.len());
    text_of(&chars, from, to)
}

/// Whether a trimmed answer, already in lowercase, is a yes.
pub fn is_yes(lowered: &str) -> (r: bool)
    ensures
        r == (lowered@ == "да"@ || lowered@ == "yes"@),
{
    same_text(lowered, "да") || same_text(lowered, "yes")
}

/// Whether an answer agrees to register.
pub fn consents(answer: &str) -> (r: bool)
    ensures
        r == agrees(answer@),
{
    is_yes(trim(answer).as_str().to_lowercase().as_str())
}

/// The state in which the dialogue begins.
pub fn open_gate() -> (r: GateState<String>)
    ensures
        r@ == (GateState::<Seq<char>>::AwaitNickname { attempts: MAX_ATTEMPTS }),
        gate_wf(r@),
{
    GateState::AwaitNickname { attempts: MAX_ATTEMPTS }
}

/// The state after a failed attempt that left `attempts`.
fn fail(attempts: u8) -> (r: GateState<String>)
    ensures
        r@ == after_failure(attempts),
{
    if attempts == 0 {
        GateState::Refused
    } else {
        GateState::AwaitNickname { attempts }
    }
}

/// Takes one answer of the user, already trimmed: the nickname, the
/// password, or, in `consent`, the answer to the offer of registration, as
/// the state calls for. A user who agrees to register a nickname that the
/// store does not hold is added to the store; nothing else changes the
/// store, and no stored password is ever replaced. An authorized nickname is
/// never empty.
pub fn answer_gate(state: GateState<String>, users: &mut UserStore, text: String, consent: bool) -> (r:
    (GateState<String>, GateEvent<String>))
    requires
        gate_wf(state@),
    ensures
        gate_wf(r.0@),
        (r.0@, final(users)@, r.1@) == gate_answer(state@, old(users)@, text@, consent),
        forall|n: Seq<char>| #[trigger]
            old(users)@.contains_key(n) ==> final(users)@.contains_key(n) && final(users)@[n] == old(
                users,
            )@[n],
        r.0@ matches GateState::Authorized { nickname } ==> nickname.len() > 0,
{
    match state {
        GateState::AwaitNickname { attempts } => {
            if is_usable_nickname(text.as_str()) {
                (GateState::AwaitPassword { attempts, nickname: text }, GateEvent::NicknameGiven)
            } else {
                (fail(attempts - 1), GateEvent::NicknameRefused { attempts: attempts - 1 })
            }
        },
        GateState::AwaitPassword { attempts, nickname } => {
            match users.get(nickname.as_str()) {
                None => (
                    GateState::AwaitConsent { attempts, nickname, password: text },
                    GateEvent::UnknownUser,
                ),
                Some(stored) => {
                    if same_text(stored.as_str(), text.as_str()) {
                        (
                            GateState::Authorized { nickname: nickname.clone() },
                            GateEvent::Welcome { nickname },
                        )
                    } else {
                        (fail(attempts - 1), GateEvent::WrongPassword { attempts: attempts - 1 })
                    }
                },
            }
        },
        GateState::AwaitConsent { attempts, nickname, password } => {
            if !consent {
                (fail(attempts - 1), GateEvent::Declined { attempts: attempts - 1 })
            } else if users.contains(nickname.as_str()) {
                (fail(attempts - 1), GateEvent::NicknameTaken { attempts: attempts - 1 })
            } else {
                let record = write_record(nickname.as_str(), password.as_str());
                users.insert(nickname.clone(), password);
                (
                    GateState::Authorized { nickname: nickname.clone() },
                    GateEvent::Registered { nickname, record },
                )
            }
        },
        GateState::Authorized { nickname } => (GateState::Authorized { nickname }, GateEvent::Closed),
        GateState::Refused => (GateState::Refused, GateEvent::Closed),
    }
}

/// Takes one line that the user typed: trims it, and takes it as the
/// answer that the state calls for.
pub fn authorize_user(state: GateState<String>, users: &mut UserStore, line: &str) -> (r: (
    GateState<String>,
    GateEvent<String>,
))
    requires
        gate_wf(state@),
    ensures
        gate_wf(r.0@),
        (r.0@, final(users)@, r.1@) == gate_step(state@, old(users)@, line@),
        forall|n: Seq<char>| #[trigger]
            old(users)@.contains_key(n) ==> final(users)@.contains_key(n) && final(users)@[n] == old(
                users,
            )@[n],
        r.0@ matches GateState::Authorized { nickname } ==> nickname.len() > 0,
{
    answer_gate(state, users, trim(line), consents(line))
}

/// Whether an event is a failed attempt.
pub open spec fn is_failure(event: GateEvent<Seq<char>>) -> bool {
    ||| event is NicknameRefused
    ||| event is WrongPassword
    ||| event is Declined
    ||| event is NicknameTaken
}

/// The attempts that a state has left; none once the dialogue has ended.
pub open spec fn attempts_left(state: GateState<Seq<char>>) -> int {
    match state {
        GateState::AwaitNickname { attempts } => attempts as int,
        GateState::AwaitPassword { attempts, .. } => attempts as int,
        GateState::AwaitConsent { attempts, .. } => attempts as int,
        _ => 0,
    }
}

/// The attempts are a budget of three that only shrinks: no answer adds an
/// attempt, each failed answer takes exactly one, and the dialogue is refused
/// exactly when a failed answer takes the last.
pub proof fn lemma_attempts_only_shrink(
    pre: GateState<Seq<char>>,
    users: Map<Seq<char>, Seq<char>>,
    line: Seq<char>,
)
    requires
        gate_wf(pre),
    ensures
        ({
            let (post, _, event) = gate_step(pre, users, line);
            &&& gate_wf(post)
            &&& attempts_left(post) <= attempts_left(pre) <= MAX_ATTEMPTS
            &&& is_failure(event) ==> attempts_left(post) == attempts_left(pre) - 1
            &&& post is Refused && !(pre is Refused) <==> is_failure(event) && attempts_left(pre)
                == 1
        }),
{
}

/// The store only grows, and by one user at a time: every nickname keeps
/// the password that was stored for it, and the one answer that changes the
/// store is a yes to the offer of registration, which adds a nickname that
/// the store did not hold.
pub proof fn lemma_stored_passwords_stay(
    pre: GateState<Seq<char>>,
    users: Map<Seq<char>, Seq<char>>,
    line: Seq<char>,
)
    ensures
        ({
            let (post, after, event) = gate_step(pre, users, line);
            &&& forall|n: Seq<char>| #[trigger]
                users.contains_key(n) ==> after.contains_key(n) && after[n] == users[n]
            &&& !(event is Registered) ==> after == users
            &&& event is Registered ==> (pre matches GateState::AwaitConsent {
                nickname,
                password,
                ..
            } && !users.contains_key(nickname) && after == users.insert(nickname, password) && post
                == (GateState::Authorized { nickname }))
        }),
{
}

/// Every line that is not blank is taken as the nickname, and no empty
/// nickname is let in: a blank line is refused where the nickname is asked
/// for, so that no empty nickname is offered registration, registered or
/// authorized. An unknown nickname is offered registration whatever the
/// password holds.
pub proof fn lemma_only_usable_nicknames_enter(
    pre: GateState<Seq<char>>,
    users: Map<Seq<char>, Seq<char>>,
    line: Seq<char>,
)
    requires
        gate_wf(pre),
    ensures
        ({
            let (post, after, event) = gate_step(pre, users, line);
            &&& match pre {
                GateState::AwaitNickname { attempts } => if trimmed(line).len() > 0 {
                    post == (GateState::AwaitPassword { attempts, nickname: trimmed(line) })
                } else {
                    event is NicknameRefused && !(post is AwaitPassword)
                },
                GateState::AwaitPassword { attempts, nickname } => !users.contains_key(nickname)
                    ==> post == (GateState::AwaitConsent {
                    attempts,
                    nickname,
                    password: trimmed(line),
                }),
                _ => true,
            }
            &&& post matches GateState::AwaitConsent { nickname, .. } ==> nickname.len() > 0
            &&& post matches GateState::Authorized { nickname } ==> nickname.len() > 0
            &&& event matches GateEvent::Registered { nickname, .. } ==> nickname.len() > 0
        }),
{
}

/// A nickname is authorized only by the password that the store holds for
/// it: by the stored one where the store held the nickname, by the one that
/// was registered where it did not.
pub proof fn lemma_authorized_by_the_stored_password(
    pre: GateState<Seq<char>>,
    users: Map<Seq<char>, Seq<char>>,
    line: Seq<char>,
)
    ensures
        ({
            let (post, after, event) = gate_step(pre, users, line);
            match post {
                GateState::Authorized { nickname } if !(pre is Authorized) => {
                    &&& after.contains_key(nickname)
                    &&& pre is AwaitPassword ==> after == users && users[nickname] == trimmed(line)
                    &&& pre matches GateState::AwaitConsent { password, .. } ==> !users.contains_key(
                        nickname,
                    ) && after[nickname] == password
                },
                _ => true,
            }
        }),
{
}

} // verus!
