//! The words of the service: what a session shows its user after each step.

use vstd::prelude::*;
use vstd::string::*;
use crate::auth::{GateEvent, GateState};
use crate::crypto::DecryptError;
use crate::labels::{paint_cyan, painted, Labels, LabelsView, ESCAPE};
use crate::outcome::{DeliveryOutcome, LineOutcome};

verus! {

/// The end of every notice.
pub const LINE_END: &'static str = "\n";

pub const LEFT_PRIVATE_CHAT: &'static str =
    "Вы вышли из личного чата. Возвращение в общий чат.\n";

pub const HELP: &'static str = "\
    Доступные команды:\n\
    \t/help - Показать это сообщение\n\
    \t/list - Показать список подключённых пользователей\n\
    \t/pm <ник> - Предложить личный чат пользователю <ник>\n\
    \t/accept - Принять запрос на личный чат\n\
    \t/reject - Отклонить запрос на личный чат\n\
    \t'exit' - (в приватном чате) Выйти из приватного чата\n\
    \tлюбое_сообщение - Отправить сообщение всем в публичный чат\n";

pub const NOBODY_ONLINE: &'static str = "Пока никто больше не подключён.\n";

pub const ROSTER_HEAD: &'static str = "Сейчас в сети: ";

pub const PM_MISSING_TARGET: &'static str =
    "Укажите ник пользователя для личного чата: /pm <ник>\n";

pub const PM_SELF: &'static str = "Вы не можете начать личный чат с самим собой.\n";

pub const PM_REQUESTED_HEAD: &'static str = "Запрос на личный чат отправлен пользователю '";

pub const PM_REQUESTED_TAIL: &'static str = "'. Ожидание ответа...\n";

pub const PM_UNREACHABLE_HEAD: &'static str = "Пользователь '";

pub const PM_UNREACHABLE_TAIL: &'static str = "' не найден или не в сети.\n";

pub const PM_NOT_IN_PUBLIC: &'static str =
    "Вы не можете начать новый личный чат, находясь не в общем чате.\n";

pub const KEY_UNAVAILABLE: &'static str =
    "Не удалось создать ключ для личного чата. Попробуйте снова.\n";

pub const ACCEPTED_HEAD: &'static str = "Вы начали личный чат с '";

pub const ACCEPTED_TAIL: &'static str = "'. Напишите 'exit' для возврата в общий чат.\n";

pub const ACCEPT_UNDELIVERED_HEAD: &'static str = "Не удалось уведомить '";

pub const ACCEPT_UNDELIVERED_TAIL: &'static str =
    "', возможно, он отключился. Вы возвращены в общий чат.\n";

pub const NOTHING_TO_ACCEPT: &'static str = "Нет активных запросов на личный чат для принятия.\n";

pub const REJECTED_HEAD: &'static str = "Вы отклонили запрос на личный чат от '";

pub const REJECTED_TAIL: &'static str = "'.\n";

pub const REJECT_UNDELIVERED_HEAD: &'static str = "Не удалось уведомить '";

pub const REJECT_UNDELIVERED_TAIL: &'static str = "' об отклонении, возможно, он отключился.\n";

pub const NOTHING_TO_REJECT: &'static str =
    "Нет активных запросов на личный чат для отклонения.\n";

pub const UNKNOWN_COMMAND_HEAD: &'static str = "Неизвестная команда: '";

pub const UNKNOWN_COMMAND_TAIL: &'static str = "'. Введите /help.\n";

pub const PRIVATE_UNDELIVERED_HEAD: &'static str = "Не удалось отправить сообщение '";

pub const PRIVATE_UNDELIVERED_TAIL: &'static str =
    "'. Возможно, пользователь отключился. Вы возвращены в общий чат.\n";

pub const ENCRYPTION_FAILED: &'static str = "Ошибка шифрования сообщения. Попробуйте снова.\n";

pub const DIRECT_TO_SELF: &'static str = "Вы не можете отправить ЛС самому себе.\n";

pub const DIRECT_UNDELIVERED_HEAD: &'static str = " Пользователь '";

pub const DIRECT_UNDELIVERED_TAIL: &'static str = "' не найден или не в сети.\n";

pub const AWAITING_RESPONSE_HEAD: &'static str = "Вы ожидаете ответа от '";

pub const AWAITING_RESPONSE_TAIL: &'static str =
    "'. Чтобы отправить сообщение в общий чат, сначала отмените запрос (пока не реализовано) или дождитесь ответа.\n";

pub const REQUEST_PENDING_HEAD: &'static str = "У вас есть запрос на личный чат от '";

pub const REQUEST_PENDING_TAIL: &'static str = "'. Введите /accept или /reject.\n";

pub const REQUEST_RECEIVED_HEAD: &'static str = "Пользователь '";

pub const REQUEST_RECEIVED_TAIL: &'static str =
    "' хочет начать с вами личный чат. Введите /accept или /reject.\n";

pub const REQUEST_BAD_KEY: &'static str =
    "Получен некорректный запрос на приватный чат (ошибка ключа).\n";

pub const REQUEST_MALFORMED: &'static str = "Получен некорректный запрос на приватный чат.\n";

pub const ACCEPTED_BY_PEER_HEAD: &'static str = " Пользователь '";

pub const ACCEPTED_BY_PEER_TAIL: &'static str =
    "' принял ваш запрос на личный чат. Вы теперь в приватном чате.\n";

pub const STRAY_ACCEPT_HEAD: &'static str = "Пользователь '";

pub const STRAY_ACCEPT_TAIL: &'static str =
    "' принял ваш запрос, но вы не находитесь в ожидающем состоянии. Возможно, чат уже начат или отменен.\n";

pub const REJECTED_BY_PEER_HEAD: &'static str = " Пользователь '";

pub const REJECTED_BY_PEER_TAIL: &'static str =
    "' отклонил ваш запрос на личный чат. Вы возвращены в общий чат.\n";

pub const STRAY_REJECT_HEAD: &'static str = "Пользователь '";

pub const STRAY_REJECT_TAIL: &'static str =
    "' отклонил ваш запрос, но вы не находитесь в ожидающем состоянии. Возможно, чат уже начат или отменен.\n";

pub const ENDED_BY_PEER_HEAD: &'static str = " Пользователь '";

pub const ENDED_BY_PEER_TAIL: &'static str =
    "' вышел из личного чата. Вы возвращены в общий чат.\n";

pub const PEER_BUSY_HEAD: &'static str = " Пользователь '";

pub const PEER_BUSY_TAIL: &'static str =
    "' занят или уже в другом приватном чате. Вы возвращены в общий чат.\n";

pub const PRIVATE_RECEIVED_HEAD: &'static str = "[ЛС от ";

pub const PRIVATE_RECEIVED_MIDDLE: &'static str = "]: ";

pub const UNREADABLE_NONCE_NOT_HEX: &'static str =
    "Получено некорректное зашифрованное сообщение (ошибка hex-декодирования nonce).\n";

pub const UNREADABLE_NONCE_LENGTH: &'static str =
    "Получено некорректное зашифрованное сообщение (неверная длина nonce).\n";

pub const UNREADABLE_CIPHERTEXT_NOT_HEX: &'static str =
    "Получено некорректное зашифрованное сообщение (ошибка hex-декодирования).\n";

pub const UNREADABLE_AUTHENTICATION: &'static str =
    "Ошибка дешифрования сообщения. Возможно, ключ неверный.\n";

pub const UNREADABLE_NOT_TEXT: &'static str =
    "Получено некорректное UTF-8 сообщение (дешифровка).\n";

pub const PRIVATE_FROM_STRANGER_HEAD: &'static str = "Получено зашифрованное сообщение от '";

pub const PRIVATE_FROM_STRANGER_TAIL: &'static str =
    "', но вы не находитесь в приватном чате с ним.\n";

pub const PRIVATE_MALFORMED: &'static str = "Получено некорректное зашифрованное сообщение.\n";

pub const ASK_NICKNAME: &'static str = "Введите никнейм:\n";

pub const ASK_PASSWORD: &'static str = "Введите пароль:\n";

pub const ATTEMPTS_USED_UP: &'static str = "Превышено количество попыток. Отключение.\n";

pub const NICKNAME_REFUSED: &'static str = "Никнейм не может быть пустым. Попробуйте снова.\n";

pub const WELCOME: &'static str = "Авторизация успешна!\n";

pub const OFFER_REGISTRATION: &'static str =
    "Пользователь не найден. Хотите зарегистрироваться? (да/нет):\n";

pub const NICKNAME_REGISTERED: &'static str =
    "Этот никнейм уже зарегистрирован. Попробуйте снова.\n";

pub const REGISTERED: &'static str = "Регистрация успешна! Вы авторизованы.\n";

pub const TRY_AGAIN: &'static str = "Попробуйте снова.\n";

pub const WRONG_PASSWORD: &'static str = "Неверный пароль. Попробуйте снова.\n";

pub const GREETING: &'static str = "Добро пожаловать в чат! Введите /help для списка команд.\n";

pub const NICKNAME_TAKEN: &'static str = "Пользователь с таким ником уже в сети. Отключение.\n";

/// What the user sees after a line of input: nothing after a blank line and
/// after a message that went out, else one notice.
pub open spec fn line_notice_text(outcome: LineOutcome<Seq<char>>, labels: LabelsView) -> Option<
    Seq<char>,
> {
    match outcome {
        LineOutcome::Ignored => None,
        LineOutcome::LeftPrivateChat { .. } => Some(LEFT_PRIVATE_CHAT@),
        LineOutcome::HelpShown => Some(HELP@),
        LineOutcome::NobodyOnline => Some(NOBODY_ONLINE@),
        LineOutcome::Roster { online } => Some(ROSTER_HEAD@ + online + LINE_END@),
        LineOutcome::PmMissingTarget => Some(PM_MISSING_TARGET@),
        LineOutcome::PmSelf => Some(PM_SELF@),
        LineOutcome::PmRequested { target } => Some(
            PM_REQUESTED_HEAD@ + target + PM_REQUESTED_TAIL@,
        ),
        LineOutcome::PmUnreachable { target } => Some(
            PM_UNREACHABLE_HEAD@ + target + PM_UNREACHABLE_TAIL@,
        ),
        LineOutcome::PmNotInPublic => Some(PM_NOT_IN_PUBLIC@),
        LineOutcome::KeyUnavailable => Some(KEY_UNAVAILABLE@),
        LineOutcome::Accepted { partner } => Some(ACCEPTED_HEAD@ + partner + ACCEPTED_TAIL@),
        LineOutcome::AcceptUndelivered { partner } => Some(
            ACCEPT_UNDELIVERED_HEAD@ + partner + ACCEPT_UNDELIVERED_TAIL@,
        ),
        LineOutcome::NothingToAccept => Some(NOTHING_TO_ACCEPT@),
        LineOutcome::Rejected { partner } => Some(REJECTED_HEAD@ + partner + REJECTED_TAIL@),
        LineOutcome::RejectUndelivered { partner } => Some(
            REJECT_UNDELIVERED_HEAD@ + partner + REJECT_UNDELIVERED_TAIL@,
        ),
        LineOutcome::NothingToReject => Some(NOTHING_TO_REJECT@),
        LineOutcome::UnknownCommand { name } => Some(
            UNKNOWN_COMMAND_HEAD@ + name + UNKNOWN_COMMAND_TAIL@,
        ),
        LineOutcome::PrivateSent { .. } => None,
        LineOutcome::PrivateUndelivered { partner } => Some(
            PRIVATE_UNDELIVERED_HEAD@ + partner + PRIVATE_UNDELIVERED_TAIL@,
        ),
        LineOutcome::EncryptionFailed => Some(ENCRYPTION_FAILED@),
        LineOutcome::DirectToSelf => Some(DIRECT_TO_SELF@),
        LineOutcome::DirectSent { .. } => None,
        LineOutcome::DirectUndelivered { recipient } => Some(
            labels.error + DIRECT_UNDELIVERED_HEAD@ + recipient + DIRECT_UNDELIVERED_TAIL@,
        ),
        LineOutcome::BroadcastSent { .. } => None,
        LineOutcome::AwaitingResponse { target } => Some(
            AWAITING_RESPONSE_HEAD@ + target + AWAITING_RESPONSE_TAIL@,
        ),
        LineOutcome::RequestPending { from } => Some(
            REQUEST_PENDING_HEAD@ + from + REQUEST_PENDING_TAIL@,
        ),
    }
}

/// What the user sees after a string from the queue: display text as it
/// is, nothing for a hidden broadcast and for an event that only the log
/// records, else one notice. `shown` is the name of the sender of a private
/// message as the terminal shows it.
pub open spec fn delivery_notice_text(
    outcome: DeliveryOutcome<Seq<char>>,
    labels: LabelsView,
    shown: Seq<char>,
) -> Option<Seq<char>> {
    match outcome {
        DeliveryOutcome::Displayed { text } => Some(text),
        DeliveryOutcome::Suppressed => None,
        DeliveryOutcome::RequestReceived { from } => Some(
            REQUEST_RECEIVED_HEAD@ + from + REQUEST_RECEIVED_TAIL@,
        ),
        DeliveryOutcome::RequestWhileBusy { .. } => None,
        DeliveryOutcome::RequestBadKey { .. } => Some(REQUEST_BAD_KEY@),
        DeliveryOutcome::RequestMalformed => Some(REQUEST_MALFORMED@),
        DeliveryOutcome::AcceptedByPeer { peer } => Some(
            labels.info + ACCEPTED_BY_PEER_HEAD@ + peer + ACCEPTED_BY_PEER_TAIL@,
        ),
        DeliveryOutcome::StrayAccept { peer } => Some(
            STRAY_ACCEPT_HEAD@ + peer + STRAY_ACCEPT_TAIL@,
        ),
        DeliveryOutcome::RejectedByPeer { peer } => Some(
            labels.info + REJECTED_BY_PEER_HEAD@ + peer + REJECTED_BY_PEER_TAIL@,
        ),
        DeliveryOutcome::StrayReject { peer } => Some(
            STRAY_REJECT_HEAD@ + peer + STRAY_REJECT_TAIL@,
        ),
        DeliveryOutcome::EndedByPeer { peer } => Some(
            labels.info + ENDED_BY_PEER_HEAD@ + peer + ENDED_BY_PEER_TAIL@,
        ),
        DeliveryOutcome::StrayEnd { .. } => None,
        DeliveryOutcome::PeerBusy { peer } => Some(
            labels.info + PEER_BUSY_HEAD@ + peer + PEER_BUSY_TAIL@,
        ),
        DeliveryOutcome::StrayBusy { .. } => None,
        DeliveryOutcome::PrivateReceived { text, .. } => Some(
            PRIVATE_RECEIVED_HEAD@ + shown + PRIVATE_RECEIVED_MIDDLE@ + text + LINE_END@,
        ),
        DeliveryOutcome::PrivateUnreadable { reason, .. } => Some(
            match reason {
                DecryptError::NonceNotHex => UNREADABLE_NONCE_NOT_HEX@,
                DecryptError::NonceLength => UNREADABLE_NONCE_LENGTH@,
                DecryptError::CiphertextNotHex => UNREADABLE_CIPHERTEXT_NOT_HEX@,
                DecryptError::Authentication => UNREADABLE_AUTHENTICATION@,
                DecryptError::NotText => UNREADABLE_NOT_TEXT@,
            },
        ),
        DeliveryOutcome::PrivateFromStranger { from } => Some(
            PRIVATE_FROM_STRANGER_HEAD@ + from + PRIVATE_FROM_STRANGER_TAIL@,
        ),
        DeliveryOutcome::PrivateMalformed => Some(PRIVATE_MALFORMED@),
        DeliveryOutcome::UnknownControl { .. } => None,
    }
}

/// What the login dialogue asks in a state: the nickname, the password, or
/// nothing more once the attempts are used up.
pub open spec fn gate_prompt_text(state: GateState<Seq<char>>) -> Option<Seq<char>> {
    match state {
        GateState::AwaitNickname { .. } => Some(ASK_NICKNAME@),
        GateState::AwaitPassword { .. } => Some(ASK_PASSWORD@),
        GateState::AwaitConsent { .. } => None,
        GateState::Authorized { .. } => None,
        GateState::Refused => Some(ATTEMPTS_USED_UP@),
    }
}

/// What the login dialogue answers to an event.
pub open spec fn gate_notice_text(event: GateEvent<Seq<char>>) -> Option<Seq<char>> {
    match event {
        GateEvent::NicknameGiven => None,
        GateEvent::NicknameRefused { .. } => Some(NICKNAME_REFUSED@),
        GateEvent::Welcome { .. } => Some(WELCOME@),
        GateEvent::UnknownUser => Some(OFFER_REGISTRATION@),
        GateEvent::NicknameTaken { .. } => Some(NICKNAME_REGISTERED@),
        GateEvent::Registered { .. } => Some(REGISTERED@),
        GateEvent::Declined { .. } => Some(TRY_AGAIN@),
        GateEvent::WrongPassword { .. } => Some(WRONG_PASSWORD@),
        GateEvent::Closed => None,
    }
}

/// What a user who enters the chat is told of the others: that there are
/// none, or their nicknames.
pub open spec fn roster_text(others: usize, online: Seq<char>) -> Seq<char> {
    if others == 0 {
        NOBODY_ONLINE@
    } else {
        ROSTER_HEAD@ + online + LINE_END@
    }
}

/// Whether `shown` is the name of the sender of a private message as a
/// terminal may have it: plain, or between colour codes. A name that holds a
/// colour code of its own may be shown changed.
pub open spec fn shows_sender(outcome: DeliveryOutcome<Seq<char>>, shown: Seq<char>) -> bool {
    match outcome {
        DeliveryOutcome::PrivateReceived { from, .. } => !from.contains(ESCAPE) ==> painted(
            shown,
            from,
        ),
        _ => true,
    }
}

/// Whether `shown` is the view of the text `notice`, or both are nothing.
pub open spec fn shows(notice: Option<String>, text: Option<Seq<char>>) -> bool {
    match (notice, text) {
        (Some(n), Some(t)) => n@ == t,
        (None, None) => true,
        _ => false,
    }
}

/// Writes what the user sees after a line of input.
pub fn line_notice(outcome: &LineOutcome<String>, labels: &Labels) -> (r: Option<String>)
    ensures
        shows(r, line_notice_text(outcome@, labels@)),
{
    match outcome {
        LineOutcome::Ignored => None,
        LineOutcome::LeftPrivateChat { .. } => Some(String::from_str(LEFT_PRIVATE_CHAT)),
        LineOutcome::HelpShown => Some(String::from_str(HELP)),
        LineOutcome::NobodyOnline => Some(String::from_str(NOBODY_ONLINE)),
        LineOutcome::Roster { online } => {
            let mut out = String::from_str(ROSTER_HEAD);
            out.append(online.as_str());
            out.append(LINE_END);
            Some(out)
        },
        LineOutcome::PmMissingTarget => Some(String::from_str(PM_MISSING_TARGET)),
        LineOutcome::PmSelf => Some(String::from_str(PM_SELF)),
        LineOutcome::PmRequested { target } => {
            let mut out = String::from_str(PM_REQUESTED_HEAD);
            out.append(target.as_str());
            out.append(PM_REQUESTED_TAIL);
            Some(out)
        },
        LineOutcome::PmUnreachable { target } => {
            let mut out = String::from_str(PM_UNREACHABLE_HEAD);
            out.append(target.as_str());
            out.append(PM_UNREACHABLE_TAIL);
            Some(out)
        },
        LineOutcome::PmNotInPublic => Some(String::from_str(PM_NOT_IN_PUBLIC)),
        LineOutcome::KeyUnavailable => Some(String::from_str(KEY_UNAVAILABLE)),
        LineOutcome::Accepted { partner } => {
            let mut out = String::from_str(ACCEPTED_HEAD);
            out.append(partner.as_str());
            out.append(ACCEPTED_TAIL);
            Some(out)
        },
        LineOutcome::AcceptUndelivered { partner } => {
            let mut out = String::from_str(ACCEPT_UNDELIVERED_HEAD);
            out.append(partner.as_str());
            out.append(ACCEPT_UNDELIVERED_TAIL);
            Some(out)
        },
        LineOutcome::NothingToAccept => Some(String::from_str(NOTHING_TO_ACCEPT)),
        LineOutcome::Rejected { partner } => {
            let mut out = String::from_str(REJECTED_HEAD);
            out.append(partner.as_str());
            out.append(REJECTED_TAIL);
            Some(out)
        },
        LineOutcome::RejectUndelivered { partner } => {
            let mut out = String::from_str(REJECT_UNDELIVERED_HEAD);
            out.append(partner.as_str());
            out.append(REJECT_UNDELIVERED_TAIL);
            Some(out)
        },
        LineOutcome::NothingToReject => Some(String::from_str(NOTHING_TO_REJECT)),
        LineOutcome::UnknownCommand { name } => {
            let mut out = String::from_str(UNKNOWN_COMMAND_HEAD);
            out.append(name.as_str());
            out.append(UNKNOWN_COMMAND_TAIL);
            Some(out)
        },
        LineOutcome::PrivateSent { .. } => None,
        LineOutcome::PrivateUndelivered { partner } => {
            let mut out = String::from_str(PRIVATE_UNDELIVERED_HEAD);
            out.append(partner.as_str());
            out.append(PRIVATE_UNDELIVERED_TAIL);
            Some(out)
        },
        LineOutcome::EncryptionFailed => Some(String::from_str(ENCRYPTION_FAILED)),
        LineOutcome::DirectToSelf => Some(String::from_str(DIRECT_TO_SELF)),
        LineOutcome::DirectSent { .. } => None,
        LineOutcome::DirectUndelivered { recipient } => {
            let mut out = labels.error.clone();
            out.append(DIRECT_UNDELIVERED_HEAD);
            out.append(recipient.as_str());
            out.append(DIRECT_UNDELIVERED_TAIL);
            Some(out)
        },
        LineOutcome::BroadcastSent { .. } => None,
        LineOutcome::AwaitingResponse { target } => {
            let mut out = String::from_str(AWAITING_RESPONSE_HEAD);
            out.append(target.as_str());
            out.append(AWAITING_RESPONSE_TAIL);
            Some(out)
        },
        LineOutcome::RequestPending { from } => {
            let mut out = String::from_str(REQUEST_PENDING_HEAD);
            out.append(from.as_str());
            out.append(REQUEST_PENDING_TAIL);
            Some(out)
        },
    }
}

/// Writes what the user sees after a string from the queue. The name of the
/// sender of a private message is painted in the colours of the terminal:
/// it is shown plain or between colour codes.
pub fn delivery_notice(outcome: &DeliveryOutcome<String>, labels: &Labels) -> (r: Option<String>)
    ensures
        exists|shown: Seq<char>|
            shows(r, #[trigger] delivery_notice_text(outcome@, labels@, shown)) && shows_sender(
                outcome@,
                shown,
            ),
{
    let ghost mut shown_name: Seq<char> = Seq::empty();
    let r = match outcome {
        DeliveryOutcome::Displayed { text } => Some(text.clone()),
        DeliveryOutcome::Suppressed => None,
        DeliveryOutcome::RequestReceived { from } => {
            let mut out = String::from_str(REQUEST_RECEIVED_HEAD);
            out.append(from.as_str());
            out.append(REQUEST_RECEIVED_TAIL);
            Some(out)
        },
        DeliveryOutcome::RequestWhileBusy { .. } => None,
        DeliveryOutcome::RequestBadKey { .. } => Some(String::from_str(REQUEST_BAD_KEY)),
        DeliveryOutcome::RequestMalformed => Some(String::from_str(REQUEST_MALFORMED)),
        DeliveryOutcome::AcceptedByPeer { peer } => {
            let mut out = labels.info.clone();
            out.append(ACCEPTED_BY_PEER_HEAD);
            out.append(peer.as_str());
            out.append(ACCEPTED_BY_PEER_TAIL);
            Some(out)
        },
        DeliveryOutcome::StrayAccept { peer } => {
            let mut out = String::from_str(STRAY_ACCEPT_HEAD);
            out.append(peer.as_str());
            out.append(STRAY_ACCEPT_TAIL);
            Some(out)
        },
        DeliveryOutcome::RejectedByPeer { peer } => {
            let mut out = labels.info.clone();
            out.append(REJECTED_BY_PEER_HEAD);
            out.append(peer.as_str());
            out.append(REJECTED_BY_PEER_TAIL);
            Some(out)
        },
        DeliveryOutcome::StrayReject { peer } => {
            let mut out = String::from_str(STRAY_REJECT_HEAD);
            out.append(peer.as_str());
            out.append(STRAY_REJECT_TAIL);
            Some(out)
        },
        DeliveryOutcome::EndedByPeer { peer } => {
            let mut out = labels.info.clone();
            out.append(ENDED_BY_PEER_HEAD);
            out.append(peer.as_str());
            out.append(ENDED_BY_PEER_TAIL);
            Some(out)
        },
        DeliveryOutcome::StrayEnd { .. } => None,
        DeliveryOutcome::PeerBusy { peer } => {
            let mut out = labels.info.clone();
            out.append(PEER_BUSY_HEAD);
            out.append(peer.as_str());
            out.append(PEER_BUSY_TAIL);
            Some(out)
        },
        DeliveryOutcome::StrayBusy { .. } => None,
        DeliveryOutcome::PrivateReceived { from, text } => {
            let shown = paint_cyan(from.as_str());
            proof {
                shown_name = shown@;
            }
            let mut out = String::from_str(PRIVATE_RECEIVED_HEAD);
            out.append(shown.as_str());
            out.append(PRIVATE_RECEIVED_MIDDLE);
            out.append(text.as_str());
            out.append(LINE_END);
            Some(out)
        },
        DeliveryOutcome::PrivateUnreadable { reason, .. } => Some(
            String::from_str(
                match reason {
                    DecryptError::NonceNotHex => UNREADABLE_NONCE_NOT_HEX,
                    DecryptError::NonceLength => UNREADABLE_NONCE_LENGTH,
                    DecryptError::CiphertextNotHex => UNREADABLE_CIPHERTEXT_NOT_HEX,
                    DecryptError::Authentication => UNREADABLE_AUTHENTICATION,
                    DecryptError::NotText => UNREADABLE_NOT_TEXT,
                },
            ),
        ),
        DeliveryOutcome::PrivateFromStranger { from } => {
            let mut out = String::from_str(PRIVATE_FROM_STRANGER_HEAD);
            out.append(from.as_str());
            out.append(PRIVATE_FROM_STRANGER_TAIL);
            Some(out)
        },
        DeliveryOutcome::PrivateMalformed => Some(String::from_str(PRIVATE_MALFORMED)),
        DeliveryOutcome::UnknownControl { .. } => None,
    };
    assert(shows(r, delivery_notice_text(outcome@, labels@, shown_name)) && shows_sender(
        outcome@,
        shown_name,
    ));
    r
}

/// Writes what the login dialogue asks in a state.
pub fn gate_prompt(state: &GateState<String>) -> (r: Option<String>)
    ensures
        shows(r, gate_prompt_text(state@)),
{
    match state {
        GateState::AwaitNickname { .. } => Some(String::from_str(ASK_NICKNAME)),
        GateState::AwaitPassword { .. } => Some(String::from_str(ASK_PASSWORD)),
        GateState::AwaitConsent { .. } => None,
        GateState::Authorized { .. } => None,
        GateState::Refused => Some(String::from_str(ATTEMPTS_USED_UP)),
    }
}

/// Writes what the login dialogue answers to an event.
pub fn gate_notice(event: &GateEvent<String>) -> (r: Option<String>)
    ensures
        shows(r, gate_notice_text(event@)),
{
    match event {
        GateEvent::NicknameGiven => None,
        GateEvent::NicknameRefused { .. } => Some(String::from_str(NICKNAME_REFUSED)),
        GateEvent::Welcome { .. } => Some(String::from_str(WELCOME)),
        GateEvent::UnknownUser => Some(String::from_str(OFFER_REGISTRATION)),
        GateEvent::NicknameTaken { .. } => Some(String::from_str(NICKNAME_REGISTERED)),
        GateEvent::Registered { .. } => Some(String::from_str(REGISTERED)),
        GateEvent::Declined { .. } => Some(String::from_str(TRY_AGAIN)),
        GateEvent::WrongPassword { .. } => Some(String::from_str(WRONG_PASSWORD)),
        GateEvent::Closed => None,
    }
}

/// Writes what a user who enters the chat is told of the others.
pub fn roster_notice(others: usize, online: &str) -> (r: String)
    ensures
        r@ == roster_text(others, online@),
{
    if others == 0 {
        String::from_str(NOBODY_ONLINE)
    } else {
        let mut out = String::from_str(ROSTER_HEAD);
        out.append(online);
        out.append(LINE_END);
        out
    }
}

} // verus!
