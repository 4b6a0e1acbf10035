use chat_server::auth::{GateEvent, GateState};
use chat_server::crypto::DecryptError;
use chat_server::labels::{Labels, ESCAPE, RESET};
use chat_server::log::log_line;
use chat_server::notice::{
    delivery_notice, gate_notice, gate_prompt, line_notice, roster_notice, GREETING, HELP,
    NICKNAME_TAKEN,
};
use chat_server::outcome::{DeliveryOutcome, LineOutcome};

fn s(text: &str) -> String {
    text.to_string()
}

fn line(outcome: LineOutcome<String>) -> Option<String> {
    line_notice(&outcome, &Labels::plain())
}

fn delivery(outcome: DeliveryOutcome<String>) -> Option<String> {
    delivery_notice(&outcome, &Labels::plain())
}

#[test]
fn plain_labels_are_the_bare_words() {
    let labels = Labels::plain();
    assert_eq!(labels.everyone, "Всем");
    assert_eq!(labels.you, "Вам");
    assert_eq!(labels.error, "Ошибка:");
    assert_eq!(labels.info, "ИНФО:");
    let painted = Labels::paint();
    assert!(painted.error.contains("Ошибка:"));
    assert!(painted.info.contains("ИНФО:"));
}

#[test]
fn painted_labels_are_their_words_plain_or_between_colour_codes() {
    assert_eq!(ESCAPE, '\u{1b}');
    assert_eq!(RESET, "\u{1b}[0m");
    let painted = Labels::paint();
    let pairs = [
        (painted.everyone, "Всем"),
        (painted.you, "Вам"),
        (painted.error, "Ошибка:"),
        (painted.info, "ИНФО:"),
    ];
    for (shown, word) in pairs {
        let coloured = shown.starts_with(ESCAPE) && shown.ends_with(&format!("{}{}", word, RESET));
        assert!(shown == word || coloured, "{:?}", shown);
    }
}

#[test]
fn outcomes_that_need_no_word_have_none() {
    assert_eq!(line(LineOutcome::Ignored), None);
    assert_eq!(line(LineOutcome::PrivateSent { partner: s("bob") }), None);
    assert_eq!(line(LineOutcome::DirectSent { recipient: s("bob") }), None);
    assert_eq!(line(LineOutcome::BroadcastSent { text: s("hi") }), None);
    assert_eq!(delivery(DeliveryOutcome::Suppressed), None);
    assert_eq!(delivery(DeliveryOutcome::RequestWhileBusy { from: s("bob") }), None);
    assert_eq!(delivery(DeliveryOutcome::StrayEnd { peer: s("bob") }), None);
    assert_eq!(delivery(DeliveryOutcome::StrayBusy { peer: s("bob") }), None);
    assert_eq!(delivery(DeliveryOutcome::UnknownControl { tag: s("X") }), None);
}

#[test]
fn line_notices_name_the_other_user() {
    assert_eq!(
        line(LineOutcome::PmRequested { target: s("bob") }),
        Some(s("Запрос на личный чат отправлен пользователю 'bob'. Ожидание ответа...\n"))
    );
    assert_eq!(
        line(LineOutcome::PmUnreachable { target: s("bob") }),
        Some(s("Пользователь 'bob' не найден или не в сети.\n"))
    );
    assert_eq!(
        line(LineOutcome::Accepted { partner: s("bob") }),
        Some(s("Вы начали личный чат с 'bob'. Напишите 'exit' для возврата в общий чат.\n"))
    );
    assert_eq!(
        line(LineOutcome::Rejected { partner: s("bob") }),
        Some(s("Вы отклонили запрос на личный чат от 'bob'.\n"))
    );
    assert_eq!(
        line(LineOutcome::UnknownCommand { name: s("dance") }),
        Some(s("Неизвестная команда: 'dance'. Введите /help.\n"))
    );
    assert_eq!(
        line(LineOutcome::DirectUndelivered { recipient: s("bob") }),
        Some(s("Ошибка: Пользователь 'bob' не найден или не в сети.\n"))
    );
    assert_eq!(
        line(LineOutcome::RequestPending { from: s("bob") }),
        Some(s("У вас есть запрос на личный чат от 'bob'. Введите /accept или /reject.\n"))
    );
}

#[test]
fn text_while_waiting_is_held_back_with_the_way_out() {
    assert_eq!(
        line(LineOutcome::AwaitingResponse { target: s("bob") }),
        Some(s("Вы ожидаете ответа от 'bob'. Чтобы отправить сообщение в общий чат, сначала отмените запрос (пока не реализовано) или дождитесь ответа.\n"))
    );
}

#[test]
fn every_other_line_outcome_has_a_notice_that_ends_the_line() {
    let outcomes = vec![
        LineOutcome::LeftPrivateChat { partner: s("bob") },
        LineOutcome::HelpShown,
        LineOutcome::NobodyOnline,
        LineOutcome::Roster { online: s("bob, carol") },
        LineOutcome::PmMissingTarget,
        LineOutcome::PmSelf,
        LineOutcome::PmNotInPublic,
        LineOutcome::KeyUnavailable,
        LineOutcome::AcceptUndelivered { partner: s("bob") },
        LineOutcome::NothingToAccept,
        LineOutcome::RejectUndelivered { partner: s("bob") },
        LineOutcome::NothingToReject,
        LineOutcome::PrivateUndelivered { partner: s("bob") },
        LineOutcome::EncryptionFailed,
        LineOutcome::DirectToSelf,
        LineOutcome::AwaitingResponse { target: s("bob") },
    ];
    for outcome in outcomes {
        let notice = line(outcome.clone()).expect("a notice");
        assert!(notice.ends_with('\n'), "{:?}", outcome);
        assert!(notice.chars().count() > 10, "{:?}", outcome);
    }
    assert_eq!(line(LineOutcome::HelpShown), Some(s(HELP)));
    assert!(HELP.starts_with("Доступные команды:\n\t/help - "));
    assert_eq!(HELP.lines().count(), 8);
    assert_eq!(line(LineOutcome::Roster { online: s("bob, carol") }), Some(s("Сейчас в сети: bob, carol\n")));
}

#[test]
fn delivery_notices_show_text_and_events() {
    assert_eq!(delivery(DeliveryOutcome::Displayed { text: s("Всем bob: hi\n") }), Some(s("Всем bob: hi\n")));
    assert_eq!(
        delivery(DeliveryOutcome::RequestReceived { from: s("bob") }),
        Some(s("Пользователь 'bob' хочет начать с вами личный чат. Введите /accept или /reject.\n"))
    );
    assert_eq!(
        delivery(DeliveryOutcome::AcceptedByPeer { peer: s("bob") }),
        Some(s("ИНФО: Пользователь 'bob' принял ваш запрос на личный чат. Вы теперь в приватном чате.\n"))
    );
    assert_eq!(
        delivery(DeliveryOutcome::EndedByPeer { peer: s("bob") }),
        Some(s("ИНФО: Пользователь 'bob' вышел из личного чата. Вы возвращены в общий чат.\n"))
    );
    assert_eq!(
        delivery(DeliveryOutcome::PrivateFromStranger { from: s("eve") }),
        Some(s("Получено зашифрованное сообщение от 'eve', но вы не находитесь в приватном чате с ним.\n"))
    );
}

#[test]
fn private_message_is_shown_under_the_name_of_its_sender() {
    let notice = delivery(DeliveryOutcome::PrivateReceived { from: s("bob"), text: s("hello") }).unwrap();
    let plain = "[ЛС от bob]: hello\n";
    let coloured = notice.starts_with(&format!("[ЛС от {}", ESCAPE))
        && notice.ends_with(&format!("bob{}]: hello\n", RESET));
    assert!(notice == plain || coloured, "{:?}", notice);
    assert!(!notice.contains("mallory"));
}

#[test]
fn each_failure_to_read_has_its_own_notice() {
    let reasons = [
        DecryptError::NonceNotHex,
        DecryptError::NonceLength,
        DecryptError::CiphertextNotHex,
        DecryptError::Authentication,
        DecryptError::NotText,
    ];
    let mut seen: Vec<String> = Vec::new();
    for reason in reasons {
        let notice = delivery(DeliveryOutcome::PrivateUnreadable { from: s("bob"), reason }).unwrap();
        assert!(notice.ends_with('\n'));
        assert!(!seen.contains(&notice));
        seen.push(notice);
    }
    assert_eq!(
        delivery(DeliveryOutcome::PrivateUnreadable { from: s("bob"), reason: DecryptError::Authentication }),
        Some(s("Ошибка дешифрования сообщения. Возможно, ключ неверный.\n"))
    );
}

#[test]
fn the_gate_asks_and_answers() {
    assert_eq!(gate_prompt(&GateState::AwaitNickname { attempts: 3 }), Some(s("Введите никнейм:\n")));
    assert_eq!(gate_prompt(&GateState::AwaitPassword { attempts: 3, nickname: s("a") }), Some(s("Введите пароль:\n")));
    assert_eq!(gate_prompt(&GateState::AwaitConsent { attempts: 3, nickname: s("a"), password: s("b") }), None);
    assert_eq!(gate_prompt(&GateState::Authorized { nickname: s("a") }), None);
    assert_eq!(gate_prompt(&GateState::Refused), Some(s("Превышено количество попыток. Отключение.\n")));
    assert_eq!(gate_notice(&GateEvent::NicknameGiven), None);
    assert_eq!(gate_notice(&GateEvent::Closed), None);
    assert_eq!(gate_notice(&GateEvent::Welcome { nickname: s("a") }), Some(s("Авторизация успешна!\n")));
    assert_eq!(
        gate_notice(&GateEvent::UnknownUser),
        Some(s("Пользователь не найден. Хотите зарегистрироваться? (да/нет):\n"))
    );
    assert_eq!(
        gate_notice(&GateEvent::Registered { nickname: s("a"), record: s("a:b\n") }),
        Some(s("Регистрация успешна! Вы авторизованы.\n"))
    );
    assert_eq!(gate_notice(&GateEvent::Declined { attempts: 2 }), Some(s("Попробуйте снова.\n")));
    assert_eq!(
        gate_notice(&GateEvent::NicknameRefused { attempts: 2 }),
        Some(s("Никнейм не может быть пустым. Попробуйте снова.\n"))
    );
    assert_eq!(
        gate_notice(&GateEvent::NicknameTaken { attempts: 2 }),
        Some(s("Этот никнейм уже зарегистрирован. Попробуйте снова.\n"))
    );
    assert_eq!(gate_notice(&GateEvent::WrongPassword { attempts: 2 }), Some(s("Неверный пароль. Попробуйте снова.\n")));
}

#[test]
fn roster_notice_tells_of_nobody_or_of_the_others() {
    assert_eq!(roster_notice(0, ""), "Пока никто больше не подключён.\n");
    assert_eq!(roster_notice(0, "ignored"), "Пока никто больше не подключён.\n");
    assert_eq!(roster_notice(2, "bob, carol"), "Сейчас в сети: bob, carol\n");
    assert_eq!(GREETING, "Добро пожаловать в чат! Введите /help для списка команд.\n");
    assert_eq!(NICKNAME_TAKEN, "Пользователь с таким ником уже в сети. Отключение.\n");
}

#[test]
fn log_line_has_time_category_and_message() {
    assert_eq!(
        log_line("2024-01-02 03:04:05", "Auth", "alice вошла"),
        "2024-01-02 03:04:05 [Auth] alice вошла\n"
    );
    assert_eq!(log_line("", "", ""), " [] \n");
}
