use print_order_bot::config::Config;
use print_order_bot::error::Error;
use print_order_bot::message_handler::Handler;
use print_order_bot::paper::Paper;
use print_order_bot::paper::PaperSize;
use print_order_bot::paper::PaperType;
use print_order_bot::prompt::Prompt;
use print_order_bot::repository::OrderRepository;
use print_order_bot::repository::Repository;
use print_order_bot::session::Message;
use print_order_bot::session::OrderState;
use print_order_bot::session::ReceivedMessage;
use print_order_bot::session::StateTag;
use print_order_bot::timestamp::Timestamp;
use print_order_bot::transport::MockTransport;

const CHAT: &str = "79146795551@c.us";
const PHONE: &str = "79146795551";
const URL: &str = "http://files.example/img1.jpg";

const PAPER_PROMPT: &str = "Выберите тип бумаги: \n1 - glossy\n";
const SIZE_PROMPT: &str = "Выберите размер фотографий: \n1 - 10x15 22руб/шт\n";
const READY_PROMPT: &str = "Если Вы загрузили все фотографии, то отправьте слово: Готово";
const FILES_PROMPT: &str =
    "Загрузите файлы для печати. Когда закончите с отправкой файлов, напишите: все";
const CANCEL_NOTICE: &str = "Ваш заказ отменен";
const TIMEOUT_NOTICE: &str = "Заказ отменен, из-за длительного ожидания";
const WAIT_NOTICE: &str = "Пожалуйста ожидайте, Ваш заказ обрабатывается";

fn glossy_catalog() -> Paper {
    Paper::new(vec![PaperType {
        name: "glossy".to_string(),
        sizes: vec![PaperSize { size: "10x15".to_string(), price: 22 }],
    }])
}

fn test_config() -> Config {
    Config {
        API_URL: "http://api.example".to_string(),
        ID_INSTANCE: "1000".to_string(),
        API_TOKEN_INSTANCE: "token".to_string(),
        ADMIN_CHAT_ID: "admin@c.us".to_string(),
        WORKER_URL: "http://worker.example".to_string(),
        SHOP_ADDRESS: "ул. Печатная, 1".to_string(),
        SHOP_PHONE: "+70000000000".to_string(),
        SECRET_TOKEN: "secret".to_string(),
        NO_FILES_TIMEOUT: 60,
        REPEAT_COUNT: 3,
        REPEAT_TIMEOUT: 30,
        HOOK_PORT: 8080,
    }
}

fn make_handler() -> Handler<OrderRepository, MockTransport> {
    let cfg = test_config();
    let prompt = Prompt::new(glossy_catalog(), cfg.SHOP_ADDRESS.clone(), cfg.SHOP_PHONE.clone());
    Handler::new(OrderRepository::new(), MockTransport::default(), prompt, cfg)
}

fn msg(text: &str) -> ReceivedMessage {
    ReceivedMessage {
        chat_id: CHAT.to_string(),
        customer_name: "John".to_string(),
        message: text.to_string(),
    }
}

fn at(secs: u64) -> Timestamp {
    Timestamp::from_secs(secs)
}

fn tag_of(h: &Handler<OrderRepository, MockTransport>) -> Option<StateTag> {
    h.repository.get_order(CHAT).map(|o| o.state_tag())
}

/// Drive a fresh handler into the given phase, with one uploaded file.
fn advance_to(h: &mut Handler<OrderRepository, MockTransport>, tag: StateTag) {
    h.handle_image_message(msg(URL), at(1000)).unwrap();
    if tag == StateTag::FilesReceiving {
        return;
    }
    h.handle_text_message(msg("все"), at(1001)).unwrap();
    if tag == StateTag::PaperRequested {
        return;
    }
    h.handle_text_message(msg("1"), at(1002)).unwrap();
    if tag == StateTag::SizeRequested {
        return;
    }
    h.handle_text_message(msg("1"), at(1003)).unwrap();
    assert_eq!(tag_of(h), Some(StateTag::SizeSelected));
}

fn sent_texts(h: &Handler<OrderRepository, MockTransport>) -> Vec<String> {
    h.transport.sent_messages.iter().map(|s| s.message.clone()).collect()
}

#[test]
fn round_trip_reaches_submission() {
    let mut h = make_handler();
    h.handle(Message::Image(msg(URL)), at(1000)).unwrap();
    h.handle(Message::Text(msg("все")), at(1001)).unwrap();
    h.handle(Message::Text(msg("1")), at(1002)).unwrap();
    h.handle(Message::Text(msg("1")), at(1003)).unwrap();
    assert_eq!(h.transport.submitted_orders.len(), 0);
    h.handle(Message::Text(msg("Готово")), at(1004)).unwrap();

    assert_eq!(h.transport.submitted_orders.len(), 1);
    let order = &h.transport.submitted_orders[0];
    assert_eq!(order.phone, PHONE);
    assert_eq!(order.name, "John");
    assert_eq!(order.paper_type, "glossy");
    assert_eq!(order.paper_size, "10x15");
    assert_eq!(order.price, 22);
    assert_eq!(order.files, vec![URL.to_string()]);
    assert!(h.repository.get_order(CHAT).is_none());

    let texts = sent_texts(&h);
    assert_eq!(
        texts,
        vec![
            FILES_PROMPT.to_string(),
            PAPER_PROMPT.to_string(),
            SIZE_PROMPT.to_string(),
            READY_PROMPT.to_string(),
            WAIT_NOTICE.to_string(),
            // MockTransport answers with an empty order id.
            "Ваш заказ  принят!\n\nПолучение по адресу:ул. Печатная, 1\nтел: +70000000000"
                .to_string(),
        ]
    );
}

#[test]
fn cancellation_deletes_session_in_every_state() {
    for tag in [
        StateTag::FilesReceiving,
        StateTag::PaperRequested,
        StateTag::SizeRequested,
        StateTag::SizeSelected,
    ] {
        let mut h = make_handler();
        advance_to(&mut h, tag);
        let sent_before = h.transport.sent_messages.len();
        h.handle_text_message(msg("хочу ОТМЕНить заказ"), at(2000)).unwrap();
        assert!(h.repository.get_order(CHAT).is_none());
        assert_eq!(h.transport.sent_messages.len(), sent_before + 1);
        assert_eq!(h.transport.sent_messages.last().unwrap().message, CANCEL_NOTICE);
        assert_eq!(h.transport.submitted_orders.len(), 0);
    }
}

#[test]
fn invalid_paper_selection_keeps_state_and_reprompts() {
    for bad in ["abc", "2", "0", ""] {
        let mut h = make_handler();
        advance_to(&mut h, StateTag::PaperRequested);
        let sent_before = h.transport.sent_messages.len();
        h.handle_text_message(msg(bad), at(1005)).unwrap();
        let order = h.repository.get_order(CHAT).unwrap();
        assert_eq!(order.state_tag(), StateTag::PaperRequested);
        assert_eq!(order.repeats(), 0);
        assert_eq!(h.transport.sent_messages.len(), sent_before + 1);
        assert_eq!(h.transport.sent_messages.last().unwrap().message, PAPER_PROMPT);
    }
}

#[test]
fn valid_paper_selection_advances_exactly_one_state() {
    let mut h = make_handler();
    advance_to(&mut h, StateTag::PaperRequested);
    h.handle_text_message(msg("1"), at(1005)).unwrap();
    let order = h.repository.get_order(CHAT).unwrap();
    assert_eq!(order.state_tag(), StateTag::SizeRequested);
    assert_eq!(order.repeats(), 0);
    assert_eq!(h.transport.sent_messages.last().unwrap().message, SIZE_PROMPT);
}

#[test]
fn invalid_size_selection_keeps_state_and_reprompts() {
    for bad in ["nope", "2", "0"] {
        let mut h = make_handler();
        advance_to(&mut h, StateTag::SizeRequested);
        let sent_before = h.transport.sent_messages.len();
        h.handle_text_message(msg(bad), at(1005)).unwrap();
        let order = h.repository.get_order(CHAT).unwrap();
        assert_eq!(order.state_tag(), StateTag::SizeRequested);
        assert_eq!(order.repeats(), 0);
        assert_eq!(h.transport.sent_messages.len(), sent_before + 1);
        assert_eq!(h.transport.sent_messages.last().unwrap().message, SIZE_PROMPT);
    }
}

#[test]
fn first_text_creates_session_and_sends_instruction() {
    let mut h = make_handler();
    h.handle_text_message(msg("привет"), at(1000)).unwrap();
    let order = h.repository.get_order(CHAT).unwrap();
    assert_eq!(order.state_tag(), StateTag::FilesReceiving);
    assert_eq!(order.files_count(), 0);
    assert_eq!(sent_texts(&h), vec![FILES_PROMPT.to_string()]);
}

#[test]
fn done_without_files_changes_nothing() {
    let mut h = make_handler();
    h.handle_text_message(msg("привет"), at(1000)).unwrap();
    let sent_before = h.transport.sent_messages.len();
    h.handle_text_message(msg("все"), at(1001)).unwrap();
    let order = h.repository.get_order(CHAT).unwrap();
    assert_eq!(order.state_tag(), StateTag::FilesReceiving);
    assert_eq!(h.transport.sent_messages.len(), sent_before);
}

#[test]
fn image_in_selection_phase_appends_file_and_reprompts() {
    let mut h = make_handler();
    advance_to(&mut h, StateTag::PaperRequested);
    h.handle_image_message(msg("http://files.example/img2.jpg"), at(1005)).unwrap();
    let order = h.repository.get_order(CHAT).unwrap();
    assert_eq!(order.state_tag(), StateTag::PaperRequested);
    assert_eq!(order.files_count(), 2);
    assert_eq!(h.transport.sent_messages.last().unwrap().message, PAPER_PROMPT);
}

#[test]
fn no_files_session_is_evicted_only_past_timeout() {
    let mut h = make_handler();
    h.handle_text_message(msg("привет"), at(1000)).unwrap();

    // Inside the window nothing happens.
    let sent_before = h.transport.sent_messages.len();
    h.handle_awaits(at(1050)).unwrap();
    assert!(h.repository.get_order(CHAT).is_some());
    assert_eq!(h.transport.sent_messages.len(), sent_before);

    // Past the window: deleted, exactly one abandonment notice, no re-prompt.
    h.handle_awaits(at(1061)).unwrap();
    assert!(h.repository.get_order(CHAT).is_none());
    assert_eq!(h.transport.sent_messages.len(), sent_before + 1);
    assert_eq!(h.transport.sent_messages.last().unwrap().message, TIMEOUT_NOTICE);
}

#[test]
fn sweep_reprompts_matching_phase_then_evicts() {
    let mut h = make_handler();
    advance_to(&mut h, StateTag::PaperRequested);
    // Last activity is 1001; the repeat window is 30 seconds.

    // At the boundary nothing happens.
    let sent_before = h.transport.sent_messages.len();
    h.handle_awaits(at(1031)).unwrap();
    assert_eq!(h.transport.sent_messages.len(), sent_before);
    assert_eq!(h.repository.get_order(CHAT).unwrap().repeats(), 0);

    // Past it: one re-prompt of the current phase, count up, clock reset.
    let mut now = 1032;
    for expected_repeats in 1..=3 {
        let sent_before = h.transport.sent_messages.len();
        h.handle_awaits(at(now)).unwrap();
        let order = h.repository.get_order(CHAT).unwrap();
        assert_eq!(order.state_tag(), StateTag::PaperRequested);
        assert_eq!(order.repeats(), expected_repeats);
        assert_eq!(order.last_timestamp().secs, now);
        assert_eq!(h.transport.sent_messages.len(), sent_before + 1);
        assert_eq!(h.transport.sent_messages.last().unwrap().message, PAPER_PROMPT);
        now += 31;
    }

    // Re-prompts used up: the next overdue sweep evicts with one notice.
    let sent_before = h.transport.sent_messages.len();
    h.handle_awaits(at(now)).unwrap();
    assert!(h.repository.get_order(CHAT).is_none());
    assert_eq!(h.transport.sent_messages.len(), sent_before + 1);
    assert_eq!(h.transport.sent_messages.last().unwrap().message, TIMEOUT_NOTICE);
}

#[test]
fn sweep_with_files_never_uses_no_files_timeout() {
    let mut h = make_handler();
    advance_to(&mut h, StateTag::FilesReceiving);
    // Idle far past the no-files timeout, but with files and repeats left:
    // the session is re-prompted, not evicted.
    h.handle_awaits(at(1100)).unwrap();
    let order = h.repository.get_order(CHAT).unwrap();
    assert_eq!(order.state_tag(), StateTag::FilesReceiving);
    assert_eq!(order.repeats(), 1);
    assert_eq!(h.transport.sent_messages.last().unwrap().message, FILES_PROMPT);
}

#[test]
fn state_instance_and_empty_events_do_nothing() {
    let mut h = make_handler();
    h.handle(Message::StateInstance("authorized".to_string()), at(1000)).unwrap();
    h.handle(Message::Empty, at(1000)).unwrap();
    assert_eq!(h.repository.get_orders().len(), 0);
    assert_eq!(h.transport.sent_messages.len(), 0);
}

#[test]
fn try_set_paper_reports_each_failure() {
    let mut h = make_handler();
    let t = at(1000);
    let paper_state = OrderState::PaperRequested {
        chat_id: CHAT.to_string(),
        customer_name: "John".to_string(),
        files: vec![URL.to_string()],
        repeats: 0,
        last_msg_time: t,
    };
    assert_eq!(h.try_set_paper(paper_state.clone(), msg("abc"), t), Err(Error::ParseFailed));
    assert_eq!(h.try_set_paper(paper_state.clone(), msg("9"), t), Err(Error::PaperInvalid));
    assert_eq!(h.try_set_paper(paper_state, msg("1"), t), Ok("glossy".to_string()));

    let files_state = OrderState::FilesReceiving {
        chat_id: "222".to_string(),
        customer_name: "A".to_string(),
        files: vec![],
        repeats: 0,
        last_msg_time: t,
    };
    assert_eq!(h.try_set_paper(files_state, msg("1"), t), Err(Error::OrderWrongState));
}

#[test]
fn try_set_size_reports_each_failure() {
    let mut h = make_handler();
    let t = at(1000);
    let size_state = OrderState::SizeRequested {
        chat_id: CHAT.to_string(),
        customer_name: "John".to_string(),
        paper: "glossy".to_string(),
        files: vec![URL.to_string()],
        repeats: 0,
        last_msg_time: t,
    };
    assert_eq!(h.try_set_size(size_state.clone(), msg("x"), t), Err(Error::ParseFailed));
    assert_eq!(
        h.try_set_size(size_state.clone(), msg("4"), t),
        Err(Error::SizeInvalid("glossy".to_string()))
    );
    assert_eq!(h.try_set_size(size_state, msg("1"), t), Ok(()));
}

#[test]
fn paper_requested_refuses_other_states() {
    let mut h = make_handler();
    let t = at(1000);
    let selected = OrderState::SizeSelected {
        chat_id: "333".to_string(),
        customer_name: "B".to_string(),
        paper: "glossy".to_string(),
        size: "10x15".to_string(),
        price: 22,
        files: vec![URL.to_string()],
        repeats: 0,
        last_msg_time: t,
    };
    assert_eq!(h.paper_requested(selected, t), Err(Error::OrderWrongState));
}

#[test]
fn failed_submission_still_deletes_session_and_reports() {
    let mut h = make_handler();
    h.transport.fail_orders = true;
    h.handle_image_message(msg(URL), at(1000)).unwrap();
    h.handle_text_message(msg("все"), at(1001)).unwrap();
    h.handle_text_message(msg("1"), at(1002)).unwrap();
    h.handle_text_message(msg("1"), at(1003)).unwrap();
    h.handle_text_message(msg("готово"), at(1004)).unwrap();
    assert!(h.repository.get_order(CHAT).is_none());
    // The submission attempt is still recorded, exactly once.
    assert_eq!(h.transport.submitted_orders.len(), 1);
    let texts = sent_texts(&h);
    assert_eq!(texts.last().unwrap(), "Не удалось отправить Ваш заказ, попробуйте еще раз");
    assert_eq!(texts[texts.len() - 2], WAIT_NOTICE);
}

#[test]
fn repeats_reset_on_forward_transition() {
    let mut h = make_handler();
    advance_to(&mut h, StateTag::PaperRequested);
    // One sweep-driven re-prompt raises the counter.
    h.handle_awaits(at(1032)).unwrap();
    assert_eq!(h.repository.get_order(CHAT).unwrap().repeats(), 1);
    // An invalid reply leaves it alone.
    h.handle_text_message(msg("nope"), at(1033)).unwrap();
    assert_eq!(h.repository.get_order(CHAT).unwrap().repeats(), 1);
    // The next forward transition starts it over.
    h.handle_text_message(msg("1"), at(1034)).unwrap();
    let order = h.repository.get_order(CHAT).unwrap();
    assert_eq!(order.state_tag(), StateTag::SizeRequested);
    assert_eq!(order.repeats(), 0);
}
