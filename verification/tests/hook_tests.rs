use print_order_bot::hook_types::FileMessageData;
use print_order_bot::hook_types::HookRoot;
use print_order_bot::hook_types::MessageData;
use print_order_bot::hook_types::SenderData;
use print_order_bot::hook_types::TextMessageData;
use print_order_bot::session::Message;
use print_order_bot::session::OrderMessage;
use print_order_bot::session::OrderState;
use print_order_bot::timestamp::Timestamp;

fn incoming(type_message: &str, text: Option<&str>, url: Option<&str>) -> HookRoot {
    HookRoot {
        type_webhook: "incomingMessageReceived".to_string(),
        sender_data: Some(SenderData {
            chat_id: "777@c.us".to_string(),
            sender_name: "Ann".to_string(),
        }),
        message_data: Some(MessageData {
            type_message: type_message.to_string(),
            text_message_data: text.map(|t| TextMessageData { text_message: t.to_string() }),
            file_message_data: url.map(|u| FileMessageData { download_url: u.to_string() }),
        }),
        status_instance: None,
    }
}

#[test]
fn image_hook_becomes_image_event() {
    let m = Message::from_hook(incoming("imageMessage", None, Some("http://x/1.jpg")));
    match m {
        Message::Image(rm) => {
            assert_eq!(rm.chat_id, "777@c.us");
            assert_eq!(rm.customer_name, "Ann");
            assert_eq!(rm.message, "http://x/1.jpg");
        }
        other => panic!("expected an image event, got {:?}", other),
    }
}

#[test]
fn text_hook_becomes_text_event() {
    let m = Message::from_hook(incoming("textMessage", Some("все"), None));
    match m {
        Message::Text(rm) => {
            assert_eq!(rm.chat_id, "777@c.us");
            assert_eq!(rm.customer_name, "Ann");
            assert_eq!(rm.message, "все");
        }
        other => panic!("expected a text event, got {:?}", other),
    }
}

#[test]
fn unknown_message_type_becomes_empty() {
    let m = Message::from_hook(incoming("stickerMessage", None, None));
    assert!(matches!(m, Message::Empty));
}

#[test]
fn status_hook_carries_the_status() {
    let m = Message::from_hook(HookRoot {
        type_webhook: "statusInstanceChanged".to_string(),
        sender_data: None,
        message_data: None,
        status_instance: Some("authorized".to_string()),
    });
    match m {
        Message::StateInstance(s) => assert_eq!(s, "authorized"),
        other => panic!("expected a status event, got {:?}", other),
    }
}

#[test]
fn unrelated_hook_becomes_empty() {
    let m = Message::from_hook(HookRoot {
        type_webhook: "deviceInfo".to_string(),
        sender_data: None,
        message_data: None,
        status_instance: None,
    });
    assert!(matches!(m, Message::Empty));
}

#[test]
fn order_message_extracts_phone_up_to_at_sign() {
    let t = Timestamp::from_secs(5);
    let order = OrderState::SizeSelected {
        chat_id: "79990001122@c.us".to_string(),
        customer_name: "Ann".to_string(),
        paper: "glossy".to_string(),
        size: "10x15".to_string(),
        price: 22,
        files: vec!["a.jpg".to_string(), "b.jpg".to_string()],
        repeats: 0,
        last_msg_time: t,
    };
    let m: OrderMessage = order.to_order_message();
    assert_eq!(m.phone, "79990001122");
    assert_eq!(m.name, "Ann");
    assert_eq!(m.paper_type, "glossy");
    assert_eq!(m.paper_size, "10x15");
    assert_eq!(m.price, 22);
    assert_eq!(m.files, vec!["a.jpg".to_string(), "b.jpg".to_string()]);

    let order2 = OrderState::SizeSelected {
        chat_id: "12345".to_string(),
        customer_name: "Ann".to_string(),
        paper: "glossy".to_string(),
        size: "10x15".to_string(),
        price: 22,
        files: vec![],
        repeats: 0,
        last_msg_time: t,
    };
    assert_eq!(order2.to_order_message().phone, "12345");
}
