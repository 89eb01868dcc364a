use print_order_bot::data_types::Order;

#[test]
fn new_order_is_blank_and_new() {
    let o = Order::new();
    assert_eq!(o.chat_id, "");
    assert_eq!(o.customer_name, "");
    assert_eq!(o.paper, "");
    assert_eq!(o.size, "");
    assert!(o.images.is_empty());
    assert_eq!(o.state, "new");
    assert_eq!(o.iter_count, 0);
}

#[test]
fn default_order_matches_new() {
    let d = Order::default();
    assert_eq!(d.state, "new");
    assert_eq!(d.iter_count, 0);
    assert!(d.images.is_empty());
}

#[test]
fn order_into_message_splits_phone_from_chat_id() {
    let mut o = Order::new();
    o.chat_id = "79146795551@c.us".to_string();
    o.customer_name = "John".to_string();
    o.paper = "glossy".to_string();
    o.size = "10x15".to_string();
    o.images = vec!["a.jpg".to_string()];
    let m = o.into_message();
    assert_eq!(m.phone, "79146795551");
    assert_eq!(m.name, "John");
    assert_eq!(m.paper_type, "glossy");
    assert_eq!(m.paper_size, "10x15");
    assert_eq!(m.files, vec!["a.jpg".to_string()]);
}
