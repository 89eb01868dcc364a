use print_order_bot::error::Error;
use print_order_bot::repository::OrderRepository;
use print_order_bot::repository::Repository;
use print_order_bot::session::OrderState;
use print_order_bot::timestamp::Timestamp;

#[test]
fn repo_update_order() {
    let mut repo = OrderRepository::new();
    let order = OrderState::PaperRequested {
        chat_id: "79146795551".to_string(),
        customer_name: "John".to_string(),
        files: vec![],
        repeats: 0,
        last_msg_time: Timestamp::now(),
    };
    repo.set_order(order);
    println!("Order update result: {:?}", repo.get_orders());

    let order = OrderState::SizeRequested {
        chat_id: "79146795552".to_string(),
        customer_name: "Jane".to_string(),
        paper: "paper".to_string(),
        files: vec![],
        repeats: 0,
        last_msg_time: Timestamp::now(),
    };
    repo.set_order(order.clone());

    println!("Order update result: {:?}", repo.get_orders());
    let saved = repo.get_order("79146795552").unwrap();
    assert_eq!(saved, order);
    {
        repo.delete_order("79146795552").unwrap();
        println!("Order delete result: {:?}", repo.get_orders());
    }
    assert_eq!(repo.get_orders().len(), 1);
}

#[test]
fn set_order_overwrites_by_chat_id() {
    let mut repo = OrderRepository::new();
    let t = Timestamp::from_secs(10);
    let first = OrderState::FilesReceiving {
        chat_id: "111".to_string(),
        customer_name: "A".to_string(),
        files: vec!["one.jpg".to_string()],
        repeats: 0,
        last_msg_time: t,
    };
    let second = OrderState::FilesReceiving {
        chat_id: "111".to_string(),
        customer_name: "A".to_string(),
        files: vec!["one.jpg".to_string(), "two.jpg".to_string()],
        repeats: 1,
        last_msg_time: t,
    };
    repo.set_order(first);
    repo.set_order(second.clone());
    assert_eq!(repo.get_orders().len(), 1);
    assert_eq!(repo.get_order("111"), Some(second));
}

#[test]
fn delete_of_absent_session_reports_not_found() {
    let mut repo = OrderRepository::new();
    assert_eq!(repo.get_order("404"), None);
    assert_eq!(
        repo.delete_order("404"),
        Err(Error::OrderNotFound("404".to_string()))
    );
}
