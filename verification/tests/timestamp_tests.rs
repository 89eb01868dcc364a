use print_order_bot::text::parse_selection;
use print_order_bot::timestamp::Timestamp;

#[test]
fn test_now() {
    let ts = Timestamp::now();
    println!("Now {}", ts.secs);
}

#[test]
fn elapsed_counts_seconds_and_clamps_at_zero() {
    let ts = Timestamp::from_secs(1000);
    assert_eq!(ts.elapsed_at(1060), 60);
    assert_eq!(ts.elapsed_at(1000), 0);
    assert_eq!(ts.elapsed_at(900), 0);
}

#[test]
fn parse_selection_reads_plain_decimal_numbers() {
    assert_eq!(parse_selection("1"), Some(1));
    assert_eq!(parse_selection("12"), Some(12));
    assert_eq!(parse_selection("007"), Some(7));
    assert_eq!(parse_selection("0"), Some(0));
}

#[test]
fn parse_selection_rejects_everything_else() {
    assert_eq!(parse_selection(""), None);
    assert_eq!(parse_selection("abc"), None);
    assert_eq!(parse_selection("1a"), None);
    assert_eq!(parse_selection("-3"), None);
    assert_eq!(parse_selection(" 2"), None);
    assert_eq!(parse_selection("99999999999999999999999999"), None);
}
