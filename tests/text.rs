use http_tui::text::{decimal_text, has_prefix};

#[test]
fn decimal_of_small_and_large_numbers() {
    assert_eq!(decimal_text(0), "0");
    assert_eq!(decimal_text(7), "7");
    assert_eq!(decimal_text(10), "10");
    assert_eq!(decimal_text(1234), "1234");
    assert_eq!(decimal_text(usize::MAX), usize::MAX.to_string());
}

#[test]
fn prefix_test() {
    assert!(has_prefix("https://a", "https://"));
    assert!(has_prefix("abc", ""));
    assert!(!has_prefix("http", "https"));
    assert!(!has_prefix("xhttp://", "http://"));
}
