use stressor_leads::text::{decimal_text, starts_with, strip_prefix};

#[test]
fn decimal_text_of_numbers() {
    assert_eq!(decimal_text(0), "0");
    assert_eq!(decimal_text(7), "7");
    assert_eq!(decimal_text(10), "10");
    assert_eq!(decimal_text(400), "400");
    assert_eq!(decimal_text(u64::MAX), "18446744073709551615");
}

#[test]
fn prefixes_compare_by_characters() {
    assert!(starts_with("-- comment", "--"));
    assert!(starts_with("abc", ""));
    assert!(!starts_with("-", "--"));
    assert!(!starts_with("a-b", "--"));
    assert!(starts_with("éa", "é"));
    assert_eq!(strip_prefix("Bearer tök", "Bearer "), Some("tök".to_string()));
    assert_eq!(strip_prefix("Bear", "Bearer "), None);
    assert_eq!(strip_prefix("xyz", ""), Some("xyz".to_string()));
}
