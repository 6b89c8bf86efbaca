use wootili_view::text::{decimal_string, push_decimal, same_text};

#[test]
fn decimal_of_small_and_large_numbers() {
    assert_eq!(decimal_string(0), "0");
    assert_eq!(decimal_string(7), "7");
    assert_eq!(decimal_string(10), "10");
    assert_eq!(decimal_string(2000), "2000");
    assert_eq!(decimal_string(1234567890), "1234567890");
    assert_eq!(decimal_string(u32::MAX), "4294967295");
}

#[test]
fn decimal_agrees_with_std() {
    for n in (0u32..100_000).step_by(37) {
        assert_eq!(decimal_string(n), n.to_string());
    }
}

#[test]
fn push_decimal_appends() {
    let mut text = String::from("Week ");
    push_decimal(&mut text, 14);
    assert_eq!(text, "Week 14");
}

#[test]
fn same_text_compares_characters() {
    assert!(same_text("", ""));
    assert!(same_text("Wooting One", "Wooting One"));
    assert!(!same_text("Wooting One", "Wooting Two"));
    assert!(!same_text("Wooting One", "Wooting On"));
}
