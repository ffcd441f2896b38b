use blur_launcher::text::{
    contains_str, double_quotes, push_decimal, push_signed_decimal, same_text, trim, white_space,
};

#[test]
fn contains_finds_inner_pattern() {
    assert!(contains_str("intel wi-fi 6 ax201", "wi-fi"));
    assert!(!contains_str("intel wifi", "wi-fi"));
    assert!(contains_str("abc", ""));
    assert!(!contains_str("ab", "abc"));
    assert!(contains_str("abc", "abc"));
    assert!(contains_str("aab", "ab"));
}

#[test]
fn decimal_formats_numbers() {
    let mut s = String::new();
    push_decimal(&mut s, 0);
    assert_eq!(s, "0");
    let mut s = String::from("x");
    push_decimal(&mut s, 1056);
    assert_eq!(s, "x1056");
    let mut s = String::new();
    push_decimal(&mut s, u64::MAX);
    assert_eq!(s, "18446744073709551615");
    let mut s = String::new();
    push_signed_decimal(&mut s, -42);
    assert_eq!(s, "-42");
    let mut s = String::new();
    push_signed_decimal(&mut s, i64::MIN);
    assert_eq!(s, "-9223372036854775808");
}

#[test]
fn trim_removes_unicode_white_space() {
    assert_eq!(trim("  Ok.\r\n"), "Ok.");
    assert_eq!(trim("\u{3000}text\u{a0}"), "text");
    assert_eq!(trim("   "), "");
    assert_eq!(trim(""), "");
    assert_eq!(trim("a b"), "a b");
    assert!(white_space('\u{85}'));
    assert!(!white_space('x'));
}

#[test]
fn trim_agrees_with_std() {
    for s in ["\t x \n", " \u{2028}y\u{2009}", "z", "\u{200b}w"] {
        assert_eq!(trim(s), s.trim());
    }
}

#[test]
fn quotes_are_doubled() {
    assert_eq!(double_quotes("O'Brien's"), "O''Brien''s");
    assert_eq!(double_quotes("plain"), "plain");
    assert_eq!(double_quotes("'"), "''");
}

#[test]
fn same_text_compares() {
    assert!(same_text("virtual", "virtual"));
    assert!(!same_text("virtual", "Virtual"));
    assert!(!same_text("virtual", "virtua"));
}
