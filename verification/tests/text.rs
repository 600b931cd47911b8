use xdr::text::{chars_of, contains, push_decimal, skip_chars, starts_with, string_of};

fn decimal_string(n: u64) -> String {
    let mut out = String::new();
    push_decimal(&mut out, n);
    out
}

#[test]
fn decimal_of_numbers() {
    assert_eq!(decimal_string(0), "0");
    assert_eq!(decimal_string(7), "7");
    assert_eq!(decimal_string(10), "10");
    assert_eq!(decimal_string(402), "402");
    assert_eq!(decimal_string(10_000_001), "10000001");
    assert_eq!(decimal_string(u64::MAX), "18446744073709551615");
}

#[test]
fn push_decimal_appends() {
    let mut out = String::from("Block: ");
    push_decimal(&mut out, 120);
    push_decimal(&mut out, 0);
    assert_eq!(out, "Block: 1200");
}

#[test]
fn contains_finds_substrings() {
    assert!(contains("/paid/data", "paid"));
    assert!(contains("/api/unpaid", "paid"));
    assert!(contains("paid", "paid"));
    assert!(contains("xpaid", "paid"));
    assert!(contains("anything", ""));
    assert!(contains("", ""));
    assert!(!contains("", "paid"));
    assert!(!contains("/pai/d", "paid"));
    assert!(!contains("pai", "paid"));
    assert!(!contains("/PAID", "paid"));
    assert!(contains("/p\u{e9}age/paid", "paid"));
}

#[test]
fn starts_with_checks_the_prefix() {
    assert!(starts_with("L402 abc", "L402 "));
    assert!(starts_with("L402 ", "L402 "));
    assert!(starts_with("abc", ""));
    assert!(!starts_with("L402", "L402 "));
    assert!(!starts_with("l402 abc", "L402 "));
    assert!(!starts_with(" L402 abc", "L402 "));
    assert!(!starts_with("", "L402 "));
}

#[test]
fn skip_chars_drops_the_front() {
    assert_eq!(skip_chars("L402 abc", 5), "abc");
    assert_eq!(skip_chars("L402 ", 5), "");
    assert_eq!(skip_chars("abc", 0), "abc");
    assert_eq!(skip_chars("\u{e9}\u{e9}x", 2), "x");
}

#[test]
fn chars_and_strings_convert_back_and_forth() {
    let chars = chars_of("h\u{e9}llo");
    assert_eq!(chars, vec!['h', '\u{e9}', 'l', 'l', 'o']);
    assert_eq!(string_of(&chars), "h\u{e9}llo");
    assert_eq!(string_of(&Vec::new()), "");
}
