//! Numbers as text, and rewriting of text.

use sidekick::text::{ends_with, push_decimal, replace_char, starts_with, to_chars};

fn decimal(n: u64) -> String {
    let mut s = String::new();
    push_decimal(&mut s, n);
    s
}

#[test]
fn push_decimal_renders_digits() {
    assert_eq!(decimal(0), "0");
    assert_eq!(decimal(7), "7");
    assert_eq!(decimal(10), "10");
    assert_eq!(decimal(12345), "12345");
    assert_eq!(decimal(u64::MAX), "18446744073709551615");
}

#[test]
fn push_decimal_appends() {
    let mut s = String::from("pid ");
    push_decimal(&mut s, 405);
    assert_eq!(s, "pid 405");
}

#[test]
fn replace_char_replaces_every_occurrence() {
    assert_eq!(replace_char("a'b'c", '\'', "''"), "a''b''c");
    assert_eq!(replace_char("'", '\'', "''"), "''");
    assert_eq!(replace_char("", 'x', "y"), "");
    assert_eq!(replace_char("plain", 'x', "y"), "plain");
    assert_eq!(replace_char("xxx", 'x', ""), "");
    assert_eq!(replace_char("h\u{e9}llo", '\u{e9}', "e"), "hello");
}

#[test]
fn to_chars_keeps_every_character() {
    assert_eq!(to_chars("a\u{e9}z"), vec!['a', '\u{e9}', 'z']);
    assert!(to_chars("").is_empty());
}

#[test]
fn starts_with_and_ends_with() {
    assert!(starts_with("/tmp/abc", "/tmp/"));
    assert!(starts_with("abc", ""));
    assert!(starts_with("abc", "abc"));
    assert!(!starts_with("abc", "abcd"));
    assert!(!starts_with("abc", "b"));
    assert!(ends_with("a.sock", ".sock"));
    assert!(ends_with("abc", ""));
    assert!(ends_with(".sock", ".sock"));
    assert!(!ends_with("sock", ".sock"));
    assert!(!ends_with("a.sock2", ".sock"));
}
