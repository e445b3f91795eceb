//! The text helpers on concrete values.

use blink_compiler::ir::timestamp::format_timestamp;
use blink_compiler::text::{
    chars_of, concat2, concat3, decimal_len, has_suffix, parse_number, push_decimal, push_padded, push_str,
    without_ends, without_first, without_trailing,
};

fn decimal(n: u64) -> String {
    let mut out = Vec::new();
    push_decimal(&mut out, n);
    out.into_iter().collect()
}

fn padded(n: u64, width: usize) -> String {
    let mut out = Vec::new();
    push_padded(&mut out, n, width);
    out.into_iter().collect()
}

#[test]
fn decimal_digits() {
    assert_eq!(decimal(0), "0");
    assert_eq!(decimal(7), "7");
    assert_eq!(decimal(10), "10");
    assert_eq!(decimal(1234567890), "1234567890");
    assert_eq!(decimal(u64::MAX), "18446744073709551615");
    assert_eq!(decimal_len(0), 1);
    assert_eq!(decimal_len(9), 1);
    assert_eq!(decimal_len(10), 2);
    assert_eq!(decimal_len(u64::MAX), 20);
}

#[test]
fn padding_adds_zeros_in_front() {
    assert_eq!(padded(5, 2), "05");
    assert_eq!(padded(12, 2), "12");
    assert_eq!(padded(123, 2), "123");
    assert_eq!(padded(0, 4), "0000");
    assert_eq!(padded(1970, 4), "1970");
    assert_eq!(padded(7, 0), "7");
}

#[test]
fn numbers_are_read_within_their_bound() {
    assert_eq!(parse_number("0", 10), Some(0));
    assert_eq!(parse_number("10", 10), Some(10));
    assert_eq!(parse_number("11", 10), None);
    assert_eq!(parse_number("007", 10), Some(7));
    assert_eq!(parse_number("", 10), None);
    assert_eq!(parse_number("1a", 100), None);
    assert_eq!(parse_number("-1", 100), None);
    assert_eq!(parse_number("+1", 100), None);
    assert_eq!(parse_number("9223372036854775807", i64::MAX as u64), Some(9223372036854775807));
    assert_eq!(parse_number("9223372036854775808", i64::MAX as u64), None);
    assert_eq!(parse_number("18446744073709551615", u64::MAX), Some(u64::MAX));
    assert_eq!(parse_number("18446744073709551616", u64::MAX), None);
    assert_eq!(parse_number("99999999999999999999999999", u64::MAX), None);
    assert_eq!(parse_number("2147483647", i32::MAX as u64), Some(2147483647));
    assert_eq!(parse_number("2147483648", i32::MAX as u64), None);
    assert_eq!(parse_number("5", 0), None);
    assert_eq!(parse_number("0", 0), Some(0));
}

#[test]
fn slicing() {
    assert_eq!(without_ends("\"abc\""), "abc");
    assert_eq!(without_ends("''"), "");
    assert_eq!(without_ends("x"), "");
    assert_eq!(without_ends(""), "");
    assert_eq!(without_ends("\"é\""), "é");
    assert_eq!(without_first("@goblin"), "goblin");
    assert_eq!(without_first(""), "");
    assert_eq!(without_trailing("10.50d", 'd'), "10.50");
    assert_eq!(without_trailing("10.50ddd", 'd'), "10.50");
    assert_eq!(without_trailing("10.50", 'd'), "10.50");
    assert_eq!(without_trailing("ddd", 'd'), "");
}

#[test]
fn joining_and_suffixes() {
    assert_eq!(concat2("ab", "cd"), "abcd");
    assert_eq!(concat3("a", "", "c"), "ac");
    assert_eq!(chars_of("héllo"), vec!['h', 'é', 'l', 'l', 'o']);
    let mut out = vec!['x'];
    push_str(&mut out, "yz");
    assert_eq!(out, vec!['x', 'y', 'z']);
    assert!(has_suffix(&chars_of("a/b.bcl"), ".bcl"));
    assert!(!has_suffix(&chars_of("a/b.bcl2"), ".bcl"));
    assert!(!has_suffix(&chars_of("bcl"), ".bcl"));
    assert!(has_suffix(&chars_of(".bcl"), ".bcl"));
    assert!(has_suffix(&chars_of("x"), ""));
}

#[test]
fn timestamps() {
    assert_eq!(format_timestamp(0), "1970-01-01T00:00:00Z");
    assert_eq!(format_timestamp(59), "1970-01-01T00:00:59Z");
    assert_eq!(format_timestamp(3661), "1970-01-01T01:01:01Z");
    assert_eq!(format_timestamp(86399), "1970-01-01T23:59:59Z");
    assert_eq!(format_timestamp(86400), "1970-01-02T00:00:00Z");
    // every month has 30 days
    assert_eq!(format_timestamp(30 * 86400), "1970-02-01T00:00:00Z");
    // days 360 to 364 of a year would be a 13th month; the month is capped
    assert_eq!(format_timestamp(360 * 86400), "1970-12-01T00:00:00Z");
    assert_eq!(format_timestamp(364 * 86400), "1970-12-05T00:00:00Z");
    // every year has 365 days
    assert_eq!(format_timestamp(365 * 86400), "1971-01-01T00:00:00Z");
    assert_eq!(format_timestamp(1_700_000_000), "2023-12-01T22:13:20Z");
    assert_eq!(format_timestamp(u64::MAX), "584942419325-01-27T07:00:15Z");
}
