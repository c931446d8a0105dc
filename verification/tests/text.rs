use broadcast_relay::utils::text::{parse_i64, push_decimal, push_signed_decimal};

fn decimal(n: u64) -> String {
    let mut out = String::new();
    push_decimal(&mut out, n);
    out
}

fn signed(n: i64) -> String {
    let mut out = String::new();
    push_signed_decimal(&mut out, n);
    out
}

#[test]
fn decimal_notation_of_unsigned_numbers() {
    assert_eq!(decimal(0), "0");
    assert_eq!(decimal(7), "7");
    assert_eq!(decimal(10), "10");
    assert_eq!(decimal(1234567890), "1234567890");
    assert_eq!(decimal(u64::MAX), "18446744073709551615");
}

#[test]
fn decimal_notation_is_appended() {
    let mut out = String::from("n=");
    push_decimal(&mut out, 42);
    push_signed_decimal(&mut out, -1);
    assert_eq!(out, "n=42-1");
}

#[test]
fn decimal_notation_of_signed_numbers() {
    assert_eq!(signed(0), "0");
    assert_eq!(signed(-1), "-1");
    assert_eq!(signed(305), "305");
    assert_eq!(signed(i64::MAX), "9223372036854775807");
    assert_eq!(signed(i64::MIN), "-9223372036854775808");
    assert_eq!(signed(i32::MIN as i64), "-2147483648");
}

#[test]
fn parse_agrees_with_std() {
    let cases = [
        "", "+", "-", "0", "-0", "+0", "7", "+7", "-7", "007", "-007", "12a", "a12", " 12", "12 ",
        "1_000", "--1", "+-1", "-+1", "1.0", "0x10", "9223372036854775807", "9223372036854775808",
        "-9223372036854775808", "-9223372036854775809", "+9223372036854775807",
        "00000000000000000000000000009223372036854775807", "99999999999999999999999999999",
        "-99999999999999999999999999999", "184467440737095516160", "\u{661}\u{662}", "1\u{0}",
        "12345678901234567890123456789012345678901234567890",
    ];
    for text in cases {
        assert_eq!(parse_i64(text), text.parse::<i64>().ok(), "{text:?}");
    }
}

#[test]
fn parse_exact_values() {
    assert_eq!(parse_i64("42"), Some(42));
    assert_eq!(parse_i64("-42"), Some(-42));
    assert_eq!(parse_i64("+42"), Some(42));
    assert_eq!(parse_i64("-9223372036854775808"), Some(i64::MIN));
    assert_eq!(parse_i64("9223372036854775807"), Some(i64::MAX));
    assert_eq!(parse_i64("9223372036854775808"), None);
    assert_eq!(parse_i64("abc"), None);
    assert_eq!(parse_i64(""), None);
}

#[test]
fn parse_and_print_round_trip() {
    for n in [0i64, 1, -1, 9, 10, -10, 99, 100, 65535, -65536, i64::MAX, i64::MIN] {
        assert_eq!(parse_i64(&signed(n)), Some(n));
        assert_eq!(signed(n), n.to_string());
    }
}
