use beep_sfu::text::parse_u64;
use beep_sfu::text::str_eq;
use beep_sfu::text::str_starts_with;
use beep_sfu::text::u64_to_dec;

#[test]
fn renders_decimal_exactly() {
    assert_eq!(u64_to_dec(0), "0");
    assert_eq!(u64_to_dec(7), "7");
    assert_eq!(u64_to_dec(57), "57");
    assert_eq!(u64_to_dec(1000), "1000");
    assert_eq!(u64_to_dec(1234567890123456789), "1234567890123456789");
    assert_eq!(u64_to_dec(u64::MAX), "18446744073709551615");
}

#[test]
fn parses_decimal_exactly() {
    assert_eq!(parse_u64("0"), Some(0));
    assert_eq!(parse_u64("57"), Some(57));
    assert_eq!(parse_u64("007"), Some(7));
    assert_eq!(parse_u64("+57"), Some(57));
    assert_eq!(parse_u64("18446744073709551615"), Some(u64::MAX));
}

#[test]
fn rejects_malformed_decimals() {
    assert_eq!(parse_u64(""), None);
    assert_eq!(parse_u64("+"), None);
    assert_eq!(parse_u64("12a"), None);
    assert_eq!(parse_u64("-5"), None);
    assert_eq!(parse_u64(" 5"), None);
    assert_eq!(parse_u64("++5"), None);
}

#[test]
fn rejects_values_that_overflow() {
    assert_eq!(parse_u64("18446744073709551616"), None);
    assert_eq!(parse_u64("99999999999999999999999"), None);
}

#[test]
fn rendering_then_parsing_round_trips() {
    for n in [0u64, 1, 9, 10, 99, 100, 4242, u64::MAX - 1, u64::MAX] {
        assert_eq!(parse_u64(&u64_to_dec(n)), Some(n));
    }
}

#[test]
fn string_equality_is_by_characters() {
    assert!(str_eq("transport", "transport"));
    assert!(!str_eq("transport", "transports"));
    assert!(!str_eq("transport", "Transport"));
    assert!(str_eq("", ""));
    assert!(str_eq("\u{e9}\u{2713}", "\u{e9}\u{2713}"));
}

#[test]
fn prefix_test_is_by_characters() {
    assert!(str_starts_with("ThreadId(3)", "ThreadId"));
    assert!(str_starts_with("actix-rt|system:0", "actix"));
    assert!(!str_starts_with("main", "ThreadId"));
    assert!(str_starts_with("anything", ""));
    assert!(!str_starts_with("", "a"));
}
