use increment_ui::num::increment;
use increment_ui::num::parse_u64;
use increment_ui::num::u64_to_string;

#[test]
fn increment_small_values() {
    assert_eq!(increment(0), 1);
    assert_eq!(increment(41), 42);
    assert_eq!(increment(999), 1000);
}

#[test]
fn increment_just_below_max() {
    assert_eq!(increment(u64::MAX - 1), u64::MAX);
}

#[test]
fn parse_plain_number() {
    assert_eq!(parse_u64("41"), Some(41));
    assert_eq!(parse_u64("0"), Some(0));
    assert_eq!(parse_u64("007"), Some(7));
}

#[test]
fn parse_with_leading_plus() {
    assert_eq!(parse_u64("+41"), Some(41));
    assert_eq!(parse_u64("+"), None);
}

#[test]
fn parse_rejects_non_numeric() {
    assert_eq!(parse_u64("abc"), None);
    assert_eq!(parse_u64(""), None);
    assert_eq!(parse_u64("4a"), None);
    assert_eq!(parse_u64("-1"), None);
    assert_eq!(parse_u64(" 41"), None);
    assert_eq!(parse_u64("41 "), None);
}

#[test]
fn parse_at_the_u64_boundary() {
    assert_eq!(parse_u64("18446744073709551615"), Some(u64::MAX));
    assert_eq!(parse_u64("18446744073709551616"), None);
    assert_eq!(parse_u64("99999999999999999999999999"), None);
}

#[test]
fn format_small_values() {
    assert_eq!(u64_to_string(0), "0");
    assert_eq!(u64_to_string(7), "7");
    assert_eq!(u64_to_string(42), "42");
    assert_eq!(u64_to_string(1000), "1000");
}

#[test]
fn format_large_values() {
    assert_eq!(u64_to_string(1234567890), "1234567890");
    assert_eq!(u64_to_string(u64::MAX), "18446744073709551615");
}

#[test]
fn parse_inverts_format() {
    for n in [0u64, 1, 9, 10, 41, 1000, u64::MAX] {
        assert_eq!(parse_u64(&u64_to_string(n)), Some(n));
    }
}
