use bacli::text::{i64_to_string, parse_i64, str_eq, u64_to_string};
use bacli::wire::StringOrInt;

#[test]
fn test_into_string() {
    let s = StringOrInt::String("world".to_string()).into_string();
    assert_eq!(s, "world");

    let i = StringOrInt::Int(456).into_string();
    assert_eq!(i, "456");
}

#[test]
fn test_into_i64() {
    let s = StringOrInt::String("789".to_string()).into_i64();
    assert_eq!(s, Some(789));

    let i = StringOrInt::Int(999).into_i64();
    assert_eq!(i, Some(999));

    let invalid = StringOrInt::String("not_a_number".to_string()).into_i64();
    assert_eq!(invalid, None);
}

#[test]
fn as_str_and_as_int_discriminate() {
    let s = StringOrInt::String("hello".to_string());
    assert_eq!(s.as_str(), Some("hello"));
    assert_eq!(s.as_int(), None);

    let i = StringOrInt::Int(42);
    assert_eq!(i.as_str(), None);
    assert_eq!(i.as_int(), Some(42));
}

#[test]
fn unsigned_rendering() {
    assert_eq!(u64_to_string(0), "0");
    assert_eq!(u64_to_string(7), "7");
    assert_eq!(u64_to_string(1024), "1024");
    assert_eq!(u64_to_string(u64::MAX), "18446744073709551615");
}

#[test]
fn signed_rendering() {
    assert_eq!(i64_to_string(0), "0");
    assert_eq!(i64_to_string(-1), "-1");
    assert_eq!(i64_to_string(i64::MAX), "9223372036854775807");
    assert_eq!(i64_to_string(i64::MIN), "-9223372036854775808");
}

#[test]
fn parsing_accepts_the_decimal_grammar() {
    assert_eq!(parse_i64("789"), Some(789));
    assert_eq!(parse_i64("+42"), Some(42));
    assert_eq!(parse_i64("-17"), Some(-17));
    assert_eq!(parse_i64("007"), Some(7));
    assert_eq!(parse_i64("9223372036854775807"), Some(i64::MAX));
    assert_eq!(parse_i64("-9223372036854775808"), Some(i64::MIN));
}

#[test]
fn parsing_rejects_malformed_and_overflowing_input() {
    assert_eq!(parse_i64(""), None);
    assert_eq!(parse_i64("-"), None);
    assert_eq!(parse_i64("+"), None);
    assert_eq!(parse_i64("12a"), None);
    assert_eq!(parse_i64(" 5"), None);
    assert_eq!(parse_i64("9223372036854775808"), None);
    assert_eq!(parse_i64("-9223372036854775809"), None);
}

#[test]
fn rendering_then_parsing_round_trips() {
    for v in [0i64, 1, -1, 456, -456, i64::MAX, i64::MIN] {
        assert_eq!(parse_i64(&i64_to_string(v)), Some(v));
    }
}

#[test]
fn string_equality_is_by_characters() {
    assert!(str_eq("abc", "abc"));
    assert!(!str_eq("abc", "abd"));
    assert!(!str_eq("abc", "ab"));
    assert!(str_eq("", ""));
}
