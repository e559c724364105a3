use e_signature_api::text::{
    chars_of, has_prefix, i64_to_string, join, parse_integer, text_eq, u64_to_string,
};

#[test]
fn numerals() {
    assert_eq!(u64_to_string(0), "0");
    assert_eq!(u64_to_string(7), "7");
    assert_eq!(u64_to_string(1234567890), "1234567890");
    assert_eq!(u64_to_string(u64::MAX), "18446744073709551615");
    assert_eq!(i64_to_string(-1), "-1");
    assert_eq!(i64_to_string(42), "42");
    assert_eq!(i64_to_string(i64::MIN), "-9223372036854775808");
    assert_eq!(i64_to_string(i64::MAX), "9223372036854775807");
}

#[test]
fn comparison_and_joining() {
    assert!(text_eq("abc", "abc"));
    assert!(!text_eq("abc", "abd"));
    assert!(!text_eq("abc", "ab"));
    assert_eq!(join("ab", "cd"), "abcd");
    assert_eq!(join("", "é"), "é");
}

#[test]
fn integers_are_read_as_written() {
    assert_eq!(parse_integer("0", i64::MIN, i64::MAX), Some(0));
    assert_eq!(parse_integer("42", i64::MIN, i64::MAX), Some(42));
    assert_eq!(parse_integer("+42", i64::MIN, i64::MAX), Some(42));
    assert_eq!(parse_integer("-42", i64::MIN, i64::MAX), Some(-42));
    assert_eq!(parse_integer("007", i64::MIN, i64::MAX), Some(7));
    assert_eq!(parse_integer("-0", i64::MIN, i64::MAX), Some(0));
    assert_eq!(parse_integer("9223372036854775807", i64::MIN, i64::MAX), Some(i64::MAX));
    assert_eq!(parse_integer("-9223372036854775808", i64::MIN, i64::MAX), Some(i64::MIN));
    assert_eq!(parse_integer("9223372036854775808", i64::MIN, i64::MAX), None);
    assert_eq!(parse_integer("-9223372036854775809", i64::MIN, i64::MAX), None);
    assert_eq!(parse_integer("99999999999999999999999999999999999999999", i64::MIN, i64::MAX), None);
    for bad in ["", "+", "-", "1a", "a1", " 1", "1 ", "--1", "+-1", "1.0", "١"] {
        assert_eq!(parse_integer(bad, i64::MIN, i64::MAX), None);
        assert_eq!(bad.parse::<i64>().ok(), None);
    }
    for good in ["0", "+5", "-5", "0005", "-000", "123456789"] {
        assert_eq!(parse_integer(good, i64::MIN, i64::MAX), good.parse::<i64>().ok());
    }
    assert_eq!(parse_integer("128", -128, 127), None);
    assert_eq!(parse_integer("-128", -128, 127), Some(-128));
}

#[test]
fn characters_and_prefixes() {
    assert_eq!(chars_of("aé✅"), vec!['a', 'é', '✅']);
    assert!(has_prefix(&chars_of("Bearer x"), &chars_of("Bearer ")));
    assert!(has_prefix(&chars_of("abc"), &chars_of("")));
    assert!(!has_prefix(&chars_of("ab"), &chars_of("abc")));
    assert!(!has_prefix(&chars_of("abd"), &chars_of("abc")));
}
