use email_cli::chars::{chars_of, is_ascii_alphabetic, is_whitespace, trim_str};
use email_cli::fmt::{
    concat3, i64_to_decimal, join_strings, normalize_email, starts_with, str_eq, u64_to_decimal,
    usize_to_decimal,
};

#[test]
fn decimal_renderings() {
    assert_eq!(u64_to_decimal(0), "0");
    assert_eq!(u64_to_decimal(u64::MAX), u64::MAX.to_string());
    assert_eq!(usize_to_decimal(1234), "1234");
    assert_eq!(i64_to_decimal(-17), "-17");
    assert_eq!(i64_to_decimal(i64::MIN), i64::MIN.to_string());
    assert_eq!(i64_to_decimal(i64::MAX), i64::MAX.to_string());
}

#[test]
fn string_helpers() {
    assert!(str_eq("abc", "abc"));
    assert!(!str_eq("abc", "abd"));
    assert!(!str_eq("ab", "abc"));
    assert!(starts_with("re: hello", "re:"));
    assert!(!starts_with("re", "re:"));
    assert_eq!(email_cli::fmt::concat("a", "b"), "ab");
    assert_eq!(concat3("a", "-", "b"), "a-b");
    let parts = vec!["x".to_string(), "y".to_string(), "z".to_string()];
    assert_eq!(join_strings(&parts, ", "), "x, y, z");
    assert_eq!(join_strings(&vec![], ", "), "");
}

#[test]
fn lowercase_and_normalize() {
    assert_eq!(normalize_email("HeLLo ÄÖ"), "hello äö");
    assert_eq!(normalize_email("  Me@Example.COM \n"), "me@example.com");
}

#[test]
fn char_helpers() {
    let v = chars_of("añb");
    assert_eq!(v, vec!['a', 'ñ', 'b']);
    assert_eq!(trim_str(" añb "), "añb");
    for c in [' ', '\t', '\n', '\u{3000}', '\u{a0}', 'x', '0'] {
        assert_eq!(is_whitespace(c), c.is_whitespace());
    }
    for c in ['a', 'Z', 'é', '1', '~'] {
        assert_eq!(is_ascii_alphabetic(c), c.is_ascii_alphabetic());
    }
}
