use graf::text::{
    chars_of, joined, contains, decimal_text, parse_bool, parse_unsigned, replace_all_str, split_trimmed,
    str_eq,
};

#[test]
fn replacing_text() {
    assert_eq!(replace_all_str("a{x}b{x}", "{x}", "12"), "a12b12");
    assert_eq!(replace_all_str("aaa", "aa", "b"), "ba");
    assert_eq!(replace_all_str("none here", "{x}", "y"), "none here");
    assert_eq!(replace_all_str("", "{x}", "y"), "");
}

#[test]
fn finding_text() {
    assert!(contains("unknown theme: x", "theme"));
    assert!(!contains("unknown", "theme"));
    assert!(contains("abc", ""));
    assert!(!contains("", "a"));
}

#[test]
fn decimal_numbers() {
    assert_eq!(decimal_text(0), "0");
    assert_eq!(decimal_text(7), "7");
    assert_eq!(decimal_text(10), "10");
    assert_eq!(decimal_text(65535), "65535");
    assert_eq!(decimal_text(u64::MAX), "18446744073709551615");
}

#[test]
fn reading_numbers() {
    assert_eq!(parse_unsigned("42", u64::MAX), Some(42));
    assert_eq!(parse_unsigned("+42", u64::MAX), Some(42));
    assert_eq!(parse_unsigned("+", u64::MAX), None);
    assert_eq!(parse_unsigned("", u64::MAX), None);
    assert_eq!(parse_unsigned("-1", u64::MAX), None);
    assert_eq!(parse_unsigned(" 1", u64::MAX), None);
    assert_eq!(parse_unsigned("65535", 65535), Some(65535));
    assert_eq!(parse_unsigned("65536", 65535), None);
    assert_eq!(parse_unsigned("18446744073709551615", u64::MAX), Some(u64::MAX));
    assert_eq!(parse_unsigned("18446744073709551616", u64::MAX), None);
    assert_eq!(parse_unsigned("007", 255), Some(7));
}

#[test]
fn numbers_read_back() {
    for n in [0u64, 9, 10, 99, 100, 12345, u64::MAX] {
        assert_eq!(parse_unsigned(&decimal_text(n), u64::MAX), Some(n));
    }
}

#[test]
fn reading_booleans() {
    assert_eq!(parse_bool("true"), Some(true));
    assert_eq!(parse_bool("false"), Some(false));
    assert_eq!(parse_bool("True"), None);
    assert_eq!(parse_bool("1"), None);
}

#[test]
fn splitting_lists() {
    assert_eq!(split_trimmed(" a , b ,c", ','), vec!["a", "b", "c"]);
    assert_eq!(split_trimmed("", ','), vec![""]);
    assert_eq!(split_trimmed("a,", ','), vec!["a", ""]);
    assert_eq!(split_trimmed("one", ','), vec!["one"]);
}

#[test]
fn character_conversions() {
    assert_eq!(chars_of("héllo"), vec!['h', 'é', 'l', 'l', 'o']);
    assert_eq!(split_trimmed("  x y \t", ','), vec!["x y"]);
    assert!(str_eq("abc", "abc"));
    assert!(!str_eq("abc", "abd"));
    assert_eq!(joined("ab", "cd"), "abcd");
}

#[test]
fn trimming_unicode_white_space() {
    assert_eq!(split_trimmed("\u{3000}x\u{a0}", ','), vec!["x"]);
    assert_eq!(split_trimmed("\u{2009} a b \u{85}", ','), vec!["a b"]);
    assert_eq!(split_trimmed(" \t\n ", ','), vec![""]);
    // A character outside White_Space stays.
    assert_eq!(split_trimmed("\u{200b}x", ','), vec!["\u{200b}x"]);
    for s in ["  a ", "\u{3000}b\u{2028}", "c", "", " \u{a0} "] {
        assert_eq!(split_trimmed(s, ','), vec![s.trim()]);
    }
}
