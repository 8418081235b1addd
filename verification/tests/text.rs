use ceviche::text::{
    chars_contain, chars_of, contains, decimal_string, matches_at, parse_u32_chars,
    parse_unsigned, signed_string, strip_leading_chars, sub_chars, trim_chars,
    char_is_whitespace,
};

fn chars(s: &str) -> Vec<char> {
    s.chars().collect()
}

#[test]
fn characters_of_a_string() {
    assert_eq!(chars_of(""), Vec::<char>::new());
    assert_eq!(chars_of("a●b"), vec!['a', '●', 'b']);
}

#[test]
fn substring_search() {
    assert!(contains("Active: active (running)", "active ("));
    assert!(contains("Active: inactive (dead)", "active ("));
    assert!(!contains("Active: failed", "active ("));
    assert!(contains("abc", ""));
    assert!(contains("", ""));
    assert!(!contains("", "a"));
    assert!(!contains("ab", "abc"));
    assert!(contains("abc", "abc"));
    assert!(contains("xxabc", "abc"));
    assert!(contains("aab", "ab"));
    assert!(!contains("abab", "abb"));
    assert!(contains("●ä●", "ä●"));
    assert!(chars_contain(&chars("hello"), &chars("ll")));
    assert!(!chars_contain(&chars("hello"), &chars("lll")));
}

#[test]
fn match_at_a_position() {
    let hay = chars("abcabc");
    let needle = chars("bc");
    assert!(!matches_at(&hay, &needle, 0));
    assert!(matches_at(&hay, &needle, 1));
    assert!(matches_at(&hay, &needle, 4));
    assert!(!matches_at(&hay, &needle, 5));
    assert!(!matches_at(&hay, &needle, 6));
    assert!(!matches_at(&hay, &needle, usize::MAX));
    assert!(matches_at(&hay, &chars(""), 6));
    assert!(!matches_at(&hay, &chars(""), 7));
}

#[test]
fn copy_of_a_range() {
    assert_eq!(sub_chars(&chars("abcdef"), 2, 4), chars("cd"));
    assert_eq!(sub_chars(&chars("abcdef"), 3, 3), chars(""));
    assert_eq!(sub_chars(&chars("abcdef"), 0, 6), chars("abcdef"));
}

#[test]
fn leading_repetitions_are_stripped() {
    assert_eq!(strip_leading_chars(&chars("MainPID=12"), &chars("MainPID=")), chars("12"));
    assert_eq!(strip_leading_chars(&chars("ababab-ab"), &chars("ab")), chars("-ab"));
    assert_eq!(strip_leading_chars(&chars("abab"), &chars("ab")), chars(""));
    assert_eq!(strip_leading_chars(&chars("xab"), &chars("ab")), chars("xab"));
    assert_eq!(strip_leading_chars(&chars("ab"), &chars("")), chars("ab"));
    assert_eq!(strip_leading_chars(&chars("a"), &chars("ab")), chars("a"));
}

#[test]
fn white_space_is_trimmed_on_both_sides() {
    assert_eq!(trim_chars(&chars("  a b \t\r\n")), chars("a b"));
    assert_eq!(trim_chars(&chars("")), chars(""));
    assert_eq!(trim_chars(&chars(" \n ")), chars(""));
    assert_eq!(trim_chars(&chars("x")), chars("x"));
    assert_eq!(trim_chars(&chars("\u{a0}\u{3000}x\u{2003}\u{85}")), chars("x"));
    assert_eq!(trim_chars(&chars("\u{200b}x")), chars("\u{200b}x"));
}

#[test]
fn white_space_agrees_with_the_standard_library() {
    let mut n: u32 = 0;
    while n <= 0x3100 {
        if let Some(c) = char::from_u32(n) {
            assert_eq!(char_is_whitespace(c), c.is_whitespace(), "U+{:04X}", n);
        }
        n += 1;
    }
}

#[test]
fn unsigned_numbers() {
    assert_eq!(parse_unsigned("0"), Some(0));
    assert_eq!(parse_unsigned("42"), Some(42));
    assert_eq!(parse_unsigned("+42"), Some(42));
    assert_eq!(parse_unsigned("0042"), Some(42));
    assert_eq!(parse_unsigned("4294967295"), Some(u32::MAX));
    assert_eq!(parse_unsigned("4294967296"), None);
    assert_eq!(parse_unsigned("42949672950"), None);
    assert_eq!(parse_unsigned(""), None);
    assert_eq!(parse_unsigned("+"), None);
    assert_eq!(parse_unsigned("++1"), None);
    assert_eq!(parse_unsigned("-1"), None);
    assert_eq!(parse_unsigned("1 "), None);
    assert_eq!(parse_unsigned("1a"), None);
    assert_eq!(parse_unsigned("٣"), None);
    assert_eq!(parse_u32_chars(&chars("17")), Some(17));
}

#[test]
fn unsigned_numbers_agree_with_the_standard_library() {
    for text in [
        "", "+", "-", "+0", "-0", "00", "9", "+9", "4294967295", "4294967296", "1_0", "0x10",
        " 1", "１",
    ] {
        assert_eq!(parse_unsigned(text), text.parse::<u32>().ok(), "{:?}", text);
    }
}

#[test]
fn numbers_in_base_ten() {
    assert_eq!(decimal_string(0), "0");
    assert_eq!(decimal_string(7), "7");
    assert_eq!(decimal_string(10), "10");
    assert_eq!(decimal_string(1234567890), "1234567890");
    assert_eq!(decimal_string(u64::MAX), "18446744073709551615");
    assert_eq!(signed_string(0), "0");
    assert_eq!(signed_string(-1), "-1");
    assert_eq!(signed_string(255), "255");
    assert_eq!(signed_string(i32::MIN), "-2147483648");
    assert_eq!(signed_string(i32::MAX), "2147483647");
}
