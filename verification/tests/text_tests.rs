use github_stats::text::{
    chars_of, contains_char, parse_decimal, remove_class, split_once, strip_class, CharClass,
};

#[test]
fn parse_decimal_reads_plain_numbers() {
    assert_eq!(parse_decimal("0"), Some(0));
    assert_eq!(parse_decimal("42"), Some(42));
    assert_eq!(parse_decimal("007"), Some(7));
    assert_eq!(parse_decimal("1700000000"), Some(1_700_000_000));
}

#[test]
fn parse_decimal_accepts_a_leading_plus() {
    assert_eq!(parse_decimal("+7"), Some(7));
    assert_eq!(parse_decimal("+"), None);
    assert_eq!(parse_decimal("++7"), None);
}

#[test]
fn parse_decimal_rejects_what_is_no_number() {
    assert_eq!(parse_decimal(""), None);
    assert_eq!(parse_decimal("-1"), None);
    assert_eq!(parse_decimal("12a"), None);
    assert_eq!(parse_decimal(" 12"), None);
    assert_eq!(parse_decimal("12 "), None);
    assert_eq!(parse_decimal("1.5"), None);
    assert_eq!(parse_decimal("\u{0661}"), None);
}

#[test]
fn parse_decimal_stops_at_the_width() {
    assert_eq!(parse_decimal("18446744073709551615"), Some(u64::MAX));
    assert_eq!(parse_decimal("18446744073709551616"), None);
    assert_eq!(parse_decimal("99999999999999999999999"), None);
    assert_eq!(parse_decimal("184467440737095516150"), None);
}

#[test]
fn parse_decimal_agrees_with_the_standard_parser() {
    let samples = [
        "", "+", "-", "0", "+0", "-0", "1", "10", "0010", "4294967296", "18446744073709551615",
        "18446744073709551616", "2x", "x2", "1 ", "+1+", "٣", "１２",
    ];
    for s in samples {
        assert_eq!(parse_decimal(s), s.parse::<u64>().ok(), "{:?}", s);
    }
}

#[test]
fn strip_class_strips_both_ends_only() {
    assert_eq!(strip_class("  a b \t\n", CharClass::Whitespace), "a b");
    assert_eq!(strip_class("\u{a0}x\u{3000}", CharClass::Whitespace), "x");
    assert_eq!(strip_class("   ", CharClass::Whitespace), "");
    assert_eq!(strip_class("", CharClass::Whitespace), "");
    assert_eq!(strip_class("\"\"next\"", CharClass::Quote), "next");
    assert_eq!(strip_class("\"a\"b\"", CharClass::Quote), "a\"b");
    assert_eq!(strip_class(" \"next\"", CharClass::Quote), " \"next");
}

#[test]
fn strip_class_agrees_with_trim() {
    let samples = ["", " ", "a", " a", "a ", "\r\n a\u{2003}b \u{85}", "\u{200b}a", "\u{1680}z\u{205f}"];
    for s in samples {
        assert_eq!(strip_class(s, CharClass::Whitespace), s.trim(), "{:?}", s);
        assert_eq!(strip_class(s, CharClass::Quote), s.trim_matches('"'), "{:?}", s);
    }
}

#[test]
fn whitespace_class_is_the_unicode_property() {
    let mut c: u32 = 0;
    while c < 0x3100 {
        if let Some(ch) = char::from_u32(c) {
            assert_eq!(CharClass::Whitespace.has(ch), ch.is_whitespace(), "{:x}", c);
        }
        c += 1;
    }
    assert!(CharClass::Quote.has('"'));
    assert!(!CharClass::Quote.has('\''));
    assert!(CharClass::AngleBracket.has('<'));
    assert!(CharClass::AngleBracket.has('>'));
    assert!(!CharClass::AngleBracket.has('('));
}

#[test]
fn remove_class_takes_every_member_out() {
    assert_eq!(remove_class("<https://a.example/x>", CharClass::AngleBracket), "https://a.example/x");
    assert_eq!(remove_class("<a<b>c>", CharClass::AngleBracket), "abc");
    assert_eq!(remove_class("abc", CharClass::AngleBracket), "abc");
    assert_eq!(remove_class("", CharClass::AngleBracket), "");
    assert_eq!(remove_class("<é>", CharClass::AngleBracket), "é");
}

#[test]
fn split_once_splits_at_the_first_separator() {
    assert_eq!(split_once("a,b,c", ','), Some(("a".to_string(), "b,c".to_string())));
    assert_eq!(split_once(",x", ','), Some(("".to_string(), "x".to_string())));
    assert_eq!(split_once("x,", ','), Some(("x".to_string(), "".to_string())));
    assert_eq!(split_once("é;ü", ';'), Some(("é".to_string(), "ü".to_string())));
    assert_eq!(split_once("abc", ','), None);
    assert_eq!(split_once("", ','), None);
}

#[test]
fn contains_char_finds_a_character() {
    assert!(contains_char("a;b", ';'));
    assert!(!contains_char("ab", ';'));
    assert!(!contains_char("", ';'));
}

#[test]
fn chars_of_lists_every_character() {
    assert_eq!(chars_of("aé<"), vec!['a', 'é', '<']);
    assert_eq!(chars_of(""), Vec::<char>::new());
}
