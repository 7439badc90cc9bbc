use batch_remux::text::{
    chars_of, i64_to_string, is_blank_str, is_whitespace, join_strings, parse_u64, parse_usize,
    str_eq, str_eq_ignore_ascii_case, string_of_range, to_ascii_lowercase, trim_end_matches_str,
    trim_end_str, trim_start_char_str, trim_str, u64_to_string, usize_to_string,
};

#[test]
fn characters_round_trip() {
    let chars = chars_of("héllo ✓");
    assert_eq!(chars.len(), 7);
    assert_eq!(string_of_range(&chars, 0, chars.len()), "héllo ✓");
    assert_eq!(string_of_range(&chars, 1, 3), "él");
    assert_eq!(string_of_range(&chars, 4, 4), "");
}

#[test]
fn string_equality_is_by_characters() {
    assert!(str_eq("abc", "abc"));
    assert!(!str_eq("abc", "abd"));
    assert!(!str_eq("abc", "ab"));
    assert!(str_eq("", ""));
}

#[test]
fn parse_usize_agrees_with_the_standard_parser() {
    let samples = [
        "0", "7", "007", "42", "+5", "+", "", "-1", " 1", "1 ", "12a", "a12",
        "18446744073709551615", "18446744073709551616", "99999999999999999999999",
        "+0", "++1", "1+", "٣", "1_000",
    ];
    for s in samples {
        assert_eq!(parse_usize(s), s.parse::<usize>().ok(), "input {:?}", s);
        assert_eq!(parse_u64(s), s.parse::<u64>().ok(), "input {:?}", s);
    }
}

#[test]
fn parse_usize_exact_values() {
    assert_eq!(parse_usize("12"), Some(12));
    assert_eq!(parse_usize("+12"), Some(12));
    assert_eq!(parse_usize("x"), None);
    assert_eq!(parse_u64("18446744073709551615"), Some(u64::MAX));
    assert_eq!(parse_u64("18446744073709551616"), None);
}

#[test]
fn decimal_text_of_numbers() {
    assert_eq!(u64_to_string(0), "0");
    assert_eq!(u64_to_string(10), "10");
    assert_eq!(u64_to_string(u64::MAX), "18446744073709551615");
    assert_eq!(usize_to_string(305), "305");
    assert_eq!(i64_to_string(-1500), "-1500");
    assert_eq!(i64_to_string(250), "250");
    assert_eq!(i64_to_string(0), "0");
    assert_eq!(i64_to_string(i64::MIN), "-9223372036854775808");
    assert_eq!(i64_to_string(i64::MAX), "9223372036854775807");
}

#[test]
fn ascii_case_folding() {
    assert_eq!(to_ascii_lowercase("MKV"), "mkv");
    assert_eq!(to_ascii_lowercase("ÄbC1"), "Äbc1");
    assert!(str_eq_ignore_ascii_case("English", "eNGLISH"));
    assert!(!str_eq_ignore_ascii_case("English", "Englisch"));
    assert!(!str_eq_ignore_ascii_case("é", "É"));
    assert!(str_eq_ignore_ascii_case("", ""));
}

#[test]
fn trimming_removes_unicode_whitespace() {
    assert_eq!(trim_str("  a b \t\n"), "a b");
    assert_eq!(trim_str("\u{2003}x\u{00a0}"), "x");
    assert_eq!(trim_str("   "), "");
    assert_eq!(trim_str("abc"), "abc");
    assert!(is_blank_str(""));
    assert!(is_blank_str(" \t\u{3000}"));
    assert!(!is_blank_str(" . "));
}

#[test]
fn trailing_whitespace_is_cut() {
    assert_eq!(trim_end_str("  a b \t\n"), "  a b");
    assert_eq!(trim_end_str("\r\n"), "");
    for s in ["", " x", "x ", " x \u{2003}"] {
        assert_eq!(trim_end_str(s), s.trim_end(), "input {:?}", s);
    }
}

#[test]
fn trimming_agrees_with_the_standard_library() {
    for s in ["", " ", "a", " a", "a ", " a b ", "\u{feff}a", "\u{200b}", "\r\nx\r\n"] {
        assert_eq!(trim_str(s), s.trim(), "input {:?}", s);
        assert_eq!(is_blank_str(s), s.trim().is_empty(), "input {:?}", s);
    }
}

#[test]
fn joining_puts_the_separator_between_parts() {
    let parts = vec!["a".to_string(), "b".to_string(), "c".to_string()];
    assert_eq!(join_strings(&parts, ","), "a,b,c");
    assert_eq!(join_strings(&parts[..1].to_vec(), ","), "a");
    assert_eq!(join_strings(&Vec::new(), ","), "");
    assert_eq!(join_strings(&vec![String::new(), String::new()], ", "), ", ");
}

#[test]
fn suffixes_are_cut_as_often_as_they_stand() {
    for (s, suffix) in [
        ("movie.mkv", ".mkv"),
        ("movie.mkv.mkv", ".mkv"),
        ("movie", ".mkv"),
        (".mkv", ".mkv"),
        ("mkv", ".mkv"),
        ("a.mkvb", ".mkv"),
        ("abc", ""),
    ] {
        assert_eq!(trim_end_matches_str(s, suffix), s.trim_end_matches(suffix), "input {:?}", s);
    }
    assert_eq!(trim_end_matches_str("movie.mkv.mkv", ".mkv"), "movie");
}

#[test]
fn leading_characters_are_cut() {
    assert_eq!(trim_start_char_str("..mkv", '.'), "mkv");
    assert_eq!(trim_start_char_str("mkv.", '.'), "mkv.");
    assert_eq!(trim_start_char_str("...", '.'), "");
}

#[test]
fn whitespace_is_what_the_standard_library_calls_whitespace() {
    let mut count = 0;
    for n in 0..=0x10FFFFu32 {
        if let Some(c) = char::from_u32(n) {
            assert_eq!(is_whitespace(c), c.is_whitespace(), "character U+{:04X}", n);
            if is_whitespace(c) {
                count += 1;
            }
        }
    }
    assert_eq!(count, 25);
    assert!(is_whitespace(' '));
    assert!(is_whitespace('\u{3000}'));
    assert!(!is_whitespace('/'));
    assert!(!is_whitespace('\u{200b}'));
}
