use fact::text::{
    char_is_whitespace, chars_eq, chars_of, copy_range, decimal_chars, extend_from, find_from,
    join_with, parse_u32_chars, split_chars, split_lines, str_eq, trim_chars, trim_matches_chars,
};

fn chars(s: &str) -> Vec<char> {
    s.chars().collect()
}

fn strings(v: Vec<Vec<char>>) -> Vec<String> {
    v.into_iter().map(|c| c.into_iter().collect()).collect()
}

#[test]
fn characters_of_a_text() {
    assert_eq!(chars_of("héllo"), vec!['h', 'é', 'l', 'l', 'o']);
    assert!(chars_of("").is_empty());
    assert!(str_eq("abc", "abc"));
    assert!(!str_eq("abc", "abd"));
    assert!(!str_eq("abc", "ab"));
    assert!(chars_eq(&chars("abc"), &chars("abc")));
    assert!(!chars_eq(&chars("abc"), &chars("abx")));
    assert!(!chars_eq(&chars("abc"), &chars("abcd")));
    assert!(chars_eq(&[], &[]));
}

#[test]
fn splitting_keeps_empty_pieces() {
    assert_eq!(strings(split_chars(&chars("a|b|c"), '|')), vec!["a", "b", "c"]);
    assert_eq!(strings(split_chars(&chars("abc"), '|')), vec!["abc"]);
    assert_eq!(strings(split_chars(&chars(""), '|')), vec![""]);
    assert_eq!(strings(split_chars(&chars("|"), '|')), vec!["", ""]);
    assert_eq!(strings(split_chars(&chars("a||b|"), '|')), vec!["a", "", "b", ""]);
    assert_eq!(strings(split_chars(&chars("|a"), '|')), vec!["", "a"]);
}

#[test]
fn lines_end_at_line_feeds() {
    assert_eq!(strings(split_lines(&chars("a\nb\n"))), vec!["a", "b"]);
    assert_eq!(strings(split_lines(&chars("a\nb"))), vec!["a", "b"]);
    assert_eq!(strings(split_lines(&chars("a\r\nb\r\n"))), vec!["a", "b"]);
    assert_eq!(strings(split_lines(&chars("\n\na\n\n"))), vec!["", "", "a", ""]);
    assert_eq!(strings(split_lines(&chars("a\r"))), vec!["a\r"]);
    assert_eq!(strings(split_lines(&chars("a\r\r\n"))), vec!["a\r"]);
    assert_eq!(strings(split_lines(&chars("\r\n"))), vec![""]);
    assert!(split_lines(&chars("")).is_empty());
}

#[test]
fn lines_agree_with_the_standard_library() {
    for text in ["", "\n", "a", "a\n", "a\r\n", "a\rb\n", "\r", "x\n\ny", "x\r\n\r\ny\r", "\n\r\n"] {
        let expected: Vec<String> = text.lines().map(|l| l.to_string()).collect();
        assert_eq!(strings(split_lines(&chars(text))), expected, "for {:?}", text);
    }
}

#[test]
fn trimming_removes_white_space_at_both_ends() {
    let s: String = trim_chars(&chars("  a b \t\n")).into_iter().collect();
    assert_eq!(s, "a b");
    assert!(trim_chars(&chars(" \n\t ")).is_empty());
    assert!(trim_chars(&chars("")).is_empty());
    let s: String = trim_chars(&chars("x")).into_iter().collect();
    assert_eq!(s, "x");
}

#[test]
fn white_space_is_what_the_standard_library_says() {
    for code in 0u32..0x3100 {
        if let Some(c) = char::from_u32(code) {
            assert_eq!(char_is_whitespace(c), c.is_whitespace(), "for {:?}", c);
        }
    }
    assert!(!char_is_whitespace('\u{FEFF}'));
    assert!(!char_is_whitespace(char::MAX));
}

#[test]
fn trimming_a_character_removes_its_runs_at_both_ends() {
    let t = |s: &str| -> String { trim_matches_chars(&chars(s), '"').into_iter().collect() };
    assert_eq!(t("\"abc\""), "abc");
    assert_eq!(t("\"\"a\"b\"\"\""), "a\"b");
    assert_eq!(t("abc"), "abc");
    assert_eq!(t("\"\"\""), "");
    assert_eq!(t(""), "");
}

#[test]
fn searching_and_copying() {
    let s = chars("a=b=c");
    assert_eq!(find_from(&s, 0, '='), 1);
    assert_eq!(find_from(&s, 1, '='), 1);
    assert_eq!(find_from(&s, 2, '='), 3);
    assert_eq!(find_from(&s, 4, '='), 5);
    assert_eq!(find_from(&s, 5, '='), 5);
    assert_eq!(copy_range(&s, 2, 5), chars("b=c"));
    assert!(copy_range(&s, 3, 3).is_empty());
    assert_eq!(join_with(&chars("1.0"), '-', &chars("2.el9")), chars("1.0-2.el9"));
    assert_eq!(join_with(&[], '/', &[]), vec!['/']);
    let mut v = vec![1u8, 2];
    extend_from(&mut v, &[3, 4]);
    assert_eq!(v, vec![1, 2, 3, 4]);
}

#[test]
fn decimal_numbers_are_read_like_the_standard_library_reads_them() {
    for text in [
        "0", "7", "42", "007", "+5", "+", "", "-1", "-0", "4294967295", "4294967296", "99999999999",
        "18446744073709551616", "1 ", " 1", "1a", "a1", "++1", "+-1", "1+", "0x10", "٣", "1_000",
        "00000000000000000004294967295",
    ] {
        assert_eq!(parse_u32_chars(&chars(text)), text.parse::<u32>().ok(), "for {:?}", text);
    }
}

#[test]
fn decimal_numbers_are_written_without_leading_zeros() {
    for n in [0u64, 1, 9, 10, 11, 99, 100, 818, 4294967295, u64::MAX] {
        let s: String = decimal_chars(n).into_iter().collect();
        assert_eq!(s, n.to_string());
    }
}
