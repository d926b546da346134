use luogu::paths::join_paths;
use luogu::text::{
    dec_chars, int_chars, is_blank, is_whitespace, lines_of, pad_left_chars,
    parse_i64, split_whitespace, str_contains, str_ends_with,
    str_eq, str_starts_with, str_trim, take_with_ellipsis_exec,
    to_ascii_uppercase, truncate_chars_exec, debug_list_exec,
};

fn cs(s: &str) -> Vec<char> {
    s.chars().collect()
}

fn st(v: &[char]) -> String {
    v.iter().collect()
}

#[test]
fn whitespace_matches_std() {
    for c in ['\t', '\n', '\u{b}', '\u{c}', '\r', ' ', '\u{85}', '\u{a0}', '\u{3000}', '\u{2028}'] {
        assert!(is_whitespace(c));
        assert_eq!(is_whitespace(c), c.is_whitespace());
    }
    for c in ['a', '0', '\u{200b}', '题'] {
        assert!(!is_whitespace(c));
    }
}

#[test]
fn split_whitespace_matches_std() {
    let s = "\u{3000}a b\u{a0}c\n\nd ";
    let want: Vec<String> = s.split_whitespace().map(|t| t.to_string()).collect();
    assert_eq!(split_whitespace(s), want);
    assert_eq!(split_whitespace(s), vec!["a", "b", "c", "d"]);
}

#[test]
fn string_predicates() {
    assert!(str_eq("abc", "abc"));
    assert!(!str_eq("abc", "abd"));
    assert!(str_contains("need 401 login", "401"));
    assert!(!str_contains("40", "401"));
    assert!(str_contains("x", ""));
    assert!(str_starts_with("c++17", "c++"));
    assert!(!str_starts_with("c", "c++"));
    assert!(str_ends_with("main.cpp", ".cpp"));
    assert!(!str_ends_with("cpp", ".cpp"));
}

#[test]
fn trimming() {
    assert_eq!(str_trim("  a b \n"), "a b");
    assert_eq!(str_trim("\u{3000}x\u{a0}"), "x");
    assert_eq!(str_trim(" \t "), "");
    assert!(is_blank(" \n\t"));
    assert!(is_blank(""));
    assert!(!is_blank(" x "));
}

#[test]
fn ascii_case() {
    assert_eq!(to_ascii_uppercase("o2 ç"), "O2 ç");
}

#[test]
fn lines_match_std() {
    for s in ["a\nb\r\nc", "a\n", "a\n\n", "\n", "", "x\r", "x\r\ny\r"] {
        let want: Vec<String> = s.lines().map(|l| l.to_string()).collect();
        let got: Vec<String> = lines_of(&cs(s)).iter().map(|l| st(l)).collect();
        assert_eq!(got, want, "lines of {:?}", s);
    }
}

#[test]
fn decimal_text() {
    assert_eq!(st(&dec_chars(0)), "0");
    assert_eq!(st(&dec_chars(18446744073709551615)), "18446744073709551615");
    assert_eq!(st(&int_chars(-42)), "-42");
    assert_eq!(st(&int_chars(i64::MIN)), i64::MIN.to_string());
}

#[test]
fn parsing_integers() {
    assert_eq!(parse_i64("123"), Some(123));
    assert_eq!(parse_i64("-123"), Some(-123));
    assert_eq!(parse_i64("+5"), Some(5));
    assert_eq!(parse_i64("9223372036854775807"), Some(i64::MAX));
    assert_eq!(parse_i64("-9223372036854775808"), Some(i64::MIN));
    assert_eq!(parse_i64("9223372036854775808"), None);
    assert_eq!(parse_i64(""), None);
    assert_eq!(parse_i64("-"), None);
    assert_eq!(parse_i64("12a"), None);
    assert_eq!(parse_i64(" 1"), None);
    for s in ["0", "007", "-0", "99999999999999999999"] {
        assert_eq!(parse_i64(s), s.parse::<i64>().ok(), "{}", s);
    }
}

#[test]
fn padding_and_cutting() {
    assert_eq!(st(&pad_left_chars(&cs("7"), 4)), "   7");
    assert_eq!(st(&pad_left_chars(&cs("12345"), 4)), "12345");
    assert_eq!(st(&take_with_ellipsis_exec(&cs("abcdef"), 3)), "abc...");
    assert_eq!(st(&take_with_ellipsis_exec(&cs("ab"), 3)), "ab...");
    assert_eq!(st(&truncate_chars_exec(&cs("abcdef"), 3)), "abc...");
    assert_eq!(st(&truncate_chars_exec(&cs("abc"), 3)), "abc");
}

#[test]
fn debug_lists() {
    let items = vec!["a".to_string(), "b\"c".to_string(), "\t".to_string()];
    assert_eq!(st(&debug_list_exec(&items)), format!("{:?}", items));
    assert_eq!(st(&debug_list_exec(&Vec::new())), "[]");
}

#[test]
fn joining_paths() {
    assert_eq!(join_paths("problem", "P1000"), "problem/P1000");
    assert_eq!(join_paths("problem/", "P1000"), "problem/P1000");
    assert_eq!(join_paths("", "P1000"), "P1000");
    assert_eq!(join_paths("problem", "/abs/x"), "/abs/x");
    let want = std::path::Path::new("a/b").join("c");
    assert_eq!(join_paths("a/b", "c"), want.to_str().unwrap());
}
