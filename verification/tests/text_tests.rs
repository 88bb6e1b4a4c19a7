use gorkforge::text::{
    chars_of, concat3, contains_char, contains_str, debug_opt_string, debug_opt_u32, debug_str,
    decimal_string, is_blank, join_strings, lines_of, parse_unsigned_str, replace_all_chars,
    replace_first_chars, split_words, starts_with_str, str_eq, string_from, to_ascii_lowercase,
    trim_str,
};

fn s(v: &Vec<char>) -> String {
    v.iter().collect()
}

#[test]
fn chars_round_trip() {
    let v = chars_of("héllo");
    assert_eq!(v, vec!['h', 'é', 'l', 'l', 'o']);
    assert_eq!(string_from(&v), "héllo");
}

#[test]
fn contains_and_prefix() {
    assert!(contains_str("hello world", "lo w"));
    assert!(contains_str("abc", ""));
    assert!(!contains_str("abc", "abcd"));
    assert!(starts_with_str("feature/x", "feature/"));
    assert!(!starts_with_str("feat", "feature/"));
    assert!(contains_char("a|b", '|'));
    assert!(!contains_char("ab", '|'));
    assert!(str_eq("same", "same"));
    assert!(!str_eq("same", "Same"));
}

#[test]
fn lowercase_is_ascii_only() {
    assert_eq!(to_ascii_lowercase("SELF_Approved: YES Ä"), "self_approved: yes Ä");
}

#[test]
fn trim_matches_std() {
    for t in ["  a b \t\n", "", "   ", "x", "\u{3000}wide\u{a0}", " \r\nline\r\n"] {
        assert_eq!(trim_str(t), t.trim());
        assert_eq!(is_blank(t), t.trim().is_empty());
    }
}

#[test]
fn words_match_split_whitespace() {
    for t in ["git  status --short", "", "   ", " a\tb\nc ", "one"] {
        let got: Vec<String> = split_words(t).iter().map(s).collect();
        let want: Vec<String> = t.split_whitespace().map(|x| x.to_string()).collect();
        assert_eq!(got, want);
    }
}

#[test]
fn lines_match_std() {
    for t in ["a\nb", "a\r\nb\r\n", "", "\n", "x\r", "a\n\nb\n", "a\rb\n"] {
        let got: Vec<String> = lines_of(t).iter().map(s).collect();
        let want: Vec<String> = t.lines().map(|x| x.to_string()).collect();
        assert_eq!(got, want, "input {:?}", t);
    }
}

#[test]
fn replace_matches_std() {
    let cases = [("aaa", "aa", "b"), ("abcabc", "bc", "X"), ("abc", "", "-"), ("", "", "-"), ("abc", "z", "y"), ("", "a", "b")];
    for (text, from, to) in cases {
        let t = chars_of(text);
        let f = chars_of(from);
        let r = chars_of(to);
        assert_eq!(s(&replace_all_chars(&t, &f, &r)), text.replace(from, to));
        assert_eq!(s(&replace_first_chars(&t, &f, &r)), text.replacen(from, to, 1));
    }
}

#[test]
fn decimals() {
    assert_eq!(decimal_string(0), "0");
    assert_eq!(decimal_string(7), "7");
    assert_eq!(decimal_string(10), "10");
    assert_eq!(decimal_string(500000), "500000");
    assert_eq!(decimal_string(u128::MAX), u128::MAX.to_string());
}

#[test]
fn parsing_matches_str_parse() {
    for t in ["0", "42", "+7", "+", "-1", "", " 5", "18446744073709551615", "18446744073709551616", "12a"] {
        assert_eq!(parse_unsigned_str(t, u64::MAX), t.parse::<u64>().ok(), "input {:?}", t);
    }
    for t in ["255", "256", "3", "0"] {
        assert_eq!(parse_unsigned_str(t, 255).map(|v| v as u8), t.parse::<u8>().ok());
    }
}

#[test]
fn join_and_concat() {
    let parts = vec!["a".to_string(), "b".to_string(), "c".to_string()];
    assert_eq!(join_strings(&parts, ", "), "a, b, c");
    assert_eq!(join_strings(&Vec::new(), ", "), "");
    assert_eq!(concat3("x", "y", "z"), "xyz");
}

#[test]
fn debug_formatting() {
    assert_eq!(debug_str("a\"b"), "\"a\\\"b\"");
    assert_eq!(debug_opt_string(&Some("s".to_string())), "Some(\"s\")");
    assert_eq!(debug_opt_string(&None), "None");
    assert_eq!(debug_opt_u32(Some(5)), "Some(5)");
    assert_eq!(debug_opt_u32(None), "None");
}

#[test]
fn trimming_twice_changes_nothing() {
    for t in ["  a  ", "\u{2000}x\u{2000} ", "", "y"] {
        let once = trim_str(t);
        assert_eq!(trim_str(&once), once);
    }
}
