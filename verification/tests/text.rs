use remipn::text::{
    chars_of, contains, is_whitespace, lines, matches_at, push_decimal, same_chars, same_text,
    split, starts_with, string_of, words,
};

fn cs(s: &str) -> Vec<char> {
    s.chars().collect()
}

fn strs(parts: &[Vec<char>]) -> Vec<String> {
    parts.iter().map(|p| p.iter().collect()).collect()
}

#[test]
fn chars_and_back() {
    assert_eq!(chars_of("héllo"), vec!['h', 'é', 'l', 'l', 'o']);
    assert_eq!(chars_of(""), Vec::<char>::new());
    assert_eq!(string_of(&cs("héllo wörld")), "héllo wörld");
    assert_eq!(string_of(&cs("")), "");
}

#[test]
fn lines_follow_line_feeds() {
    assert_eq!(strs(&lines(&cs("a\nb\nc"))), vec!["a", "b", "c"]);
    assert_eq!(strs(&lines(&cs("a\nb\n"))), vec!["a", "b"]);
    assert_eq!(strs(&lines(&cs("a\n\nb"))), vec!["a", "", "b"]);
    assert_eq!(strs(&lines(&cs("\n"))), vec![""]);
    assert!(lines(&cs("")).is_empty());
    assert_eq!(strs(&lines(&cs("single"))), vec!["single"]);
}

#[test]
fn lines_drop_carriage_return_before_line_feed() {
    assert_eq!(strs(&lines(&cs("a\r\nb\r\n"))), vec!["a", "b"]);
    assert_eq!(strs(&lines(&cs("a\r\r\nb"))), vec!["a\r", "b"]);
    assert_eq!(strs(&lines(&cs("a\rb\n"))), vec!["a\rb"]);
    assert_eq!(strs(&lines(&cs("a\r"))), vec!["a\r"]);
}

#[test]
fn lines_agree_with_std() {
    for text in ["", "\n", "\r\n", "x", "x\n", "x\r\ny", "x\n\r\n\ny\r", "\r", "a\n\rb\n"] {
        let want: Vec<String> = text.lines().map(|l| l.to_string()).collect();
        assert_eq!(strs(&lines(&cs(text))), want, "{:?}", text);
    }
}

#[test]
fn split_keeps_empty_fields() {
    assert_eq!(strs(&split(&cs("a:b:c"), ':')), vec!["a", "b", "c"]);
    assert_eq!(strs(&split(&cs("a::c"), ':')), vec!["a", "", "c"]);
    assert_eq!(strs(&split(&cs(":"), ':')), vec!["", ""]);
    assert_eq!(strs(&split(&cs(""), ':')), vec![""]);
    assert_eq!(strs(&split(&cs("abc"), ':')), vec!["abc"]);
    assert_eq!(strs(&split(&cs("a:"), ':')), vec!["a", ""]);
}

#[test]
fn split_agrees_with_std() {
    for text in ["", ":", "a:b", "::", "name:vpn:activated:10.0.0.1/24", "x:"] {
        let want: Vec<String> = text.split(':').map(|l| l.to_string()).collect();
        assert_eq!(strs(&split(&cs(text), ':')), want, "{:?}", text);
    }
}

#[test]
fn words_are_runs_without_spaces() {
    assert_eq!(strs(&words(&cs("  hello   world "))), vec!["hello", "world"]);
    assert_eq!(strs(&words(&cs("\tinet 10.0.0.2 --> 10.0.0.1"))), vec!["inet", "10.0.0.2", "-->", "10.0.0.1"]);
    assert!(words(&cs("   \t\n")).is_empty());
    assert!(words(&cs("")).is_empty());
    assert_eq!(strs(&words(&cs("one"))), vec!["one"]);
    assert_eq!(strs(&words(&cs("a\u{00A0}b\u{3000}c"))), vec!["a", "b", "c"]);
}

#[test]
fn words_agree_with_std() {
    for text in ["", " ", "a b", " a  b ", "x\ty\nz", "a\u{2003}b", "a\u{200B}b", "\u{0085}q"] {
        let want: Vec<String> = text.split_whitespace().map(|l| l.to_string()).collect();
        assert_eq!(strs(&words(&cs(text))), want, "{:?}", text);
    }
}

#[test]
fn whitespace_agrees_with_std() {
    for code in 0u32..0x3100 {
        if let Some(c) = char::from_u32(code) {
            assert_eq!(is_whitespace(c), c.is_whitespace(), "U+{:04X}", code);
        }
    }
    assert!(!is_whitespace('\u{FEFF}'));
    assert!(!is_whitespace('\u{10FFFF}'));
}

#[test]
fn contains_finds_runs() {
    assert!(contains(&cs("Disconnected"), &cs("connected")));
    assert!(!contains(&cs("Disconnected"), &cs("Connected")));
    assert!(contains(&cs("abc"), &cs("")));
    assert!(contains(&cs(""), &cs("")));
    assert!(!contains(&cs(""), &cs("a")));
    assert!(!contains(&cs("ab"), &cs("abc")));
    assert!(contains(&cs("aab"), &cs("ab")));
    assert!(contains(&cs("xvpn"), &cs("vpn")));
}

#[test]
fn matches_at_checks_one_place() {
    assert!(matches_at(&cs("hello"), &cs("ell"), 1));
    assert!(!matches_at(&cs("hello"), &cs("ell"), 0));
    assert!(!matches_at(&cs("hello"), &cs("lo"), 4));
    assert!(matches_at(&cs("hello"), &cs(""), 5));
    assert!(!matches_at(&cs("hello"), &cs(""), 6));
    assert!(starts_with(&cs("utun3"), &cs("utun")));
    assert!(!starts_with(&cs("en0"), &cs("utun")));
    assert!(!starts_with(&cs("utu"), &cs("utun")));
}

#[test]
fn same_text_compares_characters() {
    assert!(same_text("abc", "abc"));
    assert!(!same_text("abc", "abd"));
    assert!(!same_text("abc", "ab"));
    assert!(same_text("", ""));
    assert!(same_chars(&cs("é"), &cs("é")));
    assert!(!same_chars(&cs("e"), &cs("é")));
}

#[test]
fn decimal_digits_are_written() {
    for (n, want) in [
        (0u64, "0"),
        (7, "7"),
        (10, "10"),
        (99, "99"),
        (100, "100"),
        (4_294_967_295, "4294967295"),
        (18_446_744_073_709_551_615, "18446744073709551615"),
    ] {
        let mut out = String::from("n=");
        push_decimal(&mut out, n);
        assert_eq!(out, format!("n={}", want));
    }
}
