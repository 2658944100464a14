use photobooth::text::{
    chars_of, decimal_string, join_strings, lines_of, str_contains, str_ends_with, str_equal,
    trim_chars, words_of,
};

fn s(v: &[char]) -> String {
    v.iter().collect()
}

#[test]
fn decimal_renders_digits() {
    assert_eq!(decimal_string(0), "0");
    assert_eq!(decimal_string(7), "7");
    assert_eq!(decimal_string(1234567890), "1234567890");
    assert_eq!(decimal_string(u64::MAX), "18446744073709551615");
}

#[test]
fn contains_finds_substrings() {
    assert!(str_contains("Device or resource busy", "busy"));
    assert!(str_contains("abc", ""));
    assert!(!str_contains("Busy", "busy"));
    assert!(!str_contains("ab", "abc"));
}

#[test]
fn ends_with_checks_suffix() {
    assert!(str_ends_with("photo.jpeg", ".jpeg"));
    assert!(!str_ends_with("photo.jpeg", ".jpg"));
    assert!(!str_ends_with("g", ".jpg"));
}

#[test]
fn equality_of_texts() {
    assert!(str_equal("mock", "mock"));
    assert!(!str_equal("mock", "Mock"));
}

#[test]
fn lines_follow_std() {
    for text in ["", "a", "a\n", "a\r\nb", "a\n\nb\n", "\n", "x\r", "one\ntwo\r\n"] {
        let got: Vec<String> = lines_of(&chars_of(text)).iter().map(|l| s(l)).collect();
        let want: Vec<String> = text.lines().map(|l| l.to_string()).collect();
        assert_eq!(got, want, "lines of {:?}", text);
    }
}

#[test]
fn words_follow_std() {
    for text in ["", "  ", "printer Brother_HL is idle", "\ta  b\u{3000}c ", "x"] {
        let got: Vec<String> = words_of(&chars_of(text)).iter().map(|w| s(w)).collect();
        let want: Vec<String> = text.split_whitespace().map(|w| w.to_string()).collect();
        assert_eq!(got, want, "words of {:?}", text);
    }
}

#[test]
fn trim_follows_std() {
    for text in ["", "   ", " request-42 \n", "\u{a0}x y\u{2003}", "plain"] {
        let got = s(&trim_chars(&chars_of(text)));
        assert_eq!(got, text.trim(), "trim of {:?}", text);
    }
}

#[test]
fn join_puts_separators_between() {
    let parts = vec!["Ann".to_string(), "Bob".to_string(), "Cy".to_string()];
    assert_eq!(join_strings(&parts, ";"), "Ann;Bob;Cy");
    assert_eq!(join_strings(&Vec::new(), ";"), "");
    assert_eq!(join_strings(&vec!["solo".to_string()], ", "), "solo");
}

#[test]
fn line_count_follows_line_breaks() {
    assert_eq!(lines_of(&chars_of("a\nb")).len(), 2);
    assert_eq!(lines_of(&chars_of("a\nb\n")).len(), 2);
    assert_eq!(lines_of(&chars_of("\n\n")).len(), 2);
    assert_eq!(lines_of(&chars_of("")).len(), 0);
}
