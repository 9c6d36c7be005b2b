use respondent_lib::text::{is_blank, is_whitespace, same_text, strip_prefix, trim};

#[test]
fn trim_matches_std_trim() {
    for s in ["", "   ", " a ", "\u{2028}x y\u{3000}", "\u{200b}z\u{200b}", "\u{1680}\u{205f}k"] {
        assert_eq!(trim(s), s.trim());
        assert_eq!(is_blank(s), s.trim().is_empty());
    }
    for c in ['\u{9}', '\u{a}', '\u{d}', ' ', '\u{85}', '\u{a0}', '\u{2000}', '\u{200a}', 'a', '\u{200b}', '\u{feff}'] {
        assert_eq!(is_whitespace(c), c.is_whitespace());
    }
}

#[test]
fn prefix_and_equality_helpers() {
    assert_eq!(strip_prefix("data: x", "data:"), Some(" x"));
    assert_eq!(strip_prefix("dat", "data:"), None);
    assert_eq!(strip_prefix("Data:", "data:"), None);
    assert!(same_text("héllo", "héllo"));
    assert!(!same_text("héllo", "hello"));
    assert!(!same_text("ab", "abc"));
}
