use fresh_product_backend::text::{chars_of, contains, is_blank, is_white_space, starts_with};

#[test]
fn blank_texts_are_only_white_space() {
    assert!(is_blank(""));
    assert!(is_blank("   \t\n\r"));
    assert!(is_blank("\u{3000}\u{a0}"));
    assert!(!is_blank(" a "));
    assert!(!is_blank("x"));
}

#[test]
fn white_space_matches_std() {
    for c in ['\t', '\n', '\u{b}', '\u{c}', '\r', ' ', '\u{85}', '\u{a0}', '\u{1680}', '\u{2000}', '\u{200a}', '\u{2028}', '\u{2029}', '\u{202f}', '\u{205f}', '\u{3000}', 'a', '0', '\u{200b}', '\u{feff}', '_'] {
        assert_eq!(is_white_space(c), c.is_whitespace(), "{:?}", c);
    }
}

#[test]
fn prefixes() {
    assert!(starts_with("https://a", "http"));
    assert!(starts_with("http", "http"));
    assert!(!starts_with("htt", "http"));
    assert!(!starts_with("//img", "http"));
    assert!(starts_with("abc", ""));
}

#[test]
fn substrings() {
    assert!(contains("abcd", "cd"));
    assert!(contains("abcd", ""));
    assert!(!contains("abcd", "ce"));
    assert!(!contains("ab", "abc"));
    assert!(contains("Извините, Нам очень жаль, но", "Нам очень жаль"));
}

#[test]
fn characters_in_order() {
    assert_eq!(chars_of("añb"), vec!['a', 'ñ', 'b']);
    assert_eq!(chars_of(""), Vec::<char>::new());
}
