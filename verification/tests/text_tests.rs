use rustkeyboard::text::{
    concat2, concat3, escape_single_quotes, is_blank, is_whitespace, str_equal, wide_nul,
};

#[test]
fn equality_of_strings() {
    assert!(str_equal("abc", "abc"));
    assert!(!str_equal("abc", "abd"));
    assert!(!str_equal("ab", "abc"));
    assert!(str_equal("", ""));
    assert!(str_equal("Türkçe", "Türkçe"));
}

#[test]
fn concatenation() {
    assert_eq!(concat2("a", "bc"), "abc");
    assert_eq!(concat3("Error:", " ", "boom"), "Error: boom");
}

#[test]
fn whitespace_matches_std() {
    for c in ['\t', '\n', '\r', ' ', '\u{85}', '\u{a0}', '\u{2003}', '\u{3000}', 'a', '\u{200b}', 'x'] {
        assert_eq!(is_whitespace(c), c.is_whitespace(), "{:?}", c);
    }
    for s in ["", " ", " a ", "\u{2028}\u{2029}", "\u{feff}"] {
        assert_eq!(is_blank(s), s.trim().is_empty(), "{:?}", s);
    }
}

#[test]
fn quote_escaping() {
    assert_eq!(escape_single_quotes("it's"), "it''s");
    assert_eq!(escape_single_quotes("''"), "''''");
    assert_eq!(escape_single_quotes("plain"), "plain");
    assert_eq!(escape_single_quotes("C:\\é'ü"), "C:\\é''ü");
    assert_eq!(escape_single_quotes(""), "");
}

#[test]
fn wide_strings_match_std() {
    for s in ["", "RKTray", "Rust Keyboard LED Controller", "Türkçe", "\u{1F4BE} save"] {
        let expected: Vec<u16> = s.encode_utf16().chain(std::iter::once(0)).collect();
        assert_eq!(wide_nul(s), expected);
    }
}
