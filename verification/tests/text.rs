use node_librespot::text::{contains, decimal_text, is_blank, same_text};

#[test]
fn white_space_is_what_the_standard_library_trims() {
    for c in '\0'..=char::MAX {
        let text = c.to_string();
        let listed = matches!(c,
            '\u{9}'..='\u{d}' | '\u{20}' | '\u{85}' | '\u{a0}' | '\u{1680}' | '\u{2000}'..='\u{200a}'
            | '\u{2028}' | '\u{2029}' | '\u{202f}' | '\u{205f}' | '\u{3000}');
        assert_eq!(is_blank(&text), listed, "{:?}", c);
    }
}

#[test]
fn blank_texts() {
    assert!(is_blank(""));
    assert!(is_blank(" \t\r\n\u{a0}"));
    assert!(!is_blank(" x "));
    assert!(!is_blank("\u{200b}"));
}

#[test]
fn substrings() {
    assert!(contains("audio key error", "key"));
    assert!(contains("audio key error", "audio key"));
    assert!(contains("audio key error", "error"));
    assert!(contains("anything", ""));
    assert!(contains("", ""));
    assert!(!contains("", "a"));
    assert!(!contains("ab", "abc"));
    assert!(!contains("audiokey", "audio key"));
    assert!(contains("aaab", "aab"));
    assert!(contains("grüße an alle", "üße"));
    for (text, part) in [("mississippi", "issip"), ("mississippi", "issim"), ("aaa", "aaaa")] {
        assert_eq!(contains(text, part), text.contains(part));
    }
}

#[test]
fn equal_texts() {
    assert!(same_text("", ""));
    assert!(same_text("off", "off"));
    assert!(!same_text("off", "Off"));
    assert!(!same_text("off", "off "));
}

#[test]
fn numerals() {
    assert_eq!(decimal_text(0), "0");
    assert_eq!(decimal_text(9), "9");
    assert_eq!(decimal_text(10), "10");
    assert_eq!(decimal_text(1024), "1024");
    assert_eq!(decimal_text(u64::MAX as u128), u64::MAX.to_string());
    assert_eq!(decimal_text(u128::MAX), u128::MAX.to_string());
}
