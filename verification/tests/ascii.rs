use pg_idna::idna_is_ascii;
use pg_idna::text::{bytes_eq, str_eq};

#[test]
fn ascii_text_is_ascii() {
    assert!(idna_is_ascii("example.com"));
    assert!(idna_is_ascii("xn--strae-oqa.de"));
    assert!(idna_is_ascii("A-Z 0-9 !~"));
}

#[test]
fn the_empty_text_is_ascii() {
    assert!(idna_is_ascii(""));
}

#[test]
fn text_with_a_high_byte_is_not_ascii() {
    assert!(!idna_is_ascii("straße.de"));
    assert!(!idna_is_ascii("é"));
    assert!(!idna_is_ascii("abc\u{FFFD}"));
    assert!(!idna_is_ascii("\u{1F600}abc"));
}

#[test]
fn the_limit_lies_between_127_and_128() {
    assert!(idna_is_ascii("\u{7f}"));
    assert!(idna_is_ascii("\0"));
    assert!(!idna_is_ascii("\u{80}"));
}

#[test]
fn is_ascii_agrees_with_the_bytes() {
    for text in ["", "abc", "straße", "a\u{80}", "\u{7f}\u{7f}", "日本語.jp"] {
        assert_eq!(idna_is_ascii(text), text.bytes().all(|b| b < 0x80));
    }
}

#[test]
fn byte_slices_are_compared_by_content() {
    assert!(bytes_eq(b"", b""));
    assert!(bytes_eq(b"abc", b"abc"));
    assert!(!bytes_eq(b"abc", b"abd"));
    assert!(!bytes_eq(b"abc", b"ab"));
    assert!(!bytes_eq(b"ab", b"abc"));
    assert!(!bytes_eq(b"xbc", b"abc"));
}

#[test]
fn strings_are_compared_by_content() {
    assert!(str_eq("", ""));
    assert!(str_eq("url", "url"));
    assert!(str_eq("straße", "straße"));
    assert!(!str_eq("url", "URL"));
    assert!(!str_eq("url", "url "));
    assert!(!str_eq("check", "check_first_last"));
}
