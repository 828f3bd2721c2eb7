use pg_idna::idna_is_punycode;
use pg_idna::punycode::{PUNYCODE_PREFIX, PUNYCODE_PREFIX_MASK};

#[test]
fn upper_case_prefix_is_recognised() {
    assert!(idna_is_punycode(b"XN--abc"));
}

#[test]
fn wrong_second_letter_is_refused() {
    assert!(!idna_is_punycode(b"xy--abc"));
}

#[test]
fn three_bytes_are_too_short() {
    assert!(!idna_is_punycode(b"xn-"));
}

#[test]
fn every_input_under_four_bytes_is_refused() {
    assert!(!idna_is_punycode(b""));
    assert!(!idna_is_punycode(b"x"));
    assert!(!idna_is_punycode(b"xn"));
    assert!(!idna_is_punycode(b"XN-"));
    assert!(!idna_is_punycode(b"---"));
}

#[test]
fn all_four_case_combinations_are_recognised() {
    assert!(idna_is_punycode(b"xn--"));
    assert!(idna_is_punycode(b"Xn--"));
    assert!(idna_is_punycode(b"xN--"));
    assert!(idna_is_punycode(b"XN--"));
}

#[test]
fn the_bare_prefix_is_enough() {
    assert!(idna_is_punycode(b"xn--"));
}

#[test]
fn what_follows_the_prefix_is_not_read() {
    assert!(idna_is_punycode(b"xn--!!!!"));
    assert!(idna_is_punycode(b"xn--.."));
    assert!(idna_is_punycode(&[b'x', b'n', b'-', b'-', 0xFF, 0x00, 0x80]));
    assert!(idna_is_punycode("xn--straße".as_bytes()));
}

#[test]
fn hyphens_are_not_case_folded() {
    // 0x0D is the hyphen with the case bit cleared.
    assert!(!idna_is_punycode(&[b'x', b'n', 0x0D, b'-', b'a']));
    assert!(!idna_is_punycode(&[b'x', b'n', b'-', 0x0D, b'a']));
    assert!(!idna_is_punycode(&[b'x', b'n', 0x0D, 0x0D, b'a']));
}

#[test]
fn letters_fold_only_over_the_case_bit() {
    // 0xF8 and 0xEE are `x` and `n` with the top bit set.
    assert!(!idna_is_punycode(&[0xF8, b'n', b'-', b'-']));
    assert!(!idna_is_punycode(&[b'x', 0xEE, b'-', b'-']));
    assert!(!idna_is_punycode(b"yn--abc"));
    assert!(!idna_is_punycode(b"xm--abc"));
}

#[test]
fn a_single_hyphen_is_not_the_prefix() {
    assert!(!idna_is_punycode(b"xn-a"));
    assert!(!idna_is_punycode(b"xna-"));
    assert!(!idna_is_punycode(b"xn_-abc"));
    assert!(!idna_is_punycode(b"x-n-abc"));
}

#[test]
fn the_prefix_must_stand_first() {
    assert!(!idna_is_punycode(b" xn--abc"));
    assert!(!idna_is_punycode(b"axn--abc"));
    assert!(!idna_is_punycode(b"www.xn--abc"));
}

#[test]
fn the_packed_constants_spell_the_prefix() {
    assert_eq!(PUNYCODE_PREFIX, u32::from_le_bytes([b'X', b'N', b'-', b'-']));
    assert_eq!(PUNYCODE_PREFIX_MASK, u32::from_le_bytes([0xDF, 0xDF, 0xFF, 0xFF]));
}
