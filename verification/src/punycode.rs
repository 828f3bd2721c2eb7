//! A cheap test for the prefix that marks a Punycode label.

use vstd::prelude::*;

verus! {

/// The bytes `X`, `N`, `-`, `-`, packed with the first byte lowest.
pub const PUNYCODE_PREFIX: u32 = 0x2D2D_4E58;

/// Clears the ASCII case bit of the two letters and keeps both hyphens whole.
pub const PUNYCODE_PREFIX_MASK: u32 = 0xFFFF_DFDF;

/// The four bytes spell `xn--`, the letters in either case.
pub open spec fn is_punycode_prefix(b0: u8, b1: u8, b2: u8, b3: u8) -> bool {
    &&& (b0 == 0x78 || b0 == 0x58)
    &&& (b1 == 0x6E || b1 == 0x4E)
    &&& b2 == 0x2D
    &&& b3 == 0x2D
}

/// The sequence has at least four bytes and starts with the Punycode prefix.
pub open spec fn has_punycode_prefix(bytes: Seq<u8>) -> bool {
    bytes.len() >= 4 && is_punycode_prefix(bytes[0], bytes[1], bytes[2], bytes[3])
}

/// Four bytes as one word, the first byte lowest.
pub open spec fn pack(b0: u8, b1: u8, b2: u8, b3: u8) -> u32 {
    ((b3 as u32) << 24) | ((b2 as u32) << 16) | ((b1 as u32) << 8) | (b0 as u32)
}

/// Masking the packed word and comparing it with the packed prefix decides
/// exactly whether the four bytes spell the prefix.
pub proof fn lemma_masked_word_decides_prefix(b0: u8, b1: u8, b2: u8, b3: u8)
    ensures
        (pack(b0, b1, b2, b3) & PUNYCODE_PREFIX_MASK) == PUNYCODE_PREFIX <==> is_punycode_prefix(
            b0,
            b1,
            b2,
            b3,
        ),
{
    assert((((b3 as u32) << 24) | ((b2 as u32) << 16) | ((b1 as u32) << 8) | (b0 as u32))
        & 0xFFFF_DFDFu32 == 0x2D2D_4E58u32 <==> ((b0 == 0x78 || b0 == 0x58) && (b1 == 0x6E || b1
        == 0x4E) && b2 == 0x2D && b3 == 0x2D)) by (bit_vector);
}

/// The test reads the first four bytes and nothing else: two sequences
/// that agree on them get the same answer, whatever follows the prefix.
pub proof fn lemma_only_first_four_bytes_count(a: Seq<u8>, b: Seq<u8>)
    requires
        a.len() >= 4,
        b.len() >= 4,
        a.subrange(0, 4) == b.subrange(0, 4),
    ensures
        has_punycode_prefix(a) == has_punycode_prefix(b),
{
    assert forall|i: int| 0 <= i < 4 implies a[i] == b[i] by {
        assert(a.subrange(0, 4)[i] == a[i]);
        assert(b.subrange(0, 4)[i] == b[i]);
    }
}

/// Says whether `slice` looks like a Punycode label: whether it starts with
/// `xn--`, the letters in either case.
///
/// This is a hint. Only the first four bytes are read, so what follows the
/// prefix may be invalid Punycode, or no ASCII at all.
pub fn idna_is_punycode(slice: &[u8]) -> (looks_encoded: bool)
    ensures
        looks_encoded == has_punycode_prefix(slice@),
        slice@.len() < 4 ==> !looks_encoded,
        slice@.len() >= 4 ==> (looks_encoded <==> is_punycode_prefix(
            slice@[0],
            slice@[1],
            slice@[2],
            slice@[3],
        )),
{
    if slice.len() < 4 {
        return false;
    }
    let a: u8 = slice[0];
    let b: u8 = slice[1];
    let c: u8 = slice[2];
    let d: u8 = slice[3];
    let u: u32 = ((d as u32) << 24) | ((c as u32) << 16) | ((b as u32) << 8) | (a as u32);
    proof {
        lemma_masked_word_decides_prefix(a, b, c, d);
    }
    (u & PUNYCODE_PREFIX_MASK) == PUNYCODE_PREFIX
}

} // verus!
