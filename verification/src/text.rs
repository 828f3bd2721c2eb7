//! Text as bytes: equality of strings, and the ASCII test.

use vstd::prelude::*;
use vstd::string::*;
use vstd::utf8::*;

verus! {

/// Every byte of the sequence is in the range 0 to 127.
pub open spec fn all_bytes_ascii(bytes: Seq<u8>) -> bool {
    forall|i: int| 0 <= i < bytes.len() ==> #[trigger] bytes[i] < 0x80
}

/// Says whether two byte slices hold the same bytes.
pub fn bytes_eq(a: &[u8], b: &[u8]) -> (same: bool)
    ensures
        same == (a@ == b@),
{
    if a.len() != b.len() {
        return false;
    }
    let mut i: usize = 0;
    while i < a.len()
        invariant
            a@.len() == b@.len(),
            i <= a@.len(),
            forall|j: int| 0 <= j < i ==> a@[j] == b@[j],
        decreases a@.len() - i,
    {
        if a[i] != b[i] {
            return false;
        }
        i += 1;
    }
    assert(a@ =~= b@);
    true
}

/// Says whether two strings hold the same characters.
pub fn str_eq(a: &str, b: &str) -> (same: bool)
    ensures
        same == (a@ == b@),
{
    let same = bytes_eq(a.as_bytes(), b.as_bytes());
    proof {
        encode_utf8_decode_utf8(a@);
        encode_utf8_decode_utf8(b@);
    }
    same
}

/// A character whose scalar value is at most 127 lies between U+0000 and
/// U+007F in the order of characters.
proof fn lemma_low_scalar_is_ascii_char(c: char)
    requires
        c as u32 <= 0x7F,
    ensures
        '\0' <= c <= '\u{7f}',
{
}

/// Text whose encoding holds no byte above 127 holds no character above
/// U+007F.
proof fn lemma_ascii_bytes_imply_ascii_chars(chars: Seq<char>)
    requires
        all_bytes_ascii(encode_utf8(chars)),
    ensures
        is_ascii_chars(chars),
    decreases chars.len(),
{
    if chars.len() > 0 {
        char_is_scalar(chars[0]);
        let scalar = chars[0] as u32;
        let head = encode_scalar(scalar);
        let rest = chars.drop_first();
        let bytes = encode_utf8(chars);
        assert(bytes == head + encode_utf8(rest));
        assert(bytes[0] == head[0]);
        assert(bytes[0] < 0x80);
        assert(leading_byte_width_2(scalar) >= 0x80) by (bit_vector);
        assert(leading_byte_width_3(scalar) >= 0x80) by (bit_vector);
        assert(leading_byte_width_4(scalar) >= 0x80) by (bit_vector);
        assert(has_width_1_encoding(scalar));
        assert forall|i: int| 0 <= i < encode_utf8(rest).len() implies #[trigger] encode_utf8(
            rest,
        )[i] < 0x80 by {
            assert(encode_utf8(rest)[i] == bytes[i + 1]);
        }
        lemma_ascii_bytes_imply_ascii_chars(rest);
        assert forall|i: int| 0 <= i < chars.len() implies '\0' <= #[trigger] chars[i]
            <= '\u{7f}' by {
            if i > 0 {
                assert(chars[i] == rest[i - 1]);
            } else {
                lemma_low_scalar_is_ascii_char(chars[0]);
            }
        }
    }
}

/// Text is ASCII exactly when every byte of its UTF-8 encoding is in the
/// range 0 to 127.
pub proof fn lemma_ascii_chars_iff_ascii_bytes(chars: Seq<char>)
    ensures
        is_ascii_chars(chars) <==> all_bytes_ascii(encode_utf8(chars)),
{
    if is_ascii_chars(chars) {
        is_ascii_chars_encode_utf8(chars);
        assert forall|i: int| 0 <= i < encode_utf8(chars).len() implies #[trigger] encode_utf8(
            chars,
        )[i] < 0x80 by {
            assert(chars[i] as u8 == encode_utf8(chars)[i]);
        }
    }
    if all_bytes_ascii(encode_utf8(chars)) {
        lemma_ascii_bytes_imply_ascii_chars(chars);
    }
}

/// Says whether `input` is ASCII: whether every byte of it is in the range
/// 0 to 127.
pub fn idna_is_ascii(input: &str) -> (ascii: bool)
    ensures
        ascii == all_bytes_ascii(input.spec_bytes()),
        ascii == is_ascii_chars(input@),
{
    proof {
        lemma_ascii_chars_iff_ascii_bytes(input@);
    }
    input.is_ascii()
}

} // verus!
