//! Text between the boundary's representation and the host's.

use vstd::prelude::*;
use vstd::utf8::*;
use vstd::string::*;
use vstd::slice::*;
use crate::ffi::types::std_types::{
    CharString, MarshalError, TERMINATOR, lemma_text_end, terminator_free, text_end,
};

verus! {

/// The character that stands in a lossy reading for what could not be read.
pub const REPLACEMENT: char = '\u{FFFD}';

/// What `String::from_utf8_lossy` makes of bytes that are no valid UTF-8.
pub uninterp spec fn utf8_lossy(bytes: Seq<u8>) -> Seq<char>;

/// The text that bytes are read as: what they encode where they are valid
/// UTF-8, and else the lossy reading, in which a replacement character
/// stands for what is invalid.
pub open spec fn lossy_text(bytes: Seq<u8>) -> Seq<char> {
    if valid_utf8(bytes) {
        decode_utf8(bytes)
    } else {
        utf8_lossy(bytes)
    }
}

/// `String::from_utf8_lossy`, made an owned `String`. Bytes that are valid
/// UTF-8 give the text they encode. Other bytes give the lossy reading of
/// them, of which no more is claimed than that it depends on the bytes
/// alone and holds a replacement character.
#[verifier::external_body]
fn decode_lossy(bytes: &[u8]) -> (text: String)
    ensures
        valid_utf8(bytes@) ==> text@ == decode_utf8(bytes@),
        !valid_utf8(bytes@) ==> text@ == utf8_lossy(bytes@) && text@.contains(REPLACEMENT),
{
    String::from_utf8_lossy(bytes).into_owned()
}

/// Reads a boundary text as a host string. Never fails: bytes that are no
/// valid UTF-8 are read lossily.
pub fn cchar_to_string(c: &CharString) -> (text: String)
    ensures
        text@ == lossy_text(c@),
        !valid_utf8(c@) ==> text@.contains(REPLACEMENT),
{
    decode_lossy(c.as_bytes())
}

/// Reads the first `len` bytes of a region as a host string. Never fails:
/// bytes that are no valid UTF-8 are read lossily.
pub fn bytes_to_string_safe(src: &[u8], len: usize) -> (text: String)
    requires
        len <= src@.len(),
    ensures
        text@ == lossy_text(src@.take(len as int)),
        !valid_utf8(src@.take(len as int)) ==> text@.contains(REPLACEMENT),
{
    decode_lossy(slice_subrange(src, 0, len))
}

/// The boundary form of a host text: its UTF-8 bytes. A text whose bytes
/// hold a terminator has none, and the error names the place of the first.
pub open spec fn marshal_text(text: Seq<char>) -> Result<Seq<u8>, MarshalError> {
    let bytes = encode_utf8(text);
    if terminator_free(bytes) {
        Ok(bytes)
    } else {
        Err(MarshalError::InteriorTerminator(text_end(bytes) as usize))
    }
}

/// Among the bytes of a character there is a terminator only where the
/// character is the one numbered zero.
proof fn lemma_scalar_bytes(v: u32)
    requires
        is_scalar(v),
    ensures
        terminator_free(encode_scalar(v)) <==> v != 0,
{
    let bytes = encode_scalar(v);
    if has_width_1_encoding(v) {
        assert(((v & 0x7F) as u8 == 0u8) <==> v == 0) by (bit_vector)
            requires
                v <= 0x7F,
        ;
        assert(bytes[0] == leading_byte_width_1(v));
    } else {
        assert((0xC0u8 | ((v >> 6) & 0x1F) as u8) != 0u8) by (bit_vector);
        assert((0xE0u8 | ((v >> 12) & 0x0F) as u8) != 0u8) by (bit_vector);
        assert((0xF0u8 | ((v >> 18) & 0x7) as u8) != 0u8) by (bit_vector);
        assert((0x80u8 | (v & 0x3F) as u8) != 0u8) by (bit_vector);
        assert((0x80u8 | ((v >> 6) & 0x3F) as u8) != 0u8) by (bit_vector);
        assert((0x80u8 | ((v >> 12) & 0x3F) as u8) != 0u8) by (bit_vector);
    }
}

/// The bytes of a host text hold a terminator exactly where the text holds
/// the character numbered zero: such a text, and no other, has no boundary
/// form.
pub proof fn lemma_terminator_is_nul(text: Seq<char>)
    ensures
        terminator_free(encode_utf8(text)) <==> forall|i: int|
            0 <= i < text.len() ==> text[i] != '\0',
        marshal_text(text) is Ok <==> !text.contains('\0'),
    decreases text.len(),
{
    if text.len() > 0 {
        let first = encode_scalar(text[0] as u32);
        let rest = text.drop_first();
        let rest_bytes = encode_utf8(rest);
        let bytes = encode_utf8(text);
        lemma_terminator_is_nul(rest);
        char_is_scalar(text[0]);
        lemma_scalar_bytes(text[0] as u32);
        char_u32_cast(text[0], text[0] as u32);
        assert(text[0] != '\0' <==> text[0] as u32 != 0);
        assert(bytes == first + rest_bytes);
        if terminator_free(bytes) {
            assert forall|i: int| 0 <= i < first.len() implies first[i] != TERMINATOR by {
                assert(bytes[i] == first[i]);
            }
            assert forall|i: int| 0 <= i < rest_bytes.len() implies rest_bytes[i]
                != TERMINATOR by {
                assert(bytes[first.len() + i] == rest_bytes[i]);
            }
            assert forall|i: int| 0 <= i < text.len() implies text[i] != '\0' by {
                if i > 0 {
                    assert(text[i] == rest[i - 1]);
                }
            }
        }
        if forall|i: int| 0 <= i < text.len() ==> text[i] != '\0' {
            assert(text[0] != '\0');
            assert forall|i: int| 0 <= i < rest.len() implies rest[i] != '\0' by {
                assert(rest[i] == text[i + 1]);
            }
            assert(terminator_free(bytes));
        }
    }
    if text.contains('\0') {
        let i = choose|i: int| 0 <= i < text.len() && text[i] == '\0';
        assert(text[i] == '\0');
    }
}

/// Gives a host text its boundary form. A text that holds a terminator is
/// refused, not cut short.
pub fn str_to_cchar(s: &str) -> (converted: Result<CharString, MarshalError>)
    ensures
        converted matches Ok(c) ==> marshal_text(s@) == Ok::<Seq<u8>, MarshalError>(c@),
        converted matches Err(e) ==> marshal_text(s@) == Err::<Seq<u8>, MarshalError>(e),
{
    let bytes = s.as_bytes();
    let text = CharString::from_region(bytes);
    let at: usize = text.len();
    proof {
        lemma_text_end(bytes@);
    }
    if at == bytes.len() {
        assert(text@ =~= bytes@);
        Ok(text)
    } else {
        assert(bytes@[at as int] == TERMINATOR);
        Err(MarshalError::InteriorTerminator(at))
    }
}

/// `str_to_cchar` for a text that the caller gives away.
pub fn string_to_cchar(s: String) -> (converted: Result<CharString, MarshalError>)
    ensures
        converted matches Ok(c) ==> marshal_text(s@) == Ok::<Seq<u8>, MarshalError>(c@),
        converted matches Err(e) ==> marshal_text(s@) == Err::<Seq<u8>, MarshalError>(e),
{
    str_to_cchar(s.as_str())
}

/// Whether two host texts are the same text.
pub fn str_eq(a: &str, b: &str) -> (same: bool)
    ensures
        same == (a@ == b@),
{
    let x = a.as_bytes();
    let y = b.as_bytes();
    if x.len() != y.len() {
        return false;
    }
    let mut i: usize = 0;
    while i < x.len()
        invariant
            0 <= i <= x@.len(),
            x@.len() == y@.len(),
            x@ == encode_utf8(a@),
            y@ == encode_utf8(b@),
            forall|j: int| 0 <= j < i ==> x@[j] == y@[j],
        decreases x@.len() - i,
    {
        if x[i] != y[i] {
            return false;
        }
        i += 1;
    }
    proof {
        assert(x@ =~= y@);
        encode_utf8_decode_utf8(a@);
        encode_utf8_decode_utf8(b@);
    }
    true
}

/// Takes a boundary text from its owner and releases it. The text cannot be
/// used, or released again, afterwards: it has been moved here.
pub fn cchar_const_deallocate(c: CharString) {
}

/// A host text that has a boundary form reads back from it as itself.
pub proof fn lemma_text_round_trip(text: Seq<char>)
    ensures
        marshal_text(text) matches Ok(bytes) ==> lossy_text(bytes) == text,
{
    encode_utf8_valid_utf8(text);
    encode_utf8_decode_utf8(text);
}

} // verus!
