//! Codes of four characters: the tags and keys of the format, each stored as
//! four bytes of ASCII and handled as the big-endian number that they spell.

use crate::binary::{
    lemma_be_limits, lemma_be_value_below_limit, lemma_be_values, u32_at, Binary,
};
use crate::decoded::Decoded;
use crate::error::{invalid_signature, ErrorKind, FieldError};
use crate::text::{ascii_text, decoded_text, is_ascii, Encoding};
use vstd::prelude::*;

verus! {

/// The number that the first four characters of `text` spell as bytes, the
/// first character in the most significant byte.
pub open spec fn code_of(text: Seq<char>) -> int {
    ((text[0] as int * 0x100 + text[1] as int) * 0x100 + text[2] as int) * 0x100 + text[3] as int
}

/// `text` is four characters of ASCII.
pub open spec fn is_code_text(text: Seq<char>) -> bool {
    &&& text.len() == 4
    &&& forall|i: int| 0 <= i < 4 ==> 0 <= ((#[trigger] text[i]) as int) < 0x80
}

/// Four bytes that spell the code of four characters of ASCII are those
/// characters, in UTF-8 and in Shift_JIS.
pub proof fn lemma_code_text(bytes: Seq<u8>, pos: u64, text: Seq<char>)
    requires
        is_code_text(text),
        u32_at(bytes, pos) matches Ok((code, _)) && code == code_of(text),
    ensures
        is_ascii(bytes.subrange(pos as int, pos + 4)),
        ascii_text(bytes.subrange(pos as int, pos + 4)) == text,
        decoded_text(Encoding::Utf8, bytes.subrange(pos as int, pos + 4)) == text,
        decoded_text(Encoding::Sjis, bytes.subrange(pos as int, pos + 4)) == text,
{
    let field = bytes.subrange(pos as int, pos + 4);
    lemma_be_values(bytes, pos as int);
    lemma_be_value_below_limit(bytes, pos as int, 4);
    lemma_be_limits();
    assert(0 <= (text[0] as int) < 0x80 && 0 <= (text[1] as int) < 0x80);
    assert(0 <= (text[2] as int) < 0x80 && 0 <= (text[3] as int) < 0x80);
    assert(bytes[pos + 3] == text[3] as int);
    assert(bytes[pos + 2] == text[2] as int);
    assert(bytes[pos + 1] == text[1] as int);
    assert(bytes[pos as int] == text[0] as int);
    assert forall|i: int| 0 <= i < 4 implies (#[trigger] field[i]) as char == text[i] by {
        assert(field[i] == bytes[pos + i]);
    }
    assert(ascii_text(field) =~= text);
}

/// The tag that marks a block of the container: `8BIM`.
pub const SIGNATURE: u32 = 0x3842_494D;

/// [`SIGNATURE`] is the code of `8BIM`.
pub proof fn lemma_signature_code()
    ensures
        SIGNATURE == code_of("8BIM"@),
{
    reveal_strlit("8BIM");
}

/// The tag at `pos`, which must be [`SIGNATURE`].
pub open spec fn signature_at(bytes: Seq<u8>, pos: u64) -> Decoded<u32> {
    match u32_at(bytes, pos) {
        Err(e) => Err(e),
        Ok((tag, end)) => if tag == SIGNATURE {
            Ok((tag, end))
        } else {
            Err(invalid_signature(pos))
        },
    }
}

/// Reads the tag at the cursor, which must be [`SIGNATURE`].
pub fn read_signature(binary: &mut Binary) -> (r: Result<u32, FieldError>)
    ensures
        final(binary).after(
            *old(binary),
            r,
            signature_at(old(binary).buffer(), old(binary).offset()),
        ),
{
    let start = binary.get_position();
    let tag = binary.read_u32()?;
    if tag == SIGNATURE {
        Ok(tag)
    } else {
        Err(binary.reject(start, ErrorKind::InvalidSignature))
    }
}

} // verus!
