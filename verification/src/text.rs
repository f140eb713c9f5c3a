//! Text decoding. The decoders themselves are those of `encoding_rs`; this
//! module names what they return and dispatches on the encoding.

use vstd::prelude::*;

verus! {

/// The text encodings that occur in a document.
#[derive(Clone, Copy, Debug, PartialEq, Eq, Structural)]
pub enum Encoding {
    /// UTF-8.
    Utf8,
    /// UTF-16, big-endian.
    Utf16,
    /// Shift_JIS, the legacy Japanese encoding of one or two bytes per character.
    Sjis,
}

/// The longest text, in bytes, that is handed to a decoder. The decoders size
/// their output buffer as a small multiple of the input length, rounded up to
/// a power of two, and panic if that leaves the range of `usize`.
pub const MAX_TEXT_LENGTH: usize = usize::MAX / 8;

/// Every byte of `bytes` is a character of ASCII.
pub open spec fn is_ascii(bytes: Seq<u8>) -> bool {
    forall|i: int| 0 <= i < bytes.len() ==> #[trigger] bytes[i] < 0x80
}

/// The text with one character for each byte of `bytes`, the one that the
/// byte numbers.
pub open spec fn ascii_text(bytes: Seq<u8>) -> Seq<char> {
    Seq::new(bytes.len(), |i: int| bytes[i] as char)
}

/// The text that `encoding_rs::UTF_8.decode` makes of `bytes`.
pub uninterp spec fn utf8_text(bytes: Seq<u8>) -> Seq<char>;

/// The text that `encoding_rs::UTF_16BE.decode` makes of `bytes`.
pub uninterp spec fn utf16be_text(bytes: Seq<u8>) -> Seq<char>;

/// The text that `encoding_rs::SHIFT_JIS.decode` makes of `bytes`.
pub uninterp spec fn shift_jis_text(bytes: Seq<u8>) -> Seq<char>;

/// The text that `bytes` spell in `encoding`. Bytes of ASCII spell themselves
/// in UTF-8 and in Shift_JIS. Of other bytes the text is what the decoder of
/// `encoding_rs` makes of them: the byte order mark that they may begin with
/// decides the encoding in place of `encoding` and is left out, and each
/// malformed sequence becomes U+FFFD.
pub open spec fn decoded_text(encoding: Encoding, bytes: Seq<u8>) -> Seq<char> {
    match encoding {
        Encoding::Utf8 => if is_ascii(bytes) {
            ascii_text(bytes)
        } else {
            utf8_text(bytes)
        },
        Encoding::Utf16 => utf16be_text(bytes),
        Encoding::Sjis => if is_ascii(bytes) {
            ascii_text(bytes)
        } else {
            shift_jis_text(bytes)
        },
    }
}

/// Calls `Encoding::decode` of `encoding_rs` on its constant `UTF_8` and
/// keeps the text. Trusted: bytes of ASCII come back as they are; of other
/// bytes the text is a function of the bytes alone; and the call returns for
/// every input of at most [`MAX_TEXT_LENGTH`] bytes.
#[verifier::external_body]
fn decode_utf8(bytes: &[u8]) -> (text: String)
    requires
        bytes@.len() <= MAX_TEXT_LENGTH,
    ensures
        text@ == if is_ascii(bytes@) {
            ascii_text(bytes@)
        } else {
            utf8_text(bytes@)
        },
{
    let (text, _, _) = encoding_rs::UTF_8.decode(bytes);
    text.into_owned()
}

/// Calls `Encoding::decode` of `encoding_rs` on its constant `UTF_16BE` and
/// keeps the text. Trusted: the text is a function of the bytes alone, and
/// the call returns for every input of at most [`MAX_TEXT_LENGTH`] bytes.
#[verifier::external_body]
fn decode_utf16be(bytes: &[u8]) -> (text: String)
    requires
        bytes@.len() <= MAX_TEXT_LENGTH,
    ensures
        text@ == utf16be_text(bytes@),
{
    let (text, _, _) = encoding_rs::UTF_16BE.decode(bytes);
    text.into_owned()
}

/// Calls `Encoding::decode` of `encoding_rs` on its constant `SHIFT_JIS` and
/// keeps the text. Trusted: bytes of ASCII come back as they are; of other
/// bytes the text is a function of the bytes alone; and the call returns for
/// every input of at most [`MAX_TEXT_LENGTH`] bytes.
#[verifier::external_body]
fn decode_shift_jis(bytes: &[u8]) -> (text: String)
    requires
        bytes@.len() <= MAX_TEXT_LENGTH,
    ensures
        text@ == if is_ascii(bytes@) {
            ascii_text(bytes@)
        } else {
            shift_jis_text(bytes@)
        },
{
    let (text, _, _) = encoding_rs::SHIFT_JIS.decode(bytes);
    text.into_owned()
}

/// Decodes `bytes` as text in `encoding`.
pub(crate) fn decode_text(bytes: &[u8], encoding: Encoding) -> (text: String)
    requires
        bytes@.len() <= MAX_TEXT_LENGTH,
    ensures
        text@ == decoded_text(encoding, bytes@),
{
    match encoding {
        Encoding::Utf8 => decode_utf8(bytes),
        Encoding::Utf16 => decode_utf16be(bytes),
        Encoding::Sjis => decode_shift_jis(bytes),
    }
}

} // verus!
