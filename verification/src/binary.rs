//! The byte cursor: a buffer that is never changed and an offset into it,
//! with big-endian reads of fixed width and reads of text.

use crate::decoded::{views, Decoded};
use crate::error::{end_of_input, ErrorKind, FieldError};
use crate::text::{decode_text, decoded_text, Encoding, MAX_TEXT_LENGTH};
use vstd::prelude::*;
use vstd::slice::slice_subrange;

verus! {

/// `count` bytes lie in `bytes` from `pos` on, and the offset of the byte
/// after them is a 64-bit one, as that of every byte of a buffer in memory is.
pub open spec fn has_bytes(bytes: Seq<u8>, pos: u64, count: nat) -> bool {
    pos + count <= bytes.len() && pos + count <= u64::MAX
}

/// The offset `count` bytes after `pos`. Offsets are 64-bit: a move that would
/// leave that range stops at its top, from where nothing can be read.
pub open spec fn advance(pos: u64, count: nat) -> u64 {
    if pos + count <= u64::MAX {
        (pos + count) as u64
    } else {
        u64::MAX
    }
}

/// The number that the `width` bytes of `bytes` from `pos` spell, most
/// significant byte first.
pub open spec fn be_value(bytes: Seq<u8>, pos: int, width: nat) -> nat
    decreases width,
{
    if width == 0 {
        0
    } else {
        256 * be_value(bytes, pos, (width - 1) as nat) + bytes[pos + width - 1] as nat
    }
}

/// One more than the largest number that `width` bytes spell.
pub open spec fn be_limit(width: nat) -> nat
    decreases width,
{
    if width == 0 {
        1
    } else {
        256 * be_limit((width - 1) as nat)
    }
}

/// The signed number that `value` stands for in two's complement, where
/// `limit` is one more than the largest unsigned number of the same width.
pub open spec fn twos_complement(value: nat, limit: nat) -> int {
    if 2 * value >= limit {
        value - limit
    } else {
        value as int
    }
}

/// A field of `width` bytes at `pos` whose value, if the bytes are there, is
/// `value`.
pub open spec fn fixed<T>(bytes: Seq<u8>, pos: u64, width: nat, value: T) -> Decoded<T> {
    if has_bytes(bytes, pos, width) {
        Ok((value, advance(pos, width)))
    } else {
        Err(end_of_input(pos))
    }
}

/// The unsigned big-endian number of `width` bytes at `pos`.
pub open spec fn uint_at(bytes: Seq<u8>, pos: u64, width: nat) -> Decoded<u64> {
    fixed(bytes, pos, width, be_value(bytes, pos as int, width) as u64)
}

/// The byte at `pos`.
pub open spec fn u8_at(bytes: Seq<u8>, pos: u64) -> Decoded<u8> {
    fixed(bytes, pos, 1, bytes[pos as int])
}

/// The unsigned big-endian number of two bytes at `pos`.
pub open spec fn u16_at(bytes: Seq<u8>, pos: u64) -> Decoded<u16> {
    fixed(bytes, pos, 2, be_value(bytes, pos as int, 2) as u16)
}

/// The unsigned big-endian number of four bytes at `pos`.
pub open spec fn u32_at(bytes: Seq<u8>, pos: u64) -> Decoded<u32> {
    fixed(bytes, pos, 4, be_value(bytes, pos as int, 4) as u32)
}

/// The byte at `pos` as a signed number in two's complement.
pub open spec fn i8_at(bytes: Seq<u8>, pos: u64) -> Decoded<i8> {
    fixed(bytes, pos, 1, twos_complement(bytes[pos as int] as nat, 0x100) as i8)
}

/// The signed big-endian number of two bytes at `pos`, in two's complement.
pub open spec fn i16_at(bytes: Seq<u8>, pos: u64) -> Decoded<i16> {
    fixed(bytes, pos, 2, twos_complement(be_value(bytes, pos as int, 2), 0x10000) as i16)
}

/// The eight bytes at `pos` as the bit pattern of an IEEE-754 binary64
/// number, sign bit first.
pub open spec fn f64_bits_at(bytes: Seq<u8>, pos: u64) -> Decoded<u64> {
    uint_at(bytes, pos, 8)
}

/// The text of `length` bytes at `pos` in `encoding`, for a length that no
/// decoder refuses.
pub open spec fn short_text_at(
    bytes: Seq<u8>,
    pos: u64,
    length: nat,
    encoding: Encoding,
) -> Decoded<Seq<char>> {
    fixed(bytes, pos, length, decoded_text(encoding, bytes.subrange(pos as int, pos + length)))
}

/// The text of `length` bytes at `pos` in `encoding`.
pub open spec fn text_at(bytes: Seq<u8>, pos: u64, length: nat, encoding: Encoding) -> Decoded<
    Seq<char>,
> {
    if has_bytes(bytes, pos, length) && length > MAX_TEXT_LENGTH {
        Err(FieldError { kind: ErrorKind::InvalidEncoding, offset: pos })
    } else {
        short_text_at(bytes, pos, length, encoding)
    }
}

/// The string at `pos` that one byte of length precedes.
pub open spec fn short_string_at(bytes: Seq<u8>, pos: u64, encoding: Encoding) -> Decoded<
    Seq<char>,
> {
    match u8_at(bytes, pos) {
        Ok((length, start)) => short_text_at(bytes, start, length as nat, encoding),
        Err(e) => Err(e),
    }
}

/// The UTF-16 string at `pos` that a count of four bytes precedes; the count
/// is in units of two bytes.
pub open spec fn unicode_string_at(bytes: Seq<u8>, pos: u64) -> Decoded<Seq<char>> {
    match u32_at(bytes, pos) {
        Ok((count, start)) => text_at(bytes, start, 2 * count as nat, Encoding::Utf16),
        Err(e) => Err(e),
    }
}

/// The number that bytes spell is below the limit of their width.
pub proof fn lemma_be_value_below_limit(bytes: Seq<u8>, pos: int, width: nat)
    ensures
        be_value(bytes, pos, width) < be_limit(width),
    decreases width,
{
    if width > 0 {
        lemma_be_value_below_limit(bytes, pos, (width - 1) as nat);
    }
}

/// The numbers that one, two and four bytes spell, written out.
pub proof fn lemma_be_values(bytes: Seq<u8>, pos: int)
    ensures
        be_value(bytes, pos, 1) == bytes[pos],
        be_value(bytes, pos, 2) == 0x100 * bytes[pos] + bytes[pos + 1],
        be_value(bytes, pos, 4) == 0x100_0000 * bytes[pos] + 0x1_0000 * bytes[pos + 1] + 0x100
            * bytes[pos + 2] + bytes[pos + 3],
{
    reveal_with_fuel(be_value, 5);
}

/// The limits of the widths up to eight bytes.
pub proof fn lemma_be_limits()
    ensures
        be_limit(0) == 1,
        be_limit(1) == 0x100,
        be_limit(2) == 0x1_0000,
        be_limit(3) == 0x100_0000,
        be_limit(4) == 0x1_0000_0000,
        be_limit(5) == 0x100_0000_0000,
        be_limit(6) == 0x1_0000_0000_0000,
        be_limit(7) == 0x100_0000_0000_0000,
        be_limit(8) == 0x1_0000_0000_0000_0000,
{
    reveal_with_fuel(be_limit, 9);
}

/// A cursor over a byte buffer.
pub struct Binary {
    bytes: Vec<u8>,
    position: u64,
}

impl Binary {
    /// The buffer.
    pub closed spec fn buffer(&self) -> Seq<u8> {
        self.bytes@
    }

    /// The offset of the next byte to read. It may lie past the end of the
    /// buffer.
    pub closed spec fn offset(&self) -> u64 {
        self.position
    }

    /// `self` is the cursor after a decoder that began on `before`, returned
    /// `r` and did what `expected` says: on success the value is the expected
    /// one and the cursor is just past it; on failure the error is the expected
    /// one and the cursor rests on the field that the error reports. The
    /// buffer is the same in either case.
    pub open spec fn after<T: View>(
        &self,
        before: Binary,
        r: Result<T, FieldError>,
        expected: Decoded<T::V>,
    ) -> bool {
        &&& self.buffer() == before.buffer()
        &&& match (expected, r) {
            (Ok((value, end)), Ok(v)) => v@ == value && self.offset() == end,
            (Err(e), Err(error)) => error == e && self.offset() == e.offset,
            _ => false,
        }
    }

    /// [`Binary::after`] for a decoder of a list, of which each item has a
    /// view: on success the views of the items are the expected ones.
    pub open spec fn after_list<T: View>(
        &self,
        before: Binary,
        r: Result<Vec<T>, FieldError>,
        expected: Decoded<Seq<T::V>>,
    ) -> bool {
        &&& self.buffer() == before.buffer()
        &&& match (expected, r) {
            (Ok((items, end)), Ok(found)) => views(found@) == items && self.offset() == end,
            (Err(e), Err(error)) => error == e && self.offset() == e.offset,
            _ => false,
        }
    }

    /// A cursor at the start of `bytes`.
    pub fn new(bytes: Vec<u8>) -> (binary: Binary)
        ensures
            binary.buffer() == bytes@,
            binary.offset() == 0,
    {
        Binary { bytes, position: 0 }
    }

    /// The offset of the next byte to read.
    pub fn get_position(&self) -> (pos: u64)
        ensures
            pos == self.offset(),
    {
        self.position
    }

    /// Moves the cursor to `pos`, which may lie past the end of the buffer.
    pub fn set_position(&mut self, pos: u64)
        ensures
            final(self).buffer() == old(self).buffer(),
            final(self).offset() == pos,
    {
        self.position = pos;
    }

    /// Moves the cursor `length` bytes forward, past the end of the buffer
    /// if that is where it leads, but not past `u64::MAX`.
    pub fn increment_position(&mut self, length: u64)
        ensures
            final(self).buffer() == old(self).buffer(),
            final(self).offset() == advance(old(self).offset(), length as nat),
    {
        self.position = self.position.saturating_add(length);
    }

    /// Puts the cursor on the field at `offset` and makes the error that
    /// reports that field as `kind`.
    pub fn reject(&mut self, offset: u64, kind: ErrorKind) -> (e: FieldError)
        ensures
            final(self).buffer() == old(self).buffer(),
            final(self).offset() == offset,
            e == (FieldError { kind, offset }),
    {
        self.position = offset;
        FieldError { kind, offset }
    }

    /// Whether `count` bytes remain from the cursor on.
    fn has_remaining(&self, count: u64) -> (b: bool)
        ensures
            b == has_bytes(self.buffer(), self.offset(), count as nat),
            self.buffer().len() <= usize::MAX,
    {
        let len = self.bytes.len() as u64;
        self.position <= len && count <= len - self.position
    }

    /// The big-endian number of `width` bytes at the cursor, which stays.
    fn peek_uint(&self, width: usize) -> (r: Result<u64, FieldError>)
        requires
            1 <= width <= 8,
        ensures
            match uint_at(self.buffer(), self.offset(), width as nat) {
                Ok((value, _)) => r == Ok::<u64, FieldError>(value),
                Err(e) => r == Err::<u64, FieldError>(e),
            },
            r matches Ok(value) ==> value == be_value(
                self.buffer(),
                self.offset() as int,
                width as nat,
            ) && value < be_limit(width as nat),
            self.buffer().len() <= usize::MAX,
    {
        if !self.has_remaining(width as u64) {
            return Err(FieldError { kind: ErrorKind::UnexpectedEndOfInput, offset: self.position });
        }
        let start = self.position as usize;
        let mut value: u64 = 0;
        let mut i: usize = 0;
        while i < width
            invariant
                1 <= width <= 8,
                i <= width,
                start == self.position,
                start + width <= self.bytes@.len() <= usize::MAX,
                value == be_value(self.bytes@, start as int, i as nat),
            decreases width - i,
        {
            proof {
                lemma_be_limits();
                lemma_be_value_below_limit(self.bytes@, start as int, (i + 1) as nat);
            }
            value = 256 * value + self.bytes[start + i] as u64;
            i = i + 1;
        }
        proof {
            lemma_be_value_below_limit(self.bytes@, start as int, width as nat);
        }
        Ok(value)
    }

    /// Reads the big-endian number of `width` bytes at the cursor.
    fn read_uint(&mut self, width: usize) -> (r: Result<u64, FieldError>)
        requires
            1 <= width <= 8,
        ensures
            final(self).after(
                *old(self),
                r,
                uint_at(old(self).buffer(), old(self).offset(), width as nat),
            ),
            r matches Ok(value) ==> value == be_value(
                old(self).buffer(),
                old(self).offset() as int,
                width as nat,
            ) && value < be_limit(width as nat),
    {
        let value = self.peek_uint(width)?;
        self.position = self.position + width as u64;
        Ok(value)
    }

    /// The big-endian number of the four bytes at the cursor, which stays
    /// where it is.
    pub fn peek_u32(&self) -> (r: Result<u32, FieldError>)
        ensures
            match u32_at(self.buffer(), self.offset()) {
                Ok((value, _)) => r == Ok::<u32, FieldError>(value),
                Err(e) => r == Err::<u32, FieldError>(e),
            },
    {
        let value = self.peek_uint(4)?;
        proof {
            lemma_be_limits();
        }
        Ok(value as u32)
    }

    /// Reads one byte.
    pub fn read_u8(&mut self) -> (r: Result<u8, FieldError>)
        ensures
            final(self).after(*old(self), r, u8_at(old(self).buffer(), old(self).offset())),
    {
        let value = self.read_uint(1)?;
        proof {
            lemma_be_limits();
            reveal_with_fuel(be_value, 2);
        }
        Ok(value as u8)
    }

    /// Reads an unsigned big-endian number of two bytes.
    pub fn read_u16(&mut self) -> (r: Result<u16, FieldError>)
        ensures
            final(self).after(*old(self), r, u16_at(old(self).buffer(), old(self).offset())),
    {
        let value = self.read_uint(2)?;
        proof {
            lemma_be_limits();
        }
        Ok(value as u16)
    }

    /// Reads an unsigned big-endian number of four bytes.
    pub fn read_u32(&mut self) -> (r: Result<u32, FieldError>)
        ensures
            final(self).after(*old(self), r, u32_at(old(self).buffer(), old(self).offset())),
    {
        let value = self.read_uint(4)?;
        proof {
            lemma_be_limits();
        }
        Ok(value as u32)
    }

    /// Reads one byte as a signed number in two's complement.
    pub fn read_i8(&mut self) -> (r: Result<i8, FieldError>)
        ensures
            final(self).after(*old(self), r, i8_at(old(self).buffer(), old(self).offset())),
    {
        let value = self.read_uint(1)?;
        proof {
            lemma_be_limits();
            reveal_with_fuel(be_value, 2);
        }
        if value >= 0x80 {
            Ok((value as i16 - 0x100) as i8)
        } else {
            Ok(value as i8)
        }
    }

    /// Reads a signed big-endian number of two bytes, in two's complement.
    pub fn read_i16(&mut self) -> (r: Result<i16, FieldError>)
        ensures
            final(self).after(*old(self), r, i16_at(old(self).buffer(), old(self).offset())),
    {
        let value = self.read_uint(2)?;
        proof {
            lemma_be_limits();
        }
        if value >= 0x8000 {
            Ok((value as i32 - 0x1_0000) as i16)
        } else {
            Ok(value as i16)
        }
    }

    /// Reads the eight bytes of an IEEE-754 binary64 number, most significant
    /// byte first, and returns its bit pattern: the sign, then the exponent,
    /// then the fraction. Every pattern is handed on as it stands, the zeros,
    /// infinities, subnormal numbers and NaNs among them.
    pub fn read_f64(&mut self) -> (r: Result<u64, FieldError>)
        ensures
            final(self).after(*old(self), r, f64_bits_at(old(self).buffer(), old(self).offset())),
    {
        self.read_uint(8)
    }

    /// Reads `length` bytes as text in `encoding`. A byte order mark and
    /// malformed sequences are dealt with as the decoder of the encoding does;
    /// no text is refused for its bytes.
    pub fn read_text(&mut self, length: usize, encoding: Encoding) -> (r: Result<
        String,
        FieldError,
    >)
        ensures
            final(self).after(
                *old(self),
                r,
                text_at(old(self).buffer(), old(self).offset(), length as nat, encoding),
            ),
    {
        if !self.has_remaining(length as u64) {
            return Err(FieldError { kind: ErrorKind::UnexpectedEndOfInput, offset: self.position });
        }
        if length > MAX_TEXT_LENGTH {
            return Err(FieldError { kind: ErrorKind::InvalidEncoding, offset: self.position });
        }
        let start = self.position as usize;
        let raw = slice_subrange(self.bytes.as_slice(), start, start + length);
        let text = decode_text(raw, encoding);
        self.position = self.position + length as u64;
        Ok(text)
    }

    /// Reads `length` bytes as UTF-8 text.
    pub fn read_utf8(&mut self, length: u8) -> (r: Result<String, FieldError>)
        ensures
            final(self).after(
                *old(self),
                r,
                short_text_at(
                    old(self).buffer(),
                    old(self).offset(),
                    length as nat,
                    Encoding::Utf8,
                ),
            ),
    {
        self.read_text(length as usize, Encoding::Utf8)
    }

    /// Reads one byte of length and that many bytes as Shift_JIS text.
    pub fn read_sjis_pascal_string(&mut self) -> (r: Result<String, FieldError>)
        ensures
            final(self).after(
                *old(self),
                r,
                short_string_at(old(self).buffer(), old(self).offset(), Encoding::Sjis),
            ),
    {
        let length = self.read_u8()?;
        self.read_text(length as usize, Encoding::Sjis)
    }

    /// Reads a count of four bytes and twice that many bytes as UTF-16 text,
    /// big-endian.
    pub fn read_unicode_string(&mut self) -> (r: Result<String, FieldError>)
        ensures
            final(self).after(
                *old(self),
                r,
                unicode_string_at(old(self).buffer(), old(self).offset()),
            ),
    {
        let count = self.read_u32()?;
        let length: u64 = 2 * (count as u64);
        if !self.has_remaining(length) {
            return Err(FieldError { kind: ErrorKind::UnexpectedEndOfInput, offset: self.position });
        }
        self.read_text(length as usize, Encoding::Utf16)
    }
}

} // verus!
