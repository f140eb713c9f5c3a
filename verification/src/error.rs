//! The errors of decoding.

use vstd::prelude::*;

verus! {

/// Why a field could not be decoded.
#[derive(Clone, Copy, Debug, PartialEq, Eq, Structural)]
pub enum ErrorKind {
    /// A read of fixed or declared length would run past the end of the buffer.
    UnexpectedEndOfInput,
    /// A literal container tag is not the one the format prescribes.
    InvalidSignature,
    /// A field restricted to a closed set of codes holds a value outside it.
    InvalidEnumValue,
    /// Text that the decoder of its encoding does not take. Malformed byte
    /// sequences are substituted, not rejected, so this is returned only for
    /// a text longer than [`crate::text::MAX_TEXT_LENGTH`].
    InvalidEncoding,
}

/// A field that could not be decoded: why, and the offset of its first byte.
#[derive(Clone, Copy, Debug, PartialEq, Eq, Structural)]
pub struct FieldError {
    pub kind: ErrorKind,
    pub offset: u64,
}

impl View for FieldError {
    type V = FieldError;

    open spec fn view(&self) -> FieldError {
        *self
    }
}

/// The four sections of a document, in their order.
#[derive(Clone, Copy, Debug, PartialEq, Eq, Structural)]
pub enum Section {
    FileHeader,
    ColorModeData,
    ImageResources,
    LayerAndMaskInformation,
}

/// Why a document could not be decoded: the section in which decoding
/// stopped, why it stopped, and the offset of the field at which it did.
#[derive(Clone, Copy, Debug, PartialEq, Eq, Structural)]
pub struct DecodeError {
    pub section: Section,
    pub kind: ErrorKind,
    pub offset: u64,
}

/// The error of a document of which a field in `section` could not be
/// decoded.
pub open spec fn within(section: Section, e: FieldError) -> DecodeError {
    DecodeError { section, kind: e.kind, offset: e.offset }
}

/// The error of a read that needs more bytes than remain from `offset`.
pub open spec fn end_of_input(offset: u64) -> FieldError {
    FieldError { kind: ErrorKind::UnexpectedEndOfInput, offset }
}

/// The error of a field at `offset` whose value is outside its closed set.
pub open spec fn invalid_enum_value(offset: u64) -> FieldError {
    FieldError { kind: ErrorKind::InvalidEnumValue, offset }
}

/// The error of a container tag at `offset` that is not the prescribed one.
pub open spec fn invalid_signature(offset: u64) -> FieldError {
    FieldError { kind: ErrorKind::InvalidSignature, offset }
}

} // verus!
