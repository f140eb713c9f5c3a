//! The colour mode data: a section of which only the length is kept.

use crate::binary::{advance, u32_at, Binary};
use crate::decoded::Decoded;
use crate::error::FieldError;
use vstd::prelude::*;

verus! {

/// The length of the colour mode data, in bytes.
#[derive(Clone, Copy, Debug, PartialEq, Eq)]
pub struct ColorModeDataSection {
    pub length: u32,
}

impl View for ColorModeDataSection {
    type V = ColorModeDataSection;

    open spec fn view(&self) -> ColorModeDataSection {
        *self
    }
}

/// The colour mode data at `pos`: a length of four bytes, and that many bytes
/// after it, which are passed over whether or not the buffer holds them.
pub open spec fn color_mode_data_section_at(bytes: Seq<u8>, pos: u64) -> Decoded<
    ColorModeDataSection,
> {
    match u32_at(bytes, pos) {
        Err(e) => Err(e),
        Ok((length, start)) => Ok((ColorModeDataSection { length }, advance(start, length as nat))),
    }
}

/// Decodes the colour mode data at the cursor.
pub fn get_color_mode_data_section(binary: &mut Binary) -> (r: Result<
    ColorModeDataSection,
    FieldError,
>)
    ensures
        final(binary).after(
            *old(binary),
            r,
            color_mode_data_section_at(old(binary).buffer(), old(binary).offset()),
        ),
{
    let length = binary.read_u32()?;
    binary.increment_position(length as u64);
    Ok(ColorModeDataSection { length })
}

} // verus!
