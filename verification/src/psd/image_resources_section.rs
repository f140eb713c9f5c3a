//! The image resources: a section of which only the length is kept.

use crate::binary::{advance, u32_at, Binary};
use crate::decoded::Decoded;
use crate::error::FieldError;
use vstd::prelude::*;

verus! {

/// The length of the image resources, in bytes.
#[derive(Clone, Copy, Debug, PartialEq, Eq)]
pub struct ImageResourcesSection {
    pub length: u32,
}

impl View for ImageResourcesSection {
    type V = ImageResourcesSection;

    open spec fn view(&self) -> ImageResourcesSection {
        *self
    }
}

/// The image resources at `pos`: a length of four bytes, and that many bytes
/// after it, which are passed over whether or not the buffer holds them.
pub open spec fn image_resources_section_at(bytes: Seq<u8>, pos: u64) -> Decoded<
    ImageResourcesSection,
> {
    match u32_at(bytes, pos) {
        Err(e) => Err(e),
        Ok((length, start)) => Ok(
            (ImageResourcesSection { length }, advance(start, length as nat)),
        ),
    }
}

/// Decodes the image resources at the cursor.
pub fn get_image_resources_section(binary: &mut Binary) -> (r: Result<
    ImageResourcesSection,
    FieldError,
>)
    ensures
        final(binary).after(
            *old(binary),
            r,
            image_resources_section_at(old(binary).buffer(), old(binary).offset()),
        ),
{
    let length = binary.read_u32()?;
    binary.increment_position(length as u64);
    Ok(ImageResourcesSection { length })
}

} // verus!
