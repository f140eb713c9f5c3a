//! The file header: the size of the image and how its pixels are stored.

use crate::binary::{u16_at, u32_at, Binary};
use crate::decoded::Decoded;
use crate::error::FieldError;
use vstd::prelude::*;

verus! {

/// The offset of the first field of the file header. The bytes before it are
/// the signature and version of the file and six reserved bytes; none of them
/// is looked at.
pub const FILE_HEADER_START: u64 = 12;

/// The fields of the file header. None is held against the values that the
/// format allows.
#[derive(Clone, Copy, Debug, PartialEq, Eq)]
pub struct FileHeaderSection {
    pub channel_count: u16,
    pub height: u32,
    pub width: u32,
    pub depth: u16,
    pub color_mode: u16,
}

impl View for FileHeaderSection {
    type V = FileHeaderSection;

    open spec fn view(&self) -> FileHeaderSection {
        *self
    }
}

/// The file header of `bytes`: from [`FILE_HEADER_START`] on, the number of
/// channels in two bytes, the height and the width in four bytes each, and
/// the depth and the colour mode in two bytes each.
pub open spec fn file_header_section_at(bytes: Seq<u8>) -> Decoded<FileHeaderSection> {
    match u16_at(bytes, FILE_HEADER_START) {
        Err(e) => Err(e),
        Ok((channel_count, at1)) => match u32_at(bytes, at1) {
            Err(e) => Err(e),
            Ok((height, at2)) => match u32_at(bytes, at2) {
                Err(e) => Err(e),
                Ok((width, at3)) => match u16_at(bytes, at3) {
                    Err(e) => Err(e),
                    Ok((depth, at4)) => match u16_at(bytes, at4) {
                        Err(e) => Err(e),
                        Ok((color_mode, end)) => Ok(
                            (
                                FileHeaderSection {
                                    channel_count,
                                    height,
                                    width,
                                    depth,
                                    color_mode,
                                },
                                end,
                            ),
                        ),
                    },
                },
            },
        },
    }
}

/// A buffer of 26 bytes or more has a file header, which ends at offset 26,
/// and the fields are the numbers at their fixed offsets.
pub proof fn lemma_file_header_layout(bytes: Seq<u8>)
    requires
        bytes.len() >= 26,
    ensures
        file_header_section_at(bytes) == Ok::<(FileHeaderSection, u64), FieldError>(
            (
                FileHeaderSection {
                    channel_count: u16_at(bytes, 12).unwrap().0,
                    height: u32_at(bytes, 14).unwrap().0,
                    width: u32_at(bytes, 18).unwrap().0,
                    depth: u16_at(bytes, 22).unwrap().0,
                    color_mode: u16_at(bytes, 24).unwrap().0,
                },
                26,
            ),
        ),
{
}

/// Decodes the file header, wherever the cursor is.
pub fn get_file_header_section(binary: &mut Binary) -> (r: Result<FileHeaderSection, FieldError>)
    ensures
        final(binary).after(*old(binary), r, file_header_section_at(old(binary).buffer())),
{
    binary.set_position(FILE_HEADER_START);
    let channel_count = binary.read_u16()?;
    let height = binary.read_u32()?;
    let width = binary.read_u32()?;
    let depth = binary.read_u16()?;
    let color_mode = binary.read_u16()?;
    Ok(FileHeaderSection { channel_count, height, width, depth, color_mode })
}

} // verus!
