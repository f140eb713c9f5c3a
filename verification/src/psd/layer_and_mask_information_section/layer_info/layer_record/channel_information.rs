//! The descriptor of one channel of a layer.

use crate::binary::{i16_at, u32_at, Binary};
use crate::decoded::Decoded;
use crate::error::{invalid_enum_value, ErrorKind, FieldError};
use vstd::prelude::*;

verus! {

/// Which channel it is, and how many bytes of image data it has.
#[derive(Clone, Copy, Debug, PartialEq, Eq)]
pub struct ChannelInformation {
    pub channel_id: i16,
    pub channel_data_length: u32,
}

impl View for ChannelInformation {
    type V = ChannelInformation;

    open spec fn view(&self) -> ChannelInformation {
        *self
    }
}

/// The channel ids that the format knows: the colour channels from 0 up, and
/// below 0 the transparency mask and the two layer masks.
pub open spec fn is_channel_id(id: i16) -> bool {
    -3 <= id <= 9
}

/// The channel descriptor at `pos`: an id of two bytes, which must be a known
/// one, and a length of four bytes.
pub open spec fn channel_information_at(bytes: Seq<u8>, pos: u64) -> Decoded<ChannelInformation> {
    match i16_at(bytes, pos) {
        Err(e) => Err(e),
        Ok((channel_id, at1)) => if !is_channel_id(channel_id) {
            Err(invalid_enum_value(pos))
        } else {
            match u32_at(bytes, at1) {
                Err(e) => Err(e),
                Ok((channel_data_length, end)) => Ok(
                    (ChannelInformation { channel_id, channel_data_length }, end),
                ),
            }
        },
    }
}

/// Decodes the channel descriptor at the cursor.
pub fn get_channel_information(binary: &mut Binary) -> (r: Result<ChannelInformation, FieldError>)
    ensures
        final(binary).after(
            *old(binary),
            r,
            channel_information_at(old(binary).buffer(), old(binary).offset()),
        ),
{
    let start = binary.get_position();
    let channel_id = binary.read_i16()?;
    if channel_id < -3 || channel_id > 9 {
        return Err(binary.reject(start, ErrorKind::InvalidEnumValue));
    }
    let channel_data_length = binary.read_u32()?;
    Ok(ChannelInformation { channel_id, channel_data_length })
}

} // verus!
