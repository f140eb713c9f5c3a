//! The rectangle that a layer covers.

use crate::binary::{u32_at, Binary};
use crate::decoded::Decoded;
use crate::error::FieldError;
use vstd::prelude::*;

verus! {

/// The edges of a layer, in the order in which they are stored.
#[derive(Clone, Copy, Debug, PartialEq, Eq)]
pub struct Coordinates {
    pub top: u32,
    pub left: u32,
    pub bottom: u32,
    pub right: u32,
}

impl View for Coordinates {
    type V = Coordinates;

    open spec fn view(&self) -> Coordinates {
        *self
    }
}

/// The coordinates at `pos`: four numbers of four bytes, top, left, bottom
/// and right. No order among them is asked for.
pub open spec fn coordinates_at(bytes: Seq<u8>, pos: u64) -> Decoded<Coordinates> {
    match u32_at(bytes, pos) {
        Err(e) => Err(e),
        Ok((top, at1)) => match u32_at(bytes, at1) {
            Err(e) => Err(e),
            Ok((left, at2)) => match u32_at(bytes, at2) {
                Err(e) => Err(e),
                Ok((bottom, at3)) => match u32_at(bytes, at3) {
                    Err(e) => Err(e),
                    Ok((right, end)) => Ok((Coordinates { top, left, bottom, right }, end)),
                },
            },
        },
    }
}

/// Decodes the coordinates at the cursor.
pub fn get_coordinates(binary: &mut Binary) -> (r: Result<Coordinates, FieldError>)
    ensures
        final(binary).after(
            *old(binary),
            r,
            coordinates_at(old(binary).buffer(), old(binary).offset()),
        ),
{
    let top = binary.read_u32()?;
    let left = binary.read_u32()?;
    let bottom = binary.read_u32()?;
    let right = binary.read_u32()?;
    Ok(Coordinates { top, left, bottom, right })
}

} // verus!
