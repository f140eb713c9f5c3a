//! The rectangle that encloses a layer mask.

use crate::binary::{u32_at, Binary};
use crate::decoded::Decoded;
use crate::error::FieldError;
use vstd::prelude::*;

verus! {

/// The edges of a mask, in the order in which they are stored.
#[derive(Clone, Copy, Debug, PartialEq, Eq)]
pub struct Rectangle {
    pub top: u32,
    pub left: u32,
    pub bottom: u32,
    pub right: u32,
}

impl View for Rectangle {
    type V = Rectangle;

    open spec fn view(&self) -> Rectangle {
        *self
    }
}

/// The rectangle at `pos`: four numbers of four bytes, top, left, bottom and
/// right. No order among them is asked for.
pub open spec fn rectangle_at(bytes: Seq<u8>, pos: u64) -> Decoded<Rectangle> {
    match u32_at(bytes, pos) {
        Err(e) => Err(e),
        Ok((top, at1)) => match u32_at(bytes, at1) {
            Err(e) => Err(e),
            Ok((left, at2)) => match u32_at(bytes, at2) {
                Err(e) => Err(e),
                Ok((bottom, at3)) => match u32_at(bytes, at3) {
                    Err(e) => Err(e),
                    Ok((right, end)) => Ok((Rectangle { top, left, bottom, right }, end)),
                },
            },
        },
    }
}

/// Where the sixteen bytes of a rectangle are in the buffer, the rectangle is
/// there, and its edges are the four numbers in their places.
pub proof fn lemma_rectangle_layout(bytes: Seq<u8>, pos: u64)
    requires
        pos + 16 <= bytes.len(),
        pos + 16 <= u64::MAX,
    ensures
        rectangle_at(bytes, pos) == Ok::<(Rectangle, u64), FieldError>(
            (
                Rectangle {
                    top: u32_at(bytes, pos).unwrap().0,
                    left: u32_at(bytes, (pos + 4) as u64).unwrap().0,
                    bottom: u32_at(bytes, (pos + 8) as u64).unwrap().0,
                    right: u32_at(bytes, (pos + 12) as u64).unwrap().0,
                },
                (pos + 16) as u64,
            ),
        ),
{
}

/// Decodes the rectangle at the cursor.
pub fn get_rectangle(binary: &mut Binary) -> (r: Result<Rectangle, FieldError>)
    ensures
        final(binary).after(
            *old(binary),
            r,
            rectangle_at(old(binary).buffer(), old(binary).offset()),
        ),
{
    let top = binary.read_u32()?;
    let left = binary.read_u32()?;
    let bottom = binary.read_u32()?;
    let right = binary.read_u32()?;
    Ok(Rectangle { top, left, bottom, right })
}

} // verus!
