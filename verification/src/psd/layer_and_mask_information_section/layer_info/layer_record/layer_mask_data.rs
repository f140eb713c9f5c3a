//! The mask of a layer: absent, or present with its rectangle, colour and
//! flag, and with or without mask parameters and the fields of the real mask.

pub mod rectangle;

pub use self::rectangle::Rectangle;

use self::rectangle::{get_rectangle, rectangle_at};
use crate::binary::{f64_bits_at, i8_at, u32_at, u8_at, Binary};
use crate::decoded::Decoded;
use crate::error::{invalid_enum_value, ErrorKind, FieldError};
use vstd::prelude::*;

verus! {

/// The declared length of mask data that end before the fields of the real
/// mask.
pub const LENGTH_WITHOUT_REAL: u32 = 20;

/// The mask data of a layer. A declared length of 0 means that the layer has
/// no mask, and then there are no fields.
#[derive(Clone, Copy, Debug, PartialEq, Eq)]
pub struct LayerMaskData {
    pub length: u32,
    pub fields: Option<Fields>,
}

/// The fields of a mask that is present.
#[derive(Clone, Copy, Debug, PartialEq, Eq)]
pub struct Fields {
    pub rectangle: Rectangle,
    /// 0 or 255.
    pub default_color: u8,
    /// One of 0, 1, 2, 4 and 8.
    pub flag: u8,
    /// There if `flag` is 8.
    pub mask: Option<Mask>,
    /// There unless the declared length is [`LENGTH_WITHOUT_REAL`].
    pub real: Option<Real>,
}

/// The parameter of a mask, and the flag that says of which kind it is.
#[derive(Clone, Copy, Debug, PartialEq, Eq)]
pub struct Mask {
    /// 0 or 2 for a density, 1 or 4 for a feather.
    pub flag: u8,
    pub parameter: MaskParameter,
}

/// The parameter of a mask.
#[derive(Clone, Copy, Debug, PartialEq, Eq)]
pub enum MaskParameter {
    /// A density, of one signed byte.
    Density(i8),
    /// A feather: the bit pattern of an IEEE-754 binary64 number.
    Feather(u64),
}

/// The fields of the real mask.
#[derive(Clone, Copy, Debug, PartialEq, Eq)]
pub struct Real {
    /// One of 0, 1, 2, 4 and 8.
    pub flag: u8,
    /// 0 or 255.
    pub user_mask_background: u8,
    pub rectangle: Rectangle,
}

impl Mask {
    /// The flag says of which kind the parameter is.
    pub open spec fn wf(self) -> bool {
        match self.parameter {
            MaskParameter::Density(_) => selects_density(self.flag),
            MaskParameter::Feather(_) => selects_feather(self.flag),
        }
    }
}

impl Real {
    /// The flag and the colour are among those that a mask may have.
    pub open spec fn wf(self) -> bool {
        is_mask_flag(self.flag) && is_mask_color(self.user_mask_background)
    }
}

impl Fields {
    /// The fields of a mask whose declared length is `length`: the flag and
    /// the colour are among those that a mask may have; there are mask
    /// parameters if and only if the flag is 8; and there are fields of the
    /// real mask unless the length is [`LENGTH_WITHOUT_REAL`].
    pub open spec fn wf(self, length: u32) -> bool {
        &&& is_mask_color(self.default_color)
        &&& is_mask_flag(self.flag)
        &&& self.mask is Some <==> self.flag == 8
        &&& self.mask matches Some(mask) ==> mask.wf()
        &&& self.real is None <==> length == LENGTH_WITHOUT_REAL
        &&& self.real matches Some(real_mask) ==> real_mask.wf()
    }
}

impl LayerMaskData {
    /// There are fields unless the declared length is 0, and they are
    /// well-formed.
    pub open spec fn wf(self) -> bool {
        &&& self.fields is None <==> self.length == 0
        &&& self.fields matches Some(fields) ==> fields.wf(self.length)
    }
}

impl View for LayerMaskData {
    type V = LayerMaskData;

    open spec fn view(&self) -> LayerMaskData {
        *self
    }
}

impl View for Fields {
    type V = Fields;

    open spec fn view(&self) -> Fields {
        *self
    }
}

impl View for Mask {
    type V = Mask;

    open spec fn view(&self) -> Mask {
        *self
    }
}

impl View for Real {
    type V = Real;

    open spec fn view(&self) -> Real {
        *self
    }
}

/// The colours that a mask may have outside its rectangle.
pub open spec fn is_mask_color(color: u8) -> bool {
    color == 0 || color == 255
}

/// The flags that a mask may have.
pub open spec fn is_mask_flag(flag: u8) -> bool {
    flag == 0 || flag == 1 || flag == 2 || flag == 4 || flag == 8
}

/// The flags of mask parameters that say that the parameter is a density.
pub open spec fn selects_density(flag: u8) -> bool {
    flag == 0 || flag == 2
}

/// The flags of mask parameters that say that the parameter is a feather.
pub open spec fn selects_feather(flag: u8) -> bool {
    flag == 1 || flag == 4
}

/// The colour byte at `pos`, which must be 0 or 255.
pub open spec fn mask_color_at(bytes: Seq<u8>, pos: u64) -> Decoded<u8> {
    match u8_at(bytes, pos) {
        Err(e) => Err(e),
        Ok((color, end)) => if is_mask_color(color) {
            Ok((color, end))
        } else {
            Err(invalid_enum_value(pos))
        },
    }
}

/// The flag byte at `pos`, which must be one of 0, 1, 2, 4 and 8.
pub open spec fn mask_flag_at(bytes: Seq<u8>, pos: u64) -> Decoded<u8> {
    match u8_at(bytes, pos) {
        Err(e) => Err(e),
        Ok((flag, end)) => if is_mask_flag(flag) {
            Ok((flag, end))
        } else {
            Err(invalid_enum_value(pos))
        },
    }
}

/// The mask parameters at `pos`: a flag of one byte, then a density of one
/// byte or a feather of eight, as the flag says.
pub open spec fn mask_at(bytes: Seq<u8>, pos: u64) -> Decoded<Mask> {
    match u8_at(bytes, pos) {
        Err(e) => Err(e),
        Ok((flag, start)) => if selects_density(flag) {
            match i8_at(bytes, start) {
                Err(e) => Err(e),
                Ok((density, end)) => Ok(
                    (Mask { flag, parameter: MaskParameter::Density(density) }, end),
                ),
            }
        } else if selects_feather(flag) {
            match f64_bits_at(bytes, start) {
                Err(e) => Err(e),
                Ok((feather, end)) => Ok(
                    (Mask { flag, parameter: MaskParameter::Feather(feather) }, end),
                ),
            }
        } else {
            Err(invalid_enum_value(pos))
        },
    }
}

/// The mask parameters at `pos` of a mask with the flag `flag`: there are
/// some if the flag is 8.
pub open spec fn optional_mask_at(bytes: Seq<u8>, pos: u64, flag: u8) -> Decoded<Option<Mask>> {
    if flag == 8 {
        match mask_at(bytes, pos) {
            Err(e) => Err(e),
            Ok((mask, end)) => Ok((Some(mask), end)),
        }
    } else {
        Ok((None, pos))
    }
}

/// The fields of the real mask at `pos`: a flag, a colour and a rectangle.
pub open spec fn real_at(bytes: Seq<u8>, pos: u64) -> Decoded<Real> {
    match mask_flag_at(bytes, pos) {
        Err(e) => Err(e),
        Ok((flag, at1)) => match mask_color_at(bytes, at1) {
            Err(e) => Err(e),
            Ok((user_mask_background, at2)) => match rectangle_at(bytes, at2) {
                Err(e) => Err(e),
                Ok((rectangle, end)) => Ok((Real { flag, user_mask_background, rectangle }, end)),
            },
        },
    }
}

/// The fields at `pos` of a mask whose declared length is `length`: a
/// rectangle, a colour and a flag; mask parameters if the flag is 8; and the
/// fields of the real mask unless the length is [`LENGTH_WITHOUT_REAL`].
pub open spec fn fields_at(bytes: Seq<u8>, pos: u64, length: u32) -> Decoded<Fields> {
    match rectangle_at(bytes, pos) {
        Err(e) => Err(e),
        Ok((rectangle, at1)) => match mask_color_at(bytes, at1) {
            Err(e) => Err(e),
            Ok((default_color, at2)) => match mask_flag_at(bytes, at2) {
                Err(e) => Err(e),
                Ok((flag, at3)) => match optional_mask_at(bytes, at3, flag) {
                    Err(e) => Err(e),
                    Ok((mask, at4)) => if length == LENGTH_WITHOUT_REAL {
                        Ok((Fields { rectangle, default_color, flag, mask, real: None }, at4))
                    } else {
                        match real_at(bytes, at4) {
                            Err(e) => Err(e),
                            Ok((real_mask, end)) => Ok(
                                (
                                    Fields {
                                        rectangle,
                                        default_color,
                                        flag,
                                        mask,
                                        real: Some(real_mask),
                                    },
                                    end,
                                ),
                            ),
                        }
                    },
                },
            },
        },
    }
}

/// The mask data at `pos`: a length of four bytes, and the fields of the
/// mask unless the length is 0.
pub open spec fn layer_mask_data_at(bytes: Seq<u8>, pos: u64) -> Decoded<LayerMaskData> {
    match u32_at(bytes, pos) {
        Err(e) => Err(e),
        Ok((length, start)) => if length == 0 {
            Ok((LayerMaskData { length, fields: None }, start))
        } else {
            match fields_at(bytes, start, length) {
                Err(e) => Err(e),
                Ok((fields, end)) => Ok((LayerMaskData { length, fields: Some(fields) }, end)),
            }
        },
    }
}

/// Mask data that are decoded are well-formed.
pub proof fn lemma_layer_mask_data_wf(bytes: Seq<u8>, pos: u64)
    ensures
        layer_mask_data_at(bytes, pos) matches Ok((mask_data, _)) ==> mask_data.wf(),
{
}

/// Reads the colour of a mask.
fn read_mask_color(binary: &mut Binary) -> (r: Result<u8, FieldError>)
    ensures
        final(binary).after(
            *old(binary),
            r,
            mask_color_at(old(binary).buffer(), old(binary).offset()),
        ),
{
    let start = binary.get_position();
    let color = binary.read_u8()?;
    if color == 0 || color == 255 {
        Ok(color)
    } else {
        Err(binary.reject(start, ErrorKind::InvalidEnumValue))
    }
}

/// Reads the flag of a mask.
fn read_mask_flag(binary: &mut Binary) -> (r: Result<u8, FieldError>)
    ensures
        final(binary).after(
            *old(binary),
            r,
            mask_flag_at(old(binary).buffer(), old(binary).offset()),
        ),
{
    let start = binary.get_position();
    let flag = binary.read_u8()?;
    if flag == 0 || flag == 1 || flag == 2 || flag == 4 || flag == 8 {
        Ok(flag)
    } else {
        Err(binary.reject(start, ErrorKind::InvalidEnumValue))
    }
}

/// Decodes the mask parameters at the cursor.
pub fn get_mask(binary: &mut Binary) -> (r: Result<Mask, FieldError>)
    ensures
        final(binary).after(*old(binary), r, mask_at(old(binary).buffer(), old(binary).offset())),
{
    let start = binary.get_position();
    let flag = binary.read_u8()?;
    if flag == 0 || flag == 2 {
        let density = binary.read_i8()?;
        Ok(Mask { flag, parameter: MaskParameter::Density(density) })
    } else if flag == 1 || flag == 4 {
        let feather = binary.read_f64()?;
        Ok(Mask { flag, parameter: MaskParameter::Feather(feather) })
    } else {
        Err(binary.reject(start, ErrorKind::InvalidEnumValue))
    }
}

/// Decodes the fields of the real mask at the cursor.
pub fn get_real(binary: &mut Binary) -> (r: Result<Real, FieldError>)
    ensures
        final(binary).after(*old(binary), r, real_at(old(binary).buffer(), old(binary).offset())),
{
    let flag = read_mask_flag(binary)?;
    let user_mask_background = read_mask_color(binary)?;
    let rectangle = get_rectangle(binary)?;
    Ok(Real { flag, user_mask_background, rectangle })
}

/// Decodes the fields at the cursor of a mask whose declared length is
/// `length`.
pub fn get_fields(binary: &mut Binary, length: u32) -> (r: Result<Fields, FieldError>)
    ensures
        final(binary).after(
            *old(binary),
            r,
            fields_at(old(binary).buffer(), old(binary).offset(), length),
        ),
{
    let rectangle = get_rectangle(binary)?;
    let default_color = read_mask_color(binary)?;
    let flag = read_mask_flag(binary)?;
    let mask = if flag == 8 {
        Some(get_mask(binary)?)
    } else {
        None
    };
    let real_mask = if length == LENGTH_WITHOUT_REAL {
        None
    } else {
        Some(get_real(binary)?)
    };
    Ok(Fields { rectangle, default_color, flag, mask, real: real_mask })
}

/// Decodes the mask data at the cursor.
pub fn get_layer_mask_data(binary: &mut Binary) -> (r: Result<LayerMaskData, FieldError>)
    ensures
        final(binary).after(
            *old(binary),
            r,
            layer_mask_data_at(old(binary).buffer(), old(binary).offset()),
        ),
        r matches Ok(mask_data) ==> mask_data.wf(),
{
    proof {
        lemma_layer_mask_data_wf(binary.buffer(), binary.offset());
    }
    let length = binary.read_u32()?;
    if length == 0 {
        return Ok(LayerMaskData { length, fields: None });
    }
    let fields = get_fields(binary, length)?;
    Ok(LayerMaskData { length, fields: Some(fields) })
}

} // verus!
