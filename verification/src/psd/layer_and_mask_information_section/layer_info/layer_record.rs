//! The record of one layer: where it lies, its channels, how it is blended,
//! its mask, its blending ranges, its name and its extension blocks.

pub mod channel_information;
pub mod coordinates;
pub mod layer_blending_ranges_data;
pub mod layer_mask_data;

pub use self::channel_information::ChannelInformation;
pub use self::coordinates::Coordinates;

use self::channel_information::{
    channel_information_at, get_channel_information, is_channel_id,
};
use self::coordinates::{coordinates_at, get_coordinates};
use self::layer_blending_ranges_data::{
    get_layer_blending_ranges_data, layer_blending_ranges_data_at,
    lemma_layer_blending_ranges_data_wf, LayerBlendingRangesData, LayerBlendingRangesDataView,
};
use self::layer_mask_data::{
    get_layer_mask_data, layer_mask_data_at, lemma_layer_mask_data_wf, LayerMaskData,
};
use crate::binary::{advance, short_string_at, short_text_at, u16_at, u32_at, u8_at, Binary};
use crate::code::{code_of, lemma_code_text, read_signature, signature_at};
use crate::decoded::{
    lemma_prepend_end, lemma_prepend_first, lemma_prepend_nothing, prepend, views, Decoded,
};
use crate::error::{invalid_enum_value, ErrorKind, FieldError};
use crate::psd::layer_and_mask_information_section::additional_layer_informations::{
    additional_layer_informations_at, get_additional_layer_informations,
    lemma_additional_layer_informations_wf, AdditionalLayerInformation,
    AdditionalLayerInformationView, AdditionalLayerInformations,
};
use crate::text::{decoded_text, Encoding};
use vstd::prelude::*;

verus! {

/// The record of one layer.
#[derive(Clone, Debug, PartialEq, Eq)]
pub struct LayerRecord {
    pub coordinates: Coordinates,
    pub channel_count: u16,
    /// As many as `channel_count` says.
    pub channel_informations: Vec<ChannelInformation>,
    /// One of the keys of [`is_blend_mode_key`].
    pub blend_mode_key: String,
    pub opacity: u8,
    /// 0 or 1.
    pub clipping: u8,
    pub flags: u8,
    /// The declared length of what follows in the record. Nothing is held
    /// against it.
    pub extra_data_field_length: u32,
    pub layer_mask_data: LayerMaskData,
    pub layer_blending_ranges_data: LayerBlendingRangesData,
    pub layer_name: String,
    pub additional_layer_informations: AdditionalLayerInformations,
}

/// What a [`LayerRecord`] holds.
pub struct LayerRecordView {
    pub coordinates: Coordinates,
    pub channel_count: u16,
    pub channel_informations: Seq<ChannelInformation>,
    pub blend_mode_key: Seq<char>,
    pub opacity: u8,
    pub clipping: u8,
    pub flags: u8,
    pub extra_data_field_length: u32,
    pub layer_mask_data: LayerMaskData,
    pub layer_blending_ranges_data: LayerBlendingRangesDataView,
    pub layer_name: Seq<char>,
    pub additional_layer_informations: Seq<AdditionalLayerInformationView>,
}

impl LayerRecordView {
    /// There are as many channel descriptors as the count says, each with a
    /// known id; the blend mode key is one of the format; the clipping is 0 or
    /// 1; the mask, the blending ranges and the extension blocks are
    /// well-formed.
    pub open spec fn wf(self) -> bool {
        &&& self.channel_informations.len() == self.channel_count
        &&& forall|i: int|
            0 <= i < self.channel_informations.len() ==> is_channel_id(
                #[trigger] self.channel_informations[i].channel_id,
            )
        &&& is_blend_mode_key(self.blend_mode_key)
        &&& is_clipping(self.clipping)
        &&& self.layer_mask_data.wf()
        &&& self.layer_blending_ranges_data.wf()
        &&& forall|i: int|
            0 <= i < self.additional_layer_informations.len() ==> (
            #[trigger] self.additional_layer_informations[i]).wf()
    }
}

impl View for LayerRecord {
    type V = LayerRecordView;

    open spec fn view(&self) -> LayerRecordView {
        LayerRecordView {
            coordinates: self.coordinates,
            channel_count: self.channel_count,
            channel_informations: self.channel_informations@,
            blend_mode_key: self.blend_mode_key@,
            opacity: self.opacity,
            clipping: self.clipping,
            flags: self.flags,
            extra_data_field_length: self.extra_data_field_length,
            layer_mask_data: self.layer_mask_data,
            layer_blending_ranges_data: self.layer_blending_ranges_data@,
            layer_name: self.layer_name@,
            additional_layer_informations: views(self.additional_layer_informations@),
        }
    }
}

/// The keys that name a way of blending a layer.
pub open spec fn is_blend_mode_key(key: Seq<char>) -> bool {
    ||| key == "pass"@
    ||| key == "norm"@
    ||| key == "diss"@
    ||| key == "dark"@
    ||| key == "mul "@
    ||| key == "idiv"@
    ||| key == "lbrn"@
    ||| key == "dkCl"@
    ||| key == "lite"@
    ||| key == "scrn"@
    ||| key == "div "@
    ||| key == "lddg"@
    ||| key == "lgCl"@
    ||| key == "over"@
    ||| key == "sLit"@
    ||| key == "hLit"@
    ||| key == "vLit"@
    ||| key == "lLit"@
    ||| key == "pLit"@
    ||| key == "hMix"@
    ||| key == "diff"@
    ||| key == "smud"@
    ||| key == "fsub"@
    ||| key == "fdiv"@
    ||| key == "hue "@
    ||| key == "sat "@
    ||| key == "colr"@
    ||| key == "lum "@
}

/// The codes of the keys that name a way of blending a layer.
pub open spec fn names_blend_mode(code: u32) -> bool {
    ||| code == code_of("pass"@)
    ||| code == code_of("norm"@)
    ||| code == code_of("diss"@)
    ||| code == code_of("dark"@)
    ||| code == code_of("mul "@)
    ||| code == code_of("idiv"@)
    ||| code == code_of("lbrn"@)
    ||| code == code_of("dkCl"@)
    ||| code == code_of("lite"@)
    ||| code == code_of("scrn"@)
    ||| code == code_of("div "@)
    ||| code == code_of("lddg"@)
    ||| code == code_of("lgCl"@)
    ||| code == code_of("over"@)
    ||| code == code_of("sLit"@)
    ||| code == code_of("hLit"@)
    ||| code == code_of("vLit"@)
    ||| code == code_of("lLit"@)
    ||| code == code_of("pLit"@)
    ||| code == code_of("hMix"@)
    ||| code == code_of("diff"@)
    ||| code == code_of("smud"@)
    ||| code == code_of("fsub"@)
    ||| code == code_of("fdiv"@)
    ||| code == code_of("hue "@)
    ||| code == code_of("sat "@)
    ||| code == code_of("colr"@)
    ||| code == code_of("lum "@)
}

/// The values of the clipping byte.
pub open spec fn is_clipping(clipping: u8) -> bool {
    clipping == 0 || clipping == 1
}

/// The number of bytes that fill a field of `consumed` bytes up to the next
/// multiple of four.
pub open spec fn padding(consumed: int) -> int {
    (4 - consumed % 4) % 4
}

/// The `count` channel descriptors from `pos` on, one after the other.
pub open spec fn channel_informations_at(bytes: Seq<u8>, pos: u64, count: nat) -> Decoded<
    Seq<ChannelInformation>,
>
    decreases count,
{
    if count == 0 {
        Ok((Seq::empty(), pos))
    } else {
        match channel_information_at(bytes, pos) {
            Err(e) => Err(e),
            Ok((first, next)) => prepend(
                seq![first],
                channel_informations_at(bytes, next, (count - 1) as nat),
            ),
        }
    }
}

/// The channels at `pos`: a count of two bytes, and that many descriptors.
pub open spec fn channels_at(bytes: Seq<u8>, pos: u64) -> Decoded<
    (u16, Seq<ChannelInformation>),
> {
    match u16_at(bytes, pos) {
        Err(e) => Err(e),
        Ok((channel_count, start)) => match channel_informations_at(
            bytes,
            start,
            channel_count as nat,
        ) {
            Err(e) => Err(e),
            Ok((channel_informations, end)) => Ok(((channel_count, channel_informations), end)),
        },
    }
}

/// The blend mode key at `pos`: four bytes that are one of the keys of
/// [`names_blend_mode`], as text.
pub open spec fn blend_mode_key_at(bytes: Seq<u8>, pos: u64) -> Decoded<Seq<char>> {
    match u32_at(bytes, pos) {
        Err(e) => Err(e),
        Ok((code, _)) => if names_blend_mode(code) {
            short_text_at(bytes, pos, 4, Encoding::Utf8)
        } else {
            Err(invalid_enum_value(pos))
        },
    }
}

/// The clipping byte at `pos`, which must be 0 or 1.
pub open spec fn clipping_at(bytes: Seq<u8>, pos: u64) -> Decoded<u8> {
    match u8_at(bytes, pos) {
        Err(e) => Err(e),
        Ok((clipping, end)) => if is_clipping(clipping) {
            Ok((clipping, end))
        } else {
            Err(invalid_enum_value(pos))
        },
    }
}

/// The filler byte at `pos`, which must be 0.
pub open spec fn filler_at(bytes: Seq<u8>, pos: u64) -> Decoded<u8> {
    match u8_at(bytes, pos) {
        Err(e) => Err(e),
        Ok((filler, end)) => if filler == 0 {
            Ok((filler, end))
        } else {
            Err(invalid_enum_value(pos))
        },
    }
}

/// How the layer is blended, from `pos` on: the container's tag, the blend
/// mode key, and one byte each of opacity, clipping, flags and filler. The
/// value is the key, the opacity, the clipping and the flags.
pub open spec fn blending_at(bytes: Seq<u8>, pos: u64) -> Decoded<(Seq<char>, u8, u8, u8)> {
    match signature_at(bytes, pos) {
        Err(e) => Err(e),
        Ok((_, at1)) => match blend_mode_key_at(bytes, at1) {
            Err(e) => Err(e),
            Ok((blend_mode_key, at2)) => match u8_at(bytes, at2) {
                Err(e) => Err(e),
                Ok((opacity, at3)) => match clipping_at(bytes, at3) {
                    Err(e) => Err(e),
                    Ok((clipping, at4)) => match u8_at(bytes, at4) {
                        Err(e) => Err(e),
                        Ok((flags, at5)) => match filler_at(bytes, at5) {
                            Err(e) => Err(e),
                            Ok((_, end)) => Ok(((blend_mode_key, opacity, clipping, flags), end)),
                        },
                    },
                },
            },
        },
    }
}

/// The name of the layer at `pos`: a Shift_JIS string with one byte of length
/// before it, and after it the bytes that fill the two up to a multiple of
/// four.
pub open spec fn layer_name_at(bytes: Seq<u8>, pos: u64) -> Decoded<Seq<char>> {
    match short_string_at(bytes, pos, Encoding::Sjis) {
        Err(e) => Err(e),
        Ok((layer_name, end)) => Ok((layer_name, advance(end, padding(end - pos) as nat))),
    }
}

/// The extra data of a layer, from `pos` on: their declared length in four
/// bytes, the mask, the blending ranges, the name and the extension blocks.
pub open spec fn extra_data_at(bytes: Seq<u8>, pos: u64) -> Decoded<
    (
        u32,
        LayerMaskData,
        LayerBlendingRangesDataView,
        Seq<char>,
        Seq<AdditionalLayerInformationView>,
    ),
> {
    match u32_at(bytes, pos) {
        Err(e) => Err(e),
        Ok((extra_data_field_length, at1)) => match layer_mask_data_at(bytes, at1) {
            Err(e) => Err(e),
            Ok((layer_mask_data, at2)) => match layer_blending_ranges_data_at(bytes, at2) {
                Err(e) => Err(e),
                Ok((layer_blending_ranges_data, at3)) => match layer_name_at(bytes, at3) {
                    Err(e) => Err(e),
                    Ok((layer_name, at4)) => match additional_layer_informations_at(bytes, at4) {
                        Err(e) => Err(e),
                        Ok((additional_layer_informations, end)) => Ok(
                            (
                                (
                                    extra_data_field_length,
                                    layer_mask_data,
                                    layer_blending_ranges_data,
                                    layer_name,
                                    additional_layer_informations,
                                ),
                                end,
                            ),
                        ),
                    },
                },
            },
        },
    }
}

/// The layer record at `pos`: the coordinates, the channels, the way of
/// blending and the extra data, in this order.
pub open spec fn layer_record_at(bytes: Seq<u8>, pos: u64) -> Decoded<LayerRecordView> {
    match coordinates_at(bytes, pos) {
        Err(e) => Err(e),
        Ok((coordinates, at1)) => match channels_at(bytes, at1) {
            Err(e) => Err(e),
            Ok((channels, at2)) => match blending_at(bytes, at2) {
                Err(e) => Err(e),
                Ok((blending, at3)) => match extra_data_at(bytes, at3) {
                    Err(e) => Err(e),
                    Ok((extra, end)) => Ok(
                        (
                            LayerRecordView {
                                coordinates,
                                channel_count: channels.0,
                                channel_informations: channels.1,
                                blend_mode_key: blending.0,
                                opacity: blending.1,
                                clipping: blending.2,
                                flags: blending.3,
                                extra_data_field_length: extra.0,
                                layer_mask_data: extra.1,
                                layer_blending_ranges_data: extra.2,
                                layer_name: extra.3,
                                additional_layer_informations: extra.4,
                            },
                            end,
                        ),
                    ),
                },
            },
        },
    }
}

/// A blend mode key that is decoded is one of the keys of the format.
pub proof fn lemma_blend_mode_key(bytes: Seq<u8>, pos: u64)
    ensures
        blend_mode_key_at(bytes, pos) matches Ok((key, _)) ==> is_blend_mode_key(key),
{
    if let Ok((code, _)) = u32_at(bytes, pos) {
        if code == code_of("pass"@) {
            reveal_strlit("pass");
            lemma_code_text(bytes, pos, "pass"@);
        }
        if code == code_of("norm"@) {
            reveal_strlit("norm");
            lemma_code_text(bytes, pos, "norm"@);
        }
        if code == code_of("diss"@) {
            reveal_strlit("diss");
            lemma_code_text(bytes, pos, "diss"@);
        }
        if code == code_of("dark"@) {
            reveal_strlit("dark");
            lemma_code_text(bytes, pos, "dark"@);
        }
        if code == code_of("mul "@) {
            reveal_strlit("mul ");
            lemma_code_text(bytes, pos, "mul "@);
        }
        if code == code_of("idiv"@) {
            reveal_strlit("idiv");
            lemma_code_text(bytes, pos, "idiv"@);
        }
        if code == code_of("lbrn"@) {
            reveal_strlit("lbrn");
            lemma_code_text(bytes, pos, "lbrn"@);
        }
        if code == code_of("dkCl"@) {
            reveal_strlit("dkCl");
            lemma_code_text(bytes, pos, "dkCl"@);
        }
        if code == code_of("lite"@) {
            reveal_strlit("lite");
            lemma_code_text(bytes, pos, "lite"@);
        }
        if code == code_of("scrn"@) {
            reveal_strlit("scrn");
            lemma_code_text(bytes, pos, "scrn"@);
        }
        if code == code_of("div "@) {
            reveal_strlit("div ");
            lemma_code_text(bytes, pos, "div "@);
        }
        if code == code_of("lddg"@) {
            reveal_strlit("lddg");
            lemma_code_text(bytes, pos, "lddg"@);
        }
        if code == code_of("lgCl"@) {
            reveal_strlit("lgCl");
            lemma_code_text(bytes, pos, "lgCl"@);
        }
        if code == code_of("over"@) {
            reveal_strlit("over");
            lemma_code_text(bytes, pos, "over"@);
        }
        if code == code_of("sLit"@) {
            reveal_strlit("sLit");
            lemma_code_text(bytes, pos, "sLit"@);
        }
        if code == code_of("hLit"@) {
            reveal_strlit("hLit");
            lemma_code_text(bytes, pos, "hLit"@);
        }
        if code == code_of("vLit"@) {
            reveal_strlit("vLit");
            lemma_code_text(bytes, pos, "vLit"@);
        }
        if code == code_of("lLit"@) {
            reveal_strlit("lLit");
            lemma_code_text(bytes, pos, "lLit"@);
        }
        if code == code_of("pLit"@) {
            reveal_strlit("pLit");
            lemma_code_text(bytes, pos, "pLit"@);
        }
        if code == code_of("hMix"@) {
            reveal_strlit("hMix");
            lemma_code_text(bytes, pos, "hMix"@);
        }
        if code == code_of("diff"@) {
            reveal_strlit("diff");
            lemma_code_text(bytes, pos, "diff"@);
        }
        if code == code_of("smud"@) {
            reveal_strlit("smud");
            lemma_code_text(bytes, pos, "smud"@);
        }
        if code == code_of("fsub"@) {
            reveal_strlit("fsub");
            lemma_code_text(bytes, pos, "fsub"@);
        }
        if code == code_of("fdiv"@) {
            reveal_strlit("fdiv");
            lemma_code_text(bytes, pos, "fdiv"@);
        }
        if code == code_of("hue "@) {
            reveal_strlit("hue ");
            lemma_code_text(bytes, pos, "hue "@);
        }
        if code == code_of("sat "@) {
            reveal_strlit("sat ");
            lemma_code_text(bytes, pos, "sat "@);
        }
        if code == code_of("colr"@) {
            reveal_strlit("colr");
            lemma_code_text(bytes, pos, "colr"@);
        }
        if code == code_of("lum "@) {
            reveal_strlit("lum ");
            lemma_code_text(bytes, pos, "lum "@);
        }
    }
}

/// Where `count` channel descriptors are decoded, the list has `count`
/// descriptors, each with a known id.
pub proof fn lemma_channel_informations(bytes: Seq<u8>, pos: u64, count: nat)
    ensures
        channel_informations_at(bytes, pos, count) matches Ok((channels, _)) ==> {
            &&& channels.len() == count
            &&& forall|i: int|
                0 <= i < channels.len() ==> is_channel_id(#[trigger] channels[i].channel_id)
        },
    decreases count,
{
    if count > 0 {
        if let Ok((_, next)) = channel_information_at(bytes, pos) {
            lemma_channel_informations(bytes, next, (count - 1) as nat);
        }
    }
}

/// A layer record that is decoded is well-formed.
pub proof fn lemma_layer_record_wf(bytes: Seq<u8>, pos: u64)
    ensures
        layer_record_at(bytes, pos) matches Ok((record, _)) ==> record.wf(),
{
    if let Ok((_, at1)) = coordinates_at(bytes, pos) {
        if let Ok((channel_count, start)) = u16_at(bytes, at1) {
            lemma_channel_informations(bytes, start, channel_count as nat);
        }
        if let Ok((_, at2)) = channels_at(bytes, at1) {
            if let Ok((_, key)) = signature_at(bytes, at2) {
                lemma_blend_mode_key(bytes, key);
            }
            if let Ok((_, at3)) = blending_at(bytes, at2) {
                if let Ok((_, at4)) = u32_at(bytes, at3) {
                    lemma_layer_mask_data_wf(bytes, at4);
                    if let Ok((_, at5)) = layer_mask_data_at(bytes, at4) {
                        lemma_layer_blending_ranges_data_wf(bytes, at5);
                        if let Ok((_, at6)) = layer_blending_ranges_data_at(bytes, at5) {
                            if let Ok((_, at7)) = layer_name_at(bytes, at6) {
                                lemma_additional_layer_informations_wf(bytes, at7);
                            }
                        }
                    }
                }
            }
        }
    }
}

/// The padding is less than four bytes, and with it the field ends on a
/// multiple of four. There is none only where the field ends on one by
/// itself.
pub proof fn lemma_padding_aligns(consumed: int)
    requires
        0 <= consumed,
    ensures
        0 <= padding(consumed) <= 3,
        (consumed + padding(consumed)) % 4 == 0,
        padding(consumed) == 0 <==> consumed % 4 == 0,
{
}

/// After a layer name of an odd number of bytes that, with its length byte,
/// does not end on a multiple of four, the padding is of one, two or three
/// bytes, and the name field with it is a multiple of four bytes long.
pub proof fn lemma_odd_name_padding(name_length: u8)
    requires
        name_length % 2 == 1,
        (1 + name_length) % 4 != 0,
    ensures
        1 <= padding(1 + name_length) <= 3,
        (1 + name_length + padding(1 + name_length)) % 4 == 0,
{
}

/// Where the name of a layer is decoded, the field is as long as the length
/// byte, the name and the padding together, which is a multiple of four
/// bytes, and the name is what the bytes after the length byte spell.
pub proof fn lemma_layer_name_extent(bytes: Seq<u8>, pos: u64)
    ensures
        layer_name_at(bytes, pos) matches Ok((layer_name, end)) ==> {
            let length = bytes[pos as int];
            let field = 1 + length + padding(1 + length);
            &&& field % 4 == 0
            &&& end == advance(pos, field as nat)
            &&& layer_name == decoded_text(
                Encoding::Sjis,
                bytes.subrange(pos + 1, pos + 1 + length),
            )
        },
{
}

/// Whether `code` is the code of a blend mode key.
pub fn is_blend_mode_code(code: u32) -> (b: bool)
    ensures
        b == names_blend_mode(code),
{
    proof {
        reveal_strlit("pass");
        reveal_strlit("norm");
        reveal_strlit("diss");
        reveal_strlit("dark");
        reveal_strlit("mul ");
        reveal_strlit("idiv");
        reveal_strlit("lbrn");
        reveal_strlit("dkCl");
        reveal_strlit("lite");
        reveal_strlit("scrn");
        reveal_strlit("div ");
        reveal_strlit("lddg");
        reveal_strlit("lgCl");
        reveal_strlit("over");
        reveal_strlit("sLit");
        reveal_strlit("hLit");
        reveal_strlit("vLit");
        reveal_strlit("lLit");
        reveal_strlit("pLit");
        reveal_strlit("hMix");
        reveal_strlit("diff");
        reveal_strlit("smud");
        reveal_strlit("fsub");
        reveal_strlit("fdiv");
        reveal_strlit("hue ");
        reveal_strlit("sat ");
        reveal_strlit("colr");
        reveal_strlit("lum ");
    }
    code == 0x7061_7373  // pass
        || code == 0x6E6F_726D  // norm
        || code == 0x6469_7373  // diss
        || code == 0x6461_726B  // dark
        || code == 0x6D75_6C20  // mul with a blank
        || code == 0x6964_6976  // idiv
        || code == 0x6C62_726E  // lbrn
        || code == 0x646B_436C  // dkCl
        || code == 0x6C69_7465  // lite
        || code == 0x7363_726E  // scrn
        || code == 0x6469_7620  // div with a blank
        || code == 0x6C64_6467  // lddg
        || code == 0x6C67_436C  // lgCl
        || code == 0x6F76_6572  // over
        || code == 0x734C_6974  // sLit
        || code == 0x684C_6974  // hLit
        || code == 0x764C_6974  // vLit
        || code == 0x6C4C_6974  // lLit
        || code == 0x704C_6974  // pLit
        || code == 0x684D_6978  // hMix
        || code == 0x6469_6666  // diff
        || code == 0x736D_7564  // smud
        || code == 0x6673_7562  // fsub
        || code == 0x6664_6976  // fdiv
        || code == 0x6875_6520  // hue with a blank
        || code == 0x7361_7420  // sat with a blank
        || code == 0x636F_6C72  // colr
        || code == 0x6C75_6D20  // lum with a blank
}

/// Decodes `count` channel descriptors from the cursor on.
pub fn get_channel_informations(binary: &mut Binary, count: u16) -> (r: Result<
    Vec<ChannelInformation>,
    FieldError,
>)
    ensures
        final(binary).after(
            *old(binary),
            r,
            channel_informations_at(old(binary).buffer(), old(binary).offset(), count as nat),
        ),
{
    let ghost bytes = binary.buffer();
    let ghost whole = channel_informations_at(bytes, binary.offset(), count as nat);
    let mut channel_informations: Vec<ChannelInformation> = Vec::new();
    let mut i: u16 = 0;
    proof {
        lemma_prepend_nothing(whole);
    }
    while i < count
        invariant
            i <= count,
            binary.buffer() == bytes,
            bytes == old(binary).buffer(),
            whole == channel_informations_at(bytes, old(binary).offset(), count as nat),
            whole == prepend(
                channel_informations@,
                channel_informations_at(bytes, binary.offset(), (count - i) as nat),
            ),
        decreases count - i,
    {
        let channel_information = get_channel_information(binary)?;
        proof {
            lemma_prepend_first(
                channel_informations@,
                channel_information,
                channel_informations_at(bytes, binary.offset(), (count - i - 1) as nat),
            );
        }
        channel_informations.push(channel_information);
        i = i + 1;
    }
    proof {
        lemma_prepend_end(channel_informations@, binary.offset());
    }
    Ok(channel_informations)
}

/// Reads the blend mode key at the cursor.
pub fn read_blend_mode_key(binary: &mut Binary) -> (r: Result<String, FieldError>)
    ensures
        final(binary).after(
            *old(binary),
            r,
            blend_mode_key_at(old(binary).buffer(), old(binary).offset()),
        ),
        r matches Ok(key) ==> is_blend_mode_key(key@),
{
    proof {
        lemma_blend_mode_key(binary.buffer(), binary.offset());
    }
    let code = binary.peek_u32()?;
    if !is_blend_mode_code(code) {
        let start = binary.get_position();
        return Err(binary.reject(start, ErrorKind::InvalidEnumValue));
    }
    binary.read_utf8(4)
}

/// Reads the clipping byte at the cursor.
fn read_clipping(binary: &mut Binary) -> (r: Result<u8, FieldError>)
    ensures
        final(binary).after(
            *old(binary),
            r,
            clipping_at(old(binary).buffer(), old(binary).offset()),
        ),
{
    let start = binary.get_position();
    let clipping = binary.read_u8()?;
    if clipping == 0 || clipping == 1 {
        Ok(clipping)
    } else {
        Err(binary.reject(start, ErrorKind::InvalidEnumValue))
    }
}

/// Reads the filler byte at the cursor.
fn read_filler(binary: &mut Binary) -> (r: Result<u8, FieldError>)
    ensures
        final(binary).after(*old(binary), r, filler_at(old(binary).buffer(), old(binary).offset())),
{
    let start = binary.get_position();
    let filler = binary.read_u8()?;
    if filler == 0 {
        Ok(filler)
    } else {
        Err(binary.reject(start, ErrorKind::InvalidEnumValue))
    }
}

/// Reads the name of the layer at the cursor, and skips the bytes that fill
/// it up to a multiple of four.
pub fn read_layer_name(binary: &mut Binary) -> (r: Result<String, FieldError>)
    ensures
        final(binary).after(
            *old(binary),
            r,
            layer_name_at(old(binary).buffer(), old(binary).offset()),
        ),
{
    let start = binary.get_position();
    let layer_name = binary.read_sjis_pascal_string()?;
    let consumed = binary.get_position() - start;
    let over = consumed % 4;
    let padding = if over == 0 {
        0
    } else {
        4 - over
    };
    binary.increment_position(padding);
    Ok(layer_name)
}

/// Decodes the layer record at the cursor.
pub fn get_layer_record(binary: &mut Binary) -> (r: Result<LayerRecord, FieldError>)
    ensures
        final(binary).after(
            *old(binary),
            r,
            layer_record_at(old(binary).buffer(), old(binary).offset()),
        ),
        r matches Ok(record) ==> record@.wf(),
{
    proof {
        lemma_layer_record_wf(binary.buffer(), binary.offset());
    }
    let coordinates = get_coordinates(binary)?;
    let channel_count = binary.read_u16()?;
    let channel_informations = get_channel_informations(binary, channel_count)?;
    let _ = read_signature(binary)?;
    let blend_mode_key = read_blend_mode_key(binary)?;
    let opacity = binary.read_u8()?;
    let clipping = read_clipping(binary)?;
    let flags = binary.read_u8()?;
    let _ = read_filler(binary)?;
    let extra_data_field_length = binary.read_u32()?;
    let layer_mask_data = get_layer_mask_data(binary)?;
    let layer_blending_ranges_data = get_layer_blending_ranges_data(binary)?;
    let layer_name = read_layer_name(binary)?;
    let additional_layer_informations = get_additional_layer_informations(binary)?;
    Ok(
        LayerRecord {
            coordinates,
            channel_count,
            channel_informations,
            blend_mode_key,
            opacity,
            clipping,
            flags,
            extra_data_field_length,
            layer_mask_data,
            layer_blending_ranges_data,
            layer_name,
            additional_layer_informations,
        },
    )
}

} // verus!
