//! The section that holds the layers. Its declared length decides where it
//! ends, whatever the decoders of its parts have read.

pub mod additional_layer_informations;
pub mod layer_info;

use self::layer_info::{
    get_layer_info, layer_info_at, lemma_layer_info_wf, LayerInfo, LayerInfoView,
};
use crate::binary::{advance, u32_at, Binary};
use crate::decoded::Decoded;
use crate::error::FieldError;
use vstd::prelude::*;

verus! {

/// The layer and mask information: its declared length, and the layers.
#[derive(Clone, Debug, PartialEq, Eq)]
pub struct LayerAndMaskInformationSection {
    pub length: u32,
    pub layer_info: LayerInfo,
}

/// What a [`LayerAndMaskInformationSection`] holds.
pub struct LayerAndMaskInformationSectionView {
    pub length: u32,
    pub layer_info: LayerInfoView,
}

impl LayerAndMaskInformationSectionView {
    /// The layer information is well-formed.
    pub open spec fn wf(self) -> bool {
        self.layer_info.wf()
    }
}

impl View for LayerAndMaskInformationSection {
    type V = LayerAndMaskInformationSectionView;

    open spec fn view(&self) -> LayerAndMaskInformationSectionView {
        LayerAndMaskInformationSectionView { length: self.length, layer_info: self.layer_info@ }
    }
}

/// The layer and mask information at `pos`: a length of four bytes, and the
/// layer information after it. The section ends as many bytes after its
/// length field as the length says, wherever the layer information ended and
/// whether or not the buffer holds that many bytes.
pub open spec fn layer_and_mask_information_section_at(bytes: Seq<u8>, pos: u64) -> Decoded<
    LayerAndMaskInformationSectionView,
> {
    match u32_at(bytes, pos) {
        Err(e) => Err(e),
        Ok((length, start)) => match layer_info_at(bytes, start) {
            Err(e) => Err(e),
            Ok((layer_info, _)) => Ok(
                (
                    LayerAndMaskInformationSectionView { length, layer_info },
                    advance(start, length as nat),
                ),
            ),
        },
    }
}

/// Layer and mask information that is decoded is well-formed.
pub proof fn lemma_layer_and_mask_information_section_wf(bytes: Seq<u8>, pos: u64)
    ensures
        layer_and_mask_information_section_at(bytes, pos) matches Ok((section, _))
            ==> section.wf(),
{
    if let Ok((_, start)) = u32_at(bytes, pos) {
        lemma_layer_info_wf(bytes, start);
    }
}

/// Decodes the layer and mask information at the cursor.
pub fn get_layer_and_mask_information_section(binary: &mut Binary) -> (r: Result<
    LayerAndMaskInformationSection,
    FieldError,
>)
    ensures
        final(binary).after(
            *old(binary),
            r,
            layer_and_mask_information_section_at(old(binary).buffer(), old(binary).offset()),
        ),
        r matches Ok(section) ==> section@.wf(),
{
    proof {
        lemma_layer_and_mask_information_section_wf(binary.buffer(), binary.offset());
    }
    let length = binary.read_u32()?;
    let start = binary.get_position();
    let layer_info = get_layer_info(binary)?;
    binary.set_position(start.saturating_add(length as u64));
    Ok(LayerAndMaskInformationSection { length, layer_info })
}

} // verus!
