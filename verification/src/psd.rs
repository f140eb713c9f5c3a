//! The document and its four sections, which are decoded one after the
//! other with one cursor.

pub mod color_mode_data_section;
pub mod file_header_section;
pub mod image_resources_section;
pub mod layer_and_mask_information_section;

use self::color_mode_data_section::{
    color_mode_data_section_at, get_color_mode_data_section, ColorModeDataSection,
};
use self::file_header_section::{
    file_header_section_at, get_file_header_section, FileHeaderSection,
};
use self::image_resources_section::{
    get_image_resources_section, image_resources_section_at, ImageResourcesSection,
};
use self::layer_and_mask_information_section::{
    get_layer_and_mask_information_section, layer_and_mask_information_section_at,
    lemma_layer_and_mask_information_section_wf, LayerAndMaskInformationSection,
    LayerAndMaskInformationSectionView,
};
use crate::binary::Binary;
use crate::error::{within, DecodeError, Section};
use vstd::prelude::*;

verus! {

/// A document.
#[derive(Clone, Debug, PartialEq, Eq)]
pub struct Psd {
    pub file_header_section: FileHeaderSection,
    pub color_mode_data_section: ColorModeDataSection,
    pub image_resources_section: ImageResourcesSection,
    pub layer_and_mask_information_section: LayerAndMaskInformationSection,
}

/// What a [`Psd`] holds.
pub struct PsdView {
    pub file_header_section: FileHeaderSection,
    pub color_mode_data_section: ColorModeDataSection,
    pub image_resources_section: ImageResourcesSection,
    pub layer_and_mask_information_section: LayerAndMaskInformationSectionView,
}

impl PsdView {
    /// The layers are well-formed: there are as many layer records as the
    /// magnitude of the layer count, and each is well-formed.
    pub open spec fn wf(self) -> bool {
        self.layer_and_mask_information_section.wf()
    }
}

impl View for Psd {
    type V = PsdView;

    open spec fn view(&self) -> PsdView {
        PsdView {
            file_header_section: self.file_header_section,
            color_mode_data_section: self.color_mode_data_section,
            image_resources_section: self.image_resources_section,
            layer_and_mask_information_section: self.layer_and_mask_information_section@,
        }
    }
}

/// The document that `bytes` hold, and the offset at which its last section
/// ends: the file header, then the colour mode data, the image resources and
/// the layer and mask information, each from where the one before it ended.
/// Where a section cannot be decoded there is no document, and the error
/// names the section.
pub open spec fn psd_at(bytes: Seq<u8>) -> Result<(PsdView, u64), DecodeError> {
    match file_header_section_at(bytes) {
        Err(e) => Err(within(Section::FileHeader, e)),
        Ok((file_header_section, at1)) => match color_mode_data_section_at(bytes, at1) {
            Err(e) => Err(within(Section::ColorModeData, e)),
            Ok((color_mode_data_section, at2)) => match image_resources_section_at(bytes, at2) {
                Err(e) => Err(within(Section::ImageResources, e)),
                Ok((image_resources_section, at3)) => match layer_and_mask_information_section_at(
                    bytes,
                    at3,
                ) {
                    Err(e) => Err(within(Section::LayerAndMaskInformation, e)),
                    Ok((layer_and_mask_information_section, end)) => Ok(
                        (
                            PsdView {
                                file_header_section,
                                color_mode_data_section,
                                image_resources_section,
                                layer_and_mask_information_section,
                            },
                            end,
                        ),
                    ),
                },
            },
        },
    }
}

/// A document that is decoded is well-formed.
pub proof fn lemma_psd_wf(bytes: Seq<u8>)
    ensures
        psd_at(bytes) matches Ok((psd, _)) ==> psd.wf(),
{
    if let Ok((_, at1)) = file_header_section_at(bytes) {
        if let Ok((_, at2)) = color_mode_data_section_at(bytes, at1) {
            if let Ok((_, at3)) = image_resources_section_at(bytes, at2) {
                lemma_layer_and_mask_information_section_wf(bytes, at3);
            }
        }
    }
}

/// Decodes the document of the buffer of `binary`, wherever the cursor is.
/// The cursor is left at the end of the last section, or on the field that
/// could not be decoded.
pub fn get_psd(binary: &mut Binary) -> (r: Result<Psd, DecodeError>)
    ensures
        final(binary).buffer() == old(binary).buffer(),
        match psd_at(old(binary).buffer()) {
            Ok((psd, end)) => r matches Ok(found) && found@ == psd && final(binary).offset()
                == end,
            Err(e) => r == Err::<Psd, DecodeError>(e) && final(binary).offset() == e.offset,
        },
        r matches Ok(psd) ==> psd@.wf(),
{
    proof {
        lemma_psd_wf(binary.buffer());
    }
    let file_header_section = match get_file_header_section(binary) {
        Ok(section) => section,
        Err(e) => {
            return Err(
                DecodeError { section: Section::FileHeader, kind: e.kind, offset: e.offset },
            );
        },
    };
    let color_mode_data_section = match get_color_mode_data_section(binary) {
        Ok(section) => section,
        Err(e) => {
            return Err(
                DecodeError { section: Section::ColorModeData, kind: e.kind, offset: e.offset },
            );
        },
    };
    let image_resources_section = match get_image_resources_section(binary) {
        Ok(section) => section,
        Err(e) => {
            return Err(
                DecodeError { section: Section::ImageResources, kind: e.kind, offset: e.offset },
            );
        },
    };
    let layer_and_mask_information_section = match get_layer_and_mask_information_section(
        binary,
    ) {
        Ok(section) => section,
        Err(e) => {
            return Err(
                DecodeError {
                    section: Section::LayerAndMaskInformation,
                    kind: e.kind,
                    offset: e.offset,
                },
            );
        },
    };
    Ok(
        Psd {
            file_header_section,
            color_mode_data_section,
            image_resources_section,
            layer_and_mask_information_section,
        },
    )
}

/// Decodes the document that `bytes` hold. There is a document or an error,
/// never a part of a document.
pub fn decode(bytes: Vec<u8>) -> (r: Result<Psd, DecodeError>)
    ensures
        match psd_at(bytes@) {
            Ok((psd, _)) => r matches Ok(found) && found@ == psd,
            Err(e) => r == Err::<Psd, DecodeError>(e),
        },
        r matches Ok(psd) ==> psd@.wf(),
{
    let mut binary = Binary::new(bytes);
    get_psd(&mut binary)
}

} // verus!
