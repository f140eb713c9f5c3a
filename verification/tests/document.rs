use resd::binary::Binary;
use resd::error::{DecodeError, ErrorKind, FieldError, Section};
use resd::psd::color_mode_data_section::{get_color_mode_data_section, ColorModeDataSection};
use resd::psd::file_header_section::{
    get_file_header_section, FileHeaderSection, FILE_HEADER_START,
};
use resd::psd::image_resources_section::{get_image_resources_section, ImageResourcesSection};
use resd::psd::layer_and_mask_information_section::layer_info::layer_record::layer_mask_data::LayerMaskData;
use resd::psd::layer_and_mask_information_section::{
    get_layer_and_mask_information_section, LayerAndMaskInformationSection,
};
use resd::psd::{decode, get_psd, Psd};

fn field_end_of_input(offset: u64) -> FieldError {
    FieldError { kind: ErrorKind::UnexpectedEndOfInput, offset }
}

fn be32(n: u32) -> Vec<u8> {
    n.to_be_bytes().to_vec()
}

fn be16(n: u16) -> Vec<u8> {
    n.to_be_bytes().to_vec()
}

/// The 26 bytes before the colour mode data: the preamble, then 3 channels,
/// a height of 600, a width of 800, a depth of 8 and the colour mode 3.
fn header_bytes() -> Vec<u8> {
    let mut bytes = b"8BPS".to_vec();
    bytes.extend(be16(1));
    bytes.extend([0; 6]);
    bytes.extend(be16(3));
    bytes.extend(be32(600));
    bytes.extend(be32(800));
    bytes.extend(be16(8));
    bytes.extend(be16(3));
    bytes
}

fn header() -> FileHeaderSection {
    FileHeaderSection { channel_count: 3, height: 600, width: 800, depth: 8, color_mode: 3 }
}

/// A layer record of 46 bytes: no channels, no mask, no blending ranges, the
/// name `abc` and no extension blocks.
fn record_bytes() -> Vec<u8> {
    let mut bytes = Vec::new();
    bytes.extend(be32(0));
    bytes.extend(be32(0));
    bytes.extend(be32(600));
    bytes.extend(be32(800));
    bytes.extend(be16(0));
    bytes.extend(b"8BIM");
    bytes.extend(b"norm");
    bytes.extend([255, 0, 0, 0]);
    bytes.extend(be32(12));
    bytes.extend(be32(0));
    bytes.extend(be32(0));
    bytes.extend(b"\x03abc");
    bytes
}

/// A document with the layer count `layer_count` and `records` layer records,
/// followed by `trailer`; the last section declares the length `length`.
fn document_bytes(layer_count: i16, records: usize, trailer: &[u8], length: u32) -> Vec<u8> {
    let mut bytes = header_bytes();
    bytes.extend(be32(0));
    bytes.extend(be32(0));
    bytes.extend(be32(length));
    bytes.extend(be32(0));
    bytes.extend(layer_count.to_be_bytes());
    for _ in 0..records {
        bytes.extend(record_bytes());
    }
    bytes.extend(trailer);
    bytes
}

#[test]
fn file_header_fields() {
    assert_eq!(FILE_HEADER_START, 12);
    let mut binary = Binary::new(header_bytes());
    assert_eq!(get_file_header_section(&mut binary), Ok(header()));
    assert_eq!(binary.get_position(), 26);
}

#[test]
fn file_header_starts_at_its_fixed_offset() {
    let mut binary = Binary::new(header_bytes());
    binary.set_position(20);
    assert_eq!(get_file_header_section(&mut binary), Ok(header()));
    assert_eq!(binary.get_position(), 26);
}

#[test]
fn file_header_is_not_held_against_the_format() {
    let mut bytes = vec![0xFF; 26];
    bytes[12] = 0;
    bytes[13] = 0;
    let mut binary = Binary::new(bytes);
    assert_eq!(
        get_file_header_section(&mut binary),
        Ok(FileHeaderSection {
            channel_count: 0,
            height: u32::MAX,
            width: u32::MAX,
            depth: u16::MAX,
            color_mode: u16::MAX,
        })
    );
}

#[test]
fn file_header_cut_short() {
    // The offset and the width of each field.
    let fields = [(12usize, 2usize), (14, 4), (18, 4), (22, 2), (24, 2)];
    for cut in 0..26 {
        let mut bytes = header_bytes();
        bytes.truncate(cut);
        let (field, _) = *fields.iter().find(|(offset, width)| offset + width > cut).unwrap();
        let mut binary = Binary::new(bytes);
        assert_eq!(
            get_file_header_section(&mut binary),
            Err(field_end_of_input(field as u64)),
            "cut at {}",
            cut
        );
        assert_eq!(binary.get_position(), field as u64);
    }
}

#[test]
fn color_mode_data_are_skipped() {
    let mut bytes = vec![0xEE];
    bytes.extend(be32(3));
    bytes.extend([1, 2, 3, 4]);
    let mut binary = Binary::new(bytes);
    binary.set_position(1);
    assert_eq!(get_color_mode_data_section(&mut binary), Ok(ColorModeDataSection { length: 3 }));
    assert_eq!(binary.get_position(), 8);
    assert_eq!(binary.read_u8(), Ok(4));
}

#[test]
fn color_mode_data_may_pass_the_end() {
    let mut binary = Binary::new(be32(1000));
    assert_eq!(
        get_color_mode_data_section(&mut binary),
        Ok(ColorModeDataSection { length: 1000 })
    );
    assert_eq!(binary.get_position(), 1004);
    let mut binary = Binary::new(be32(u32::MAX));
    assert_eq!(
        get_color_mode_data_section(&mut binary),
        Ok(ColorModeDataSection { length: u32::MAX })
    );
    assert_eq!(binary.get_position(), 4 + u32::MAX as u64);
}

#[test]
fn color_mode_data_cut_short() {
    let mut binary = Binary::new(vec![0, 0, 0]);
    assert_eq!(get_color_mode_data_section(&mut binary), Err(field_end_of_input(0)));
    assert_eq!(binary.get_position(), 0);
}

#[test]
fn image_resources_are_skipped() {
    let mut bytes = be32(2);
    bytes.extend([1, 2, 3]);
    let mut binary = Binary::new(bytes);
    assert_eq!(
        get_image_resources_section(&mut binary),
        Ok(ImageResourcesSection { length: 2 })
    );
    assert_eq!(binary.get_position(), 6);
    assert_eq!(binary.read_u8(), Ok(3));
    assert_eq!(get_image_resources_section(&mut binary), Err(field_end_of_input(7)));
}

#[test]
fn image_resources_may_be_empty() {
    let mut binary = Binary::new(be32(0));
    assert_eq!(
        get_image_resources_section(&mut binary),
        Ok(ImageResourcesSection { length: 0 })
    );
    assert_eq!(binary.get_position(), 4);
}

#[test]
fn the_layer_section_ends_where_its_length_says() {
    for length in [0u32, 10, 62, 1000] {
        let mut bytes = vec![0xEE, 0xEE];
        bytes.extend(be32(length));
        bytes.extend(be32(58));
        bytes.extend(be16(1));
        bytes.extend(record_bytes());
        bytes.extend([0; 8]);
        let mut binary = Binary::new(bytes);
        binary.set_position(2);
        let section: LayerAndMaskInformationSection =
            get_layer_and_mask_information_section(&mut binary).unwrap();
        assert_eq!(section.length, length);
        assert_eq!(section.layer_info.length, 58);
        assert_eq!(section.layer_info.layer_count, 1);
        assert_eq!(section.layer_info.layer_records.len(), 1);
        assert_eq!(binary.get_position(), 6 + length as u64);
    }
}

#[test]
fn the_layer_section_cut_short() {
    let mut binary = Binary::new(vec![0, 0]);
    assert_eq!(get_layer_and_mask_information_section(&mut binary), Err(field_end_of_input(0)));
    let mut bytes = be32(100);
    bytes.extend(be32(0));
    let mut binary = Binary::new(bytes);
    assert_eq!(get_layer_and_mask_information_section(&mut binary), Err(field_end_of_input(8)));
    assert_eq!(binary.get_position(), 8);
}

#[test]
fn a_minimal_document_has_one_layer() {
    let bytes = document_bytes(1, 1, &[0; 4], 56);
    assert_eq!(bytes.len(), 26 + 4 + 4 + 4 + 6 + 46 + 4);
    let psd: Psd = decode(bytes).unwrap();
    assert_eq!(psd.file_header_section, header());
    assert_eq!(psd.color_mode_data_section, ColorModeDataSection { length: 0 });
    assert_eq!(psd.image_resources_section, ImageResourcesSection { length: 0 });
    assert_eq!(psd.layer_and_mask_information_section.length, 56);
    let layer_info = &psd.layer_and_mask_information_section.layer_info;
    assert_eq!(layer_info.layer_count, 1);
    assert_eq!(layer_info.layer_records.len(), 1);
    let record = &layer_info.layer_records[0];
    assert_eq!(record.layer_name, "abc");
    assert_eq!(record.blend_mode_key, "norm");
    assert_eq!(record.opacity, 255);
    assert_eq!(record.channel_count, 0);
    assert!(record.channel_informations.is_empty());
    assert_eq!(record.layer_mask_data, LayerMaskData { length: 0, fields: None });
    assert!(record.layer_blending_ranges_data.channel_sources.is_empty());
    assert!(record.additional_layer_informations.is_empty());
    assert_eq!(record.coordinates.bottom, 600);
    assert_eq!(record.coordinates.right, 800);
}

#[test]
fn get_psd_leaves_the_cursor_at_the_end_of_the_last_section() {
    let bytes = document_bytes(-2, 2, &[0; 40], 150);
    let mut binary = Binary::new(bytes);
    binary.set_position(5);
    let psd = get_psd(&mut binary).unwrap();
    assert_eq!(psd.layer_and_mask_information_section.layer_info.layer_count, -2);
    assert_eq!(psd.layer_and_mask_information_section.layer_info.layer_records.len(), 2);
    assert_eq!(binary.get_position(), 38 + 150);
}

#[test]
fn sections_follow_each_other() {
    let mut bytes = header_bytes();
    bytes.extend(be32(3));
    bytes.extend([9, 9, 9]);
    bytes.extend(be32(5));
    bytes.extend([8, 8, 8, 8, 8]);
    bytes.extend(be32(10));
    bytes.extend(be32(6));
    bytes.extend(be16(0));
    bytes.extend([0; 4]);
    let mut binary = Binary::new(bytes);
    let psd = get_psd(&mut binary).unwrap();
    assert_eq!(psd.color_mode_data_section.length, 3);
    assert_eq!(psd.image_resources_section.length, 5);
    assert_eq!(psd.layer_and_mask_information_section.length, 10);
    assert!(psd.layer_and_mask_information_section.layer_info.layer_records.is_empty());
    assert_eq!(binary.get_position(), 26 + 7 + 9 + 4 + 10);
}

#[test]
fn each_section_names_itself_in_its_error() {
    let whole = document_bytes(1, 1, &[0; 4], 62);
    let cases = [
        (0usize, Section::FileHeader, 12u64),
        (25, Section::FileHeader, 24),
        (26, Section::ColorModeData, 26),
        (29, Section::ColorModeData, 26),
        (30, Section::ImageResources, 30),
        (33, Section::ImageResources, 30),
        (34, Section::LayerAndMaskInformation, 34),
        (38, Section::LayerAndMaskInformation, 38),
        (43, Section::LayerAndMaskInformation, 42),
        (60, Section::LayerAndMaskInformation, 60),
        (89, Section::LayerAndMaskInformation, 87),
        (93, Section::LayerAndMaskInformation, 90),
    ];
    for (cut, section, offset) in cases {
        let mut bytes = whole.clone();
        bytes.truncate(cut);
        assert_eq!(
            decode(bytes),
            Err(DecodeError { section, kind: ErrorKind::UnexpectedEndOfInput, offset }),
            "cut at {}",
            cut
        );
    }
}

#[test]
fn a_document_with_a_bad_tag() {
    let mut bytes = document_bytes(1, 1, &[0; 4], 62);
    bytes[44 + 18] = b'9';
    let mut binary = Binary::new(bytes);
    assert_eq!(
        get_psd(&mut binary),
        Err(DecodeError {
            section: Section::LayerAndMaskInformation,
            kind: ErrorKind::InvalidSignature,
            offset: 62,
        })
    );
    assert_eq!(binary.get_position(), 62);
}

#[test]
fn a_document_with_a_bad_code() {
    let mut bytes = document_bytes(1, 1, &[0; 4], 62);
    bytes[44 + 27] = 7;
    assert_eq!(
        decode(bytes),
        Err(DecodeError {
            section: Section::LayerAndMaskInformation,
            kind: ErrorKind::InvalidEnumValue,
            offset: 71,
        })
    );
}

#[test]
fn a_document_is_whole_or_not_at_all() {
    let bytes = document_bytes(3, 2, &[0; 4], 200);
    assert_eq!(
        decode(bytes),
        Err(DecodeError {
            section: Section::LayerAndMaskInformation,
            kind: ErrorKind::UnexpectedEndOfInput,
            offset: 44 + 92 + 4,
        })
    );
}

#[test]
fn skips_that_pass_the_end_are_found_at_the_next_read() {
    let mut bytes = header_bytes();
    bytes.extend(be32(500));
    bytes.extend([0; 20]);
    assert_eq!(
        decode(bytes),
        Err(DecodeError {
            section: Section::ImageResources,
            kind: ErrorKind::UnexpectedEndOfInput,
            offset: 530,
        })
    );
}
