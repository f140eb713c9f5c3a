use resd::binary::Binary;
use resd::error::{ErrorKind, FieldError};
use resd::text::Encoding;

#[test]
fn read_u8() {
    let bytes = vec![0, 1, 255];

    let mut binary = Binary::new(bytes);
    let mut n = binary.read_u8().unwrap();
    assert_eq!(n, 0);
    n = binary.read_u8().unwrap();
    assert_eq!(n, 1);
    n = binary.read_u8().unwrap();
    assert_eq!(n, 255);
}

#[test]
fn read_u16() {
    let mut bytes = Vec::new();
    bytes.append(&mut vec![0, 0]);
    bytes.append(&mut vec![0, 1]);
    bytes.append(&mut vec![0, 255]);
    bytes.append(&mut vec![1, 0]);
    bytes.append(&mut vec![255, 0]);
    bytes.append(&mut vec![255; 2]);

    let mut binary = Binary::new(bytes);
    let mut n = binary.read_u16().unwrap();
    assert_eq!(n, 0);
    n = binary.read_u16().unwrap();
    assert_eq!(n, 1);
    n = binary.read_u16().unwrap();
    assert_eq!(n, 255);
    n = binary.read_u16().unwrap();
    assert_eq!(n, 256);
    n = binary.read_u16().unwrap();
    assert_eq!(n, 65535 - 255);
    n = binary.read_u16().unwrap();
    assert_eq!(n, 65535);
}

#[test]
fn read_u32() {
    let mut bytes = Vec::new();
    bytes.append(&mut vec![0, 0, 0, 1]);
    bytes.append(&mut vec![255; 4]);

    let mut binary = Binary::new(bytes);
    let mut n = binary.read_u32().unwrap();
    assert_eq!(n, 1);
    n = binary.read_u32().unwrap();
    assert_eq!(n, 4294967295);
}

#[test]
fn read_i8() {
    let mut bytes = Vec::new();
    bytes.append(&mut vec![0]);
    bytes.append(&mut vec![127]);
    bytes.append(&mut vec![128]);
    bytes.append(&mut vec![255]);

    let mut binary = Binary::new(bytes);
    let mut n = binary.read_i8().unwrap();
    assert_eq!(n, 0);
    n = binary.read_i8().unwrap();
    assert_eq!(n, 127);
    n = binary.read_i8().unwrap();
    assert_eq!(n, -128);
    n = binary.read_i8().unwrap();
    assert_eq!(n, -1);
}

#[test]
fn read_i16() {
    let mut bytes = Vec::new();
    bytes.append(&mut vec![0x00; 2]);
    bytes.append(&mut vec![0x00, 0xFF]);
    bytes.append(&mut vec![0xFF, 0x00]);
    bytes.append(&mut vec![0xFF; 2]);

    let mut binary = Binary::new(bytes);
    let mut n = binary.read_i16().unwrap();
    assert_eq!(n, 0);
    n = binary.read_i16().unwrap();
    assert_eq!(n, 255);
    n = binary.read_i16().unwrap();
    assert_eq!(n, -256);
    n = binary.read_i16().unwrap();
    assert_eq!(n, -1);
}

#[test]
fn read_f64() {
    let mut bytes = Vec::new();
    bytes.append(&mut vec![0x00; 8]);
    bytes.append(&mut vec![0x80, 0x00, 0x00, 0x00, 0x00, 0x00, 0x00, 0x00]);
    bytes.append(&mut vec![0x3F, 0xF0, 0x00, 0x00, 0x00, 0x00, 0x00, 0x00]);
    bytes.append(&mut vec![0x3F, 0xF0, 0x00, 0x00, 0x00, 0x00, 0x00, 0x01]);
    bytes.append(&mut vec![0x3F, 0xF0, 0x00, 0x00, 0x00, 0x00, 0x00, 0x02]);
    bytes.append(&mut vec![0x40, 0x00, 0x00, 0x00, 0x00, 0x00, 0x00, 0x00]);
    bytes.append(&mut vec![0xC0, 0x00, 0x00, 0x00, 0x00, 0x00, 0x00, 0x00]);
    bytes.append(&mut vec![0x7F, 0xEF, 0xFF, 0xFF, 0xFF, 0xFF, 0xFF, 0xFF]);
    bytes.append(&mut vec![0xFF, 0xEF, 0xFF, 0xFF, 0xFF, 0xFF, 0xFF, 0xFF]);
    bytes.append(&mut vec![0x7F, 0xF0, 0x00, 0x00, 0x00, 0x00, 0x00, 0x00]);
    bytes.append(&mut vec![0xFF, 0xF0, 0x00, 0x00, 0x00, 0x00, 0x00, 0x00]);

    let mut binary = Binary::new(bytes);
    let mut n = f64::from_bits(binary.read_f64().unwrap());
    assert_eq!(n, 0.0);
    n = f64::from_bits(binary.read_f64().unwrap());
    assert_eq!(n, -0.0);
    n = f64::from_bits(binary.read_f64().unwrap());
    assert_eq!(n, 1.0);
    n = f64::from_bits(binary.read_f64().unwrap());
    assert_eq!(n, 1.0000000000000002);
    n = f64::from_bits(binary.read_f64().unwrap());
    assert_eq!(n, 1.0000000000000004);
    n = f64::from_bits(binary.read_f64().unwrap());
    assert_eq!(n, 2.0);
    n = f64::from_bits(binary.read_f64().unwrap());
    assert_eq!(n, -2.0);
    n = f64::from_bits(binary.read_f64().unwrap());
    assert_eq!(n, f64::MAX);
    n = f64::from_bits(binary.read_f64().unwrap());
    assert_eq!(n, f64::MIN);
    n = f64::from_bits(binary.read_f64().unwrap());
    assert_eq!(n, f64::INFINITY);
    n = f64::from_bits(binary.read_f64().unwrap());
    assert_eq!(n, f64::NEG_INFINITY);
}

#[test]
fn read_utf8() {
    let mut bytes = Vec::new();
    bytes.append(&mut vec![
        0xE3, 0x83, 0x86, 0xE3, 0x82, 0xB9, 0xE3, 0x83, 0x88, 0xE7, 0x94, 0xA8, 0xE6, 0x96,
        0x87, 0xE5, 0xAD, 0x97, 0xE5, 0x88, 0x97,
    ]);

    let mut binary = Binary::new(bytes);
    let text = binary.read_utf8(21).unwrap();
    assert_eq!(text, "テスト用文字列");
}

#[test]
fn read_sjis_pascal_string() {
    let mut bytes = Vec::new();
    bytes.append(&mut vec![
        0x0E, 0x83, 0x65, 0x83, 0x58, 0x83, 0x67, 0x97, 0x70, 0x95, 0xB6, 0x8E, 0x9A, 0x97,
        0xF1,
    ]);

    let mut binary = Binary::new(bytes);
    let text = binary.read_sjis_pascal_string().unwrap();
    assert_eq!(text, "テスト用文字列");
}

#[test]
fn read_unicode_string() {
    let mut bytes = Vec::new();
    bytes.append(&mut vec![
        0x00, 0x00, 0x00, 0x07, 0x30, 0xC6, 0x30, 0xB9, 0x30, 0xC8, 0x75, 0x28, 0x65, 0x87,
        0x5B, 0x57, 0x52, 0x17,
    ]);

    let mut binary = Binary::new(bytes);
    let text = binary.read_unicode_string().unwrap();
    assert_eq!(text, "テスト用文字列");
}

fn end_of_input(offset: u64) -> FieldError {
    FieldError { kind: ErrorKind::UnexpectedEndOfInput, offset }
}

#[test]
fn new_cursor_starts_at_zero() {
    let binary = Binary::new(vec![1, 2, 3]);
    assert_eq!(binary.get_position(), 0);
}

#[test]
fn unsigned_boundaries() {
    let mut binary = Binary::new(vec![0x00, 0xFF, 0x00, 0x00, 0xFF, 0xFF, 0x12, 0x34, 0x56, 0x78]);
    assert_eq!(binary.read_u8(), Ok(0));
    assert_eq!(binary.read_u8(), Ok(255));
    assert_eq!(binary.read_u16(), Ok(0));
    assert_eq!(binary.read_u16(), Ok(65535));
    assert_eq!(binary.read_u32(), Ok(0x1234_5678));
    assert_eq!(binary.get_position(), 10);
}

#[test]
fn signed_boundaries() {
    let mut binary = Binary::new(vec![0xFF, 0x80, 0x7F, 0x7F, 0xFF, 0x80, 0x00, 0xFF, 0xFD]);
    assert_eq!(binary.read_i8(), Ok(-1));
    assert_eq!(binary.read_i8(), Ok(-128));
    assert_eq!(binary.read_i8(), Ok(127));
    assert_eq!(binary.read_i16(), Ok(32767));
    assert_eq!(binary.read_i16(), Ok(-32768));
    assert_eq!(binary.read_i16(), Ok(-3));
    assert_eq!(binary.get_position(), 9);
}

#[test]
fn reads_are_big_endian() {
    let mut binary = Binary::new(vec![0x01, 0x02, 0x01, 0x02, 0x03, 0x04]);
    assert_eq!(binary.read_u16(), Ok(0x0102));
    assert_eq!(binary.read_u32(), Ok(0x0102_0304));
}

#[test]
fn float_bits_are_exact() {
    let mut bytes = Vec::new();
    bytes.append(&mut vec![0x80, 0x00, 0x00, 0x00, 0x00, 0x00, 0x00, 0x00]);
    bytes.append(&mut vec![0x00, 0x00, 0x00, 0x00, 0x00, 0x00, 0x00, 0x01]);
    bytes.append(&mut vec![0x7F, 0xF8, 0x00, 0x00, 0x00, 0x00, 0x00, 0x01]);
    bytes.append(&mut vec![0x3F, 0xF0, 0x00, 0x00, 0x00, 0x00, 0x00, 0x01]);
    let mut binary = Binary::new(bytes);

    let negative_zero = binary.read_f64().unwrap();
    assert_eq!(negative_zero, 0x8000_0000_0000_0000);
    assert!(f64::from_bits(negative_zero).is_sign_negative());
    assert_eq!(f64::from_bits(negative_zero), 0.0);

    let smallest_subnormal = binary.read_f64().unwrap();
    assert_eq!(smallest_subnormal, 1);
    assert_eq!(f64::from_bits(smallest_subnormal), 5e-324);

    let nan = binary.read_f64().unwrap();
    assert_eq!(nan, 0x7FF8_0000_0000_0001);
    assert!(f64::from_bits(nan).is_nan());

    let above_one = binary.read_f64().unwrap();
    assert_eq!(f64::from_bits(above_one), 1.0 + f64::EPSILON);
    assert_eq!(binary.get_position(), 32);
}

#[test]
fn a_read_past_the_end_fails_and_leaves_the_cursor() {
    let mut binary = Binary::new(vec![1, 2, 3]);
    assert_eq!(binary.read_u32(), Err(end_of_input(0)));
    assert_eq!(binary.get_position(), 0);
    assert_eq!(binary.read_f64(), Err(end_of_input(0)));
    assert_eq!(binary.read_u16(), Ok(0x0102));
    assert_eq!(binary.read_u16(), Err(end_of_input(2)));
    assert_eq!(binary.read_i16(), Err(end_of_input(2)));
    assert_eq!(binary.get_position(), 2);
    assert_eq!(binary.read_u8(), Ok(3));
    assert_eq!(binary.read_u8(), Err(end_of_input(3)));
    assert_eq!(binary.read_i8(), Err(end_of_input(3)));
    assert_eq!(binary.get_position(), 3);
}

#[test]
fn an_empty_buffer_yields_nothing() {
    let mut binary = Binary::new(Vec::new());
    assert_eq!(binary.read_u8(), Err(end_of_input(0)));
    assert_eq!(binary.peek_u32(), Err(end_of_input(0)));
    assert_eq!(binary.read_utf8(0), Ok(String::new()));
    assert_eq!(binary.read_sjis_pascal_string(), Err(end_of_input(0)));
    assert_eq!(binary.read_unicode_string(), Err(end_of_input(0)));
}

#[test]
fn set_position_moves_anywhere() {
    let mut binary = Binary::new(vec![10, 20, 30]);
    binary.set_position(2);
    assert_eq!(binary.get_position(), 2);
    assert_eq!(binary.read_u8(), Ok(30));
    binary.set_position(0);
    assert_eq!(binary.read_u8(), Ok(10));
    binary.set_position(100);
    assert_eq!(binary.get_position(), 100);
    assert_eq!(binary.read_u8(), Err(end_of_input(100)));
}

#[test]
fn increment_position_moves_forward() {
    let mut binary = Binary::new(vec![10, 20, 30]);
    binary.increment_position(2);
    assert_eq!(binary.get_position(), 2);
    assert_eq!(binary.read_u8(), Ok(30));
    binary.increment_position(0);
    assert_eq!(binary.get_position(), 3);
    binary.increment_position(7);
    assert_eq!(binary.get_position(), 10);
}

#[test]
fn increment_position_stops_at_the_top() {
    let mut binary = Binary::new(vec![10, 20, 30]);
    binary.set_position(u64::MAX - 1);
    binary.increment_position(5);
    assert_eq!(binary.get_position(), u64::MAX);
    assert_eq!(binary.read_u8(), Err(end_of_input(u64::MAX)));
}

#[test]
fn peek_does_not_move() {
    let mut binary = Binary::new(vec![0x38, 0x42, 0x49, 0x4D, 0x01]);
    assert_eq!(binary.peek_u32(), Ok(0x3842_494D));
    assert_eq!(binary.get_position(), 0);
    binary.set_position(1);
    assert_eq!(binary.peek_u32(), Ok(0x4249_4D01));
    binary.set_position(2);
    assert_eq!(binary.peek_u32(), Err(end_of_input(2)));
    assert_eq!(binary.get_position(), 2);
}

#[test]
fn reject_rewinds_and_reports() {
    let mut binary = Binary::new(vec![1, 2, 3]);
    binary.set_position(3);
    let e = binary.reject(1, ErrorKind::InvalidEnumValue);
    assert_eq!(e, FieldError { kind: ErrorKind::InvalidEnumValue, offset: 1 });
    assert_eq!(binary.get_position(), 1);
}

#[test]
fn fixed_length_utf8_consumes_its_length() {
    let mut bytes = vec![
        0xE3, 0x83, 0x86, 0xE3, 0x82, 0xB9, 0xE3, 0x83, 0x88, 0xE7, 0x94, 0xA8, 0xE6, 0x96,
        0x87, 0xE5, 0xAD, 0x97, 0xE5, 0x88, 0x97,
    ];
    bytes.push(0x41);
    let mut binary = Binary::new(bytes);
    assert_eq!(binary.read_utf8(21).unwrap(), "テスト用文字列");
    assert_eq!(binary.get_position(), 21);
    assert_eq!(binary.read_utf8(1).unwrap(), "A");
    assert_eq!(binary.read_utf8(1), Err(end_of_input(22)));
}

#[test]
fn short_string_consumes_fifteen_bytes() {
    let mut bytes = vec![
        0x0E, 0x83, 0x65, 0x83, 0x58, 0x83, 0x67, 0x97, 0x70, 0x95, 0xB6, 0x8E, 0x9A, 0x97,
        0xF1,
    ];
    bytes.push(0xFF);
    let mut binary = Binary::new(bytes);
    assert_eq!(binary.read_sjis_pascal_string().unwrap(), "テスト用文字列");
    assert_eq!(binary.get_position(), 15);
}

#[test]
fn unicode_string_consumes_eighteen_bytes() {
    let mut bytes = vec![
        0x00, 0x00, 0x00, 0x07, 0x30, 0xC6, 0x30, 0xB9, 0x30, 0xC8, 0x75, 0x28, 0x65, 0x87,
        0x5B, 0x57, 0x52, 0x17,
    ];
    bytes.push(0xFF);
    let mut binary = Binary::new(bytes);
    assert_eq!(binary.read_unicode_string().unwrap(), "テスト用文字列");
    assert_eq!(binary.get_position(), 18);
}

#[test]
fn a_short_string_cut_short_fails_at_its_text() {
    let mut binary = Binary::new(vec![0x03, 0x41, 0x42]);
    assert_eq!(binary.read_sjis_pascal_string(), Err(end_of_input(1)));
    assert_eq!(binary.get_position(), 1);
}

#[test]
fn a_unicode_string_cut_short_fails_at_its_text() {
    let mut binary = Binary::new(vec![0x00, 0x00, 0x00, 0x02, 0x00, 0x41, 0x00]);
    assert_eq!(binary.read_unicode_string(), Err(end_of_input(4)));
    assert_eq!(binary.get_position(), 4);

    let mut binary = Binary::new(vec![0xFF, 0xFF, 0xFF, 0xFF, 0x00, 0x41]);
    assert_eq!(binary.read_unicode_string(), Err(end_of_input(4)));
}

#[test]
fn read_text_in_each_encoding() {
    let mut binary = Binary::new(vec![0x83, 0x65, 0x30, 0xC6, 0xE3, 0x83, 0x86]);
    assert_eq!(binary.read_text(2, Encoding::Sjis).unwrap(), "テ");
    assert_eq!(binary.read_text(2, Encoding::Utf16).unwrap(), "テ");
    assert_eq!(binary.read_text(3, Encoding::Utf8).unwrap(), "テ");
    assert_eq!(binary.get_position(), 7);
    assert_eq!(binary.read_text(1, Encoding::Utf8), Err(end_of_input(7)));
    assert_eq!(binary.read_text(0, Encoding::Utf8).unwrap(), "");
}

#[test]
fn malformed_text_is_substituted() {
    let mut binary = Binary::new(vec![0x41, 0xFF, 0x42, 0xD8, 0x00, 0x00, 0x41, 0x41, 0xFD, 0x42]);
    assert_eq!(binary.read_text(3, Encoding::Utf8).unwrap(), "A\u{FFFD}B");
    assert_eq!(binary.read_text(4, Encoding::Utf16).unwrap(), "\u{FFFD}A");
    assert_eq!(binary.read_text(3, Encoding::Sjis).unwrap(), "A\u{FFFD}B");
    assert_eq!(binary.get_position(), 10);
}

#[test]
fn a_byte_order_mark_decides_and_is_left_out() {
    let mut binary = Binary::new(vec![0xEF, 0xBB, 0xBF, 0x41, 0xFF, 0xFE, 0x41, 0x00, 0xFE, 0xFF, 0x00, 0x41]);
    assert_eq!(binary.read_text(4, Encoding::Sjis).unwrap(), "A");
    assert_eq!(binary.read_text(4, Encoding::Utf8).unwrap(), "A");
    assert_eq!(binary.read_text(4, Encoding::Utf16).unwrap(), "A");
}

#[test]
fn ascii_reads_as_itself() {
    let mut binary = Binary::new(b"8BIMnorm\x04name".to_vec());
    assert_eq!(binary.read_utf8(4).unwrap(), "8BIM");
    assert_eq!(binary.read_text(4, Encoding::Sjis).unwrap(), "norm");
    assert_eq!(binary.read_sjis_pascal_string().unwrap(), "name");
}
