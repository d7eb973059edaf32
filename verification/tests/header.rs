use wav1d::obu::header::ObuHeader;
use wav1d::utils::bits::{BitsReader, FromBitsReader, ReadError};
use wav1d::utils::enums::ObuType;

#[test]
fn header_temporal_delimiter() {
    // forbidden=0, type=2 (temporal delimiter), extension=0, has-size=1,
    // reserved=0, then a one-byte size field of 0
    let a = [0x12, 0x00];
    let mut r = BitsReader::new(a.as_slice());
    let h = ObuHeader::read_from(&mut r).unwrap();
    assert!(!h.obu_forbidden_bit);
    assert_eq!(h.obu_type, ObuType::TemporalDelimiter);
    assert!(!h.obu_extension_flag);
    assert!(h.obu_has_size_field);
    assert_eq!(h.temporal_id, 0);
    assert_eq!(h.spatial_id, 0);
    assert_eq!(h.obu_size, 0);
    assert_eq!(r.read_position(), 16);
}

#[test]
fn header_with_extension() {
    // forbidden=0, type=1, extension=1, has-size=1, reserved=0,
    // temporal=5, spatial=1, then a size field of 0 straddling two bytes
    let a = [0x0E, 0xA8, 0x00];
    let mut r = BitsReader::new(a.as_slice());
    let h = ObuHeader::read_from(&mut r).unwrap();
    assert_eq!(h.obu_type, ObuType::SequenceHeader);
    assert!(h.obu_extension_flag);
    assert!(h.obu_has_size_field);
    assert_eq!(h.temporal_id, 5);
    assert_eq!(h.spatial_id, 1);
    assert_eq!(h.obu_size, 0);
    assert_eq!(r.read_position(), 21);
}

#[test]
fn header_size_field_value() {
    // type=6 (frame), has-size=1, size=300 = leb128 [0xAC, 0x02]
    let a = [0b00110010, 0xAC, 0x02];
    let mut r = BitsReader::new(a.as_slice());
    let h = ObuHeader::read_from(&mut r).unwrap();
    assert_eq!(h.obu_type, ObuType::Frame);
    assert_eq!(h.obu_size, 300);
    assert_eq!(r.read_position(), 24);
}

#[test]
fn header_unknown_type_is_success() {
    // type code 13 names no category: decoding still succeeds
    let a = [0b01101010, 0x00];
    let mut r = BitsReader::new(a.as_slice());
    let h = ObuHeader::read_from(&mut r).unwrap();
    assert_eq!(h.obu_type, ObuType::Unknown);
}

#[test]
fn header_truncated_fails() {
    // the fixed bits fit but the size field is missing
    let a = [0x12];
    let mut r = BitsReader::new(a.as_slice());
    assert_eq!(ObuHeader::read_from(&mut r), Err(ReadError::Truncated));
    // not even the fixed bits fit
    let a: [u8; 0] = [];
    let mut r = BitsReader::new(a.as_slice());
    assert_eq!(ObuHeader::read_from(&mut r), Err(ReadError::Truncated));
}

#[test]
fn header_decode_is_pure() {
    let a = [0x0E, 0xA8, 0x00];
    let before = a;
    let mut r1 = BitsReader::new(a.as_slice());
    let h1 = ObuHeader::read_from(&mut r1).unwrap();
    let mut r2 = BitsReader::new(a.as_slice());
    let h2 = ObuHeader::read_from(&mut r2).unwrap();
    assert_eq!(h1, h2);
    assert_eq!(r1.read_position(), r2.read_position());
    // the buffer itself is never written
    assert_eq!(a, before);
}

#[test]
fn header_through_trait() {
    let a = [0x12, 0x00];
    let mut r = BitsReader::new(a.as_slice());
    let h: ObuHeader = FromBitsReader::from_bits_reader(&mut r).unwrap();
    assert_eq!(h.obu_type, ObuType::TemporalDelimiter);
    assert_eq!(r.read_position(), 16);
}

#[test]
fn header_two_units_in_sequence() {
    // a temporal delimiter, then a padding unit with a one-byte payload
    let a = [0x12, 0x00, 0b01001010, 0x01, 0xEE];
    let mut r = BitsReader::new(a.as_slice());
    let h1 = ObuHeader::read_from(&mut r).unwrap();
    assert_eq!(h1.obu_type, ObuType::TemporalDelimiter);
    assert_eq!(h1.obu_size, 0);
    let h2 = ObuHeader::read_from(&mut r).unwrap();
    assert_eq!(h2.obu_type, ObuType::Padding);
    assert_eq!(h2.obu_size, 1);
    assert_eq!(r.read_position(), 32);
}
