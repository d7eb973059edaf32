use wav1d::utils::bits::{BitsReader, ReadError};

#[test]
fn onebyte1() {
    let a = [0b10100111, 0b11001100];
    let r = BitsReader::new(a.as_slice());
    let br = 0b00111110u8;

    let b = r.get_1byte(3, 8);
    assert_eq!(b, br, "{b:08b} {br:08b}");
}

#[test]
fn onebyte2() {
    let a = [0b10100111, 0b11001100];
    let r = BitsReader::new(a.as_slice());
    let br = 0b00001111u8;

    let b = r.get_1byte(3, 6);
    assert_eq!(b, br, "{b:08b} {br:08b}");
}

#[test]
fn onebyte3() {
    let a = [0b10100111, 0b11001100];
    let r = BitsReader::new(a.as_slice());
    let br = 0b00000001u8;

    let b = r.get_1byte(10, 3);
    assert_eq!(b, br, "{b:08b} {br:08b}");
}

#[test]
fn nbyte1() {
    let a = [0b10100111, 0b11001100];
    let r = BitsReader::new(a.as_slice());
    let mut b = [0u8; 2];
    let br = [0b00111110u8, 0b00000000];

    r.get_nbyte(3, 8, &mut b);
    assert_eq!(b, br, "{:08b} {:08b}", b[0], br[0]);

    let res = u16::from_le_bytes(b);
    assert_eq!(res, 62, "res");
}

#[test]
fn bit1() {
    let a = [0b10100111, 0b11001100];
    let mut r = BitsReader::new(a.as_slice());
    let t = [
        true, false, true, false, false, true, true, true, true, true, false, false, true, true,
        false, false,
    ];
    for (ii, i) in t.into_iter().enumerate() {
        assert_eq!(i, r.read_bit().unwrap(), "{ii}");
    }
}

#[test]
fn get_bit_bool_msb_first() {
    assert!(BitsReader::get_bit_bool(0b10000000, 0));
    assert!(!BitsReader::get_bit_bool(0b10000000, 1));
    assert!(BitsReader::get_bit_bool(0b00000001, 7));
    assert!(!BitsReader::get_bit_bool(0b00000001, 6));
}

#[test]
fn read_u8_aligned_and_straddling() {
    let a = [0b10100111, 0b11001100];
    let mut r = BitsReader::new(a.as_slice());
    assert_eq!(r.read_u8(8).unwrap(), 0b10100111);
    assert_eq!(r.read_position(), 8);

    let mut r = BitsReader::new(a.as_slice());
    r.read_skip(3).unwrap();
    assert_eq!(r.read_u8(8).unwrap(), 0b00111110);
    assert_eq!(r.read_position(), 11);
}

#[test]
fn read_u16_u32_big_endian_bit_order() {
    let a = [0xA7, 0xCC, 0x5A, 0x12];
    let mut r = BitsReader::new(a.as_slice());
    assert_eq!(r.read_u16(16).unwrap(), 0xA7CC);
    let mut r = BitsReader::new(a.as_slice());
    assert_eq!(r.read_u32(32).unwrap(), 0xA7CC5A12);
    let mut r = BitsReader::new(a.as_slice());
    assert_eq!(r.read_u32(12).unwrap(), 0xA7C);
    assert_eq!(r.read_position(), 12);
    let mut r = BitsReader::new(a.as_slice());
    assert_eq!(r.read_u16(0).unwrap(), 0);
    assert_eq!(r.read_position(), 0);
}

#[test]
fn read_nbyte_advances_cursor() {
    let a = [0b10100111, 0b11001100];
    let mut r = BitsReader::new(a.as_slice());
    r.read_skip(3).unwrap();
    let mut b = [0u8; 2];
    r.read_nbyte(8, &mut b).unwrap();
    assert_eq!(b, [62, 0]);
    assert_eq!(r.read_position(), 11);
}

#[test]
fn read_nbyte_partial_tail() {
    let a = [0b10100111, 0b11001100];
    let mut r = BitsReader::new(a.as_slice());
    let mut b = [0u8; 2];
    // 11 bits: one whole byte, then three bits right-aligned in the next.
    r.read_nbyte(11, &mut b).unwrap();
    assert_eq!(b, [0b10100111, 0b00000110]);
    assert_eq!(r.read_position(), 11);
}

#[test]
fn boundary_exact_fits_one_less_fails() {
    let a = [0xFF, 0x01];
    // exactly long enough: 16 bits
    let mut r = BitsReader::new(a.as_slice());
    r.read_skip(9).unwrap();
    assert_eq!(r.read_u8(7).unwrap(), 1);
    assert_eq!(r.read_position(), 16);
    // one bit shorter than the request: the read fails, the cursor stays
    let mut r = BitsReader::new(a.as_slice());
    r.read_skip(10).unwrap();
    assert_eq!(r.read_u8(7), Err(ReadError::Truncated));
    assert_eq!(r.read_position(), 10);
}

#[test]
fn skip_past_end_fails() {
    let a = [0xFF];
    let mut r = BitsReader::new(a.as_slice());
    assert_eq!(r.read_skip(9), Err(ReadError::Truncated));
    assert_eq!(r.read_position(), 0);
    r.read_skip(8).unwrap();
    assert_eq!(r.read_bit(), Err(ReadError::Truncated));
}

#[test]
fn alignment_moves_to_byte_boundary() {
    let a = [0xA5, 0x5A];
    let mut r = BitsReader::new(a.as_slice());
    r.read_alignment();
    assert_eq!(r.read_position(), 0);
    r.read_skip(3).unwrap();
    r.read_alignment();
    assert_eq!(r.read_position(), 8);
    r.read_alignment();
    assert_eq!(r.read_position(), 8);
}

#[test]
fn empty_buffer_reads_fail() {
    let a: [u8; 0] = [];
    let mut r = BitsReader::new(a.as_slice());
    assert_eq!(r.read_bit(), Err(ReadError::Truncated));
    assert_eq!(r.read_u8(0).unwrap(), 0);
}

#[test]
fn read_nbyte_leaves_later_bytes_alone() {
    let a = [0xFF, 0xFF];
    let mut r = BitsReader::new(a.as_slice());
    let mut b = [0u8, 0u8, 0xAB, 0xCD];
    r.read_nbyte(10, &mut b).unwrap();
    assert_eq!(b, [0xFF, 0b00000011, 0xAB, 0xCD]);
}

#[test]
fn read_u32_unaligned_full_width() {
    let a = [0b10100111, 0b11001100, 0b01011010, 0b00010010, 0b11100000];
    let mut r = BitsReader::new(a.as_slice());
    r.read_skip(3).unwrap();
    assert_eq!(r.read_u32(32).unwrap(), 0b00111110_01100010_11010000_10010111);
    assert_eq!(r.read_position(), 35);
}
