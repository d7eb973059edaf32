use wav1d::utils::bits::{BitsReader, ReadError};

#[test]
fn uvlc_zero() {
    // a lone terminator bit: no zeros, empty payload, value 0
    let a = [0b10000000];
    let mut r = BitsReader::new(a.as_slice());
    assert_eq!(r.read_uvlc().unwrap(), 0);
    assert_eq!(r.read_position(), 1);
}

#[test]
fn uvlc_one() {
    // one zero, terminator, one payload bit 0: 0 + 2 - 1 = 1
    let a = [0b01000000];
    let mut r = BitsReader::new(a.as_slice());
    assert_eq!(r.read_uvlc().unwrap(), 1);
    assert_eq!(r.read_position(), 3);
}

#[test]
fn uvlc_larger_payload() {
    // two zeros, terminator, payload 0b11: 3 + 4 - 1 = 6
    let a = [0b00111000];
    let mut r = BitsReader::new(a.as_slice());
    assert_eq!(r.read_uvlc().unwrap(), 6);
    assert_eq!(r.read_position(), 5);
}

#[test]
fn uvlc_saturates_after_32_zeros() {
    let a = [0x00, 0x00, 0x00, 0x00];
    let mut r = BitsReader::new(a.as_slice());
    assert_eq!(r.read_uvlc().unwrap(), u32::MAX);
    assert_eq!(r.read_position(), 32);
}

#[test]
fn uvlc_truncated_fails() {
    // eight zeros and then nothing: the zero run cannot finish
    let a = [0x00];
    let mut r = BitsReader::new(a.as_slice());
    assert_eq!(r.read_uvlc(), Err(ReadError::Truncated));
}

#[test]
fn leb128_single_byte() {
    let a = [0x2A];
    let mut r = BitsReader::new(a.as_slice());
    assert_eq!(r.read_leb128().unwrap(), 42);
    assert_eq!(r.read_position(), 8);
}

#[test]
fn leb128_three_bytes() {
    // continuation set on bytes 0 and 1, clear on byte 2:
    // 3 | (1 << 7) | (2 << 14)
    let a = [0x83, 0x81, 0x02];
    let mut r = BitsReader::new(a.as_slice());
    assert_eq!(r.read_leb128().unwrap(), 3 | (1 << 7) | (2 << 14));
    assert_eq!(r.read_position(), 24);
}

#[test]
fn leb128_unaligned() {
    // the same one-byte code, shifted three bits into the stream
    let mut a = [0u8; 2];
    a[0] = 0x2A >> 3;
    a[1] = (0x2A << 5) as u8;
    let mut r = BitsReader::new(a.as_slice());
    r.read_skip(3).unwrap();
    assert_eq!(r.read_leb128().unwrap(), 42);
    assert_eq!(r.read_position(), 11);
}

#[test]
fn leb128_truncated_fails() {
    // a continuation bit promises another byte the buffer does not hold
    let a = [0x80];
    let mut r = BitsReader::new(a.as_slice());
    assert_eq!(r.read_leb128(), Err(ReadError::Truncated));
}

#[test]
fn leb128_stops_after_eight_bytes() {
    // eight continuation bytes: the decoder reads no further than eight
    let a = [0x81, 0x80, 0x80, 0x80, 0x80, 0x80, 0x80, 0x80, 0x7F];
    let mut r = BitsReader::new(a.as_slice());
    assert_eq!(r.read_leb128().unwrap(), 1);
    assert_eq!(r.read_position(), 64);
}

#[test]
fn ns_short_symbols_use_w_bits() {
    // n = 6: w = 2, m = 2; a reading below m stands alone
    let a = [0b00000000];
    let mut r = BitsReader::new(a.as_slice());
    assert_eq!(r.read_ns(6).unwrap(), 0);
    assert_eq!(r.read_position(), 2);

    let a = [0b01000000];
    let mut r = BitsReader::new(a.as_slice());
    assert_eq!(r.read_ns(6).unwrap(), 1);
    assert_eq!(r.read_position(), 2);
}

#[test]
fn ns_long_symbols_take_extra_bit() {
    // n = 6: a reading v >= m takes one extra bit: (v << 1) - m + extra
    let a = [0b10000000];
    let mut r = BitsReader::new(a.as_slice());
    assert_eq!(r.read_ns(6).unwrap(), 2);
    assert_eq!(r.read_position(), 3);

    let a = [0b10100000];
    let mut r = BitsReader::new(a.as_slice());
    assert_eq!(r.read_ns(6).unwrap(), 3);
    assert_eq!(r.read_position(), 3);

    let a = [0b11100000];
    let mut r = BitsReader::new(a.as_slice());
    assert_eq!(r.read_ns(6).unwrap(), 5);
    assert_eq!(r.read_position(), 3);
}

#[test]
fn ns_power_of_two_never_needs_extra() {
    // n = 8: w = 3, m = 8; every 3-bit reading is below m
    let a = [0b10100000];
    let mut r = BitsReader::new(a.as_slice());
    assert_eq!(r.read_ns(8).unwrap(), 5);
    assert_eq!(r.read_position(), 3);
}

#[test]
fn ns_one_symbol_reads_nothing() {
    let a = [0xFF];
    let mut r = BitsReader::new(a.as_slice());
    assert_eq!(r.read_ns(1).unwrap(), 0);
    assert_eq!(r.read_position(), 0);
}

#[test]
fn ns_truncated_fails() {
    let a = [0b00000010];
    let mut r = BitsReader::new(a.as_slice());
    r.read_skip(6).unwrap();
    // the two bits left read as 2 >= m, so the code asks for one bit more
    assert_eq!(r.read_ns(6), Err(ReadError::Truncated));
}

#[test]
fn su_sign_bit_set_is_negative() {
    // 4-bit pattern 1000: 8 - 16 = -8
    let a = [0b10000000];
    let mut r = BitsReader::new(a.as_slice());
    assert_eq!(r.read_su(4).unwrap(), -8);
    assert_eq!(r.read_position(), 4);

    // 4-bit pattern 1111: 15 - 16 = -1
    let a = [0b11110000];
    let mut r = BitsReader::new(a.as_slice());
    assert_eq!(r.read_su(4).unwrap(), -1);
}

#[test]
fn su_sign_bit_clear_is_unchanged() {
    // 4-bit pattern 0111: 7
    let a = [0b01110000];
    let mut r = BitsReader::new(a.as_slice());
    assert_eq!(r.read_su(4).unwrap(), 7);
    assert_eq!(r.read_position(), 4);
}

#[test]
fn su_one_bit() {
    let a = [0b10000000];
    let mut r = BitsReader::new(a.as_slice());
    assert_eq!(r.read_su(1).unwrap(), -1);
    let a = [0b00000000];
    let mut r = BitsReader::new(a.as_slice());
    assert_eq!(r.read_su(1).unwrap(), 0);
}

#[test]
fn uvlc_not_byte_aligned() {
    // two skipped bits, then a zero, a terminator and one payload bit 1:
    // 1 + 2 - 1 = 2
    let a = [0b00011000];
    let mut r = BitsReader::new(a.as_slice());
    r.read_skip(2).unwrap();
    assert_eq!(r.read_uvlc().unwrap(), 2);
    assert_eq!(r.read_position(), 5);
}
