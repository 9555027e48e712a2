use redgb::cpu::alu::{read_bits, read_u16, write_bits, write_u16};
use redgb::error::EmuError;

#[test]
fn compose_then_decompose_gives_the_bytes_back() {
    for &(lo, hi) in &[(0x00u8, 0x00u8), (0x34, 0x12), (0xFF, 0x00), (0x00, 0xFF), (0xFF, 0xFF)] {
        let value = read_u16(&lo, &hi);
        assert_eq!(value, (hi as u16) * 256 + lo as u16);
        let (mut l, mut h) = (0u8, 0u8);
        write_u16(&mut l, &mut h, value);
        assert_eq!((l, h), (lo, hi));
    }
}

#[test]
fn read_u16_is_little_endian() {
    assert_eq!(read_u16(&0x01, &0xC0), 0xC001);
    let (mut l, mut h) = (0u8, 0u8);
    write_u16(&mut l, &mut h, 0xBEEF);
    assert_eq!(l, 0xEF);
    assert_eq!(h, 0xBE);
}

#[test]
fn read_bits_reads_a_right_aligned_field() {
    assert_eq!(read_bits(0b1011_0110, 2, 3), 0b101);
    assert_eq!(read_bits(0x46, 3, 3), 0);
    assert_eq!(read_bits(0x46, 0, 3), 6);
    assert_eq!(read_bits(0xFF, 0, 8), 0xFF);
    assert_eq!(read_bits(0xFF, 8, 0), 0);
    assert_eq!(read_bits(0x80, 7, 1), 1);
}

#[test]
fn inserting_an_extracted_field_keeps_the_byte() {
    for &b in &[0x00u8, 0xA5, 0x3C, 0xFF, 0x81] {
        for index in 0u8..=8 {
            for length in 0u8..=(8 - index) {
                let mut target = b;
                let field = read_bits(b, index, length);
                assert_eq!(write_bits(&mut target, index, length, field), Ok(()));
                assert_eq!(target, b);
            }
        }
    }
}

#[test]
fn write_bits_inserts_only_the_low_bits() {
    let mut t = 0xFFu8;
    assert_eq!(write_bits(&mut t, 4, 2, 0b1110), Ok(()));
    assert_eq!(t, 0xEF);
    let mut z = 0u8;
    assert_eq!(write_bits(&mut z, 0, 8, 0x5A), Ok(()));
    assert_eq!(z, 0x5A);
}

#[test]
fn write_bits_past_bit_seven_fails() {
    let mut t = 0x12u8;
    assert_eq!(write_bits(&mut t, 6, 3, 1), Err(EmuError::OverflowBitWrite));
    assert_eq!(t, 0x12);
    assert_eq!(write_bits(&mut t, 9, 0, 0), Err(EmuError::OverflowBitWrite));
    assert_eq!(write_bits(&mut t, 255, 255, 0), Err(EmuError::OverflowBitWrite));
    assert_eq!(t, 0x12);
}
