//! Little-endian integers in a buffer.
use min_pe_parser::endian::{fits, get_u16, get_u32, get_u64, read_u16, read_u32};
use min_pe_parser::error::PeError;

const BYTES: [u8; 10] = [0x01, 0x23, 0x45, 0x67, 0x89, 0xAB, 0xCD, 0xEF, 0x10, 0x32];

#[test]
fn sixteen_bits_are_read_low_byte_first() {
    assert_eq!(get_u16(&BYTES, 0), 0x2301);
    assert_eq!(get_u16(&BYTES, 1), 0x4523);
    assert_eq!(get_u16(&BYTES, 8), 0x3210);
    assert_eq!(get_u16(&[0xFF, 0x00], 0), 0x00FF);
    assert_eq!(get_u16(&[0x00, 0xFF], 0), 0xFF00);
    assert_eq!(get_u16(&[0xFF, 0xFF], 0), u16::MAX);
}

#[test]
fn thirty_two_bits_are_read_low_byte_first() {
    assert_eq!(get_u32(&BYTES, 0), 0x6745_2301);
    assert_eq!(get_u32(&BYTES, 3), 0xCDAB_8967);
    assert_eq!(get_u32(&BYTES, 6), 0x3210_EFCD);
    assert_eq!(get_u32(&[0x4D, 0x5A, 0x00, 0x00], 0), 0x5A4D);
    assert_eq!(get_u32(&[0, 0, 0, 0x80], 0), 0x8000_0000);
    assert_eq!(get_u32(&[0xFF; 4], 0), u32::MAX);
}

#[test]
fn sixty_four_bits_are_read_low_byte_first() {
    assert_eq!(get_u64(&BYTES, 0), 0xEFCD_AB89_6745_2301);
    assert_eq!(get_u64(&BYTES, 2), 0x3210_EFCD_AB89_6745);
    assert_eq!(get_u64(&[1, 0, 0, 0, 0, 0, 0, 0], 0), 1);
    assert_eq!(get_u64(&[0, 0, 0, 0, 0, 0, 0, 1], 0), 1 << 56);
    assert_eq!(get_u64(&[0xFF; 8], 0), u64::MAX);
}

#[test]
fn checked_reads_stop_at_the_end_of_the_buffer() {
    assert_eq!(read_u16(&BYTES, 8), Ok(0x3210));
    assert_eq!(read_u16(&BYTES, 9), Err(PeError::OutOfBounds));
    assert_eq!(read_u16(&BYTES, 10), Err(PeError::OutOfBounds));
    assert_eq!(read_u16(&BYTES, u64::MAX), Err(PeError::OutOfBounds));
    assert_eq!(read_u16(&[], 0), Err(PeError::OutOfBounds));
    assert_eq!(read_u32(&BYTES, 6), Ok(0x3210_EFCD));
    assert_eq!(read_u32(&BYTES, 7), Err(PeError::OutOfBounds));
    assert_eq!(read_u32(&BYTES, u64::MAX - 3), Err(PeError::OutOfBounds));
    assert_eq!(read_u32(&BYTES[..3], 0), Err(PeError::OutOfBounds));
}

#[test]
fn a_span_fits_where_it_ends_within_the_buffer() {
    assert!(fits(10, 0, 10));
    assert!(fits(10, 10, 0));
    assert!(fits(10, 6, 4));
    assert!(!fits(10, 7, 4));
    assert!(!fits(10, 11, 0));
    assert!(!fits(10, 0, 11));
    assert!(!fits(10, u64::MAX, 1));
    assert!(!fits(10, 1, u64::MAX));
    assert!(fits(0, 0, 0));
}
