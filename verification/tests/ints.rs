//! Tests for the fixed-width little-endian integer decoders.

use tockloader_proto::{parse_u16, parse_u32};

#[test]
fn parse_u32_little_endian() {
    assert_eq!(parse_u32(&[0xEF, 0xBE, 0xAD, 0xDE]), 0xDEADBEEF);
    assert_eq!(parse_u32(&[0, 0, 0, 0]), 0);
    assert_eq!(parse_u32(&[0xFF, 0xFF, 0xFF, 0xFF]), 0xFFFFFFFF);
    assert_eq!(parse_u32(&[1, 0, 0, 0]), 1);
    assert_eq!(parse_u32(&[0, 0, 0, 1]), 0x01000000);
}

#[test]
fn parse_u16_little_endian() {
    assert_eq!(parse_u16(&[0x34, 0x12]), 0x1234);
    assert_eq!(parse_u16(&[0xFF, 0xFF]), 0xFFFF);
    assert_eq!(parse_u16(&[0x00, 0x01]), 0x0100);
    assert_eq!(parse_u16(&[0x00, 0x00]), 0);
}
