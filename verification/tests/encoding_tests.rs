//! Tests carried over for this module.

use aozora_core::encoding::decode_to_utf8;

#[test]
fn test_utf8() {
    let bytes = "こんにちは".as_bytes();
    assert_eq!(decode_to_utf8(bytes), "こんにちは");
}

#[test]
fn test_utf8_with_bom() {
    let mut bytes = vec![0xEF, 0xBB, 0xBF];
    bytes.extend_from_slice("こんにちは".as_bytes());
    assert_eq!(decode_to_utf8(&bytes), "こんにちは");
}

#[test]
fn test_shift_jis() {
    // "こんにちは" in Shift_JIS
    let bytes = vec![0x82, 0xB1, 0x82, 0xF1, 0x82, 0xC9, 0x82, 0xBF, 0x82, 0xCD];
    assert_eq!(decode_to_utf8(&bytes), "こんにちは");
}
