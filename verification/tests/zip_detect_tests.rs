//! Tests carried over for this module.

use aozora_core::encoding::is_zip_file;

#[test]
fn test_is_zip_file() {
    assert!(is_zip_file(b"PK\x03\x04"));
    assert!(is_zip_file(b"PK\x05\x06"));
    assert!(is_zip_file(b"PK\x03\x04test content"));
    assert!(!is_zip_file(b"not a zip file"));
    assert!(!is_zip_file(b""));
    assert!(!is_zip_file(b"PK"));
}
