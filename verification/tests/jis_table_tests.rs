//! Tests carried over for this module.

use aozora_core::jis_table::{jis_to_unicode, normalize_jis_code};

#[test]
fn jis_table_test_normalize_jis_code() {
    assert_eq!(normalize_jis_code("1-2-22"), "1-02-22");
    assert_eq!(normalize_jis_code("2-14-75"), "2-14-75");
    assert_eq!(normalize_jis_code("1-1-1"), "1-01-01");
}

#[test]
fn test_jis_to_unicode() {
    // 1-05-87 = カ゚ (カ + 半濁点)
    assert_eq!(jis_to_unicode("1-05-87"), Some("カ゚".to_string()));
}

#[test]
fn test_jis_to_unicode_not_found() {
    assert_eq!(jis_to_unicode("99-99-99"), None);
}
