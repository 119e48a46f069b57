//! Tests carried over for this module.

use aozora_core::gaiji::{convert_gaiji, extract_jis_code, extract_unicode};
use aozora_core::jis_table::normalize_jis_code;

#[test]
fn gaiji_test_normalize_jis_code() {
    assert_eq!(normalize_jis_code("1-2-22"), "1-02-22");
    assert_eq!(normalize_jis_code("2-14-75"), "2-14-75");
    assert_eq!(normalize_jis_code("1-1-1"), "1-01-01");
}

