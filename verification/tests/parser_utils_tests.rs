//! Tests carried over for this module.

use aozora_core::parser::utils::extract_number;

#[test]
fn utils_test_extract_number() {
    assert_eq!(extract_number("2字下げ"), Some(2));
    assert_eq!(extract_number("10字詰め"), Some(10));
    assert_eq!(extract_number("字下げ"), None);
}

#[test]
fn utils_test_extract_number_fullwidth() {
    assert_eq!(extract_number("２字下げ"), Some(2));
    assert_eq!(extract_number("３字下げ"), Some(3));
    assert_eq!(extract_number("１０字詰め"), Some(10));
}
