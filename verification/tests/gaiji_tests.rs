//! Tests carried over for this module.

use aozora_core::gaiji::{convert_gaiji, extract_jis_code, extract_unicode, parse_gaiji, GaijiResult};

#[test]
fn gaiji_test_extract_unicode() {
    assert_eq!(extract_unicode("「丸印」、U+25CB"), Some('○'));
    assert_eq!(extract_unicode("U+3042"), Some('あ'));
    assert_eq!(extract_unicode("テスト"), None);
}

#[test]
fn gaiji_test_extract_jis_code() {
    assert_eq!(
        extract_jis_code("「二の字点」、1-2-22"),
        Some("1-2-22".to_string())
    );
    assert_eq!(
        extract_jis_code("「文字」、2-14-75"),
        Some("2-14-75".to_string())
    );
    assert_eq!(extract_jis_code("テスト"), None);
}

#[test]
fn gaiji_test_convert_gaiji_unicode() {
    assert_eq!(convert_gaiji("「丸印」、U+25CB"), "○");
}

#[test]
fn gaiji_test_convert_gaiji_unknown() {
    assert_eq!(convert_gaiji("不明な外字"), "〓");
}

#[test]
fn gaiji_test_convert_gaiji_jis_multi_char() {
    // 1-05-87 = カ (U+30AB) + 半濁点 (U+309A) = カ゚
    assert_eq!(convert_gaiji("1-05-87"), "カ゚");
}

#[test]
fn gaiji_test_extract_jis_code_with_description() {
    assert_eq!(
        extract_jis_code("半濁点付き片仮名カ、1-05-87"),
        Some("1-05-87".to_string())
    );
}

#[test]
fn gaiji_test_convert_gaiji_with_full_description() {
    assert_eq!(convert_gaiji("半濁点付き片仮名カ、1-05-87"), "カ゚");
}

#[test]
fn test_parse_gaiji_unicode() {
    assert_eq!(
        parse_gaiji("「丸印」、U+25CB"),
        GaijiResult::Unicode("○".to_string())
    );
}

#[test]
fn test_parse_gaiji_jis() {
    match parse_gaiji("1-05-87") {
        GaijiResult::JisConverted { jis_code, unicode } => {
            assert_eq!(jis_code, "1-05-87");
            assert_eq!(unicode, "カ゚");
        }
        _ => panic!("Expected JisConverted"),
    }
}
