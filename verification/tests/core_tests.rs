//! Tests carried over for this module.

use aozora_core::accent::convert_accent;
use aozora_core::encoding::decode_to_utf8;
use aozora_core::gaiji::convert_gaiji;
use aozora_core::token::Token;
use aozora_core::tokenizer::tokenize;

#[test]
fn test_tokenize() {
    let tokens = tokenize("吾輩《わがはい》は猫である");
    assert_eq!(tokens.len(), 3);
    assert!(matches!(&tokens[0], Token::Text(s) if s == "吾輩"));
    assert!(matches!(&tokens[1], Token::Ruby { .. }));
    assert!(matches!(&tokens[2], Token::Text(s) if s == "は猫である"));
}

#[test]
fn test_gaiji_conversion() {
    assert_eq!(convert_gaiji("U+25CB"), "○");
}

#[test]
fn lib_test_accent_conversion() {
    assert_eq!(convert_accent("cafe'"), "café");
}

#[test]
fn test_encoding_detection() {
    assert_eq!(decode_to_utf8("こんにちは".as_bytes()), "こんにちは");
}
