//! Tests carried over for this module.

use aozora_core::char_type::CharType;
use aozora_core::node::Node;
use aozora_core::parser::ruby_parser::{extract_ruby_base, extract_ruby_base_from_nodes};

#[test]
fn test_extract_ruby_base_kanji() {
    let result = extract_ruby_base("東京").unwrap();
    assert_eq!(result.base, "東京");
    assert_eq!(result.remaining, "");
    assert_eq!(result.char_type, CharType::Kanji);
}

#[test]
fn test_extract_ruby_base_mixed() {
    let result = extract_ruby_base("私の東京").unwrap();
    assert_eq!(result.base, "東京");
    assert_eq!(result.remaining, "私の");
    assert_eq!(result.char_type, CharType::Kanji);
}

#[test]
fn test_extract_ruby_base_hiragana() {
    let result = extract_ruby_base("あいう").unwrap();
    assert_eq!(result.base, "あいう");
    assert_eq!(result.remaining, "");
    assert_eq!(result.char_type, CharType::Hiragana);
}

#[test]
fn test_extract_ruby_base_katakana() {
    let result = extract_ruby_base("アイウ").unwrap();
    assert_eq!(result.base, "アイウ");
    assert_eq!(result.remaining, "");
    assert_eq!(result.char_type, CharType::Katakana);
}

#[test]
fn test_extract_ruby_base_mixed_kana() {
    let result = extract_ruby_base("ひらがなカタカナ").unwrap();
    assert_eq!(result.base, "カタカナ");
    assert_eq!(result.remaining, "ひらがな");
    assert_eq!(result.char_type, CharType::Katakana);
}

#[test]
fn test_extract_ruby_base_no_valid() {
    // 記号で終わる場合
    let result = extract_ruby_base("テスト。");
    assert!(result.is_none());
}

#[test]
fn test_extract_ruby_base_empty() {
    let result = extract_ruby_base("");
    assert!(result.is_none());
}

#[test]
fn test_extract_ruby_base_from_nodes_simple() {
    let nodes = vec![Node::text("私の東京")];
    let (remaining, base) = extract_ruby_base_from_nodes(&nodes).unwrap();
    assert_eq!(remaining.len(), 1);
    assert!(matches!(&remaining[0], Node::Text(s) if s == "私の"));
    assert_eq!(base.len(), 1);
    assert!(matches!(&base[0], Node::Text(s) if s == "東京"));
}

#[test]
fn test_extract_ruby_base_from_nodes_with_gaiji() {
    let nodes = vec![
        Node::text("私の"),
        Node::Gaiji {
            description: "外字".to_string(),
            unicode: Some("字".to_string()),
            jis_code: None,
        },
    ];
    let (remaining, base) = extract_ruby_base_from_nodes(&nodes).unwrap();
    assert_eq!(remaining.len(), 1);
    assert!(matches!(&remaining[0], Node::Text(s) if s == "私の"));
    assert_eq!(base.len(), 1);
    assert!(matches!(&base[0], Node::Gaiji { .. }));
}

#[test]
fn test_extract_ruby_base_from_nodes_kanji_gaiji() {
    let nodes = vec![
        Node::text("東"),
        Node::Gaiji {
            description: "京".to_string(),
            unicode: Some("京".to_string()),
            jis_code: None,
        },
    ];
    let (remaining, base) = extract_ruby_base_from_nodes(&nodes).unwrap();
    assert!(remaining.is_empty());
    assert_eq!(base.len(), 2);
}
