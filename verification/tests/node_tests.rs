//! Tests carried over for this module.

use aozora_core::char_type::CharType;
use aozora_core::node::{Node, RubyDirection};

#[test]
fn test_text_node() {
    let node = Node::text("こんにちは");
    assert_eq!(node.to_text(), "こんにちは");
}

#[test]
fn test_ruby_node() {
    let node = Node::Ruby {
        children: vec![Node::text("漢字")],
        ruby: vec![Node::text("かんじ")],
        direction: RubyDirection::Right,
    };
    assert_eq!(node.to_text(), "漢字");
}

#[test]
fn test_gaiji_node_to_text() {
    let node = Node::Gaiji {
        description: "丸印".to_string(),
        unicode: Some("○".to_string()),
        jis_code: None,
    };
    assert_eq!(node.to_text(), "○");

    let node = Node::Gaiji {
        description: "不明な文字".to_string(),
        unicode: None,
        jis_code: None,
    };
    assert_eq!(node.to_text(), "不明な文字");
}

#[test]
fn test_last_char_type() {
    let node = Node::text("漢字");
    assert_eq!(node.last_char_type(), Some(CharType::Kanji));

    let node = Node::Gaiji {
        description: "外字".to_string(),
        unicode: None,
        jis_code: None,
    };
    assert_eq!(node.last_char_type(), Some(CharType::Kanji));
}
