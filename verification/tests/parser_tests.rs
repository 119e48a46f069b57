//! Tests carried over for this module.

use aozora_core::node::{BlockType, Node, RubyDirection};
use aozora_core::parser::parse;
use aozora_core::tokenizer::tokenize;

#[test]
fn test_parse_text() {
    let tokens = tokenize("こんにちは");
    let nodes = parse(&tokens);
    assert_eq!(nodes.len(), 1);
    assert!(matches!(&nodes[0], Node::Text(s) if s == "こんにちは"));
}

#[test]
fn test_parse_prefixed_ruby() {
    let tokens = tokenize("｜東京《とうきょう》");
    let nodes = parse(&tokens);
    assert_eq!(nodes.len(), 1);
    if let Node::Ruby {
        children,
        ruby,
        direction,
    } = &nodes[0]
    {
        assert!(matches!(&children[0], Node::Text(s) if s == "東京"));
        assert!(matches!(&ruby[0], Node::Text(s) if s == "とうきょう"));
        assert_eq!(*direction, RubyDirection::Right);
    } else {
        panic!("Expected Ruby node");
    }
}

#[test]
fn test_parse_command_block_start() {
    let tokens = tokenize("［＃ここから2字下げ］");
    let nodes = parse(&tokens);
    assert_eq!(nodes.len(), 1);
    if let Node::BlockStart { block_type, params } = &nodes[0] {
        assert_eq!(*block_type, BlockType::Jisage);
        assert_eq!(params.width, Some(2));
    } else {
        panic!("Expected BlockStart node");
    }
}

#[test]
fn test_parse_command_block_end() {
    let tokens = tokenize("［＃ここで字下げ終わり］");
    let nodes = parse(&tokens);
    assert_eq!(nodes.len(), 1);
    assert!(matches!(
        &nodes[0],
        Node::BlockEnd {
            block_type: BlockType::Jisage,
            ..
        }
    ));
}

#[test]
fn test_parse_gaiji() {
    let tokens = tokenize("※［＃「丸印」、U+25CB］");
    let nodes = parse(&tokens);
    assert_eq!(nodes.len(), 1);
    if let Node::Gaiji {
        description,
        unicode,
        ..
    } = &nodes[0]
    {
        assert!(description.contains("丸印"));
        assert_eq!(unicode.as_deref(), Some("○"));
    } else {
        panic!("Expected Gaiji node");
    }
}
