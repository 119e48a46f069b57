//! Tests carried over for this module.

use aozora_core::node::BlockType;

#[test]
fn test_block_type_from_command() {
    assert_eq!(BlockType::from_command("2字下げ"), Some(BlockType::Jisage));
    assert_eq!(BlockType::from_command("地付き"), Some(BlockType::Chitsuki));
    assert_eq!(BlockType::from_command("太字"), Some(BlockType::Futoji));
}
