//! Tests carried over for this module.

use aozora_core::html::tag_generator::{generate_block_end_tag, generate_block_start_tag};
use aozora_core::node::{BlockParams, BlockType};

#[test]
fn test_generate_jisage_start() {
    let params = BlockParams {
        width: Some(2),
        ..Default::default()
    };
    let tag = generate_block_start_tag(&BlockType::Jisage, &params, None);
    assert_eq!(tag, "<div class=\"jisage_2\" style=\"margin-left: 2em\">");
}

#[test]
fn test_generate_caption_start_block() {
    let params = BlockParams {
        is_block: true,
        ..Default::default()
    };
    let tag = generate_block_start_tag(&BlockType::Caption, &params, None);
    assert_eq!(tag, "<div class=\"caption\">");
}

#[test]
fn test_generate_caption_start_inline() {
    let params = BlockParams::default();
    let tag = generate_block_start_tag(&BlockType::Caption, &params, None);
    assert_eq!(tag, "<span class=\"caption\">");
}

#[test]
fn test_generate_block_end() {
    let params = BlockParams::default();
    assert_eq!(
        generate_block_end_tag(&BlockType::Jisage, &params),
        "</div>"
    );
    assert_eq!(generate_block_end_tag(&BlockType::Tcy, &params), "</span>");
}
