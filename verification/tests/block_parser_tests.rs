//! Tests carried over for this module.

use aozora_core::node::{BlockParams, BlockType};
use aozora_core::parser::block_parser::{parse_block_end, parse_block_start, parse_inline_end, try_parse_line_chitsuki, try_parse_line_indent};
use aozora_core::parser::command_parser::CommandResult;

#[test]
fn block_parser_test_parse_block_start_jisage() {
    let result = parse_block_start("ここから2字下げ");
    assert_eq!(
        result,
        CommandResult::BlockStart {
            block_type: BlockType::Jisage,
            params: BlockParams {
                width: Some(2),
                is_block: true,
                ..Default::default()
            },
        }
    );
}

#[test]
fn block_parser_test_parse_block_end() {
    let result = parse_block_end("ここで字下げ終わり");
    assert_eq!(
        result,
        CommandResult::BlockEnd {
            block_type: BlockType::Jisage,
        }
    );
}

#[test]
fn block_parser_test_parse_line_indent() {
    let result = try_parse_line_indent("3字下げ");
    assert_eq!(result, Some(CommandResult::LineIndent { width: 3 }));
}

#[test]
fn block_parser_test_parse_line_chitsuki() {
    let result = try_parse_line_chitsuki("地付き");
    assert_eq!(result, Some(CommandResult::LineChitsuki { width: 0 }));

    let result = try_parse_line_chitsuki("地から3字上げ");
    assert_eq!(result, Some(CommandResult::LineChitsuki { width: 3 }));
}

#[test]
fn test_parse_inline_end() {
    assert_eq!(parse_inline_end("縦中横終わり"), CommandResult::TcyEnd);
    assert_eq!(parse_inline_end("割り注終わり"), CommandResult::WarigakiEnd);
}
