//! Tests carried over for this module.

use aozora_core::node::{BlockParams, BlockType, MidashiLevel, MidashiStyle, StyleType};
use aozora_core::parser::command_parser::{parse_command, CommandResult};
use aozora_core::parser::utils::extract_number;

#[test]
fn command_parser_test_parse_style_bouten() {
    let result = parse_command("「である」に傍点");
    assert_eq!(
        result,
        CommandResult::Style {
            target: "である".to_string(),
            connector: "に".to_string(),
            style_type: StyleType::SesameDot,
        }
    );
}

#[test]
fn test_parse_style_bold() {
    let result = parse_command("「重要」に太字");
    assert_eq!(
        result,
        CommandResult::Style {
            target: "重要".to_string(),
            connector: "に".to_string(),
            style_type: StyleType::Bold,
        }
    );
}

#[test]
fn command_parser_test_parse_midashi() {
    let result = parse_command("「第一章」は大見出し");
    assert_eq!(
        result,
        CommandResult::Midashi {
            target: "第一章".to_string(),
            level: MidashiLevel::O,
            style: MidashiStyle::Normal,
        }
    );
}

#[test]
fn test_parse_midashi_dogyo() {
    let result = parse_command("「一」は同行中見出し");
    assert_eq!(
        result,
        CommandResult::Midashi {
            target: "一".to_string(),
            level: MidashiLevel::Naka,
            style: MidashiStyle::Dogyo,
        }
    );
}

#[test]
fn command_parser_test_parse_block_end() {
    let result = parse_command("ここで字下げ終わり");
    assert_eq!(
        result,
        CommandResult::BlockEnd {
            block_type: BlockType::Jisage,
        }
    );
}

#[test]
fn command_parser_test_parse_line_indent() {
    let result = parse_command("3字下げ");
    assert_eq!(result, CommandResult::LineIndent { width: 3 });
}

#[test]
fn test_parse_tcy() {
    assert_eq!(parse_command("縦中横"), CommandResult::TcyStart);
    assert_eq!(parse_command("縦中横終わり"), CommandResult::TcyEnd);
}

#[test]
fn test_parse_warigaki() {
    assert_eq!(parse_command("割り注"), CommandResult::WarigakiStart);
    assert_eq!(parse_command("割り注終わり"), CommandResult::WarigakiEnd);
}

#[test]
fn test_parse_unknown() {
    let result = parse_command("改ページ");
    assert_eq!(result, CommandResult::Note("改ページ".to_string()));
}

#[test]
fn command_parser_test_extract_number() {
    assert_eq!(extract_number("2字下げ"), Some(2));
    assert_eq!(extract_number("10字詰め"), Some(10));
    assert_eq!(extract_number("字下げ"), None);
}

#[test]
fn command_parser_test_extract_number_fullwidth() {
    // 全角数字のテスト
    assert_eq!(extract_number("２字下げ"), Some(2));
    assert_eq!(extract_number("３字下げ"), Some(3));
    assert_eq!(extract_number("１０字詰め"), Some(10));
}

#[test]
fn test_parse_line_indent_fullwidth() {
    let result = parse_command("３字下げ");
    assert_eq!(result, CommandResult::LineIndent { width: 3 });
}

#[test]
fn command_parser_test_parse_line_chitsuki() {
    // 地付き
    let result = parse_command("地付き");
    assert_eq!(result, CommandResult::LineChitsuki { width: 0 });

    // 地からN字上げ
    let result = parse_command("地から１字上げ");
    assert_eq!(result, CommandResult::LineChitsuki { width: 1 });

    let result = parse_command("地から3字上げ");
    assert_eq!(result, CommandResult::LineChitsuki { width: 3 });
}
