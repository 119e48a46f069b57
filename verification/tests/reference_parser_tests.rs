//! Tests carried over for this module.

use aozora_core::node::{MidashiLevel, MidashiStyle, StyleType};
use aozora_core::parser::command_parser::CommandResult;
use aozora_core::parser::reference_parser::{try_parse_left_ruby, try_parse_reference};

#[test]
fn reference_parser_test_parse_style_bouten() {
    let result = try_parse_reference("「である」に傍点");
    assert_eq!(
        result,
        Some(CommandResult::Style {
            target: "である".to_string(),
            connector: "に".to_string(),
            style_type: StyleType::SesameDot,
        })
    );
}

#[test]
fn reference_parser_test_parse_midashi() {
    let result = try_parse_reference("「第一章」は大見出し");
    assert_eq!(
        result,
        Some(CommandResult::Midashi {
            target: "第一章".to_string(),
            level: MidashiLevel::O,
            style: MidashiStyle::Normal,
        })
    );
}

#[test]
fn test_parse_inline_tcy() {
    let result = try_parse_reference("「12」は縦中横");
    assert_eq!(
        result,
        Some(CommandResult::InlineTcy {
            target: "12".to_string(),
        })
    );
}

#[test]
fn test_parse_left_ruby() {
    let result = try_parse_left_ruby("「親文字」の左に「ルビ」のルビ");
    assert_eq!(
        result,
        Some(CommandResult::LeftRuby {
            target: "親文字".to_string(),
            ruby: "ルビ".to_string(),
        })
    );
}
