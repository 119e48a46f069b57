//! End-to-end scenarios over the whole pipeline, and concrete checks of the
//! laws proved in the library.

use aozora_core::char_type::CharType;
use aozora_core::html::block_manager::BlockManager;
use aozora_core::jis_table::jis_to_unicode;
use aozora_core::node::{BlockType, Node, StyleType};
use aozora_core::parser::command_parser::{parse_command, CommandResult};
use aozora_core::parser::reference_resolver::resolve_references;
use aozora_core::parser::ruby_parser::extract_ruby_base;
use aozora_core::parser::parse;
use aozora_core::tokenizer::tokenize;

#[test]
fn scenario_ruby_base_mixed_classes() {
    let r = extract_ruby_base("私の東京").unwrap();
    assert_eq!(r.base, "東京");
    assert_eq!(r.remaining, "私の");
    assert_eq!(r.char_type, CharType::Kanji);
}

#[test]
fn scenario_ruby_base_terminal_punctuation() {
    assert!(extract_ruby_base("テスト。").is_none());
}

#[test]
fn scenario_block_start_then_close() {
    let start = parse_command("ここから2字下げ");
    match &start {
        CommandResult::BlockStart { block_type, params } => {
            assert_eq!(*block_type, BlockType::Jisage);
            assert_eq!(params.width, Some(2));
        }
        other => panic!("expected a block start, got {:?}", other),
    }
    let end = parse_command("ここで字下げ終わり");
    assert_eq!(end, CommandResult::BlockEnd { block_type: BlockType::Jisage });
    let mut manager = BlockManager::new();
    if let CommandResult::BlockStart { block_type, params } = start {
        manager.push(block_type, params);
    }
    assert_eq!(manager.stack_len(), 1);
    let closed = manager.find_and_close(&BlockType::Jisage);
    assert!(closed.is_some());
    assert_eq!(closed.unwrap().block_type, BlockType::Jisage);
    assert_eq!(manager.stack_len(), 0);
}

#[test]
fn scenario_end_to_end_ruby_and_style() {
    let tokens = tokenize("吾輩《わがはい》は猫である［＃「である」に傍点］");
    let nodes = parse(&tokens);
    assert_eq!(nodes.len(), 3);
    match &nodes[0] {
        Node::Ruby { children, ruby, .. } => {
            assert_eq!(children.len(), 1);
            assert!(matches!(&children[0], Node::Text(s) if s == "吾輩"));
            assert!(matches!(&ruby[0], Node::Text(s) if s == "わがはい"));
        }
        other => panic!("expected ruby, got {:?}", other),
    }
    assert!(matches!(&nodes[1], Node::Text(s) if s == "は猫"));
    match &nodes[2] {
        Node::Style { children, style_type, .. } => {
            assert_eq!(*style_type, StyleType::SesameDot);
            assert!(matches!(&children[0], Node::Text(s) if s == "である"));
        }
        other => panic!("expected a style node, got {:?}", other),
    }
}

#[test]
fn resolver_second_run_is_no_op() {
    let tokens = tokenize("吾輩《わがはい》は猫である［＃「である」に傍点］");
    let mut nodes = parse(&tokens);
    let mut again: Vec<Node> = nodes.clone();
    resolve_references(&mut again);
    assert_eq!(again, nodes);
    resolve_references(&mut nodes);
    assert_eq!(again, nodes);
}

#[test]
fn scenario_annotation_range_becomes_ruby() {
    let tokens = tokenize("［＃注記付き］は猫［＃「ねこ」の注記付き終わり］");
    let nodes = parse(&tokens);
    assert_eq!(nodes.len(), 1);
    match &nodes[0] {
        Node::Ruby { children, ruby, .. } => {
            assert!(matches!(&children[0], Node::Text(s) if s == "は猫"));
            assert!(matches!(&ruby[0], Node::Text(s) if s == "ねこ"));
        }
        other => panic!("expected ruby, got {:?}", other),
    }
}

#[test]
fn scenario_unmatched_reference_degrades_to_note() {
    let tokens = tokenize("［＃「どこにもない」に傍点］");
    let nodes = parse(&tokens);
    assert_eq!(nodes.len(), 1);
    assert!(matches!(&nodes[0], Node::Note(s) if s == "「どこにもない」に傍点"));
}

#[test]
fn scenario_side_note_repeats_per_character() {
    let tokens = tokenize("は猫［＃「は猫」に「ねこ」の傍記］");
    let nodes = parse(&tokens);
    assert_eq!(nodes.len(), 1);
    match &nodes[0] {
        Node::Ruby { children, ruby, .. } => {
            assert!(matches!(&children[0], Node::Text(s) if s == "は猫"));
            assert!(matches!(&ruby[0], Node::Text(s) if s == "ねこ\u{00a0}ねこ"));
        }
        other => panic!("expected ruby, got {:?}", other),
    }
}

#[test]
fn scenario_unterminated_spans_stay_literal() {
    let tokens = tokenize("｜だけ〔参考〕");
    assert!(matches!(&tokens[0], aozora_core::token::Token::Text(s) if s == "｜"));
}

#[test]
fn jis_table_misses_stay_images() {
    assert_eq!(jis_to_unicode("1-09-24"), Some("Á".to_string()));
    assert_eq!(jis_to_unicode("99-99-99"), None);
}

#[test]
fn classify_every_class_has_a_witness() {
    assert_eq!(CharType::classify('あ'), CharType::Hiragana);
    assert_eq!(CharType::classify('ア'), CharType::Katakana);
    assert_eq!(CharType::classify('Ａ'), CharType::Zenkaku);
    assert_eq!(CharType::classify('A'), CharType::Hankaku);
    assert_eq!(CharType::classify('漢'), CharType::Kanji);
    assert_eq!(CharType::classify('.'), CharType::HankakuTerminate);
    assert_eq!(CharType::classify('。'), CharType::Else);
}

#[test]
fn tokenizer_round_trip_on_concrete_lines() {
    // the concatenation of the consumed spans is the input: for these
    // inputs every token's source text can be reassembled from the tokens
    let line = "吾輩《わがはい》は猫である［＃「である」に傍点］";
    let tokens = tokenize(line);
    let mut rebuilt = String::new();
    for t in &tokens {
        match t {
            aozora_core::token::Token::Text(s) => rebuilt.push_str(s),
            aozora_core::token::Token::Ruby { children } => {
                rebuilt.push('《');
                for c in children {
                    if let aozora_core::token::Token::Text(s) = c {
                        rebuilt.push_str(s);
                    }
                }
                rebuilt.push('》');
            }
            aozora_core::token::Token::Command { content } => {
                rebuilt.push_str("［＃");
                rebuilt.push_str(content);
                rebuilt.push('］');
            }
            _ => {}
        }
    }
    assert_eq!(rebuilt, line);
}

#[test]
fn block_manager_closes_related_family() {
    let mut manager = BlockManager::new();
    if let CommandResult::BlockStart { block_type, params } = parse_command("ここから2字下げ") {
        manager.push(block_type, params);
    }
    if let CommandResult::BlockStart { block_type, params } = parse_command("ここから3字下げ") {
        let closed = manager.close_related_blocks(&block_type);
        assert_eq!(closed.len(), 1);
        manager.push(block_type, params);
    }
    assert_eq!(manager.stack_len(), 1);
}

#[test]
fn total_on_empty_and_odd_input() {
    assert_eq!(parse_command(""), CommandResult::Note(String::new()));
    assert!(tokenize("").is_empty());
    assert_eq!(aozora_core::strip::convert_line(""), "");
    assert_eq!(aozora_core::jis_table::normalize_jis_code("1-2"), "1-2");
    assert_eq!(aozora_core::jis_table::normalize_jis_code("のつく直前まで"), "のつく直前まで");
    let nodes = parse(&tokenize("《》｜※〔［"));
    assert!(!nodes.is_empty());
}

#[test]
fn document_conversion_end_to_end() {
    let input = "タイトル\n著者\n\n吾輩《わがはい》は猫である\n底本：青空文庫";
    let plain = aozora_core::convert(input.as_bytes());
    assert_eq!(plain, "吾輩は猫である\n");
    let plain2 = aozora_core::strip::convert(input.as_bytes());
    assert_eq!(plain2, "吾輩は猫である\n");
}
