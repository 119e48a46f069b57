//! Tests carried over for this module.

use aozora_core::token::Token;
use aozora_core::tokenizer::tokenize;

#[test]
fn tokenizer_test_plain_text() {
    let tokens = tokenize("こんにちは");
    assert_eq!(tokens, vec![Token::Text("こんにちは".to_string())]);
}

#[test]
fn test_ruby() {
    let tokens = tokenize("漢字《かんじ》");
    assert_eq!(
        tokens,
        vec![
            Token::Text("漢字".to_string()),
            Token::Ruby {
                children: vec![Token::Text("かんじ".to_string())]
            }
        ]
    );
}

#[test]
fn tokenizer_test_prefixed_ruby() {
    let tokens = tokenize("｜東京《とうきょう》");
    assert_eq!(
        tokens,
        vec![Token::PrefixedRuby {
            base_children: vec![Token::Text("東京".to_string())],
            ruby_children: vec![Token::Text("とうきょう".to_string())]
        }]
    );
}

#[test]
fn test_command() {
    let tokens = tokenize("猫である［＃「である」に傍点］");
    assert_eq!(
        tokens,
        vec![
            Token::Text("猫である".to_string()),
            Token::Command {
                content: "「である」に傍点".to_string()
            }
        ]
    );
}

#[test]
fn test_gaiji() {
    let tokens = tokenize("※［＃「丸印」、U+25CB］");
    assert_eq!(
        tokens,
        vec![Token::Gaiji {
            description: "「丸印」、U+25CB".to_string()
        }]
    );
}

#[test]
fn test_gaiji_mark_alone() {
    let tokens = tokenize("※普通の文");
    assert_eq!(
        tokens,
        vec![
            Token::Text("※".to_string()),
            Token::Text("普通の文".to_string())
        ]
    );
}

#[test]
fn test_bracket_without_igeta() {
    let tokens = tokenize("［テスト］");
    assert_eq!(
        tokens,
        vec![
            Token::Text("［".to_string()),
            Token::Text("テスト］".to_string())
        ]
    );
}

#[test]
fn test_nested_command() {
    let tokens = tokenize("［＃ここから罫囲み［＃「罫囲み」に傍点］］");
    assert_eq!(
        tokens,
        vec![Token::Command {
            content: "ここから罫囲み［＃「罫囲み」に傍点］".to_string()
        }]
    );
}

#[test]
fn test_accent() {
    let tokens = tokenize("〔E'difice〕");
    assert_eq!(
        tokens,
        vec![Token::Accent {
            children: vec![Token::Text("E'difice".to_string())]
        }]
    );
}

#[test]
fn test_accent_no_mark() {
    let tokens = tokenize("〔参考〕");
    assert_eq!(
        tokens,
        vec![
            Token::Text("〔".to_string()),
            Token::Text("参考〕".to_string())
        ]
    );
}

#[test]
fn test_prefixed_ruby_without_ruby() {
    let tokens = tokenize("｜だけ");
    assert_eq!(
        tokens,
        vec![
            Token::Text("｜".to_string()),
            Token::Text("だけ".to_string())
        ]
    );
}

#[test]
fn test_empty_input() {
    let tokens = tokenize("");
    assert_eq!(tokens, vec![]);
}

#[test]
fn test_multiple_tokens() {
    let tokens =
        tokenize("吾輩《わがはい》は※［＃「米印」、U+203B］猫である［＃「である」に傍点］");
    assert_eq!(
        tokens,
        vec![
            Token::Text("吾輩".to_string()),
            Token::Ruby {
                children: vec![Token::Text("わがはい".to_string())]
            },
            Token::Text("は".to_string()),
            Token::Gaiji {
                description: "「米印」、U+203B".to_string()
            },
            Token::Text("猫である".to_string()),
            Token::Command {
                content: "「である」に傍点".to_string()
            }
        ]
    );
}
