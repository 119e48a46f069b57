//! Tests carried over for this module.

use aozora_core::token::Token;

#[test]
fn test_token_text() {
    let token = Token::text("こんにちは");
    assert!(matches!(token, Token::Text(s) if s == "こんにちは"));
}

#[test]
fn test_token_ruby() {
    let token = Token::Ruby {
        children: vec![Token::text("かんじ")],
    };
    assert!(matches!(token, Token::Ruby { .. }));
}

#[test]
fn test_token_prefixed_ruby() {
    let token = Token::PrefixedRuby {
        base_children: vec![Token::text("東京")],
        ruby_children: vec![Token::text("とうきょう")],
    };
    assert!(matches!(token, Token::PrefixedRuby { .. }));
}

#[test]
fn test_token_command() {
    let token = Token::Command {
        content: "「である」に傍点".to_string(),
    };
    assert!(matches!(token, Token::Command { .. }));
}

#[test]
fn test_token_gaiji() {
    let token = Token::Gaiji {
        description: "「丸印」、U+25CB".to_string(),
    };
    assert!(matches!(token, Token::Gaiji { .. }));
}

#[test]
fn test_token_accent() {
    let token = Token::Accent {
        children: vec![Token::text("cafe'")],
    };
    assert!(matches!(token, Token::Accent { .. }));
}
