//! Tests carried over for this module.

use aozora_core::extractor::extract;
use aozora_core::tokenizer::Tokenizer;

fn tokenize_and_extract(input: &str) -> String {
    let mut tokenizer = Tokenizer::new(input);
    let tokens = tokenizer.tokenize();
    extract(&tokens)
}

#[test]
fn extractor_test_plain_text() {
    assert_eq!(tokenize_and_extract("こんにちは"), "こんにちは");
}

#[test]
fn extractor_test_ruby_removed() {
    assert_eq!(tokenize_and_extract("漢字《かんじ》"), "漢字");
}

#[test]
fn extractor_test_prefixed_ruby() {
    assert_eq!(tokenize_and_extract("｜東京《とうきょう》"), "東京");
}

#[test]
fn extractor_test_command_removed() {
    assert_eq!(
        tokenize_and_extract("猫である［＃「である」に傍点］"),
        "猫である"
    );
}

#[test]
fn extractor_test_gaiji_unicode() {
    assert_eq!(tokenize_and_extract("※［＃「丸印」、U+25CB］"), "○");
}

#[test]
fn extractor_test_complex() {
    assert_eq!(
        tokenize_and_extract("吾輩《わがはい》は猫《ねこ》である［＃「である」に傍点］"),
        "吾輩は猫である"
    );
}

#[test]
fn test_gaiji_multichar() {
    // カ゚ = カ (U+30AB) + 半濁点 (U+309A)
    assert_eq!(
        tokenize_and_extract("カ゚※［＃半濁点付き片仮名カ、1-05-87］のテスト"),
        "カ゚カ゚のテスト"
    );
}
