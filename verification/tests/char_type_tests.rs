//! Tests carried over for this module.

use aozora_core::char_type::{CharType, CharTypeExt};

#[test]
fn test_hiragana() {
    assert_eq!(CharType::classify('あ'), CharType::Hiragana);
    assert_eq!(CharType::classify('ん'), CharType::Hiragana);
    assert_eq!(CharType::classify('ゝ'), CharType::Hiragana);
    assert_eq!(CharType::classify('ゞ'), CharType::Hiragana);
}

#[test]
fn test_katakana() {
    assert_eq!(CharType::classify('ア'), CharType::Katakana);
    assert_eq!(CharType::classify('ン'), CharType::Katakana);
    assert_eq!(CharType::classify('ー'), CharType::Katakana);
    assert_eq!(CharType::classify('ヽ'), CharType::Katakana);
    assert_eq!(CharType::classify('ヾ'), CharType::Katakana);
    assert_eq!(CharType::classify('ヴ'), CharType::Katakana);
}

#[test]
fn test_zenkaku() {
    assert_eq!(CharType::classify('Ａ'), CharType::Zenkaku);
    assert_eq!(CharType::classify('ａ'), CharType::Zenkaku);
    assert_eq!(CharType::classify('０'), CharType::Zenkaku);
    assert_eq!(CharType::classify('９'), CharType::Zenkaku);
    // ギリシャ文字
    assert_eq!(CharType::classify('Α'), CharType::Zenkaku);
    assert_eq!(CharType::classify('α'), CharType::Zenkaku);
    // キリル文字
    assert_eq!(CharType::classify('А'), CharType::Zenkaku);
    assert_eq!(CharType::classify('а'), CharType::Zenkaku);
}

#[test]
fn test_hankaku() {
    assert_eq!(CharType::classify('A'), CharType::Hankaku);
    assert_eq!(CharType::classify('z'), CharType::Hankaku);
    assert_eq!(CharType::classify('0'), CharType::Hankaku);
    assert_eq!(CharType::classify('9'), CharType::Hankaku);
    assert_eq!(CharType::classify('#'), CharType::Hankaku);
    assert_eq!(CharType::classify('-'), CharType::Hankaku);
    assert_eq!(CharType::classify('&'), CharType::Hankaku);
    assert_eq!(CharType::classify('\''), CharType::Hankaku);
    assert_eq!(CharType::classify(','), CharType::Hankaku);
}

#[test]
fn test_kanji() {
    assert_eq!(CharType::classify('漢'), CharType::Kanji);
    assert_eq!(CharType::classify('字'), CharType::Kanji);
    assert_eq!(CharType::classify('々'), CharType::Kanji);
    assert_eq!(CharType::classify('※'), CharType::Kanji);
    assert_eq!(CharType::classify('仝'), CharType::Kanji);
    assert_eq!(CharType::classify('〆'), CharType::Kanji);
    assert_eq!(CharType::classify('〇'), CharType::Kanji);
    assert_eq!(CharType::classify('ヶ'), CharType::Kanji);
}

#[test]
fn test_hankaku_terminate() {
    assert_eq!(CharType::classify('.'), CharType::HankakuTerminate);
    assert_eq!(CharType::classify(';'), CharType::HankakuTerminate);
    assert_eq!(CharType::classify('"'), CharType::HankakuTerminate);
    assert_eq!(CharType::classify('?'), CharType::HankakuTerminate);
    assert_eq!(CharType::classify('!'), CharType::HankakuTerminate);
    assert_eq!(CharType::classify(')'), CharType::HankakuTerminate);
}

#[test]
fn test_else() {
    assert_eq!(CharType::classify('。'), CharType::Else);
    assert_eq!(CharType::classify('、'), CharType::Else);
    assert_eq!(CharType::classify('「'), CharType::Else);
    assert_eq!(CharType::classify('」'), CharType::Else);
    assert_eq!(CharType::classify('（'), CharType::Else);
    assert_eq!(CharType::classify('）'), CharType::Else);
}

#[test]
fn test_can_be_ruby_base() {
    assert!(CharType::Hiragana.can_be_ruby_base());
    assert!(CharType::Katakana.can_be_ruby_base());
    assert!(CharType::Zenkaku.can_be_ruby_base());
    assert!(CharType::Hankaku.can_be_ruby_base());
    assert!(CharType::Kanji.can_be_ruby_base());
    assert!(CharType::HankakuTerminate.can_be_ruby_base());
    assert!(!CharType::Else.can_be_ruby_base());
}

#[test]
fn test_char_type_ext() {
    assert_eq!('あ'.char_type(), CharType::Hiragana);
    assert_eq!('ア'.char_type(), CharType::Katakana);
    assert_eq!('漢'.char_type(), CharType::Kanji);
}

#[test]
fn test_edge_case_ke() {
    // ヶは漢字として扱う（青空文庫の指針）
    assert_eq!(CharType::classify('ヶ'), CharType::Kanji);
}

#[test]
fn test_edge_case_long_vowel() {
    // 長音記号はカタカナとして扱う
    assert_eq!(CharType::classify('ー'), CharType::Katakana);
}
