//! Tests carried over for this module.

use aozora_core::strip::{convert, convert_line};

#[test]
fn strip_test_plain_text() {
    assert_eq!(convert_line("こんにちは"), "こんにちは");
}

#[test]
fn strip_test_ruby_removed() {
    assert_eq!(convert_line("漢字《かんじ》"), "漢字");
}

#[test]
fn strip_test_prefixed_ruby() {
    assert_eq!(convert_line("｜東京《とうきょう》"), "東京");
}

#[test]
fn strip_test_command_removed() {
    assert_eq!(convert_line("猫である［＃「である」に傍点］"), "猫である");
}

#[test]
fn strip_test_gaiji_unicode() {
    assert_eq!(convert_line("※［＃「丸印」、U+25CB］"), "○");
}

#[test]
fn strip_test_complex() {
    assert_eq!(
        convert_line("吾輩《わがはい》は猫《ねこ》である［＃「である」に傍点］"),
        "吾輩は猫である"
    );
}

#[test]
fn strip_test_accent_conversion() {
    assert_eq!(convert_line("〔cafe'〕"), "café");
}

#[test]
fn test_convert_with_header_footer() {
    let input = "タイトル\n著者\n\n本文です\n底本：青空文庫";
    let plain = convert(input.as_bytes());
    assert_eq!(plain, "本文です\n");
}
