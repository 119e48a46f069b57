//! Tests carried over for this module.

use aozora_core::html::{convert, convert_line, RenderOptions};

#[test]
fn mod_test_convert_simple() {
    // 青空文庫形式: ヘッダー、空行、本文の構造
    let input = "タイトル\n\nこんにちは";
    let html = convert(input, &RenderOptions::default());
    assert!(html.contains("こんにちは"));
    assert!(html.contains("<!DOCTYPE"));
}

#[test]
fn mod_test_convert_ruby() {
    // 青空文庫形式: ヘッダー、空行、本文の構造
    let input = "タイトル\n\n漢字《かんじ》";
    let html = convert(input, &RenderOptions::default());
    assert!(html.contains("<ruby>"));
    assert!(html.contains("漢字"));
    assert!(html.contains("かんじ"));
}

#[test]
fn mod_test_convert_line() {
    let html = convert_line("猫《ねこ》", &RenderOptions::default());
    assert!(html.contains("<ruby>"));
}
