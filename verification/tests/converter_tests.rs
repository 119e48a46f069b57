//! Tests carried over for this module.

use aozora_core::html::{convert, convert_line, RenderOptions};

#[test]
fn lib_test_convert_line() {
    let html = convert_line("猫《ねこ》", &RenderOptions::default());
    assert!(html.contains("<ruby>"));
}

#[test]
fn test_convert_bouten() {
    let html = convert_line("重要だ［＃「重要」に傍点］", &RenderOptions::default());
    assert!(html.contains("重要"));
}

#[test]
fn test_convert_midashi() {
    let html = convert_line("第一章［＃「第一章」は大見出し］", &RenderOptions::default());
    assert!(html.contains("第一章"));
    assert!(html.contains("o-midashi"));
}

#[test]
fn test_convert_jisage() {
    let html = convert_line("［＃ここから2字下げ］", &RenderOptions::default());
    assert!(html.contains("jisage_2"));
}

#[test]
fn test_convert_gaiji() {
    let html = convert_line("※［＃「丸印」、U+25CB］", &RenderOptions::default());
    assert!(html.contains("○"));
}
