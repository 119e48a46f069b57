//! Tests carried over for this module.

use aozora_core::html::presentation::{html_escape, jis_code_to_path};
use aozora_core::html::{HtmlRenderer, RenderOptions};

#[test]
fn test_render_text() {
    let mut renderer = HtmlRenderer::new(RenderOptions::default());
    let html = renderer.render_line("こんにちは");
    assert_eq!(html, "こんにちは");
}

#[test]
fn test_render_ruby() {
    let mut renderer = HtmlRenderer::new(RenderOptions::default());
    let html = renderer.render_line("漢字《かんじ》");
    assert!(html.contains("<ruby>"));
    assert!(html.contains("<rb>漢字</rb>"));
    assert!(html.contains("<rt>かんじ</rt>"));
}

#[test]
fn renderer_test_html_escape() {
    assert_eq!(html_escape("<test>"), "&lt;test&gt;");
    assert_eq!(html_escape("a & b"), "a &amp; b");
}

#[test]
fn renderer_test_jis_code_to_path() {
    let (folder, file) = jis_code_to_path("1-02-22");
    assert_eq!(folder, "1-02");
    assert_eq!(file, "1-02-22");
}
