//! Tests carried over for this module.

use aozora_core::html::presentation::{auto_link, classify_line, html_escape, is_block_only_line, jis_code_to_path, LineType};

#[test]
fn test_auto_link() {
    let input = "青空文庫（http://www.aozora.gr.jp/）";
    let expected = "<a href=\"http://www.aozora.gr.jp/\">青空文庫（http://www.aozora.gr.jp/）</a>";
    assert_eq!(auto_link(input), expected);
}

#[test]
fn test_auto_link_with_prefix() {
    let input = "インターネットの図書館、青空文庫（http://www.aozora.gr.jp/）で作られました";
    let expected = "インターネットの図書館、<a href=\"http://www.aozora.gr.jp/\">青空文庫（http://www.aozora.gr.jp/）</a>で作られました";
    assert_eq!(auto_link(input), expected);
}

#[test]
fn test_auto_link_https() {
    let input = "サイト（https://example.com/）";
    let expected = "<a href=\"https://example.com/\">サイト（https://example.com/）</a>";
    assert_eq!(auto_link(input), expected);
}

#[test]
fn test_auto_link_no_match() {
    let input = "普通のテキストです";
    assert_eq!(auto_link(input), input);
}

#[test]
fn test_classify_line_empty() {
    assert_eq!(classify_line(""), LineType::Empty);
}

#[test]
fn test_classify_line_block() {
    assert_eq!(classify_line("<div class=\"test\">"), LineType::Block);
    assert_eq!(classify_line("</div>"), LineType::Block);
    assert_eq!(classify_line("<h3 class=\"midashi\">"), LineType::Block);
    assert_eq!(classify_line("</h3>"), LineType::Block);
    assert_eq!(classify_line("<h4>title</h4>"), LineType::Block);
    assert_eq!(classify_line("<h5>title</h5>"), LineType::Block);
}

#[test]
fn test_classify_line_inline() {
    assert_eq!(classify_line("plain text"), LineType::Inline);
    assert_eq!(classify_line("<ruby>漢字<rt>かんじ</rt></ruby>"), LineType::Inline);
    assert_eq!(classify_line("<span class=\"test\">text</span>"), LineType::Inline);
}

#[test]
fn presentation_test_html_escape() {
    assert_eq!(html_escape("<test>"), "&lt;test&gt;");
    assert_eq!(html_escape("a & b"), "a &amp; b");
}

#[test]
fn presentation_test_jis_code_to_path() {
    let (folder, file) = jis_code_to_path("1-02-22");
    assert_eq!(folder, "1-02");
    assert_eq!(file, "1-02-22");
}

#[test]
fn test_is_block_only_line() {
    assert!(is_block_only_line("</div>"));
    assert!(is_block_only_line("<div class=\"test\">"));
    assert!(!is_block_only_line("text"));
}
