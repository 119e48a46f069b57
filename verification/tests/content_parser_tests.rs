//! Tests carried over for this module.

use aozora_core::parser::command_parser::CommandResult;
use aozora_core::parser::content_parser::{is_image_filename, is_kaeriten, try_parse_image, try_parse_okurigana};

#[test]
fn test_is_kaeriten() {
    assert!(is_kaeriten("一"));
    assert!(is_kaeriten("レ"));
    assert!(is_kaeriten("上"));
    assert!(is_kaeriten("一二"));
    assert!(!is_kaeriten("あ"));
    assert!(!is_kaeriten(""));
    assert!(!is_kaeriten("一二三四五"));
}

#[test]
fn test_try_parse_okurigana() {
    assert_eq!(try_parse_okurigana("（ノ）"), Some("ノ".to_string()));
    assert_eq!(try_parse_okurigana("（テ）"), Some("テ".to_string()));
    assert_eq!(try_parse_okurigana("テスト"), None);
}

#[test]
fn test_try_parse_image() {
    let result = try_parse_image("挿絵（fig001.png、横100×縦200）入る");
    assert!(result.is_some());
    if let Some(CommandResult::Image {
        filename,
        alt,
        width,
        height,
    }) = result
    {
        assert_eq!(filename, "fig001.png");
        assert_eq!(alt, "挿絵");
        assert_eq!(width, Some(100));
        assert_eq!(height, Some(200));
    }
}

#[test]
fn test_is_image_filename() {
    assert!(is_image_filename("test.png"));
    assert!(is_image_filename("image.jpg"));
    assert!(is_image_filename("fig.gif"));
    assert!(!is_image_filename("document.txt"));
}
