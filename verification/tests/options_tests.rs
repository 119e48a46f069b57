//! Tests carried over for this module.

use aozora_core::html::RenderOptions;

#[test]
fn test_default_options() {
    let opts = RenderOptions::default();
    assert_eq!(opts.gaiji_dir, "../../../gaiji/");
    assert!(!opts.use_jisx0213);
    assert!(!opts.use_unicode);
    assert!(!opts.full_document);
}

#[test]
fn test_builder_pattern() {
    let opts = RenderOptions::new()
        .with_gaiji_dir("/path/to/gaiji/")
        .with_jisx0213(true)
        .with_full_document(true)
        .with_title("テスト");

    assert_eq!(opts.gaiji_dir, "/path/to/gaiji/");
    assert!(opts.use_jisx0213);
    assert!(opts.full_document);
    assert_eq!(opts.title, Some("テスト".to_string()));
}
