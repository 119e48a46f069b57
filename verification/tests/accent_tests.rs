//! Tests carried over for this module.

use aozora_core::accent::{convert_accent, is_accent_mark, parse_accent, AccentPart};

#[test]
fn accent_test_simple_accent() {
    assert_eq!(convert_accent("e'"), "é");
    assert_eq!(convert_accent("a`"), "à");
    assert_eq!(convert_accent("u:"), "ü");
}

#[test]
fn accent_test_word_with_accent() {
    assert_eq!(convert_accent("cafe'"), "café");
    assert_eq!(convert_accent("nai:ve"), "naïve");
}

#[test]
fn accent_test_uppercase() {
    assert_eq!(convert_accent("A'"), "Á");
    assert_eq!(convert_accent("E`"), "È");
}

#[test]
fn accent_test_ligature() {
    assert_eq!(convert_accent("ae&"), "æ");
    assert_eq!(convert_accent("AE&"), "Æ");
}

#[test]
fn accent_test_no_accent() {
    assert_eq!(convert_accent("hello"), "hello");
    assert_eq!(convert_accent("test"), "test");
}

#[test]
fn accent_test_unknown_combination() {
    // 未知の組み合わせはそのまま
    assert_eq!(convert_accent("z'"), "z'");
}

#[test]
fn test_is_accent_mark() {
    assert!(is_accent_mark('\''));
    assert!(is_accent_mark('`'));
    assert!(is_accent_mark('^'));
    assert!(!is_accent_mark('a'));
    assert!(!is_accent_mark('1'));
}

// 仕様書（10-accents.md）のテストケース

#[test]
fn test_spec_accent_marks() {
    // 仕様で定義されているアクセント記号
    assert!(is_accent_mark('\'')); // アキュート
    assert!(is_accent_mark('`')); // グレーブ
    assert!(is_accent_mark('^')); // サーカムフレックス
    assert!(is_accent_mark('~')); // チルダ
    assert!(is_accent_mark(':')); // ウムラウト
    assert!(is_accent_mark('_')); // マクロン
    assert!(is_accent_mark('&')); // リガチャ
    assert!(is_accent_mark(',')); // セディラ
    assert!(is_accent_mark('/')); // ストローク
    assert!(is_accent_mark('@')); // 逆転
}

#[test]
fn test_spec_basic_accents() {
    // 仕様書の基本例
    assert_eq!(convert_accent("A`"), "À"); // グレーブ
    assert_eq!(convert_accent("A'"), "Á"); // アキュート
    assert_eq!(convert_accent("A^"), "Â"); // サーカムフレックス
    assert_eq!(convert_accent("A~"), "Ã"); // チルダ
    assert_eq!(convert_accent("A:"), "Ä"); // ウムラウト
    assert_eq!(convert_accent("A_"), "Ā"); // マクロン
}

#[test]
fn test_spec_special_accents() {
    // セディラ
    assert_eq!(convert_accent("C,"), "Ç");
    assert_eq!(convert_accent("c,"), "ç");
    // ストローク
    assert_eq!(convert_accent("O/"), "Ø");
    assert_eq!(convert_accent("o/"), "ø");
    // 上リング
    assert_eq!(convert_accent("A&"), "Å");
    assert_eq!(convert_accent("a&"), "å");
}

#[test]
fn test_spec_ligatures() {
    // リガチャ（合字）
    assert_eq!(convert_accent("AE&"), "Æ");
    assert_eq!(convert_accent("ae&"), "æ");
    assert_eq!(convert_accent("OE&"), "Œ");
    assert_eq!(convert_accent("oe&"), "œ");
    // エスツェット
    assert_eq!(convert_accent("s&"), "ß");
}

#[test]
fn test_spec_inverted() {
    // 逆転記号
    assert_eq!(convert_accent("!@"), "¡");
    assert_eq!(convert_accent("?@"), "¿");
}

#[test]
fn test_spec_word_examples() {
    // 仕様書の例
    assert_eq!(convert_accent("cafe'"), "café");
    assert_eq!(convert_accent("pre'lude`"), "préludè");
    assert_eq!(convert_accent("nai:ve"), "naïve");
}

#[test]
fn test_spec_invalid_accent() {
    // 無効なアクセント（そのまま出力）
    assert_eq!(convert_accent("z'"), "z'"); // 未定義の組み合わせ
    assert_eq!(convert_accent("ABC"), "ABC"); // アクセント記号なし
}

#[test]
fn test_parse_accent_jis_code() {
    // parse_accent関数がJISコードを正しく返すか
    let result = parse_accent("A'");
    assert_eq!(result.len(), 1);
    match &result[0] {
        AccentPart::Accent { jis_code, unicode, .. } => {
            assert_eq!(jis_code, "1-09-24");
            assert_eq!(unicode, "Á");
        }
        _ => panic!("Expected AccentPart::Accent"),
    }
}

#[test]
fn test_parse_accent_mixed() {
    // テキストとアクセントが混在
    let result = parse_accent("cafe'");
    assert_eq!(result.len(), 2);
    match &result[0] {
        AccentPart::Text(s) => assert_eq!(s, "caf"),
        _ => panic!("Expected Text"),
    }
    match &result[1] {
        AccentPart::Accent { unicode, .. } => assert_eq!(unicode, "é"),
        _ => panic!("Expected Accent"),
    }
}
