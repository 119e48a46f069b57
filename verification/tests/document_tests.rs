//! Tests carried over for this module.

use aozora_core::document::{detect_person_type, extract_body_lines, extract_header_info, is_original_title, HeaderInfo, PersonType};

#[test]
fn document_test_basic_structure() {
    let lines = vec![
        "タイトル",
        "著者名",
        "",
        "本文1行目",
        "本文2行目",
        "",
        "底本：青空文庫",
    ];
    let body = extract_body_lines(&lines);
    assert_eq!(body, vec!["本文1行目", "本文2行目", ""]);
}

#[test]
fn document_test_with_chuuki() {
    let lines = vec![
        "タイトル",
        "著者名",
        "",
        "-------------------------------------------------------",
        "【テキスト中に現れる記号について】",
        "《》：ルビ",
        "［＃］：入力者注",
        "-------------------------------------------------------",
        "本文1行目",
        "本文2行目",
        "",
        "底本：青空文庫",
    ];
    let body = extract_body_lines(&lines);
    assert_eq!(body, vec!["本文1行目", "本文2行目", ""]);
}

#[test]
fn document_test_no_header() {
    let lines = vec!["", "本文1行目", "本文2行目", "", "底本：青空文庫"];
    let body = extract_body_lines(&lines);
    assert_eq!(body, vec!["本文1行目", "本文2行目", ""]);
}

#[test]
fn document_test_no_footer() {
    let lines = vec!["タイトル", "", "本文1行目", "本文2行目"];
    let body = extract_body_lines(&lines);
    assert_eq!(body, vec!["本文1行目", "本文2行目"]);
}

#[test]
fn document_test_empty_body() {
    let lines = vec!["タイトル", "", "底本：青空文庫"];
    let body = extract_body_lines(&lines);
    assert!(body.is_empty());
}

#[test]
fn document_test_multiple_blank_lines() {
    let lines = vec!["タイトル", "", "", "本文", "", "底本：青空文庫"];
    let body = extract_body_lines(&lines);
    assert_eq!(body, vec!["本文", ""]);
}

#[test]
fn document_test_chuuki_with_multiple_blanks() {
    let lines = vec![
        "タイトル",
        "",
        "",
        "---",
        "注記内容",
        "---",
        "本文",
        "底本：青空文庫",
    ];
    let body = extract_body_lines(&lines);
    assert_eq!(body, vec!["本文"]);
}

// ヘッダー情報抽出テスト

#[test]
fn test_extract_header_1line() {
    let lines = vec!["タイトル", ""];
    let info = extract_header_info(&lines);
    assert_eq!(info.title, Some("タイトル".to_string()));
    assert_eq!(info.author, None);
}

#[test]
fn test_extract_header_2lines() {
    let lines = vec!["タイトル", "著者名", ""];
    let info = extract_header_info(&lines);
    assert_eq!(info.title, Some("タイトル".to_string()));
    assert_eq!(info.author, Some("著者名".to_string()));
}

#[test]
fn test_extract_header_2lines_translator() {
    let lines = vec!["タイトル", "山田太郎訳", ""];
    let info = extract_header_info(&lines);
    assert_eq!(info.title, Some("タイトル".to_string()));
    assert_eq!(info.translator, Some("山田太郎訳".to_string()));
    assert_eq!(info.author, None);
}

#[test]
fn test_extract_header_3lines_with_original() {
    // パターンA: 作品名、原題、著者
    let lines = vec!["タイトル", "TITLE", "著者名", ""];
    let info = extract_header_info(&lines);
    assert_eq!(info.title, Some("タイトル".to_string()));
    assert_eq!(info.original_title, Some("TITLE".to_string()));
    assert_eq!(info.author, Some("著者名".to_string()));
}

#[test]
fn test_extract_header_3lines_with_subtitle() {
    // パターンB: 作品名、副題、著者
    let lines = vec!["タイトル", "副題", "著者名", ""];
    let info = extract_header_info(&lines);
    assert_eq!(info.title, Some("タイトル".to_string()));
    assert_eq!(info.subtitle, Some("副題".to_string()));
    assert_eq!(info.author, Some("著者名".to_string()));
}

#[test]
fn test_extract_header_3lines_author_translator() {
    // パターンC: 作品名、著者、訳者
    let lines = vec!["タイトル", "著者名", "訳者訳", ""];
    let info = extract_header_info(&lines);
    assert_eq!(info.title, Some("タイトル".to_string()));
    assert_eq!(info.author, Some("著者名".to_string()));
    assert_eq!(info.translator, Some("訳者訳".to_string()));
}

#[test]
fn test_extract_header_henyaku() {
    let lines = vec!["タイトル", "編訳者編訳", ""];
    let info = extract_header_info(&lines);
    assert_eq!(info.title, Some("タイトル".to_string()));
    assert_eq!(info.henyaku, Some("編訳者編訳".to_string()));
}

#[test]
fn test_extract_header_editor() {
    let lines = vec!["タイトル", "編者名編", ""];
    let info = extract_header_info(&lines);
    assert_eq!(info.title, Some("タイトル".to_string()));
    assert_eq!(info.editor, Some("編者名編".to_string()));
}

#[test]
fn test_extract_header_6lines() {
    let lines = vec![
        "タイトル",
        "ORIGINAL TITLE",
        "副題",
        "ORIGINAL SUBTITLE",
        "著者名",
        "訳者訳",
        "",
    ];
    let info = extract_header_info(&lines);
    assert_eq!(info.title, Some("タイトル".to_string()));
    assert_eq!(info.original_title, Some("ORIGINAL TITLE".to_string()));
    assert_eq!(info.subtitle, Some("副題".to_string()));
    assert_eq!(info.original_subtitle, Some("ORIGINAL SUBTITLE".to_string()));
    assert_eq!(info.author, Some("著者名".to_string()));
    assert_eq!(info.translator, Some("訳者訳".to_string()));
}

#[test]
fn test_is_original_title_ascii() {
    assert!(is_original_title("The Great Gatsby"));
    assert!(is_original_title("ABC 123"));
}

#[test]
fn test_is_original_title_with_fullwidth() {
    // 全角スペースや句読点を含んでも原題として判定
    assert!(is_original_title("ABC　DEF")); // 全角スペース
}

#[test]
fn test_is_original_title_japanese() {
    // 日本語が含まれる場合は原題ではない
    assert!(!is_original_title("副題です"));
    assert!(!is_original_title("タイトル"));
}

#[test]
fn test_is_original_title_greek() {
    // ギリシア文字は原題として判定
    assert!(is_original_title("Αβγ"));
}

#[test]
fn test_detect_person_type() {
    assert_eq!(detect_person_type("山田太郎"), PersonType::Author);
    assert_eq!(detect_person_type("山田太郎訳"), PersonType::Translator);
    assert_eq!(detect_person_type("山田太郎編"), PersonType::Editor);
    assert_eq!(detect_person_type("山田太郎編集"), PersonType::Editor);
    assert_eq!(detect_person_type("山田太郎校訂"), PersonType::Editor);
    assert_eq!(detect_person_type("山田太郎編訳"), PersonType::Henyaku);
}

#[test]
fn test_html_title() {
    let info = HeaderInfo {
        title: Some("タイトル".to_string()),
        author: Some("著者名".to_string()),
        subtitle: None,
        original_title: None,
        original_subtitle: None,
        translator: Some("訳者訳".to_string()),
        editor: None,
        henyaku: None,
    };
    assert_eq!(info.html_title(), "著者名 訳者訳 タイトル");
}
