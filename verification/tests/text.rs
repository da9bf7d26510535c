use m5a_core::json::string_value;
use m5a_core::text::trim_chars;
use m5a_core::ports::StorageError;

#[test]
fn json_strings_escape_quotes_backslashes_and_control_characters() {
    assert_eq!(string_value("a\"b"), r#""a\"b""#);
    assert_eq!(string_value("a\\b"), r#""a\\b""#);
    assert_eq!(string_value("\n\r\t\u{8}\u{c}"), r#""\n\r\t\b\f""#);
    assert_eq!(string_value("\u{1}\u{1f}"), r#""\u0001\u001f""#);
    assert_eq!(string_value("ひらがな/\u{7f}"), "\"ひらがな/\u{7f}\"");
}

#[test]
fn storage_errors_read_as_sentences() {
    assert_eq!(StorageError::NotFound.describe(), "ファイルが見つかりません");
    assert_eq!(
        StorageError::Io("カードがありません".to_string()).describe(),
        "読み書きに失敗しました: カードがありません"
    );
}

#[test]
fn white_space_is_what_std_calls_white_space() {
    for code in 0..=0x3000_u32 {
        let Some(c) = char::from_u32(code) else { continue };
        let padded = vec![c, 'a', c];
        let expected: Vec<char> = padded.iter().collect::<String>().trim().chars().collect();
        assert_eq!(trim_chars(&padded), expected, "U+{code:04X}");
    }
}
