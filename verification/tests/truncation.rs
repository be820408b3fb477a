use kiro_proxy::truncation::{
    content_hash, diagnose_json_truncation, get_truncation_recovery_system_addition, TruncationInfo, TruncationState,
};

#[test]
fn test_diagnose_empty_string() {
    let info = diagnose_json_truncation("");
    assert!(!info.is_truncated);
}

#[test]
fn test_diagnose_valid_json() {
    let info = diagnose_json_truncation(r#"{"key": "value"}"#);
    assert!(!info.is_truncated);
}

#[test]
fn test_diagnose_missing_closing_brace() {
    let info = diagnose_json_truncation(r#"{"key": "value""#);
    assert!(info.is_truncated);
    assert!(info.reason.contains("does not end with '}'"));
}

#[test]
fn test_diagnose_missing_closing_bracket() {
    let info = diagnose_json_truncation(r#"[1, 2, 3"#);
    assert!(info.is_truncated);
    assert!(info.reason.contains("does not end with ']'"));
}

#[test]
fn test_diagnose_unbalanced_braces() {
    let info = diagnose_json_truncation(r#"{"a": {"b": "c"}}"#);
    assert!(!info.is_truncated);

    let info2 = diagnose_json_truncation(r#"{"a": {"b": "c"}"#);
    assert!(info2.is_truncated);
}

#[test]
fn test_diagnose_unclosed_string() {
    let info = diagnose_json_truncation(r#"{"key": "unclosed value}"#);
    assert!(info.is_truncated);
}

#[test]
fn test_diagnose_escaped_quotes() {
    let info = diagnose_json_truncation(r#"{"key": "value with \"escaped\" quotes"}"#);
    assert!(!info.is_truncated);
}

#[test]
fn test_diagnose_large_truncated() {
    let mut json = r#"{"filePath": "/Users/test/big_file.txt", "content": ""#.to_string();
    json.push_str(&"x".repeat(10000));
    let info = diagnose_json_truncation(&json);
    assert!(info.is_truncated);
    assert!(info.size_bytes > 10000);
}

#[test]
fn test_tool_truncation_save_and_get() {
    let mut state = TruncationState::new();
    let info = TruncationInfo { is_truncated: true, reason: "test".to_string(), size_bytes: 100 };

    state.save_tool_truncation("call_123", "write", info);

    let entry = state.get_tool_truncation("call_123");
    assert!(entry.is_some());
    assert_eq!(entry.unwrap().tool_name, "write");

    let entry2 = state.get_tool_truncation("call_123");
    assert!(entry2.is_none());
}

#[test]
fn test_content_truncation_save_and_get() {
    let mut state = TruncationState::new();
    let content = "This is some truncated content that was cut off";

    state.save_content_truncation(content);

    let entry = state.get_content_truncation(content);
    assert!(entry.is_some());

    let entry2 = state.get_content_truncation(content);
    assert!(entry2.is_none());
}

#[test]
fn test_content_hash_consistency() {
    let hash1 = content_hash("hello world");
    let hash2 = content_hash("hello world");
    assert_eq!(hash1, hash2);

    let hash3 = content_hash("different content");
    assert_ne!(hash1, hash3);
}

#[test]
fn test_content_hash_uses_first_500_chars() {
    let mut long1 = "a".repeat(500);
    long1.push_str("DIFFERENT_SUFFIX_1");
    let mut long2 = "a".repeat(500);
    long2.push_str("DIFFERENT_SUFFIX_2");

    assert_eq!(content_hash(&long1), content_hash(&long2));
}

#[test]
fn test_system_prompt_addition_enabled() {
    let addition = get_truncation_recovery_system_addition(true);
    assert!(!addition.is_empty());
    assert!(addition.contains("Truncation Recovery"));
    assert!(addition.contains("[API Limitation]"));
    assert!(addition.contains("[System Notice]"));
}

#[test]
fn test_system_prompt_addition_disabled() {
    let addition = get_truncation_recovery_system_addition(false);
    assert!(addition.is_empty());
}

#[test]
fn content_hash_is_sixteen_hex_digits_of_sha256() {
    // SHA-256("hello world") starts with b94d27b9934d3e08.
    assert_eq!(content_hash("hello world"), "b94d27b9934d3e08");
}

#[test]
fn diagnosis_reports_byte_size() {
    let info = diagnose_json_truncation("{\"k\": \"é\"}");
    assert!(!info.is_truncated);
    assert_eq!(info.size_bytes, "{\"k\": \"é\"}".len());
}

#[test]
fn tool_entry_is_read_once_and_other_ids_stay() {
    let mut state = TruncationState::new();
    let info = TruncationInfo { is_truncated: true, reason: "r".to_string(), size_bytes: 1 };
    state.save_tool_truncation("a", "write", info);
    let info2 = TruncationInfo { is_truncated: true, reason: "s".to_string(), size_bytes: 2 };
    state.save_tool_truncation("b", "read", info2);
    let a = state.get_tool_truncation("a").unwrap();
    assert_eq!(a.tool_name, "write");
    assert_eq!(a.info.reason, "r");
    assert!(state.get_tool_truncation("a").is_none());
    assert_eq!(state.get_tool_truncation("b").unwrap().tool_name, "read");
}

#[test]
fn unknown_content_has_no_entry() {
    let mut state = TruncationState::new();
    state.save_content_truncation("saved");
    assert!(state.get_content_truncation("other").is_none());
    assert!(state.get_content_truncation("saved").is_some());
}

#[test]
fn repeated_content_saves_keep_one_entry() {
    let mut state = TruncationState::new();
    state.save_content_truncation("same content");
    state.save_content_truncation("same content");
    state.save_content_truncation("same content");
    let e = state.get_content_truncation("same content").unwrap();
    assert_eq!(e.content_hash, content_hash("same content"));
    assert!(state.get_content_truncation("same content").is_none());
}

#[test]
fn content_hash_is_sixteen_lower_hex_digits() {
    let h = content_hash("hello world");
    assert_eq!(h.len(), 16);
    assert!(h.chars().all(|c| c.is_ascii_digit() || ('a'..='f').contains(&c)));
    assert_eq!(h, content_hash("hello world"));
    assert_ne!(h, content_hash("different content"));
}
