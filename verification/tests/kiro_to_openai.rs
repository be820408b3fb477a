use kiro_proxy::converters::kiro_to_openai::{convert_kiro_to_openai_response, convert_kiro_to_openai_response_at};
use kiro_proxy::json::JsonValue;
use kiro_proxy::models::kiro::{AssistantResponseMessage, ContentBlock, KiroResponse, KiroUsage, ToolUse};

fn obj(pairs: Vec<(&str, JsonValue)>) -> JsonValue {
    JsonValue::Object(pairs.into_iter().map(|(k, v)| (k.to_string(), v)).collect())
}

fn text(s: &str) -> JsonValue {
    JsonValue::Str(s.to_string())
}

fn is_text(v: &Option<JsonValue>, expected: &str) -> bool {
    matches!(v, Some(JsonValue::Str(s)) if s == expected)
}

fn response(content: Vec<&str>, tool_uses: Option<Vec<ToolUse>>, usage: Option<KiroUsage>) -> KiroResponse {
    KiroResponse {
        conversation_id: "test-conv".to_string(),
        assistant_response_message: AssistantResponseMessage {
            content: content.into_iter().map(|t| ContentBlock::Text { text: t.to_string() }).collect(),
            tool_uses,
        },
        usage,
    }
}

#[test]
fn test_convert_kiro_to_openai_simple() {
    let kiro_response = response(vec!["Hello, world!"], None, None);
    let response = convert_kiro_to_openai_response(&kiro_response, "sonnet-4", "test-123");

    assert_eq!(response.model, "sonnet-4");
    assert_eq!(response.id, "test-123");
    assert_eq!(response.choices.len(), 1);
    assert_eq!(response.choices[0].message.role, "assistant");
    assert!(is_text(&response.choices[0].message.content, "Hello, world!"));
    assert_eq!(response.choices[0].finish_reason, Some("stop".to_string()));
}

#[test]
fn test_convert_kiro_to_openai_empty_content() {
    let kiro_response = response(vec![], None, None);
    let response = convert_kiro_to_openai_response(&kiro_response, "sonnet-4", "test-empty");
    assert!(is_text(&response.choices[0].message.content, ""));
    assert_eq!(response.choices[0].finish_reason, Some("stop".to_string()));
}

#[test]
fn test_convert_kiro_to_openai_usage_propagation() {
    let kiro_response = response(vec!["Hi"], None, Some(KiroUsage { input_tokens: 150, output_tokens: 42 }));
    let response = convert_kiro_to_openai_response(&kiro_response, "sonnet-4", "test-usage");
    let usage = response.usage.expect("expected usage");
    assert_eq!(usage.prompt_tokens, 150);
    assert_eq!(usage.completion_tokens, 42);
    assert_eq!(usage.total_tokens, 192);
}

#[test]
fn test_convert_kiro_to_openai_no_usage_defaults_to_zero() {
    let kiro_response = response(vec!["Hi"], None, None);
    let response = convert_kiro_to_openai_response(&kiro_response, "sonnet-4", "test-no-usage");
    let usage = response.usage.expect("expected usage even when None");
    assert_eq!(usage.prompt_tokens, 0);
    assert_eq!(usage.completion_tokens, 0);
    assert_eq!(usage.total_tokens, 0);
}

#[test]
fn test_convert_kiro_to_openai_multi_tool_uses() {
    let tools = vec![
        ToolUse { tool_use_id: "call_1".to_string(), name: "search".to_string(), input: obj(vec![("q", text("cats"))]) },
        ToolUse {
            tool_use_id: "call_2".to_string(),
            name: "translate".to_string(),
            input: obj(vec![("text", text("hello")), ("to", text("es"))]),
        },
    ];
    let kiro_response =
        response(vec!["Let me help."], Some(tools), Some(KiroUsage { input_tokens: 100, output_tokens: 50 }));
    let response = convert_kiro_to_openai_response(&kiro_response, "sonnet-4", "test-multi");
    let tc = response.choices[0].message.tool_calls.as_ref().expect("expected tool_calls");
    assert_eq!(tc.len(), 2);
    assert_eq!(tc[0].id, "call_1");
    assert_eq!(tc[0].function.name, "search");
    assert_eq!(tc[1].id, "call_2");
    assert_eq!(tc[1].function.name, "translate");
    assert_eq!(response.choices[0].finish_reason, Some("tool_calls".to_string()));
    let usage = response.usage.expect("expected usage");
    assert_eq!(usage.total_tokens, 150);
}

#[test]
fn test_convert_kiro_to_openai_stop_reason_no_tools() {
    let kiro_response = response(vec!["Done"], None, None);
    let response = convert_kiro_to_openai_response(&kiro_response, "sonnet-4", "test-stop");
    assert_eq!(response.choices[0].finish_reason, Some("stop".to_string()));
    assert!(response.choices[0].message.tool_calls.is_none());
}

#[test]
fn test_convert_kiro_to_openai_with_tools() {
    let tools = vec![ToolUse {
        tool_use_id: "call_abc123".to_string(),
        name: "get_weather".to_string(),
        input: obj(vec![("location", text("San Francisco"))]),
    }];
    let kiro_response = response(vec!["Let me check that."], Some(tools), None);
    let response = convert_kiro_to_openai_response(&kiro_response, "sonnet-4", "test-456");

    assert_eq!(response.choices.len(), 1);
    assert!(response.choices[0].message.tool_calls.is_some());
    let tool_calls = response.choices[0].message.tool_calls.as_ref().unwrap();
    assert_eq!(tool_calls.len(), 1);
    assert_eq!(tool_calls[0].id, "call_abc123");
    assert_eq!(tool_calls[0].function.name, "get_weather");
    assert_eq!(response.choices[0].finish_reason, Some("tool_calls".to_string()));
}

#[test]
fn tool_arguments_are_compact_json_and_text_is_joined() {
    let tools = vec![ToolUse {
        tool_use_id: "c".to_string(),
        name: "f".to_string(),
        input: obj(vec![("a", JsonValue::Number("1".to_string())), ("b", JsonValue::Array(vec![JsonValue::Bool(true), JsonValue::Null]))]),
    }];
    let kiro_response = response(vec!["ab", "cd"], Some(tools), None);
    let r = convert_kiro_to_openai_response_at(&kiro_response, "m", "id", 1700000000);
    assert_eq!(r.created, 1700000000);
    assert_eq!(r.object, "chat.completion");
    assert!(is_text(&r.choices[0].message.content, "abcd"));
    let calls = r.choices[0].message.tool_calls.as_ref().unwrap();
    assert_eq!(calls[0].tool_type, "function");
    assert_eq!(calls[0].function.arguments, r#"{"a":1,"b":[true,null]}"#);
}

#[test]
fn empty_tool_use_list_counts_as_no_calls() {
    let kiro_response = response(vec!["x"], Some(vec![]), None);
    let r = convert_kiro_to_openai_response(&kiro_response, "m", "id");
    assert!(r.choices[0].message.tool_calls.is_none());
    assert_eq!(r.choices[0].finish_reason, Some("stop".to_string()));
}
