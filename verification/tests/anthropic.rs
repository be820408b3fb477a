use kiro_proxy::json::JsonValue;
use kiro_proxy::models::anthropic::{
    AnthropicCustomTool, AnthropicMessagesResponse, AnthropicServerSideTool, AnthropicTool, AnthropicUsage, ContentBlock,
    Delta, ImageSource, MessageDeltaUsage, MessageStartData, StreamEvent, SystemContentBlock, ToolChoice,
};

fn get<'a>(v: &'a JsonValue, key: &str) -> Option<&'a JsonValue> {
    match v {
        JsonValue::Object(es) => es.iter().find(|(k, _)| k == key).map(|(_, v)| v),
        _ => None,
    }
}

fn num(v: Option<&JsonValue>) -> Option<&str> {
    match v {
        Some(JsonValue::Number(n)) => Some(n.as_str()),
        _ => None,
    }
}

fn text(v: Option<&JsonValue>) -> Option<&str> {
    match v {
        Some(JsonValue::Str(s)) => Some(s.as_str()),
        _ => None,
    }
}

fn obj(pairs: Vec<(&str, JsonValue)>) -> JsonValue {
    JsonValue::Object(pairs.into_iter().map(|(k, v)| (k.to_string(), v)).collect())
}

#[test]
fn test_anthropic_usage_with_cache_fields() {
    let usage = AnthropicUsage {
        input_tokens: 100,
        output_tokens: 50,
        cache_creation_input_tokens: Some(20),
        cache_read_input_tokens: Some(80),
    };
    let json = usage.to_json();
    assert_eq!(num(get(&json, "cache_creation_input_tokens")), Some("20"));
    assert_eq!(num(get(&json, "cache_read_input_tokens")), Some("80"));
}

#[test]
fn test_anthropic_usage_without_cache_fields() {
    let json = obj(vec![
        ("input_tokens", JsonValue::Number("100".to_string())),
        ("output_tokens", JsonValue::Number("50".to_string())),
    ]);
    let usage = AnthropicUsage::from_json(&json).unwrap();
    assert!(usage.cache_creation_input_tokens.is_none());
    assert!(usage.cache_read_input_tokens.is_none());
}

#[test]
fn test_anthropic_usage_cache_fields_skip_serializing_none() {
    let usage = AnthropicUsage { input_tokens: 10, output_tokens: 5, cache_creation_input_tokens: None, cache_read_input_tokens: None };
    let json = usage.to_json();
    assert!(get(&json, "cache_creation_input_tokens").is_none());
    assert!(get(&json, "cache_read_input_tokens").is_none());
}

#[test]
fn test_redacted_thinking_serde() {
    let block = ContentBlock::RedactedThinking { data: "abc123encrypted".to_string() };
    let json = block.to_json();
    assert_eq!(text(get(&json, "type")), Some("redacted_thinking"));
    assert_eq!(text(get(&json, "data")), Some("abc123encrypted"));

    let parsed = ContentBlock::from_json(&json).unwrap();
    if let ContentBlock::RedactedThinking { data } = parsed {
        assert_eq!(data, "abc123encrypted");
    } else {
        panic!("expected RedactedThinking variant");
    }
}

#[test]
fn test_signature_delta_serde() {
    let delta = Delta::SignatureDelta { signature: "sig_abc123".to_string() };
    let json = delta.to_json();
    assert_eq!(text(get(&json, "type")), Some("signature_delta"));
    assert_eq!(text(get(&json, "signature")), Some("sig_abc123"));

    let parsed = Delta::from_json(&json).unwrap();
    if let Delta::SignatureDelta { signature } = parsed {
        assert_eq!(signature, "sig_abc123");
    } else {
        panic!("expected SignatureDelta variant");
    }
}

#[test]
fn usage_round_trips_and_negative_counts_parse() {
    let usage = AnthropicUsage { input_tokens: -7, output_tokens: 2147483647, cache_creation_input_tokens: None, cache_read_input_tokens: Some(0) };
    let back = AnthropicUsage::from_json(&usage.to_json()).unwrap();
    assert_eq!(back.input_tokens, -7);
    assert_eq!(back.output_tokens, 2147483647);
    assert_eq!(back.cache_creation_input_tokens, None);
    assert_eq!(back.cache_read_input_tokens, Some(0));
}

#[test]
fn usage_rejects_missing_or_out_of_range_counts() {
    let missing = obj(vec![("input_tokens", JsonValue::Number("1".to_string()))]);
    assert!(AnthropicUsage::from_json(&missing).is_none());
    let big = obj(vec![
        ("input_tokens", JsonValue::Number("2147483648".to_string())),
        ("output_tokens", JsonValue::Number("1".to_string())),
    ]);
    assert!(AnthropicUsage::from_json(&big).is_none());
    let null_cache = obj(vec![
        ("input_tokens", JsonValue::Number("1".to_string())),
        ("output_tokens", JsonValue::Number("2".to_string())),
        ("cache_read_input_tokens", JsonValue::Null),
    ]);
    assert_eq!(AnthropicUsage::from_json(&null_cache).unwrap().cache_read_input_tokens, None);
}

#[test]
fn thinking_without_signature_reads_empty_signature() {
    let json = obj(vec![("type", JsonValue::Str("thinking".to_string())), ("thinking", JsonValue::Str("hmm".to_string()))]);
    match ContentBlock::from_json(&json) {
        Some(ContentBlock::Thinking { thinking, signature }) => {
            assert_eq!(thinking, "hmm");
            assert_eq!(signature, "");
        },
        _ => panic!("expected Thinking"),
    }
}

#[test]
fn tool_result_null_content_reads_as_none_and_image_round_trips() {
    let block = ContentBlock::ToolResult { tool_use_id: "t1".to_string(), content: Some(JsonValue::Null), is_error: Some(true) };
    match ContentBlock::from_json(&block.to_json()) {
        Some(ContentBlock::ToolResult { tool_use_id, content, is_error }) => {
            assert_eq!(tool_use_id, "t1");
            assert!(content.is_none());
            assert_eq!(is_error, Some(true));
        },
        _ => panic!("expected ToolResult"),
    }
    let image = ContentBlock::Image { source: ImageSource::Url { url: "https://x/y.png".to_string() } };
    match ContentBlock::from_json(&image.to_json()) {
        Some(ContentBlock::Image { source: ImageSource::Url { url } }) => assert_eq!(url, "https://x/y.png"),
        _ => panic!("expected Image"),
    }
}

#[test]
fn unknown_block_type_is_unreadable() {
    let json = obj(vec![("type", JsonValue::Str("video".to_string()))]);
    assert!(ContentBlock::from_json(&json).is_none());
}

#[test]
fn response_new_and_small_forms() {
    let usage = AnthropicUsage { input_tokens: 1, output_tokens: 2, cache_creation_input_tokens: None, cache_read_input_tokens: None };
    let r = AnthropicMessagesResponse::new("msg_1".to_string(), "model-x".to_string(), vec![], usage);
    assert_eq!(r.response_type, "message");
    assert_eq!(r.role, "assistant");
    assert!(r.stop_reason.is_none() && r.stop_sequence.is_none());
    assert_eq!(num(get(&MessageDeltaUsage { output_tokens: 9 }.to_json(), "output_tokens")), Some("9"));
    let choice = ToolChoice::Tool { name: "search".to_string() }.to_json();
    assert_eq!(text(get(&choice, "type")), Some("tool"));
    assert_eq!(text(get(&choice, "name")), Some("search"));
}

fn s(v: &str) -> JsonValue {
    JsonValue::Str(v.to_string())
}

fn n(v: &str) -> JsonValue {
    JsonValue::Number(v.to_string())
}

#[test]
fn custom_tool_reads_name_description_and_schema() {
    let j = obj(vec![
        ("name", s("get_weather")),
        ("description", s("Weather lookup")),
        ("input_schema", obj(vec![("type", s("object"))])),
        ("ignored", JsonValue::Bool(true)),
    ]);
    match AnthropicTool::from_json(&j) {
        Some(AnthropicTool::Custom(t)) => {
            assert_eq!(t.name, "get_weather");
            assert_eq!(t.description.as_deref(), Some("Weather lookup"));
            assert_eq!(t.input_schema.to_text(), r#"{"type":"object"}"#);
        },
        _ => panic!("expected a custom tool"),
    }
}

#[test]
fn server_side_tool_keeps_its_other_members() {
    let j = obj(vec![
        ("type", s("web_search_20250305")),
        ("name", s("web_search")),
        ("max_uses", n("5")),
        ("allowed_domains", JsonValue::Array(vec![s("example.com")])),
    ]);
    let tool = AnthropicTool::from_json(&j);
    match &tool {
        Some(AnthropicTool::ServerSide(t)) => {
            assert_eq!(t.tool_type, "web_search_20250305");
            assert_eq!(t.name, "web_search");
            assert_eq!(t.max_uses, Some(5));
            assert_eq!(t.extra.len(), 1);
            assert_eq!(t.extra[0].0, "allowed_domains");
        },
        _ => panic!("expected a server-side tool"),
    }
    assert_eq!(
        tool.unwrap().to_json().to_text(),
        r#"{"allowed_domains":["example.com"],"max_uses":5,"name":"web_search","type":"web_search_20250305"}"#
    );
}

#[test]
fn tool_without_schema_or_type_is_unreadable() {
    assert!(AnthropicTool::from_json(&obj(vec![("name", s("x"))])).is_none());
    let bad_limit = obj(vec![("type", s("bash_20250124")), ("name", s("bash")), ("max_uses", s("many"))]);
    assert!(AnthropicTool::from_json(&bad_limit).is_none());
    let bad_description = obj(vec![("name", s("x")), ("description", n("1")), ("input_schema", JsonValue::Null)]);
    assert!(AnthropicTool::from_json(&bad_description).is_none());
}

#[test]
fn custom_tool_json_skips_missing_description() {
    let t = AnthropicTool::Custom(AnthropicCustomTool { name: "f".to_string(), description: None, input_schema: obj(vec![]) });
    assert_eq!(t.to_json().to_text(), r#"{"input_schema":{},"name":"f"}"#);
    let st = AnthropicTool::ServerSide(AnthropicServerSideTool {
        tool_type: "text_editor_20250124".to_string(),
        name: "str_replace_editor".to_string(),
        max_uses: None,
        extra: vec![],
    });
    assert_eq!(st.to_json().to_text(), r#"{"name":"str_replace_editor","type":"text_editor_20250124"}"#);
}

#[test]
fn system_block_round_trips_with_cache_control() {
    let b = SystemContentBlock {
        content_type: "text".to_string(),
        text: "Be brief.".to_string(),
        cache_control: Some(vec![("type".to_string(), s("ephemeral"))]),
    };
    let j = b.to_json();
    assert_eq!(j.to_text(), r#"{"cache_control":{"type":"ephemeral"},"text":"Be brief.","type":"text"}"#);
    let back = SystemContentBlock::from_json(&j).unwrap();
    assert_eq!(back.text, "Be brief.");
    assert_eq!(back.cache_control.unwrap().len(), 1);
    let plain = obj(vec![("type", s("text")), ("text", s("t")), ("cache_control", JsonValue::Null)]);
    assert!(SystemContentBlock::from_json(&plain).unwrap().cache_control.is_none());
    let bad = obj(vec![("type", s("text")), ("text", s("t")), ("cache_control", s("x"))]);
    assert!(SystemContentBlock::from_json(&bad).is_none());
}

#[test]
fn stream_events_have_their_tagged_json_form() {
    assert_eq!(StreamEvent::Ping.to_json().to_text(), r#"{"type":"ping"}"#);
    assert_eq!(StreamEvent::MessageStop.to_json().to_text(), r#"{"type":"message_stop"}"#);
    let delta = StreamEvent::ContentBlockDelta { index: 2, delta: Delta::TextDelta { text: "Hi".to_string() } };
    assert_eq!(delta.to_json().to_text(), r#"{"delta":{"text":"Hi","type":"text_delta"},"index":2,"type":"content_block_delta"}"#);
    let md = StreamEvent::MessageDelta {
        delta: obj(vec![("stop_reason", s("end_turn"))]),
        usage: MessageDeltaUsage { output_tokens: 7 },
    };
    let j = md.to_json();
    assert_eq!(j.to_text(), r#"{"delta":{"stop_reason":"end_turn"},"type":"message_delta","usage":{"output_tokens":7}}"#);
    match StreamEvent::from_json(&j) {
        Some(StreamEvent::MessageDelta { usage, .. }) => assert_eq!(usage.output_tokens, 7),
        _ => panic!("expected a message delta"),
    }
    let stop = StreamEvent::ContentBlockStop { index: 0 }.to_json();
    assert!(matches!(StreamEvent::from_json(&stop), Some(StreamEvent::ContentBlockStop { index: 0 })));
    assert!(StreamEvent::from_json(&obj(vec![("type", s("content_block_stop"))])).is_none());
    assert!(StreamEvent::from_json(&obj(vec![("type", s("error"))])).is_none());
}

#[test]
fn message_start_round_trips() {
    let m = MessageStartData {
        id: "msg_1".to_string(),
        message_type: "message".to_string(),
        role: "assistant".to_string(),
        content: vec![],
        model: "sonnet-4".to_string(),
        usage: AnthropicUsage { input_tokens: 3, output_tokens: 0, cache_creation_input_tokens: None, cache_read_input_tokens: None },
    };
    let j = m.to_json();
    assert_eq!(
        j.to_text(),
        r#"{"content":[],"id":"msg_1","model":"sonnet-4","role":"assistant","type":"message","usage":{"input_tokens":3,"output_tokens":0}}"#
    );
    let back = MessageStartData::from_json(&j).unwrap();
    assert_eq!(back.id, "msg_1");
    assert_eq!(back.usage.input_tokens, 3);
    let start = StreamEvent::MessageStart { message: j };
    assert!(matches!(StreamEvent::from_json(&start.to_json()), Some(StreamEvent::MessageStart { .. })));
}

#[test]
fn tools_read_back_from_their_json() {
    let custom = AnthropicTool::Custom(AnthropicCustomTool {
        name: "f".to_string(),
        description: Some("d".to_string()),
        input_schema: obj(vec![("type", s("object"))]),
    });
    match AnthropicTool::from_json(&custom.to_json()) {
        Some(AnthropicTool::Custom(t)) => {
            assert_eq!(t.name, "f");
            assert_eq!(t.description.as_deref(), Some("d"));
        },
        _ => panic!("expected a custom tool"),
    }
    let server = AnthropicTool::ServerSide(AnthropicServerSideTool {
        tool_type: "web_fetch_20250910".to_string(),
        name: "web_fetch".to_string(),
        max_uses: Some(2),
        extra: vec![("citations".to_string(), obj(vec![("enabled", JsonValue::Bool(true))]))],
    });
    match AnthropicTool::from_json(&server.to_json()) {
        Some(AnthropicTool::ServerSide(t)) => {
            assert_eq!(t.max_uses, Some(2));
            assert_eq!(t.extra.len(), 1);
            assert_eq!(t.extra[0].0, "citations");
        },
        _ => panic!("expected a server-side tool"),
    }
    // A server-side tool with an `input_schema` member reads back as a custom tool.
    let shadowed = AnthropicTool::ServerSide(AnthropicServerSideTool {
        tool_type: "bash_20250124".to_string(),
        name: "bash".to_string(),
        max_uses: None,
        extra: vec![("input_schema".to_string(), JsonValue::Null)],
    });
    assert!(matches!(AnthropicTool::from_json(&shadowed.to_json()), Some(AnthropicTool::Custom(_))));
}
