use kiro_proxy::conversation_log::sanitize_headers;
use kiro_proxy::converters::kiro_to_responses::{
    collect_responses_response, stream_kiro_to_responses, CollectedResponse, ResponsesStream,
};
use kiro_proxy::db::{check_api_key_quota, initial_role_and_status, KiroTokenRow, PoolEntryRow};
use kiro_proxy::error::ApiError;
use kiro_proxy::json::JsonValue;
use kiro_proxy::models::kiro::{ContentBlock, KiroImage, KiroRequest, ImageSource, ToolSpec, ToolSpecification, InputSchema};
use kiro_proxy::models::openai::ChatMessage;
use kiro_proxy::models::responses::{default_tool_choice, default_true};
use kiro_proxy::pool::PoolScheduler;
use kiro_proxy::routes::{
    bearer, check_max_tokens, check_messages, health_body, include_usage, kiro_api_url, model_ids, root_body, usage_tokens,
    OnCompleteStream,
};
use kiro_proxy::streaming::{ParsedEvent, SseEvent, Usage};
use kiro_proxy::text::{parse_i32, parse_i64, parse_u16};
use kiro_proxy::auth::types::TokenData;
use kiro_proxy::tasks::{
    pool_refresh_credentials, refresh_action, refresh_body, refresh_horizon, refresh_url, user_refresh_credentials,
    RefreshAction,
};
use kiro_proxy::tokenizer::{count_message_tokens, count_tokens};

fn obj(pairs: Vec<(&str, JsonValue)>) -> JsonValue {
    JsonValue::Object(pairs.into_iter().map(|(k, v)| (k.to_string(), v)).collect())
}

fn event(kind: &str, content: Option<&str>) -> ParsedEvent {
    ParsedEvent { event_type: kind.to_string(), content: content.map(|s| s.to_string()), thinking_content: None, tool_use: None, usage: None }
}

fn pool_entry(id: &str, token: Option<&str>) -> PoolEntryRow {
    PoolEntryRow {
        id: id.to_string(),
        label: id.to_string(),
        refresh_token: "r".to_string(),
        access_token: token.map(|t| t.to_string()),
        token_expiry: None,
        client_id: Some("c".to_string()),
        client_secret: Some("s".to_string()),
        sso_region: None,
        enabled: true,
        last_used: None,
        created_at: "t".to_string(),
    }
}

#[test]
fn token_estimates() {
    assert_eq!(count_tokens("", false), 0);
    assert_eq!(count_tokens("abcd", false), 1);
    assert_eq!(count_tokens("abcde", false), 2);
    assert_eq!(count_tokens("é", true), 1);
    let messages = vec![
        ChatMessage { role: "user".to_string(), content: Some(JsonValue::Str("hello world".to_string())), name: None, tool_calls: None, tool_call_id: None },
        ChatMessage { role: "assistant".to_string(), content: Some(JsonValue::Array(vec![])), name: Some("bob".to_string()), tool_calls: None, tool_call_id: None },
    ];
    // 4 + 1 + 3, then 4 + 3 + 1 ("[]") + 1, then 3.
    assert_eq!(count_message_tokens(&messages), 8 + 9 + 3);
    assert_eq!(count_message_tokens(&[]), 3);
}

#[test]
fn request_checks_and_urls() {
    assert!(matches!(check_messages(0), Err(ApiError::ValidationError(m)) if m == "messages cannot be empty"));
    assert!(check_messages(2).is_ok());
    assert!(matches!(check_max_tokens(0), Err(ApiError::ValidationError(m)) if m == "max_tokens must be positive"));
    assert!(check_max_tokens(1).is_ok());
    assert_eq!(kiro_api_url("us-east-1"), "https://codewhisperer.us-east-1.amazonaws.com/generateAssistantResponse");
    assert_eq!(bearer("t"), "Bearer t");
    assert!(include_usage(None));
    assert!(!include_usage(Some(&obj(vec![("include_usage", JsonValue::Bool(false))]))));
    assert!(include_usage(Some(&obj(vec![("include_usage", JsonValue::Str("no".to_string()))]))));
    let ids = model_ids("family");
    assert_eq!(ids.len(), 9);
    assert_eq!(ids[0], "family-sonnet-4");
    assert_eq!(ids[8], "family-opus-4-7");
    assert_eq!(root_body("0.1.0").to_text(), r#"{"message":"Kiro Proxy is running","status":"ok","version":"0.1.0"}"#);
    assert_eq!(health_body("T", "V").to_text(), r#"{"status":"healthy","timestamp":"T","version":"V"}"#);
}

#[test]
fn completion_callback_is_handed_out_once() {
    let mut s = OnCompleteStream::new(vec![1, 2], || 7);
    assert_eq!(s.inner, vec![1, 2]);
    let f = s.take_on_complete().expect("first end hands out the callback");
    assert_eq!(f(), 7);
    assert!(s.take_on_complete().is_none());
}

#[test]
fn logged_headers_drop_secrets_and_keep_last_value() {
    let headers = vec![
        ("Content-Type".to_string(), Some("application/json".to_string())),
        ("Authorization".to_string(), Some("Bearer secret".to_string())),
        ("x-trace".to_string(), Some("1".to_string())),
        ("X-Trace".to_string(), Some("2".to_string())),
        ("x-binary".to_string(), None),
        ("Cookie".to_string(), Some("kp_session=s".to_string())),
    ];
    assert_eq!(sanitize_headers(&headers).to_text(), r#"{"content-type":"application/json","x-trace":"2"}"#);
}

#[test]
fn kiro_request_builders() {
    let r = KiroRequest::new("model".to_string(), "hi".to_string());
    assert_eq!(r.conversation_id.len(), 36);
    assert!(matches!(&r.user_input_message.content[0], ContentBlock::Text { text } if text == "hi"));
    let r = r.with_system(String::new());
    assert!(r.user_input_message_context.system.is_none());
    let r = r.with_system("be brief".to_string()).with_tools(vec![]).with_images(vec![]);
    assert_eq!(r.user_input_message_context.system.as_ref().unwrap()[0].text, "be brief");
    assert!(r.tool_configuration.is_none() && r.user_input_message.images.is_none());
    let tool = ToolSpec {
        tool_specification: ToolSpecification { name: "t".to_string(), description: "d".to_string(), input_schema: InputSchema { json: JsonValue::Null } },
    };
    let image = KiroImage { format: "png".to_string(), source: ImageSource { bytes: "AA==".to_string() } };
    let r = r.with_tools(vec![tool]).with_images(vec![image]).with_turns(vec![]);
    assert_eq!(r.tool_configuration.as_ref().unwrap().tools.len(), 1);
    assert_eq!(r.user_input_message.images.as_ref().unwrap()[0].format, "png");
}

#[test]
fn database_rules_and_defaults() {
    assert_eq!(initial_role_and_status(0), ("admin".to_string(), "active".to_string()));
    assert_eq!(initial_role_and_status(3), ("user".to_string(), "pending".to_string()));
    assert!(check_api_key_quota(9).is_ok());
    assert_eq!(check_api_key_quota(10).unwrap_err(), "Maximum 10 API keys per user");
    assert!(default_true());
    assert_eq!(default_tool_choice(), "auto");
}

#[test]
fn pool_rotates_over_entries() {
    let mut p = PoolScheduler::new();
    assert!(p.needs_refresh(0));
    assert!(p.next_token("us-east-1").is_none());
    p.install(vec![pool_entry("a", Some("ta")), pool_entry("b", None)], vec![], 10);
    assert!(!p.needs_refresh(309));
    assert!(p.needs_refresh(310));
    let first = p.next_token("us-east-1").unwrap();
    assert_eq!((first.pool_id.as_str(), first.access_token.as_str(), first.region.as_str()), ("a", "ta", "us-east-1"));
    // "b" holds no token: the search goes on to "a".
    assert_eq!(p.next_token("us-east-1").unwrap().pool_id, "a");
    assert_eq!(p.next_token("eu").unwrap().pool_id, "a");
    p.invalidate_cache();
    assert!(p.needs_refresh(11));
}

#[test]
fn pool_skips_entries_without_tokens() {
    let mut p = PoolScheduler::new();
    p.install(vec![pool_entry("x", None), pool_entry("y", Some("ty")), pool_entry("z", Some("tz"))], vec![], 0);
    let picks: Vec<String> = (0..6).map(|_| p.next_token("r").unwrap().pool_id).collect();
    assert_eq!(picks, vec!["y", "y", "z", "y", "y", "z"]);
    let mut empty = PoolScheduler::new();
    empty.install(vec![pool_entry("x", None), pool_entry("w", None)], vec![], 0);
    assert!(empty.next_token("r").is_none());
    assert!(empty.next_token("r").is_none());
}

#[test]
fn shared_user_tokens_join_the_pool() {
    let shared = KiroTokenRow {
        user_id: "u7".to_string(),
        refresh_token: "r".to_string(),
        access_token: Some("tu".to_string()),
        token_expiry: None,
        client_id: None,
        client_secret: None,
        sso_region: Some("eu".to_string()),
        sso_start_url: None,
        enabled: true,
        updated_at: "t".to_string(),
    };
    let mut p = PoolScheduler::new();
    p.install(vec![], vec![shared], 0);
    let t = p.next_token("us-east-1").unwrap();
    assert_eq!(t.pool_id, "user:u7");
    assert_eq!(t.region, "eu");
}

#[test]
fn refresh_targets_need_client_credentials() {
    let mut entry = pool_entry("p", Some("t"));
    let c = pool_refresh_credentials(&entry).unwrap();
    assert_eq!(c.region, "us-east-1");
    assert_eq!(refresh_url(&c), "https://oidc.us-east-1.amazonaws.com/token");
    assert_eq!(refresh_body(&c).unwrap().to_text(), r#"{"clientId":"c","clientSecret":"s","grantType":"refresh_token","refreshToken":"r"}"#);
    entry.client_secret = None;
    assert!(pool_refresh_credentials(&entry).is_none());
    let row = KiroTokenRow {
        user_id: "u".to_string(),
        refresh_token: "r".to_string(),
        access_token: None,
        token_expiry: None,
        client_id: Some("c".to_string()),
        client_secret: Some("s".to_string()),
        sso_region: Some("ap-south-1".to_string()),
        sso_start_url: None,
        enabled: true,
        updated_at: "t".to_string(),
    };
    let c = user_refresh_credentials(&row).unwrap();
    assert_eq!(refresh_url(&c), "https://oidc.ap-south-1.amazonaws.com/token");
    assert_eq!(refresh_horizon((1704067200, 0)).unwrap(), "2024-01-01T00:05:00+00:00");
}

#[test]
fn responses_stream_opens_once_and_closes_with_usage() {
    let mut s = ResponsesStream::new("resp_1".to_string(), 5, "m".to_string());
    let first = s.on_event(event("content", Some("Hi")));
    let names: Vec<&str> = first.iter().map(|e| e.event.as_str()).collect();
    assert_eq!(names, vec!["response.created", "response.output_item.added", "response.output_text.delta"]);
    let second = s.on_event(event("content", Some("!")));
    assert_eq!(second.len(), 1);
    assert_eq!(second[0].event, "response.output_text.delta");
    let (closing, out) = s.finish(10);
    assert_eq!(out, 1);
    assert_eq!(closing.last().unwrap().event, "response.completed");
}

#[test]
fn collected_response_body() {
    let mut c = CollectedResponse::new();
    c.add_event(event("content", Some("Hello")));
    c.add_event(event("thinking", Some("ignored")));
    c.add_event(ParsedEvent {
        event_type: "usage".to_string(),
        content: None,
        thinking_content: None,
        tool_use: None,
        usage: Some(Usage { input_tokens: 3, output_tokens: 4 }),
    });
    assert_eq!(c.full_content, "Hello");
    let body = collect_responses_response("r1", 9, "m", &c.full_content, &c.tool_calls, &c.usage, 100);
    let text = body.to_text();
    assert!(text.contains(r#""usage":{"input_tokens":3,"output_tokens":4,"total_tokens":7}"#));
    assert!(text.contains(r#""status":"completed""#));
}

#[test]
fn reported_usage_wins_over_estimates() {
    let body = obj(vec![(
        "usage",
        obj(vec![
            ("prompt_tokens", JsonValue::Number("12".to_string())),
            ("completion_tokens", JsonValue::Number("-3".to_string())),
        ]),
    )]);
    assert_eq!(usage_tokens(&body, 99), (12, -3));
    let float = obj(vec![("usage", obj(vec![("prompt_tokens", JsonValue::Number("1.5".to_string()))]))]);
    assert_eq!(usage_tokens(&float, 99), (99, 0));
    assert_eq!(usage_tokens(&JsonValue::Null, 7), (7, 0));
}

#[test]
fn sse_text_is_event_and_data_lines() {
    let e = SseEvent { event: "response.created".to_string(), data: obj(vec![("a", JsonValue::Str("x\"y".to_string()))]) };
    assert_eq!(e.to_text(), "event: response.created\ndata: {\"a\":\"x\\\"y\"}\n\n");
}

#[test]
fn integer_texts_parse_within_range() {
    assert_eq!(parse_i64("-9223372036854775808"), Some(i64::MIN));
    assert_eq!(parse_i64("9223372036854775808"), None);
    assert_eq!(parse_i32("-2147483648"), Some(i32::MIN));
    assert_eq!(parse_i32("2147483648"), None);
    assert_eq!(parse_i32("12a"), None);
    assert_eq!(parse_u16("65535"), Some(65535));
    assert_eq!(parse_u16("65536"), None);
    assert_eq!(parse_u16("+"), None);
    assert_eq!(parse_u16("007"), Some(7));
}

#[test]
fn json_text_sorts_members_and_keeps_the_last_duplicate() {
    let v = JsonValue::Object(vec![
        ("zeta".to_string(), JsonValue::Bool(true)),
        ("alpha".to_string(), JsonValue::Number("1".to_string())),
        ("beta".to_string(), JsonValue::Null),
        ("alpha".to_string(), JsonValue::Number("2".to_string())),
        ("Zed".to_string(), JsonValue::Str("x".to_string())),
    ]);
    assert_eq!(v.to_text(), r#"{"Zed":"x","alpha":2,"beta":null,"zeta":true}"#);
}

#[test]
fn whole_stream_opens_once_and_closes_with_completed() {
    let events = vec![event("content", Some("Hi")), event("content", Some(" there")), event("usage", None)];
    let (lines, estimate) = stream_kiro_to_responses("resp_9".to_string(), 7, "m".to_string(), events, 3);
    let names: Vec<&str> = lines.iter().map(|e| e.event.as_str()).collect();
    assert_eq!(
        names,
        vec![
            "response.created",
            "response.output_item.added",
            "response.output_text.delta",
            "response.output_text.delta",
            "response.output_item.done",
            "response.completed",
        ]
    );
    assert!(estimate >= 1);
    let (empty, _) = stream_kiro_to_responses("resp_0".to_string(), 7, "m".to_string(), vec![], 3);
    let names: Vec<&str> = empty.iter().map(|e| e.event.as_str()).collect();
    assert_eq!(names, vec!["response.completed"]);
}

fn token_data(expires_at: i128, refresh: Option<&str>) -> TokenData {
    TokenData { access_token: "at".to_string(), expires_at, refresh_token: refresh.map(|s| s.to_string()), profile_arn: None }
}

#[test]
fn refresh_outcomes_become_database_actions() {
    assert!(matches!(refresh_action(Err("boom".to_string())), Some(RefreshAction::MarkExpired)));
    match refresh_action(Ok(token_data(1_700_000_000_000_000_000, Some("rt")))) {
        Some(RefreshAction::StoreToken { access_token, expiry, refresh_token }) => {
            assert_eq!(access_token, "at");
            assert_eq!(expiry, "2023-11-14T22:13:20+00:00");
            assert_eq!(refresh_token.as_deref(), Some("rt"));
        },
        _ => panic!("expected a stored token"),
    }
    match refresh_action(Ok(token_data(-1, None))) {
        Some(RefreshAction::StoreToken { expiry, refresh_token, .. }) => {
            assert_eq!(expiry, "1969-12-31T23:59:59.999999999+00:00");
            assert!(refresh_token.is_none());
        },
        _ => panic!("expected a stored token"),
    }
    assert!(refresh_action(Ok(token_data(i128::MAX, None))).is_none());
}
