use kiro_proxy::converters::responses_to_kiro::{
    convert_responses_input_to_unified, convert_responses_tools_to_unified, prepare_kiro_conversation,
};
use kiro_proxy::converters::unified::MessageContent;
use kiro_proxy::json::JsonValue;
use kiro_proxy::models::responses::ResponsesApiRequest;

fn obj(pairs: Vec<(&str, JsonValue)>) -> JsonValue {
    JsonValue::Object(pairs.into_iter().map(|(k, v)| (k.to_string(), v)).collect())
}

fn text(s: &str) -> JsonValue {
    JsonValue::Str(s.to_string())
}

fn request(instructions: Option<&str>, input: Vec<JsonValue>, tools: Vec<JsonValue>) -> ResponsesApiRequest {
    ResponsesApiRequest {
        model: "sonnet-4".to_string(),
        instructions: instructions.map(|s| s.to_string()),
        input,
        tools,
        tool_choice: "auto".to_string(),
        parallel_tool_calls: false,
        reasoning: None,
        store: false,
        stream: true,
        included: vec![],
        service_tier: None,
        text: None,
        prompt_cache_key: None,
        client_metadata: None,
        previous_response_id: None,
    }
}

#[test]
fn test_empty_input_with_instructions() {
    let req = request(Some("System prompt"), vec![], vec![]);
    let result = prepare_kiro_conversation(&req);
    assert!(result.is_ok());
}

#[test]
fn test_namespace_tools_flattened() {
    let tools = vec![obj(vec![
        ("type", text("namespace")),
        ("name", text("mcp__demo__")),
        ("description", text("Demo tools")),
        (
            "tools",
            JsonValue::Array(vec![obj(vec![
                ("type", text("function")),
                ("name", text("lookup")),
                ("description", text("Look up")),
                ("parameters", obj(vec![("type", text("object"))])),
            ])]),
        ),
    ])];
    let unified = convert_responses_tools_to_unified(&tools);
    assert!(unified.is_some());
    let tools = unified.unwrap();
    assert_eq!(tools.len(), 1);
    assert_eq!(tools[0].name, "mcp__demo__lookup");
}

#[test]
fn nothing_to_send_is_refused() {
    let req = request(None, vec![], vec![]);
    assert_eq!(prepare_kiro_conversation(&req).err(), Some("No input items to send".to_string()));
}

#[test]
fn instructions_alone_give_one_empty_user_message() {
    let req = request(Some("System prompt"), vec![], vec![]);
    let u = prepare_kiro_conversation(&req).unwrap();
    assert_eq!(u.system_prompt, "System prompt");
    assert_eq!(u.messages.len(), 1);
    assert_eq!(u.messages[0].role, "user");
    assert!(matches!(&u.messages[0].content, MessageContent::Text(t) if t.is_empty()));
    assert!(u.tools.is_none());
}

#[test]
fn function_call_output_becomes_a_tool_result() {
    let input = vec![
        obj(vec![
            ("type", text("message")),
            ("role", text("user")),
            ("content", JsonValue::Array(vec![obj(vec![("type", text("input_text")), ("text", text("Read test.py"))])])),
        ]),
        obj(vec![
            ("type", text("function_call")),
            ("name", text("Read")),
            ("arguments", text("{\"path\":\"test.py\"}")),
            ("call_id", text("call_1")),
        ]),
        obj(vec![("type", text("function_call_output")), ("call_id", text("call_1")), ("output", text("print('hello')"))]),
    ];
    let messages = convert_responses_input_to_unified(&input);
    let found = messages.iter().any(|m| {
        m.tool_results.as_ref().map_or(false, |rs| rs.iter().any(|r| r.tool_use_id == "call_1" && r.content == "print('hello')"))
    });
    assert!(found);
    let called = messages.iter().any(|m| {
        m.tool_calls.as_ref().map_or(false, |cs| cs.iter().any(|c| c.id == "call_1" && c.function.name == "Read"))
    });
    assert!(called);
}

fn summary(input: &Vec<JsonValue>) -> Vec<(String, String, usize, usize)> {
    convert_responses_input_to_unified(input)
        .iter()
        .map(|m| {
            let MessageContent::Text(t) = &m.content;
            (
                m.role.clone(),
                t.clone(),
                m.tool_calls.as_ref().map_or(0, |c| c.len()),
                m.tool_results.as_ref().map_or(0, |r| r.len()),
            )
        })
        .collect()
}

#[test]
fn unknown_input_items_change_nothing() {
    let message = obj(vec![("type", text("message")), ("role", text("user")), ("content", text("hi"))]);
    let call = obj(vec![("type", text("function_call")), ("name", text("f")), ("call_id", text("c1"))]);
    let reasoning = obj(vec![("type", text("reasoning")), ("summary", JsonValue::Array(vec![]))]);
    let untyped = obj(vec![("role", text("user"))]);
    let with_unknown = vec![reasoning.deep_clone(), message.deep_clone(), untyped, call.deep_clone(), reasoning];
    let without = vec![message, call];
    assert_eq!(summary(&with_unknown), summary(&without));
    assert_eq!(summary(&without).len(), 2);
}

#[test]
fn each_message_item_gives_one_message_in_order() {
    let input = vec![
        obj(vec![("type", text("message")), ("role", text("assistant")), ("content", text("a"))]),
        obj(vec![("type", text("message")), ("content", text("b"))]),
        obj(vec![
            ("type", text("message")),
            ("role", text("user")),
            ("content", JsonValue::Array(vec![obj(vec![("type", text("input_text")), ("text", text("c"))])])),
        ]),
    ];
    let got = summary(&input);
    assert_eq!(
        got,
        vec![
            ("assistant".to_string(), "a".to_string(), 0, 0),
            ("user".to_string(), "b".to_string(), 0, 0),
            ("user".to_string(), "c".to_string(), 0, 0),
        ]
    );
}
