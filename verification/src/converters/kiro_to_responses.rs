//! Conversion of Kiro's response stream into OpenAI Responses API events.
//! The decisions of the stream live here as a state machine; reading the
//! stream and writing the events out is left to the caller.

use vstd::prelude::*;
use crate::json::{
    array, empty_array, entry_models, json_int, json_str, models, object, push_entry, tagged, Json, JsonValue,
};
use crate::streaming::{
    events_view, opt_str, opt_tool, push_event, usage_view, ParsedEvent, SseEvent, ToolUse,
    ToolUseView, Usage,
};
use crate::text::{int_text, owned, push_str, str_eq};
use crate::tokenizer::{count_tokens, token_estimate};

verus! {

// ---------------------------------------------------------------------------
// Event shapes
// ---------------------------------------------------------------------------

/// The `response.created` event.
pub open spec fn created_json(id: Seq<char>, created_at: i64, model: Seq<char>) -> Json {
    tagged(
        "response.created"@,
        seq![
            (
                "response"@,
                Json::Object(
                    seq![
                        ("id"@, Json::Str(id)),
                        ("object"@, Json::Str("response"@)),
                        ("created_at"@, Json::Number(int_text(created_at as int))),
                        ("status"@, Json::Str("in_progress"@)),
                        ("model"@, Json::Str(model)),
                        ("output"@, Json::Array(Seq::empty())),
                    ],
                ),
            ),
        ],
    )
}

/// The `response.output_item.added` event opening the assistant message.
pub open spec fn message_added_json() -> Json {
    tagged(
        "response.output_item.added"@,
        seq![
            (
                "item"@,
                Json::Object(
                    seq![
                        ("type"@, Json::Str("message"@)),
                        ("role"@, Json::Str("assistant"@)),
                        ("content"@, Json::Array(Seq::empty())),
                    ],
                ),
            ),
        ],
    )
}

/// The `response.output_text.delta` event.
pub open spec fn text_delta_json(c: Seq<char>) -> Json {
    tagged("response.output_text.delta"@, seq![("delta"@, Json::Str(c))])
}

/// The `response.reasoning_summary_part.added` event.
pub open spec fn reasoning_added_json() -> Json {
    tagged("response.reasoning_summary_part.added"@, seq![("summary_index"@, Json::Number("0"@))])
}

/// The `response.reasoning_summary_text.delta` event.
pub open spec fn reasoning_delta_json(t: Seq<char>) -> Json {
    tagged(
        "response.reasoning_summary_text.delta"@,
        seq![("delta"@, Json::Str(t)), ("summary_index"@, Json::Number("0"@))],
    )
}

/// A function call item with the given arguments text.
pub open spec fn call_item_json(tool: ToolUseView, arguments: Seq<char>) -> Json {
    Json::Object(
        seq![
            ("type"@, Json::Str("function_call"@)),
            ("name"@, Json::Str(tool.name)),
            ("call_id"@, Json::Str(tool.id)),
            ("arguments"@, Json::Str(arguments)),
        ],
    )
}

/// The `response.output_item.added` event opening a function call.
pub open spec fn call_added_json(tool: ToolUseView) -> Json {
    tagged("response.output_item.added"@, seq![("item"@, call_item_json(tool, Seq::empty()))])
}

/// The `response.function_call_arguments.delta` event.
pub open spec fn args_delta_json(tool: ToolUseView, arguments: Seq<char>) -> Json {
    tagged(
        "response.function_call_arguments.delta"@,
        seq![
            ("item_id"@, Json::Str(tool.id)),
            ("call_id"@, Json::Str(tool.id)),
            ("delta"@, Json::Str(arguments)),
        ],
    )
}

/// The `response.output_item.done` event closing a function call.
pub open spec fn call_done_json(tool: ToolUseView, arguments: Seq<char>) -> Json {
    tagged("response.output_item.done"@, seq![("item"@, call_item_json(tool, arguments))])
}

/// The `response.failed` event.
pub open spec fn failed_json(id: Seq<char>, message: Seq<char>) -> Json {
    tagged(
        "response.failed"@,
        seq![
            (
                "response"@,
                Json::Object(
                    seq![
                        ("id"@, Json::Str(id)),
                        ("object"@, Json::Str("response"@)),
                        ("status"@, Json::Str("failed"@)),
                        (
                            "error"@,
                            Json::Object(
                                seq![
                                    ("code"@, Json::Str("server_error"@)),
                                    ("message"@, Json::Str(message)),
                                ],
                            ),
                        ),
                    ],
                ),
            ),
        ],
    )
}

/// The assistant message item holding `text`.
pub open spec fn message_item_json(text: Seq<char>) -> Json {
    Json::Object(
        seq![
            ("type"@, Json::Str("message"@)),
            ("role"@, Json::Str("assistant"@)),
            (
                "content"@,
                Json::Array(
                    seq![
                        Json::Object(
                            seq![("type"@, Json::Str("output_text"@)), ("text"@, Json::Str(text))],
                        ),
                    ],
                ),
            ),
        ],
    )
}

/// The `response.output_item.done` event closing the assistant message.
pub open spec fn message_done_json(text: Seq<char>) -> Json {
    tagged("response.output_item.done"@, seq![("item"@, message_item_json(text))])
}

/// The `response.completed` event with its usage.
pub open spec fn completed_json(
    id: Seq<char>,
    created_at: i64,
    model: Seq<char>,
    input_tokens: int,
    output_tokens: int,
) -> Json {
    tagged(
        "response.completed"@,
        seq![
            (
                "response"@,
                Json::Object(
                    seq![
                        ("id"@, Json::Str(id)),
                        ("object"@, Json::Str("response"@)),
                        ("created_at"@, Json::Number(int_text(created_at as int))),
                        ("status"@, Json::Str("completed"@)),
                        ("model"@, Json::Str(model)),
                        ("end_turn"@, Json::Bool(true)),
                        (
                            "usage"@,
                            Json::Object(
                                seq![
                                    ("input_tokens"@, Json::Number(int_text(input_tokens))),
                                    ("output_tokens"@, Json::Number(int_text(output_tokens))),
                                    (
                                        "total_tokens"@,
                                        Json::Number(int_text(input_tokens + output_tokens)),
                                    ),
                                ],
                            ),
                        ),
                    ],
                ),
            ),
        ],
    )
}

fn typed_event(name: &str, rest: Vec<(String, JsonValue)>) -> (e: SseEvent)
    ensures
        e@ == (name@, tagged(name@, entry_models(rest@))),
{
    let ghost r0 = entry_models(rest@);
    let mut entries: Vec<(String, JsonValue)> = Vec::new();
    assert(entry_models(entries@) =~= Seq::<(Seq<char>, Json)>::empty());
    push_entry(&mut entries, "type", json_str(name));
    let ghost e0 = entry_models(entries@);
    assert(e0 =~= seq![("type"@, Json::Str(name@))]);
    let mut rest = rest;
    let ghost before = entries@;
    let ghost rv = rest@;
    entries.append(&mut rest);
    assert(entries@ =~= before + rv);
    assert(entry_models(entries@) =~= e0 + r0);
    SseEvent { event: owned(name), data: object(entries) }
}

} // verus!

verus! {

fn entries() -> (v: Vec<(String, JsonValue)>)
    ensures
        entry_models(v@) == Seq::<(Seq<char>, Json)>::empty(),
{
    let v: Vec<(String, JsonValue)> = Vec::new();
    assert(entry_models(v@) =~= Seq::<(Seq<char>, Json)>::empty());
    v
}

fn created_event(id: &str, created_at: i64, model: &str) -> (e: SseEvent)
    ensures
        e@ == ("response.created"@, created_json(id@, created_at, model@)),
{
    let mut resp = entries();
    push_entry(&mut resp, "id", json_str(id));
    push_entry(&mut resp, "object", json_str("response"));
    push_entry(&mut resp, "created_at", json_int(created_at));
    push_entry(&mut resp, "status", json_str("in_progress"));
    push_entry(&mut resp, "model", json_str(model));
    push_entry(&mut resp, "output", empty_array());
    let ghost rm = entry_models(resp@);
    assert(rm =~= seq![
        ("id"@, Json::Str(id@)),
        ("object"@, Json::Str("response"@)),
        ("created_at"@, Json::Number(int_text(created_at as int))),
        ("status"@, Json::Str("in_progress"@)),
        ("model"@, Json::Str(model@)),
        ("output"@, Json::Array(Seq::empty())),
    ]);
    let mut rest = entries();
    push_entry(&mut rest, "response", object(resp));
    assert(entry_models(rest@) =~= seq![("response"@, Json::Object(rm))]);
    typed_event("response.created", rest)
}

fn message_added_event() -> (e: SseEvent)
    ensures
        e@ == ("response.output_item.added"@, message_added_json()),
{
    let mut item = entries();
    push_entry(&mut item, "type", json_str("message"));
    push_entry(&mut item, "role", json_str("assistant"));
    push_entry(&mut item, "content", empty_array());
    let ghost im = entry_models(item@);
    assert(im =~= seq![
        ("type"@, Json::Str("message"@)),
        ("role"@, Json::Str("assistant"@)),
        ("content"@, Json::Array(Seq::empty())),
    ]);
    let mut rest = entries();
    push_entry(&mut rest, "item", object(item));
    assert(entry_models(rest@) =~= seq![("item"@, Json::Object(im))]);
    typed_event("response.output_item.added", rest)
}

fn text_delta_event(c: &str) -> (e: SseEvent)
    ensures
        e@ == ("response.output_text.delta"@, text_delta_json(c@)),
{
    let mut rest = entries();
    push_entry(&mut rest, "delta", json_str(c));
    assert(entry_models(rest@) =~= seq![("delta"@, Json::Str(c@))]);
    typed_event("response.output_text.delta", rest)
}

fn zero() -> (z: JsonValue)
    ensures
        z.model() == Json::Number("0"@),
{
    let z = json_int(0);
    assert(int_text(0) == "0"@) by {
        reveal_strlit("0");
    }
    z
}

fn reasoning_added_event() -> (e: SseEvent)
    ensures
        e@ == ("response.reasoning_summary_part.added"@, reasoning_added_json()),
{
    let mut rest = entries();
    push_entry(&mut rest, "summary_index", zero());
    assert(entry_models(rest@) =~= seq![("summary_index"@, Json::Number("0"@))]);
    typed_event("response.reasoning_summary_part.added", rest)
}

fn reasoning_delta_event(t: &str) -> (e: SseEvent)
    ensures
        e@ == ("response.reasoning_summary_text.delta"@, reasoning_delta_json(t@)),
{
    let mut rest = entries();
    push_entry(&mut rest, "delta", json_str(t));
    push_entry(&mut rest, "summary_index", zero());
    assert(entry_models(rest@) =~= seq![("delta"@, Json::Str(t@)), ("summary_index"@, Json::Number("0"@))]);
    typed_event("response.reasoning_summary_text.delta", rest)
}

fn call_item(tool: &ToolUse, arguments: &str) -> (j: JsonValue)
    ensures
        j.model() == call_item_json(tool@, arguments@),
{
    let mut item = entries();
    push_entry(&mut item, "type", json_str("function_call"));
    push_entry(&mut item, "name", json_str(tool.name.as_str()));
    push_entry(&mut item, "call_id", json_str(tool.tool_use_id.as_str()));
    push_entry(&mut item, "arguments", json_str(arguments));
    assert(entry_models(item@) =~= call_item_json(tool@, arguments@)->Object_0);
    object(item)
}

fn call_added_event(tool: &ToolUse) -> (e: SseEvent)
    ensures
        e@ == ("response.output_item.added"@, call_added_json(tool@)),
{
    let mut rest = entries();
    let item = call_item(tool, "");
    assert(""@ == Seq::<char>::empty()) by {
        reveal_strlit("");
    }
    let ghost m = item.model();
    push_entry(&mut rest, "item", item);
    assert(entry_models(rest@) =~= seq![("item"@, m)]);
    typed_event("response.output_item.added", rest)
}

fn args_delta_event(tool: &ToolUse, arguments: &str) -> (e: SseEvent)
    ensures
        e@ == ("response.function_call_arguments.delta"@, args_delta_json(tool@, arguments@)),
{
    let mut rest = entries();
    push_entry(&mut rest, "item_id", json_str(tool.tool_use_id.as_str()));
    push_entry(&mut rest, "call_id", json_str(tool.tool_use_id.as_str()));
    push_entry(&mut rest, "delta", json_str(arguments));
    assert(entry_models(rest@) =~= seq![
        ("item_id"@, Json::Str(tool@.id)),
        ("call_id"@, Json::Str(tool@.id)),
        ("delta"@, Json::Str(arguments@)),
    ]);
    typed_event("response.function_call_arguments.delta", rest)
}

fn call_done_event(tool: &ToolUse, arguments: &str) -> (e: SseEvent)
    ensures
        e@ == ("response.output_item.done"@, call_done_json(tool@, arguments@)),
{
    let mut rest = entries();
    let item = call_item(tool, arguments);
    let ghost m = item.model();
    push_entry(&mut rest, "item", item);
    assert(entry_models(rest@) =~= seq![("item"@, m)]);
    typed_event("response.output_item.done", rest)
}

fn message_item(text: &str) -> (j: JsonValue)
    ensures
        j.model() == message_item_json(text@),
{
    let mut part = entries();
    push_entry(&mut part, "type", json_str("output_text"));
    push_entry(&mut part, "text", json_str(text));
    let ghost pm = entry_models(part@);
    assert(pm =~= seq![("type"@, Json::Str("output_text"@)), ("text"@, Json::Str(text@))]);
    let parts = vec![object(part)];
    assert(models(parts@) =~= seq![Json::Object(pm)]);
    let mut item = entries();
    push_entry(&mut item, "type", json_str("message"));
    push_entry(&mut item, "role", json_str("assistant"));
    push_entry(&mut item, "content", array(parts));
    assert(entry_models(item@) =~= message_item_json(text@)->Object_0);
    object(item)
}

fn message_done_event(text: &str) -> (e: SseEvent)
    ensures
        e@ == ("response.output_item.done"@, message_done_json(text@)),
{
    let item = message_item(text);
    let ghost m = item.model();
    let mut rest = entries();
    push_entry(&mut rest, "item", item);
    assert(entry_models(rest@) =~= seq![("item"@, m)]);
    typed_event("response.output_item.done", rest)
}

fn failed_event(id: &str, message: &str) -> (e: SseEvent)
    ensures
        e@ == ("response.failed"@, failed_json(id@, message@)),
{
    let mut err = entries();
    push_entry(&mut err, "code", json_str("server_error"));
    push_entry(&mut err, "message", json_str(message));
    let ghost em = entry_models(err@);
    assert(em =~= seq![("code"@, Json::Str("server_error"@)), ("message"@, Json::Str(message@))]);
    let mut resp = entries();
    push_entry(&mut resp, "id", json_str(id));
    push_entry(&mut resp, "object", json_str("response"));
    push_entry(&mut resp, "status", json_str("failed"));
    push_entry(&mut resp, "error", object(err));
    let ghost rm = entry_models(resp@);
    assert(rm =~= seq![
        ("id"@, Json::Str(id@)),
        ("object"@, Json::Str("response"@)),
        ("status"@, Json::Str("failed"@)),
        ("error"@, Json::Object(em)),
    ]);
    let mut rest = entries();
    push_entry(&mut rest, "response", object(resp));
    assert(entry_models(rest@) =~= seq![("response"@, Json::Object(rm))]);
    typed_event("response.failed", rest)
}

fn completed_event(id: &str, created_at: i64, model: &str, input_tokens: i32, output_tokens: i32) -> (e: SseEvent)
    requires
        i32::MIN <= input_tokens + output_tokens <= i32::MAX,
    ensures
        e@ == ("response.completed"@, completed_json(
            id@,
            created_at,
            model@,
            input_tokens as int,
            output_tokens as int,
        )),
{
    let mut usage = entries();
    push_entry(&mut usage, "input_tokens", json_int(input_tokens as i64));
    push_entry(&mut usage, "output_tokens", json_int(output_tokens as i64));
    push_entry(&mut usage, "total_tokens", json_int((input_tokens + output_tokens) as i64));
    let ghost um = entry_models(usage@);
    assert(um =~= seq![
        ("input_tokens"@, Json::Number(int_text(input_tokens as int))),
        ("output_tokens"@, Json::Number(int_text(output_tokens as int))),
        ("total_tokens"@, Json::Number(int_text(input_tokens + output_tokens))),
    ]);
    let mut resp = entries();
    push_entry(&mut resp, "id", json_str(id));
    push_entry(&mut resp, "object", json_str("response"));
    push_entry(&mut resp, "created_at", json_int(created_at));
    push_entry(&mut resp, "status", json_str("completed"));
    push_entry(&mut resp, "model", json_str(model));
    push_entry(&mut resp, "end_turn", JsonValue::Bool(true));
    push_entry(&mut resp, "usage", object(usage));
    let ghost rm = entry_models(resp@);
    assert(rm =~= seq![
        ("id"@, Json::Str(id@)),
        ("object"@, Json::Str("response"@)),
        ("created_at"@, Json::Number(int_text(created_at as int))),
        ("status"@, Json::Str("completed"@)),
        ("model"@, Json::Str(model@)),
        ("end_turn"@, Json::Bool(true)),
        ("usage"@, Json::Object(um)),
    ]);
    let mut rest = entries();
    push_entry(&mut rest, "response", object(resp));
    assert(entry_models(rest@) =~= seq![("response"@, Json::Object(rm))]);
    typed_event("response.completed", rest)
}

} // verus!

verus! {

// ---------------------------------------------------------------------------
// Stream state machine
// ---------------------------------------------------------------------------

/// The state of one Responses API stream.
pub struct ResponsesStream {
    pub response_id: String,
    pub created_at: i64,
    pub model: String,
    pub emitted_created: bool,
    pub emitted_message_added: bool,
    pub accumulated_text: String,
    pub tool_calls: Vec<ToolUse>,
    pub usage: Option<Usage>,
    pub thinking_started: bool,
}

/// The model of a stream state.
pub struct StreamView {
    pub id: Seq<char>,
    pub created_at: i64,
    pub model: Seq<char>,
    pub created: bool,
    pub message_added: bool,
    pub text: Seq<char>,
    pub tool_calls: Seq<ToolUseView>,
    pub usage: Option<(i32, i32)>,
    pub thinking_started: bool,
}

/// The model of a parsed event.
pub struct EventView {
    pub event_type: Seq<char>,
    pub content: Option<Seq<char>>,
    pub thinking: Option<Seq<char>>,
    pub tool: Option<ToolUseView>,
    pub usage: Option<(i32, i32)>,
}

/// The models of a sequence of tool uses.
pub open spec fn tools_uses_view(v: Seq<ToolUse>) -> Seq<ToolUseView> {
    Seq::new(v.len(), |i: int| v[i]@)
}

impl View for ResponsesStream {
    type V = StreamView;

    open spec fn view(&self) -> StreamView {
        StreamView {
            id: self.response_id@,
            created_at: self.created_at,
            model: self.model@,
            created: self.emitted_created,
            message_added: self.emitted_message_added,
            text: self.accumulated_text@,
            tool_calls: tools_uses_view(self.tool_calls@),
            usage: usage_view(self.usage),
            thinking_started: self.thinking_started,
        }
    }
}

impl View for ParsedEvent {
    type V = EventView;

    open spec fn view(&self) -> EventView {
        EventView {
            event_type: self.event_type@,
            content: opt_str(self.content),
            thinking: opt_str(self.thinking_content),
            tool: opt_tool(self.tool_use),
            usage: usage_view(self.usage),
        }
    }
}

/// What one event does to the stream: the first event is preceded by
/// `response.created`; content opens the assistant message once and is sent as
/// text deltas; thinking opens a reasoning part once and is sent as reasoning
/// deltas; both are added to the accumulated text; a tool use is sent as an added
/// item, an arguments delta unless its arguments are empty or `null`, and a done
/// item; a usage event replaces the usage; other events send nothing.
pub open spec fn stream_step(s: StreamView, e: EventView) -> (StreamView, Seq<(Seq<char>, Json)>) {
    let l1: Seq<(Seq<char>, Json)> = if !s.created {
        seq![("response.created"@, created_json(s.id, s.created_at, s.model))]
    } else {
        Seq::empty()
    };
    let s1 = StreamView { created: true, ..s };
    if e.event_type == "content"@ {
        match e.content {
            Some(c) => {
                let l2 = if !s1.message_added {
                    l1.push(("response.output_item.added"@, message_added_json()))
                } else {
                    l1
                };
                (
                    StreamView { message_added: true, text: s1.text + c, ..s1 },
                    l2.push(("response.output_text.delta"@, text_delta_json(c))),
                )
            },
            None => (s1, l1),
        }
    } else if e.event_type == "thinking"@ {
        match e.thinking {
            Some(t) => {
                let l2 = if !s1.thinking_started {
                    l1.push(("response.reasoning_summary_part.added"@, reasoning_added_json()))
                } else {
                    l1
                };
                (
                    StreamView { thinking_started: true, text: s1.text + t, ..s1 },
                    l2.push(("response.reasoning_summary_text.delta"@, reasoning_delta_json(t))),
                )
            },
            None => (s1, l1),
        }
    } else if e.event_type == "tool_use"@ {
        match e.tool {
            Some(tool) => {
                let args = crate::json::json_text(tool.input);
                let l2 = l1.push(("response.output_item.added"@, call_added_json(tool)));
                let l3 = if args.len() > 0 && args != "null"@ {
                    l2.push(("response.function_call_arguments.delta"@, args_delta_json(tool, args)))
                } else {
                    l2
                };
                (
                    StreamView { tool_calls: s1.tool_calls.push(tool), ..s1 },
                    l3.push(("response.output_item.done"@, call_done_json(tool, args))),
                )
            },
            None => (s1, l1),
        }
    } else if e.event_type == "usage"@ {
        (StreamView { usage: e.usage, ..s1 }, l1)
    } else {
        (s1, l1)
    }
}

/// `response.created` opens a stream exactly once: the first event sent is
/// preceded by it, and once sent it never comes again.
pub proof fn law_created_sent_once(s: StreamView, e: EventView)
    ensures
        stream_step(s, e).0.created,
        !s.created ==> stream_step(s, e).1.len() > 0 && stream_step(s, e).1[0].0 == "response.created"@,
        s.created ==> forall|i: int|
            0 <= i < stream_step(s, e).1.len() ==> #[trigger] stream_step(s, e).1[i].0 != "response.created"@,
{
    reveal_strlit("response.created");
    reveal_strlit("response.output_item.added");
    reveal_strlit("response.output_text.delta");
    reveal_strlit("response.reasoning_summary_part.added");
    reveal_strlit("response.reasoning_summary_text.delta");
    reveal_strlit("response.function_call_arguments.delta");
    reveal_strlit("response.output_item.done");
    assert("response.created"@.len() == 16);
    assert("response.output_item.added"@.len() == 26);
    assert("response.output_text.delta"@.len() == 26);
    assert("response.reasoning_summary_part.added"@.len() == 37);
    assert("response.reasoning_summary_text.delta"@.len() == 37);
    assert("response.function_call_arguments.delta"@.len() == 38);
    assert("response.output_item.done"@.len() == 25);
}

proof fn lemma_step_created(s: StreamView, e: EventView)
    ensures
        stream_step(s, e).0.id == s.id,
        stream_step(s, e).0.created_at == s.created_at,
        stream_step(s, e).0.model == s.model,
        stream_step(s, e).0.created,
        !s.created ==> stream_step(s, e).1.len() > 0 && stream_step(s, e).1[0] == ("response.created"@, created_json(
            s.id,
            s.created_at,
            s.model,
        )),
        forall|i: int|
            0 <= i < stream_step(s, e).1.len() && (s.created || i > 0) ==> #[trigger] stream_step(s, e).1[i].0
                != "response.created"@,
{
    reveal_strlit("response.created");
    reveal_strlit("response.output_item.added");
    reveal_strlit("response.output_text.delta");
    reveal_strlit("response.reasoning_summary_part.added");
    reveal_strlit("response.reasoning_summary_text.delta");
    reveal_strlit("response.function_call_arguments.delta");
    reveal_strlit("response.output_item.done");
    assert("response.created"@.len() == 16);
    assert("response.output_item.added"@.len() == 26);
    assert("response.output_text.delta"@.len() == 26);
    assert("response.reasoning_summary_part.added"@.len() == 37);
    assert("response.reasoning_summary_text.delta"@.len() == 37);
    assert("response.function_call_arguments.delta"@.len() == 38);
    assert("response.output_item.done"@.len() == 25);
}

/// The state after a sequence of events, and the events sent on the way, each
/// event's in turn (see [`stream_step`]).
pub open spec fn stream_events(s: StreamView, events: Seq<EventView>) -> (StreamView, Seq<(Seq<char>, Json)>)
    decreases events.len(),
{
    if events.len() == 0 {
        (s, Seq::empty())
    } else {
        let (s1, l1) = stream_events(s, events.drop_last());
        let (s2, l2) = stream_step(s1, events.last());
        (s2, l1 + l2)
    }
}

proof fn lemma_stream_events(s0: StreamView, events: Seq<EventView>)
    ensures
        stream_events(s0, events).0.id == s0.id,
        stream_events(s0, events).0.created_at == s0.created_at,
        stream_events(s0, events).0.model == s0.model,
        events.len() > 0 ==> stream_events(s0, events).0.created,
        events.len() == 0 ==> stream_events(s0, events).0 == s0 && stream_events(s0, events).1.len() == 0,
        !s0.created && events.len() > 0 ==> stream_events(s0, events).1.len() > 0 && stream_events(s0, events).1[0]
            == ("response.created"@, created_json(s0.id, s0.created_at, s0.model)),
        forall|i: int|
            0 <= i < stream_events(s0, events).1.len() && (s0.created || i > 0) ==> #[trigger] stream_events(
                s0,
                events,
            ).1[i].0 != "response.created"@,
    decreases events.len(),
{
    if events.len() > 0 {
        let d = events.drop_last();
        lemma_stream_events(s0, d);
        let (s1, l1) = stream_events(s0, d);
        lemma_step_created(s1, events.last());
        let l2 = stream_step(s1, events.last()).1;
        let l = l1 + l2;
        assert(stream_events(s0, events).1 == l);
        assert forall|i: int| 0 <= i < l.len() && (s0.created || i > 0) implies #[trigger] l[i].0
            != "response.created"@ by {
            if i < l1.len() {
                assert(l[i] == l1[i]);
            } else {
                assert(l[i] == l2[i - l1.len()]);
                if d.len() > 0 {
                    assert(s1.created);
                } else {
                    assert(s1 == s0);
                    assert(l1.len() == 0);
                }
            }
        }
        if !s0.created {
            if d.len() > 0 {
                assert(l[0] == l1[0]);
            } else {
                assert(l[0] == l2[0]);
            }
        }
    }
}

/// The events of a whole stream: those sent for each event, then the closing ones.
pub open spec fn whole_stream(s0: StreamView, events: Seq<EventView>, input_tokens: i32) -> Seq<(Seq<char>, Json)> {
    let (s, l) = stream_events(s0, events);
    l + stream_closing(s, input_tokens)
}

/// Over a whole stream from a fresh state: `response.created` is sent at most
/// once, first, and exactly when some event came; `response.completed` comes
/// last, with the stream's identity and the usage of its final state.
pub proof fn law_stream_created_first_completed_last(s0: StreamView, events: Seq<EventView>, input_tokens: i32)
    requires
        !s0.created,
    ensures
        whole_stream(s0, events, input_tokens).len() > 0,
        whole_stream(s0, events, input_tokens).last() == (
            "response.completed"@,
            completed_json(
                s0.id,
                s0.created_at,
                s0.model,
                ResponsesStream::final_usage(stream_events(s0, events).0, input_tokens).0,
                ResponsesStream::final_usage(stream_events(s0, events).0, input_tokens).1,
            ),
        ),
        events.len() > 0 ==> whole_stream(s0, events, input_tokens)[0] == ("response.created"@, created_json(
            s0.id,
            s0.created_at,
            s0.model,
        )),
        forall|i: int|
            0 <= i < whole_stream(s0, events, input_tokens).len() && #[trigger] whole_stream(
                s0,
                events,
                input_tokens,
            )[i].0 == "response.created"@ ==> i == 0 && events.len() > 0,
{
    lemma_stream_events(s0, events);
    let (s, l) = stream_events(s0, events);
    let c = stream_closing(s, input_tokens);
    let w = l + c;
    reveal_strlit("response.created");
    reveal_strlit("response.output_item.done");
    reveal_strlit("response.completed");
    assert("response.created"@.len() == 16);
    assert("response.output_item.done"@.len() == 25);
    assert("response.completed"@.len() == 18);
    assert(c.len() > 0);
    assert(w.last() == c.last());
    assert forall|i: int| 0 <= i < w.len() && #[trigger] w[i].0 == "response.created"@ implies i == 0 && events.len()
        > 0 by {
        if i < l.len() {
            assert(w[i] == l[i]);
        } else {
            assert(w[i] == c[i - l.len()]);
        }
    }
    if events.len() > 0 {
        assert(w[0] == l[0]);
    }
}

/// Streamed text reaches the client and the accumulated text: for a `content`
/// event with text `c`, the last event sent is an `output_text.delta` whose
/// `delta` is `c`, and the accumulated text grows by exactly `c`.
pub proof fn law_content_is_streamed(s: StreamView, e: EventView)
    requires
        e.event_type == "content"@,
        e.content is Some,
    ensures
        stream_step(s, e).1.len() > 0,
        stream_step(s, e).1.last().0 == "response.output_text.delta"@,
        stream_step(s, e).1.last().1.get("delta"@) == Some(Json::Str(e.content.unwrap())),
        stream_step(s, e).0.text == s.text + e.content.unwrap(),
{
    reveal_strlit("type");
    reveal_strlit("delta");
    assert("type"@.len() == 4);
    assert("delta"@.len() == 5);
    reveal_with_fuel(crate::json::lookup, 3);
}

/// A finished tool call carries its arguments: for a `tool_use` event, the last
/// event sent is `response.output_item.done`, whose `function_call` item holds
/// the tool's name and id and, as its `arguments`, the compact JSON text of the
/// tool's input; an arguments delta, when one is sent, carries that same text.
pub proof fn law_tool_call_carries_its_arguments(s: StreamView, e: EventView)
    requires
        e.event_type == "tool_use"@,
        e.tool is Some,
    ensures
        stream_step(s, e).1.len() > 0,
        stream_step(s, e).1.last().0 == "response.output_item.done"@,
        stream_step(s, e).1.last().1.get("item"@) matches Some(item) && item.get("arguments"@) == Some(
            Json::Str(crate::json::json_text(e.tool.unwrap().input)),
        ) && item.get("name"@) == Some(Json::Str(e.tool.unwrap().name)) && item.get("call_id"@) == Some(
            Json::Str(e.tool.unwrap().id),
        ),
        forall|i: int|
            0 <= i < stream_step(s, e).1.len() && #[trigger] stream_step(s, e).1[i].0
                == "response.function_call_arguments.delta"@ ==> stream_step(s, e).1[i].1.get("delta"@) == Some(
                Json::Str(crate::json::json_text(e.tool.unwrap().input)),
            ),
{
    let tool = e.tool.unwrap();
    let args = crate::json::json_text(tool.input);
    reveal_strlit("type");
    reveal_strlit("item");
    reveal_strlit("name");
    reveal_strlit("call_id");
    reveal_strlit("arguments");
    reveal_strlit("item_id");
    reveal_strlit("delta");
    reveal_strlit("content");
    reveal_strlit("thinking");
    reveal_strlit("tool_use");
    reveal_strlit("response.created");
    reveal_strlit("response.output_item.added");
    reveal_strlit("response.function_call_arguments.delta");
    reveal_strlit("response.output_item.done");
    assert("type"@.len() == 4);
    assert("item"@.len() == 4);
    assert("type"@[0] != "item"@[0]);
    assert("name"@.len() == 4);
    assert("type"@[0] != "name"@[0]);
    assert("call_id"@.len() == 7);
    assert("arguments"@.len() == 9);
    assert("item_id"@.len() == 7);
    assert("item_id"@[1] != "call_id"@[1]);
    assert("delta"@.len() == 5);
    assert("content"@.len() == 7);
    assert("thinking"@.len() == 8);
    assert("tool_use"@.len() == 8);
    assert("tool_use"@[1] != "thinking"@[1]);
    assert("response.created"@.len() == 16);
    assert("response.output_item.added"@.len() == 26);
    assert("response.function_call_arguments.delta"@.len() == 38);
    assert("response.output_item.done"@.len() == 25);
    reveal_with_fuel(crate::json::lookup, 5);
    let l = stream_step(s, e).1;
    assert forall|i: int|
        0 <= i < l.len() && #[trigger] l[i].0 == "response.function_call_arguments.delta"@ implies l[i].1.get(
        "delta"@,
    ) == Some(Json::Str(args)) by {
        assert(l[i].1 == args_delta_json(tool, args));
    }
}

/// The output token estimate of the accumulated text.
pub open spec fn output_estimate(s: StreamView) -> int {
    token_estimate((vstd::utf8::encode_utf8(s.text).len() as usize) as nat)
}

/// The events that close a stream.
pub open spec fn stream_closing(s: StreamView, input_tokens: i32) -> Seq<(Seq<char>, Json)> {
    let (i, o) = ResponsesStream::final_usage(s, input_tokens);
    let head: Seq<(Seq<char>, Json)> = if s.text.len() > 0 && s.message_added {
        seq![("response.output_item.done"@, message_done_json(s.text))]
    } else {
        Seq::empty()
    };
    head.push(("response.completed"@, completed_json(s.id, s.created_at, s.model, i, o)))
}

impl ResponsesStream {
    /// A fresh stream for the response `response_id` of `model`, created at `created_at`.
    pub fn new(response_id: String, created_at: i64, model: String) -> (s: Self)
        ensures
            s@ == (StreamView {
                id: response_id@,
                created_at,
                model: model@,
                created: false,
                message_added: false,
                text: Seq::empty(),
                tool_calls: Seq::empty(),
                usage: None,
                thinking_started: false,
            }),
    {
        let s = ResponsesStream {
            response_id,
            created_at,
            model,
            emitted_created: false,
            emitted_message_added: false,
            accumulated_text: String::new(),
            tool_calls: Vec::new(),
            usage: None,
            thinking_started: false,
        };
        assert(tools_uses_view(s.tool_calls@) =~= Seq::<ToolUseView>::empty());
        s
    }

    /// Handles one parsed event: updates the state and returns the events to send
    /// (none when the list is empty).
    pub fn on_event(&mut self, event: ParsedEvent) -> (lines: Vec<SseEvent>)
        ensures
            (final(self)@, events_view(lines@)) == stream_step(old(self)@, event@),
    {
        let ghost s0 = self@;
        let ghost ev = event@;
        let mut lines: Vec<SseEvent> = Vec::new();
        assert(events_view(lines@) =~= Seq::<(Seq<char>, Json)>::empty());
        if !self.emitted_created {
            self.emitted_created = true;
            let e = created_event(self.response_id.as_str(), self.created_at, self.model.as_str());
            push_event(&mut lines, e);
        } else {
            self.emitted_created = true;
        }
        let ParsedEvent { event_type, content, thinking_content, tool_use, usage } = event;
        if str_eq(event_type.as_str(), "content") {
            if let Some(c) = content {
                if !self.emitted_message_added {
                    self.emitted_message_added = true;
                    push_event(&mut lines, message_added_event());
                }
                push_str(&mut self.accumulated_text, c.as_str());
                push_event(&mut lines, text_delta_event(c.as_str()));
            }
        } else if str_eq(event_type.as_str(), "thinking") {
            if let Some(t) = thinking_content {
                push_str(&mut self.accumulated_text, t.as_str());
                if !self.thinking_started {
                    self.thinking_started = true;
                    push_event(&mut lines, reasoning_added_event());
                }
                push_event(&mut lines, reasoning_delta_event(t.as_str()));
            }
        } else if str_eq(event_type.as_str(), "tool_use") {
            if let Some(tool) = tool_use {
                let arguments = tool.input.to_text();
                push_event(&mut lines, call_added_event(&tool));
                if !arguments.as_str().is_empty() && !str_eq(arguments.as_str(), "null") {
                    push_event(&mut lines, args_delta_event(&tool, arguments.as_str()));
                }
                push_event(&mut lines, call_done_event(&tool, arguments.as_str()));
                let ghost tv = tool@;
                let ghost before = self.tool_calls@;
                self.tool_calls.push(tool);
                assert(tools_uses_view(self.tool_calls@) =~= tools_uses_view(before).push(tv));
            }
        } else if str_eq(event_type.as_str(), "usage") {
            self.usage = usage;
        }
        lines
    }

    /// The token counts the closing event reports: the stream's usage when one was
    /// received, else the request's input estimate and the output estimate.
    pub open spec fn final_usage(s: StreamView, input_tokens: i32) -> (int, int) {
        let est = output_estimate(s);
        match s.usage {
            Some((i, o)) => (i as int, o as int),
            None => (input_tokens as int, est),
        }
    }

    /// Closes the stream: the assistant message is closed if it was opened and has
    /// text, then `response.completed` is sent. Also returns the output token
    /// estimate of the accumulated text.
    pub fn finish(&self, input_tokens: i32) -> (r: (Vec<SseEvent>, i32))
        requires
            i32::MIN <= Self::final_usage(self@, input_tokens).0 + Self::final_usage(
                self@,
                input_tokens,
            ).1 <= i32::MAX,
        ensures
            events_view(r.0@) == stream_closing(self@, input_tokens),
            r.1 == output_estimate(self@),
    {
        let output_tokens = count_tokens(self.accumulated_text.as_str(), false);
        let (in_tok, out_tok) = match &self.usage {
            Some(u) => (u.input_tokens, u.output_tokens),
            None => (input_tokens, output_tokens),
        };
        let mut lines: Vec<SseEvent> = Vec::new();
        assert(events_view(lines@) =~= Seq::<(Seq<char>, Json)>::empty());
        if !self.accumulated_text.as_str().is_empty() && self.emitted_message_added {
            push_event(&mut lines, message_done_event(self.accumulated_text.as_str()));
        }
        push_event(
            &mut lines,
            completed_event(self.response_id.as_str(), self.created_at, self.model.as_str(), in_tok, out_tok),
        );
        (lines, output_tokens)
    }

    /// The `response.failed` event sent in place of an event that could not be read.
    pub fn on_error(&self, message: &str) -> (e: SseEvent)
        ensures
            e@ == ("response.failed"@, failed_json(self.response_id@, message@)),
    {
        failed_event(self.response_id.as_str(), message)
    }
}

} // verus!

verus! {

// ---------------------------------------------------------------------------
// A whole stream
// ---------------------------------------------------------------------------

/// The models of a list of parsed events.
pub open spec fn events_seq_view(v: Seq<ParsedEvent>) -> Seq<EventView> {
    Seq::new(v.len(), |i: int| v[i]@)
}

/// The state a stream starts in.
pub open spec fn fresh_stream(id: Seq<char>, created_at: i64, model: Seq<char>) -> StreamView {
    StreamView {
        id,
        created_at,
        model,
        created: false,
        message_added: false,
        text: Seq::empty(),
        tool_calls: Seq::empty(),
        usage: None,
        thinking_started: false,
    }
}

/// The Responses API stream for the parsed Kiro events of one response: the
/// events sent for each parsed event in turn, then the closing events (see
/// [`whole_stream`]); also the output token estimate of the accumulated text.
pub fn stream_kiro_to_responses(
    response_id: String,
    created_at: i64,
    model: String,
    events: Vec<ParsedEvent>,
    input_tokens: i32,
) -> (r: (Vec<SseEvent>, i32))
    requires
        i32::MIN <= ResponsesStream::final_usage(
            stream_events(fresh_stream(response_id@, created_at, model@), events_seq_view(events@)).0,
            input_tokens,
        ).0 + ResponsesStream::final_usage(
            stream_events(fresh_stream(response_id@, created_at, model@), events_seq_view(events@)).0,
            input_tokens,
        ).1 <= i32::MAX,
    ensures
        events_view(r.0@) == whole_stream(
            fresh_stream(response_id@, created_at, model@),
            events_seq_view(events@),
            input_tokens,
        ),
        r.1 == output_estimate(
            stream_events(fresh_stream(response_id@, created_at, model@), events_seq_view(events@)).0,
        ),
{
    let ghost evs = events_seq_view(events@);
    let ghost s0 = fresh_stream(response_id@, created_at, model@);
    let ghost n = evs.len();
    let mut stream = ResponsesStream::new(response_id, created_at, model);
    let mut out: Vec<SseEvent> = Vec::new();
    let mut events = events;
    let mut j: usize = 0;
    let total = events.len();
    assert(n == total);
    assert(evs.take(0) =~= Seq::<EventView>::empty());
    assert(events_view(out@) =~= Seq::<(Seq<char>, Json)>::empty());
    assert(events_seq_view(events@) =~= evs.subrange(0, n as int));
    while events.len() > 0
        invariant
            n == evs.len(),
            n <= usize::MAX,
            j + events@.len() == n,
            j <= n,
            events_seq_view(events@) == evs.subrange(j as int, n as int),
            stream@ == stream_events(s0, evs.take(j as int)).0,
            events_view(out@) == stream_events(s0, evs.take(j as int)).1,
        decreases events.len(),
    {
        let ghost rest = events@;
        let e = events.remove(0);
        assert(e == rest[0]);
        assert(events_seq_view(rest).len() == rest.len());
        assert(events_seq_view(rest)[0] == e@);
        assert(evs.subrange(j as int, n as int)[0] == evs[j as int]);
        assert(e@ == evs[j as int]);
        assert(events_seq_view(events@) =~= evs.subrange(j + 1, n as int)) by {
            assert(events@ =~= rest.subrange(1, rest.len() as int));
            assert forall|k: int| 0 <= k < events@.len() implies events_seq_view(events@)[k] == evs[j + 1 + k] by {
                assert(events@[k] == rest[k + 1]);
                assert(events_seq_view(rest)[k + 1] == rest[k + 1]@);
                assert(evs.subrange(j as int, n as int)[k + 1] == evs[j + 1 + k]);
            }
        }
        let mut lines = stream.on_event(e);
        let ghost before = out@;
        let ghost added = lines@;
        out.append(&mut lines);
        assert(events_view(out@) =~= events_view(before) + events_view(added));
        assert(evs.take(j + 1).drop_last() =~= evs.take(j as int));
        assert(evs.take(j + 1).last() == evs[j as int]);
        j += 1;
    }
    assert(evs.take(n as int) =~= evs);
    let (mut closing, estimate) = stream.finish(input_tokens);
    let ghost before = out@;
    let ghost added = closing@;
    out.append(&mut closing);
    assert(events_view(out@) =~= events_view(before) + events_view(added));
    (out, estimate)
}

// ---------------------------------------------------------------------------
// Collected (non-streaming) response
// ---------------------------------------------------------------------------

/// What a non-streaming response gathers from the stream.
pub struct CollectedResponse {
    pub full_content: String,
    pub tool_calls: Vec<ToolUse>,
    pub usage: Option<Usage>,
}

/// What one event adds to a collected response: content is appended, a tool
/// use is listed, a present usage replaces the earlier one; other events, and
/// events without their payload, change nothing.
pub open spec fn collect_step(
    c: (Seq<char>, Seq<ToolUse>, Option<(i32, i32)>),
    e: ParsedEvent,
) -> (Seq<char>, Seq<ToolUse>, Option<(i32, i32)>) {
    if e.event_type@ == "content"@ {
        match e.content {
            Some(t) => (c.0 + t@, c.1, c.2),
            None => c,
        }
    } else if e.event_type@ == "tool_use"@ {
        match e.tool_use {
            Some(t) => (c.0, c.1.push(t), c.2),
            None => c,
        }
    } else if e.event_type@ == "usage"@ {
        match e.usage {
            Some(u) => (c.0, c.1, Some(u@)),
            None => c,
        }
    } else {
        c
    }
}

impl CollectedResponse {
    /// Nothing gathered yet.
    pub fn new() -> (c: Self)
        ensures
            c.full_content@ == Seq::<char>::empty(),
            c.tool_calls@.len() == 0,
            c.usage is None,
    {
        CollectedResponse { full_content: String::new(), tool_calls: Vec::new(), usage: None }
    }

    /// Gathers one event: content is appended, tool uses are listed, a usage
    /// that is present replaces the earlier one; other events are ignored.
    pub fn add_event(&mut self, event: ParsedEvent)
        ensures
            (final(self).full_content@, final(self).tool_calls@, usage_view(final(self).usage))
                == collect_step(
                (old(self).full_content@, old(self).tool_calls@, usage_view(old(self).usage)),
                event,
            ),
    {
        let ParsedEvent { event_type, content, thinking_content: _, tool_use, usage } = event;
        if str_eq(event_type.as_str(), "content") {
            if let Some(c) = content {
                push_str(&mut self.full_content, c.as_str());
            }
        } else if str_eq(event_type.as_str(), "tool_use") {
            if let Some(t) = tool_use {
                self.tool_calls.push(t);
            }
        } else if str_eq(event_type.as_str(), "usage") {
            if let Some(u) = usage {
                self.usage = Some(u);
            }
        }
    }
}

/// The output items of a collected response: the assistant message when there
/// is content, then one function call item per tool use.
pub open spec fn collected_output(content: Seq<char>, tools: Seq<ToolUseView>) -> Seq<Json>
    decreases tools.len(),
{
    if tools.len() == 0 {
        if content.len() > 0 {
            seq![message_item_json(content)]
        } else {
            Seq::empty()
        }
    } else {
        collected_output(content, tools.drop_last()).push(
            call_item_json(tools.last(), crate::json::json_text(tools.last().input)),
        )
    }
}

/// The body of a non-streaming Responses API response.
pub open spec fn collected_body(
    id: Seq<char>,
    created_at: i64,
    model: Seq<char>,
    content: Seq<char>,
    tools: Seq<ToolUseView>,
    usage: Option<(i32, i32)>,
    input_tokens: i32,
) -> Json {
    let (i, o) = match usage {
        Some((a, b)) => (a as int, b as int),
        None => (input_tokens as int, 0int),
    };
    Json::Object(
        seq![
            ("id"@, Json::Str(id)),
            ("object"@, Json::Str("response"@)),
            ("created_at"@, Json::Number(int_text(created_at as int))),
            ("status"@, Json::Str("completed"@)),
            ("model"@, Json::Str(model)),
            ("output"@, Json::Array(collected_output(content, tools))),
            (
                "usage"@,
                Json::Object(
                    seq![
                        ("input_tokens"@, Json::Number(int_text(i))),
                        ("output_tokens"@, Json::Number(int_text(o))),
                        ("total_tokens"@, Json::Number(int_text(i + o))),
                    ],
                ),
            ),
        ],
    )
}

/// Builds the body of a non-streaming response from what was gathered. The
/// tool uses are taken as given (the caller removes duplicates first).
#[verifier::loop_isolation(false)]
pub fn collect_responses_response(
    response_id: &str,
    created_at: i64,
    model: &str,
    full_content: &str,
    tool_calls: &Vec<ToolUse>,
    usage: &Option<Usage>,
    input_tokens: i32,
) -> (body: JsonValue)
    requires
        usage matches Some(u) ==> i32::MIN <= u.input_tokens + u.output_tokens <= i32::MAX,
    ensures
        body.model() == collected_body(
            response_id@,
            created_at,
            model@,
            full_content@,
            tools_uses_view(tool_calls@),
            usage_view(*usage),
            input_tokens,
        ),
{
    let ghost tv = tools_uses_view(tool_calls@);
    let mut output: Vec<JsonValue> = Vec::new();
    if !full_content.is_empty() {
        output.push(message_item(full_content));
    }
    assert(tv.take(0) =~= Seq::<ToolUseView>::empty());
    assert(models(output@) =~= collected_output(full_content@, tv.take(0)));
    let mut i: usize = 0;
    while i < tool_calls.len()
        invariant
            i <= tool_calls@.len(),
            models(output@) == collected_output(full_content@, tv.take(i as int)),
        decreases tool_calls.len() - i,
    {
        let tool = &tool_calls[i];
        let arguments = tool.input.to_text();
        let item = call_item(tool, arguments.as_str());
        let ghost before = output@;
        output.push(item);
        assert(tv.take(i + 1).drop_last() =~= tv.take(i as int));
        assert(tv.take(i + 1).last() == tool@);
        assert(models(output@) =~= models(before).push(item.model()));
        i += 1;
    }
    assert(tv.take(tool_calls.len() as int) =~= tv);
    let (in_tok, out_tok) = match usage {
        Some(u) => (u.input_tokens, u.output_tokens),
        None => (input_tokens, 0i32),
    };
    assert(i32::MIN <= in_tok + out_tok <= i32::MAX);
    let mut u = entries();
    push_entry(&mut u, "input_tokens", json_int(in_tok as i64));
    push_entry(&mut u, "output_tokens", json_int(out_tok as i64));
    push_entry(&mut u, "total_tokens", json_int((in_tok + out_tok) as i64));
    let ghost um = entry_models(u@);
    let ghost om = models(output@);
    let mut top = entries();
    push_entry(&mut top, "id", json_str(response_id));
    push_entry(&mut top, "object", json_str("response"));
    push_entry(&mut top, "created_at", json_int(created_at));
    push_entry(&mut top, "status", json_str("completed"));
    push_entry(&mut top, "model", json_str(model));
    push_entry(&mut top, "output", array(output));
    push_entry(&mut top, "usage", object(u));
    assert(um =~= seq![
        ("input_tokens"@, Json::Number(int_text(in_tok as int))),
        ("output_tokens"@, Json::Number(int_text(out_tok as int))),
        ("total_tokens"@, Json::Number(int_text(in_tok + out_tok))),
    ]);
    assert(entry_models(top@) =~= collected_body(
        response_id@,
        created_at,
        model@,
        full_content@,
        tv,
        usage_view(*usage),
        input_tokens,
    )->Object_0);
    object(top)
}

} // verus!
