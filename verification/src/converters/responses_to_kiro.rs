//! Conversion of OpenAI Responses API input items and tools into the unified
//! conversation.

use vstd::prelude::*;
use crate::converters::unified::{
    calls_view, lemma_calls_view, lemma_messages_view, lemma_results_view, lemma_tools_view,
    messages_view, results_view, tools_view, MessageContent, MessageView, ToolCall, ToolCallView,
    ToolFunction, ToolResult, ToolResultView, ToolView, UnifiedMessage, UnifiedTool,
};
use crate::json::{models, Json, JsonValue};
use crate::models::responses::ResponsesApiRequest;
use crate::text::{concat, owned, push_str, str_eq};

verus! {

// ---------------------------------------------------------------------------
// Text of a content value
// ---------------------------------------------------------------------------

/// Content part types whose `text` is kept.
pub open spec fn is_text_part_type(t: Seq<char>) -> bool {
    t == "input_text"@ || t == "output_text"@ || t == "text"@
}

/// The text a content part contributes.
pub open spec fn text_part(item: Json) -> Seq<char> {
    if is_text_part_type(item.str_or("type"@, ""@)) {
        item.str_or("text"@, ""@)
    } else {
        Seq::empty()
    }
}

/// The concatenated text of content parts.
pub open spec fn text_parts(items: Seq<Json>) -> Seq<char>
    decreases items.len(),
{
    if items.len() == 0 {
        Seq::empty()
    } else {
        text_parts(items.drop_last()) + text_part(items.last())
    }
}

/// The text of a content value: a string as is, an array by its text parts.
pub open spec fn content_text(content: Json) -> Seq<char> {
    match content {
        Json::Str(s) => s,
        Json::Array(items) => text_parts(items),
        _ => Seq::empty(),
    }
}

fn is_text_part(t: &String) -> (r: bool)
    ensures
        r == is_text_part_type(t@),
{
    str_eq(t.as_str(), "input_text") || str_eq(t.as_str(), "output_text") || str_eq(
        t.as_str(),
        "text",
    )
}

#[verifier::loop_isolation(false)]
fn extract_text_from_response_content(content: &JsonValue) -> (r: String)
    ensures
        r@ == content_text(content.model()),
{
    if let Some(text) = content.as_str() {
        return text.clone();
    }
    if let Some(arr) = content.as_array() {
        let mut out = String::new();
        let mut i: usize = 0;
        let ghost ms = models(arr@);
        assert(ms.take(0) =~= Seq::<Json>::empty());
        while i < arr.len()
            invariant
                i <= arr.len(),
                out@ == text_parts(ms.take(i as int)),
            decreases arr.len() - i,
        {
            let item = &arr[i];
            let t = item.str_or("type", "");
            if is_text_part(&t) {
                let x = item.str_or("text", "");
                push_str(&mut out, x.as_str());
            }
            assert(ms.take(i + 1).drop_last() =~= ms.take(i as int));
            assert(ms.take(i + 1).last() == item.model());
            i += 1;
        }
        assert(ms.take(arr.len() as int) =~= ms);
        return out;
    }
    String::new()
}

// ---------------------------------------------------------------------------
// Input items
// ---------------------------------------------------------------------------

/// The tool call an input item describes; its arguments come from `args_key`.
pub open spec fn call_of(item: Json, args_key: Seq<char>) -> ToolCallView {
    ToolCallView {
        id: item.str_or("call_id"@, ""@),
        call_type: "function"@,
        name: item.str_or("name"@, ""@),
        arguments: item.str_or(args_key, "{}"@),
    }
}

/// The tool result an output item describes; an empty output reads "(empty result)".
pub open spec fn result_of(item: Json) -> ToolResultView {
    let output = item.str_or("output"@, "(empty result)"@);
    ToolResultView {
        result_type: "tool_result"@,
        tool_use_id: item.str_or("call_id"@, ""@),
        content: if output.len() == 0 {
            "(empty result)"@
        } else {
            output
        },
    }
}

/// `m` with `tc` appended to its tool calls.
pub open spec fn with_call(m: MessageView, tc: ToolCallView) -> MessageView {
    MessageView {
        role: m.role,
        text: m.text,
        tool_calls: Some(
            match m.tool_calls {
                Some(cs) => cs.push(tc),
                None => seq![tc],
            },
        ),
        tool_results: m.tool_results,
    }
}

/// `m` with `tr` appended to its tool results.
pub open spec fn with_result(m: MessageView, tr: ToolResultView) -> MessageView {
    MessageView {
        role: m.role,
        text: m.text,
        tool_calls: m.tool_calls,
        tool_results: Some(
            match m.tool_results {
                Some(rs) => rs.push(tr),
                None => seq![tr],
            },
        ),
    }
}

/// A new assistant message carrying one tool call.
pub open spec fn call_message(tc: ToolCallView) -> MessageView {
    MessageView { role: "assistant"@, text: Seq::empty(), tool_calls: Some(seq![tc]), tool_results: None }
}

/// A new user message carrying one tool result.
pub open spec fn result_message(tr: ToolResultView) -> MessageView {
    MessageView { role: "user"@, text: Seq::empty(), tool_calls: None, tool_results: Some(seq![tr]) }
}

/// The conversation after one more input item. Messages are appended; a
/// `function_call` joins a preceding assistant message; a tool output joins a
/// preceding user message that already holds results; a `custom_tool_call` joins
/// a preceding assistant message that already holds calls; other types are skipped.
/// The message a `message` item gives: its role (`user` when it has none) and
/// the text of its content, with no tool calls or results.
pub open spec fn message_of(item: Json) -> MessageView {
    MessageView {
        role: item.str_or("role"@, "user"@),
        text: match item.get("content"@) {
            Some(c) => content_text(c),
            None => Seq::empty(),
        },
        tool_calls: None,
        tool_results: None,
    }
}

pub open spec fn unify_step(msgs: Seq<MessageView>, item: Json) -> Seq<MessageView> {
    let ty = item.str_or("type"@, ""@);
    if ty == "message"@ {
        msgs.push(message_of(item))
    } else if ty == "function_call"@ {
        let tc = call_of(item, "arguments"@);
        if msgs.len() > 0 && msgs.last().role == "assistant"@ {
            msgs.drop_last().push(with_call(msgs.last(), tc))
        } else {
            msgs.push(call_message(tc))
        }
    } else if ty == "function_call_output"@ || ty == "custom_tool_call_output"@ {
        let tr = result_of(item);
        if msgs.len() > 0 && msgs.last().role == "user"@ && msgs.last().tool_results is Some {
            msgs.drop_last().push(with_result(msgs.last(), tr))
        } else {
            msgs.push(result_message(tr))
        }
    } else if ty == "custom_tool_call"@ {
        let tc = call_of(item, "input"@);
        if msgs.len() > 0 && msgs.last().role == "assistant"@ && msgs.last().tool_calls is Some {
            msgs.drop_last().push(with_call(msgs.last(), tc))
        } else {
            msgs.push(call_message(tc))
        }
    } else {
        msgs
    }
}

/// The conversation described by a list of input items.
pub open spec fn unify_input(items: Seq<Json>) -> Seq<MessageView>
    decreases items.len(),
{
    if items.len() == 0 {
        Seq::empty()
    } else {
        unify_step(unify_input(items.drop_last()), items.last())
    }
}

/// Whether an input item's `type` is one the conversion reads: a message, a
/// function call or custom tool call, or the output of either.
pub open spec fn known_input_item() -> spec_fn(Json) -> bool {
    |item: Json|
        {
            let ty = item.str_or("type"@, ""@);
            ty == "message"@ || ty == "function_call"@ || ty == "function_call_output"@ || ty
                == "custom_tool_call_output"@ || ty == "custom_tool_call"@
        }
}

/// Input items of any other type change nothing: the conversation of a list of
/// items is that of the list with those items removed.
pub proof fn law_unknown_items_change_nothing(items: Seq<Json>)
    ensures
        unify_input(items) == unify_input(items.filter(known_input_item())),
    decreases items.len(),
{
    if items.len() == 0 {
        reveal(Seq::filter);
    } else {
        let d = items.drop_last();
        let x = items.last();
        law_unknown_items_change_nothing(d);
        assert(d.push(x) =~= items);
        d.lemma_filter_push(x, known_input_item());
        let f = d.filter(known_input_item());
        if known_input_item()(x) {
            assert(f.push(x).drop_last() =~= f);
            assert(unify_input(f.push(x)) == unify_step(unify_input(f), x));
        } else {
            assert(unify_step(unify_input(d), x) == unify_input(d));
        }
    }
}

/// Each `message` item yields one message, in order: a list of `message` items
/// gives one message per item, with that item's role and text.
pub proof fn law_message_items_one_each(items: Seq<Json>)
    requires
        forall|i: int| 0 <= i < items.len() ==> #[trigger] items[i].str_or("type"@, ""@) == "message"@,
    ensures
        unify_input(items).len() == items.len(),
        forall|i: int| 0 <= i < items.len() ==> #[trigger] unify_input(items)[i] == message_of(items[i]),
    decreases items.len(),
{
    if items.len() > 0 {
        let d = items.drop_last();
        assert forall|i: int| 0 <= i < d.len() implies #[trigger] d[i].str_or("type"@, ""@) == "message"@ by {
            assert(d[i] == items[i]);
        }
        law_message_items_one_each(d);
        assert(items.last().str_or("type"@, ""@) == "message"@);
        assert forall|i: int| 0 <= i < items.len() implies #[trigger] unify_input(items)[i] == message_of(items[i]) by {
            if i < d.len() {
                assert(unify_input(d)[i] == message_of(d[i]));
                assert(d[i] == items[i]);
            }
        }
    }
}

/// A message item gives one message with the item's role (`user` when it has
/// none) and, when its content is a string, exactly that string as its text.
pub proof fn law_message_role_and_string_content(item: Json)
    requires
        item.get_str("type"@) == Some("message"@),
    ensures
        unify_input(seq![item]).len() == 1,
        unify_input(seq![item])[0].role == match item.get_str("role"@) {
            Some(r) => r,
            None => "user"@,
        },
        item.get("content"@) matches Some(Json::Str(x)) ==> unify_input(seq![item])[0].text == x,
        unify_input(seq![item])[0].tool_calls is None && unify_input(seq![item])[0].tool_results is None,
{
    let one = seq![item];
    assert(one.drop_last() =~= Seq::<Json>::empty());
    assert(one.last() == item);
    assert(unify_input(Seq::<Json>::empty()) == Seq::<MessageView>::empty());
    assert(unify_input(one) == unify_step(Seq::empty(), item));
}

/// The `text` members of content parts, in order.
pub open spec fn part_texts(parts: Seq<Json>) -> Seq<Seq<char>> {
    Seq::new(parts.len(), |i: int| parts[i].get_str("text"@).unwrap())
}

proof fn lemma_text_parts_join(parts: Seq<Json>)
    requires
        forall|i: int|
            0 <= i < parts.len() ==> (#[trigger] parts[i].get_str("type"@) == Some("input_text"@) || parts[i].get_str(
                "type"@,
            ) == Some("output_text"@) || parts[i].get_str("type"@) == Some("text"@)) && parts[i].get_str("text"@) is Some,
    ensures
        text_parts(parts) == part_texts(parts).flatten_alt(),
    decreases parts.len(),
{
    if parts.len() > 0 {
        let d = parts.drop_last();
        assert forall|i: int|
            0 <= i < d.len() implies (#[trigger] d[i].get_str("type"@) == Some("input_text"@) || d[i].get_str("type"@)
            == Some("output_text"@) || d[i].get_str("type"@) == Some("text"@)) && d[i].get_str("text"@) is Some by {
            assert(d[i] == parts[i]);
        }
        lemma_text_parts_join(d);
        assert(part_texts(parts).drop_last() =~= part_texts(d));
        let last = parts.last();
        assert(last.get_str("type"@) == Some("input_text"@) || last.get_str("type"@) == Some("output_text"@)
            || last.get_str("type"@) == Some("text"@));
        assert(text_part(last) == last.get_str("text"@).unwrap());
    }
}

/// A message whose content is a list of text parts (`input_text`,
/// `output_text` or `text`, each with a string `text`) carries the
/// concatenation of those texts, in order: no part's text is lost.
pub proof fn law_message_text_joins_text_parts(item: Json, parts: Seq<Json>)
    requires
        item.get_str("type"@) == Some("message"@),
        item.get("content"@) == Some(Json::Array(parts)),
        forall|i: int|
            0 <= i < parts.len() ==> (#[trigger] parts[i].get_str("type"@) == Some("input_text"@) || parts[i].get_str(
                "type"@,
            ) == Some("output_text"@) || parts[i].get_str("type"@) == Some("text"@)) && parts[i].get_str("text"@) is Some,
    ensures
        unify_input(seq![item]).len() == 1,
        unify_input(seq![item])[0].text == part_texts(parts).flatten(),
{
    lemma_text_parts_join(parts);
    part_texts(parts).lemma_flatten_and_flatten_alt_are_equivalent();
    let one = seq![item];
    assert(one.drop_last() =~= Seq::<Json>::empty());
    assert(one.last() == item);
    assert(unify_input(Seq::<Json>::empty()) == Seq::<MessageView>::empty());
    assert(unify_input(one) == unify_step(Seq::empty(), item));
}

fn make_call(item: &JsonValue, args_key: &str) -> (tc: ToolCall)
    ensures
        tc@ == call_of(item.model(), args_key@),
{
    let name = item.str_or("name", "");
    let arguments = item.str_or(args_key, "{}");
    let call_id = item.str_or("call_id", "");
    ToolCall {
        id: call_id,
        call_type: owned("function"),
        function: ToolFunction { name, arguments },
    }
}

fn make_result(item: &JsonValue) -> (tr: ToolResult)
    ensures
        tr@ == result_of(item.model()),
{
    let call_id = item.str_or("call_id", "");
    let output = item.str_or("output", "(empty result)");
    ToolResult {
        result_type: owned("tool_result"),
        tool_use_id: call_id,
        content: if output.as_str().is_empty() {
            owned("(empty result)")
        } else {
            output
        },
    }
}

/// Appends a tool call to the last message, which must exist.
fn append_call_to_last(messages: &mut Vec<UnifiedMessage>, tc: ToolCall)
    requires
        old(messages)@.len() > 0,
    ensures
        messages_view(final(messages)@) == messages_view(old(messages)@).drop_last().push(
            with_call(messages_view(old(messages)@).last(), tc@),
        ),
{
    let ghost tcv = tc@;
    proof {
        lemma_messages_view(old(messages)@, old(messages)@.last());
    }
    let last = messages.pop().unwrap();
    let ghost lastv = last@;
    let UnifiedMessage { role, content, tool_calls, tool_results } = last;
    let ghost old_calls = tool_calls;
    let calls = match tool_calls {
        Some(mut cs) => {
            proof {
                lemma_calls_view(cs@, tc);
            }
            cs.push(tc);
            cs
        },
        None => {
            proof {
                lemma_calls_view(Seq::empty(), tc);
            }
            vec![tc]
        },
    };
    assert(Some(calls_view(calls@)) == with_call(lastv, tcv).tool_calls);
    let m = UnifiedMessage { role, content, tool_calls: Some(calls), tool_results };
    proof {
        lemma_messages_view(messages@, m);
        assert(m@ == with_call(lastv, tcv));
    }
    messages.push(m);
}

/// Appends a tool result to the last message, which must exist.
fn append_result_to_last(messages: &mut Vec<UnifiedMessage>, tr: ToolResult)
    requires
        old(messages)@.len() > 0,
    ensures
        messages_view(final(messages)@) == messages_view(old(messages)@).drop_last().push(
            with_result(messages_view(old(messages)@).last(), tr@),
        ),
{
    proof {
        lemma_messages_view(old(messages)@, old(messages)@.last());
    }
    let last = messages.pop().unwrap();
    let ghost lastv = last@;
    let ghost trv = tr@;
    let UnifiedMessage { role, content, tool_calls, tool_results } = last;
    let results = match tool_results {
        Some(mut rs) => {
            proof {
                lemma_results_view(rs@, tr);
            }
            rs.push(tr);
            rs
        },
        None => {
            proof {
                lemma_results_view(Seq::empty(), tr);
            }
            vec![tr]
        },
    };
    assert(Some(results_view(results@)) == with_result(lastv, trv).tool_results);
    let m = UnifiedMessage { role, content, tool_calls, tool_results: Some(results) };
    proof {
        lemma_messages_view(messages@, m);
        assert(m@ == with_result(lastv, trv));
    }
    messages.push(m);
}

fn new_call_message(tc: ToolCall) -> (m: UnifiedMessage)
    ensures
        m@ == call_message(tc@),
{
    let ghost tcv = tc@;
    let mut calls: Vec<ToolCall> = Vec::new();
    calls.push(tc);
    assert(calls_view(calls@) =~= seq![tcv]);
    UnifiedMessage {
        role: owned("assistant"),
        content: MessageContent::Text(String::new()),
        tool_calls: Some(calls),
        tool_results: None,
    }
}

fn new_result_message(tr: ToolResult) -> (m: UnifiedMessage)
    ensures
        m@ == result_message(tr@),
{
    let ghost trv = tr@;
    let mut results: Vec<ToolResult> = Vec::new();
    results.push(tr);
    assert(results_view(results@) =~= seq![trv]);
    UnifiedMessage {
        role: owned("user"),
        content: MessageContent::Text(String::new()),
        tool_calls: None,
        tool_results: Some(results),
    }
}

fn push_message(messages: &mut Vec<UnifiedMessage>, m: UnifiedMessage)
    ensures
        messages_view(final(messages)@) == messages_view(old(messages)@).push(m@),
{
    proof {
        lemma_messages_view(messages@, m);
    }
    messages.push(m);
}

fn last_role_is(messages: &Vec<UnifiedMessage>, role: &str) -> (r: bool)
    ensures
        r == (messages@.len() > 0 && messages_view(messages@).last().role == role@),
{
    if messages.len() == 0 {
        return false;
    }
    proof {
        lemma_messages_view(messages@.drop_last(), messages@.last());
        assert(messages@.drop_last().push(messages@.last()) =~= messages@);
    }
    str_eq(messages[messages.len() - 1].role.as_str(), role)
}

/// Applies one input item to the conversation.
fn apply_input_item(messages: &mut Vec<UnifiedMessage>, item: &JsonValue)
    ensures
        messages_view(final(messages)@) == unify_step(messages_view(old(messages)@), item.model()),
{
    let ghost mv = messages_view(messages@);
    proof {
        if messages@.len() > 0 {
            lemma_messages_view(messages@.drop_last(), messages@.last());
            assert(messages@.drop_last().push(messages@.last()) =~= messages@);
        }
    }
    let item_type = item.str_or("type", "");
    if str_eq(item_type.as_str(), "message") {
        let role = item.str_or("role", "user");
        let content = match item.get("content") {
            Some(c) => extract_text_from_response_content(c),
            None => String::new(),
        };
        push_message(
            messages,
            UnifiedMessage {
                role,
                content: MessageContent::Text(content),
                tool_calls: None,
                tool_results: None,
            },
        );
    } else if str_eq(item_type.as_str(), "function_call") {
        let tc = make_call(item, "arguments");
        if last_role_is(messages, "assistant") {
            append_call_to_last(messages, tc);
        } else {
            push_message(messages, new_call_message(tc));
        }
    } else if str_eq(item_type.as_str(), "function_call_output") || str_eq(
        item_type.as_str(),
        "custom_tool_call_output",
    ) {
        let tr = make_result(item);
        let joins = last_role_is(messages, "user") && messages[messages.len()
            - 1].tool_results.is_some();
        assert(joins == (mv.len() > 0 && mv.last().role == "user"@ && mv.last().tool_results is Some));
        if joins {
            append_result_to_last(messages, tr);
        } else {
            push_message(messages, new_result_message(tr));
        }
    } else if str_eq(item_type.as_str(), "custom_tool_call") {
        let tc = make_call(item, "input");
        let joins = last_role_is(messages, "assistant") && messages[messages.len()
            - 1].tool_calls.is_some();
        assert(joins == (mv.len() > 0 && mv.last().role == "assistant"@ && mv.last().tool_calls is Some));
        if joins {
            append_call_to_last(messages, tc);
        } else {
            push_message(messages, new_call_message(tc));
        }
    }
}

/// Converts Responses API input items into unified messages.
#[verifier::loop_isolation(false)]
pub fn convert_responses_input_to_unified(input: &Vec<JsonValue>) -> (r: Vec<UnifiedMessage>)
    ensures
        messages_view(r@) == unify_input(models(input@)),
{
    let mut messages: Vec<UnifiedMessage> = Vec::new();
    let ghost ms = models(input@);
    assert(ms.take(0) =~= Seq::<Json>::empty());
    assert(messages_view(messages@) =~= Seq::<MessageView>::empty());
    let mut i: usize = 0;
    while i < input.len()
        invariant
            i <= input.len(),
            messages_view(messages@) == unify_input(ms.take(i as int)),
        decreases input.len() - i,
    {
        apply_input_item(&mut messages, &input[i]);
        assert(ms.take(i + 1).drop_last() =~= ms.take(i as int));
        assert(ms.take(i + 1).last() == input@[i as int].model());
        i += 1;
    }
    assert(ms.take(input.len() as int) =~= ms);
    messages
}

} // verus!

verus! {

// ---------------------------------------------------------------------------
// Tools
// ---------------------------------------------------------------------------

/// A function tool named `name`, with the tool's description and parameters.
pub open spec fn function_tool(t: Json, name: Seq<char>) -> ToolView {
    ToolView { name, description: t.get_str("description"@), input_schema: t.get("parameters"@) }
}

/// The function tools of a namespace, their names prefixed by the namespace name.
pub open spec fn namespace_tools(inner: Seq<Json>, ns: Seq<char>) -> Seq<ToolView>
    decreases inner.len(),
{
    if inner.len() == 0 {
        Seq::empty()
    } else {
        let prev = namespace_tools(inner.drop_last(), ns);
        let t = inner.last();
        if t.str_or("type"@, ""@) == "function"@ {
            prev.push(
                function_tool(
                    t,
                    if ns.len() == 0 {
                        t.str_or("name"@, ""@)
                    } else {
                        ns + t.str_or("name"@, ""@)
                    },
                ),
            )
        } else {
            prev
        }
    }
}

/// The tools after one more tool definition: functions are kept, namespaces are
/// flattened, other types are skipped.
pub open spec fn tool_step(acc: Seq<ToolView>, t: Json) -> Seq<ToolView> {
    let ty = t.str_or("type"@, ""@);
    if ty == "function"@ {
        acc.push(function_tool(t, t.str_or("name"@, ""@)))
    } else if ty == "namespace"@ {
        match t.get("tools"@) {
            Some(Json::Array(inner)) => acc + namespace_tools(inner, t.str_or("name"@, ""@)),
            _ => acc,
        }
    } else {
        acc
    }
}

/// The unified tools of a list of tool definitions.
pub open spec fn unify_tools(tools: Seq<Json>) -> Seq<ToolView>
    decreases tools.len(),
{
    if tools.len() == 0 {
        Seq::empty()
    } else {
        tool_step(unify_tools(tools.drop_last()), tools.last())
    }
}

fn make_tool(t: &JsonValue, name: String) -> (u: UnifiedTool)
    ensures
        u@ == function_tool(t.model(), name@),
{
    let description = match t.get_str("description") {
        Some(d) => Some(d.clone()),
        None => None,
    };
    let input_schema = match t.get("parameters") {
        Some(p) => Some(p.deep_clone()),
        None => None,
    };
    UnifiedTool { name, description, input_schema }
}

fn push_tool(out: &mut Vec<UnifiedTool>, u: UnifiedTool)
    ensures
        tools_view(final(out)@) == tools_view(old(out)@).push(u@),
{
    proof {
        lemma_tools_view(out@, u);
    }
    out.push(u);
}

#[verifier::loop_isolation(false)]
fn push_namespace_tools(out: &mut Vec<UnifiedTool>, inner: &Vec<JsonValue>, ns: &String)
    ensures
        tools_view(final(out)@) == tools_view(old(out)@) + namespace_tools(models(inner@), ns@),
{
    let ghost ms = models(inner@);
    let ghost start = tools_view(out@);
    let mut j: usize = 0;
    assert(ms.take(0) =~= Seq::<Json>::empty());
    assert(start + namespace_tools(ms.take(0), ns@) =~= start);
    while j < inner.len()
        invariant
            j <= inner.len(),
            tools_view(out@) == start + namespace_tools(ms.take(j as int), ns@),
        decreases inner.len() - j,
    {
        let t = &inner[j];
        assert(ms.take(j + 1).drop_last() =~= ms.take(j as int));
        assert(ms.take(j + 1).last() == t.model());
        let ty = t.str_or("type", "");
        if str_eq(ty.as_str(), "function") {
            let name = t.str_or("name", "");
            let full_name = if ns.as_str().is_empty() {
                name
            } else {
                concat(ns.as_str(), name.as_str())
            };
            let ghost before = tools_view(out@);
            push_tool(out, make_tool(t, full_name));
            assert(tools_view(out@) =~= start + namespace_tools(ms.take(j + 1), ns@));
        }
        j += 1;
    }
    assert(ms.take(inner.len() as int) =~= ms);
}

/// Converts Responses API tool definitions into unified tools; `None` when no
/// definition yields a tool.
#[verifier::loop_isolation(false)]
pub fn convert_responses_tools_to_unified(tools: &Vec<JsonValue>) -> (r: Option<Vec<UnifiedTool>>)
    ensures
        unify_tools(models(tools@)).len() == 0 ==> r is None,
        unify_tools(models(tools@)).len() > 0 ==> (r matches Some(v) && tools_view(v@)
            == unify_tools(models(tools@))),
{
    let ghost ms = models(tools@);
    if tools.len() == 0 {
        assert(ms =~= Seq::<Json>::empty());
        return None;
    }
    let mut unified: Vec<UnifiedTool> = Vec::new();
    let mut i: usize = 0;
    assert(ms.take(0) =~= Seq::<Json>::empty());
    assert(tools_view(unified@) =~= Seq::<ToolView>::empty());
    while i < tools.len()
        invariant
            i <= tools.len(),
            tools_view(unified@) == unify_tools(ms.take(i as int)),
        decreases tools.len() - i,
    {
        let t = &tools[i];
        assert(ms.take(i + 1).drop_last() =~= ms.take(i as int));
        assert(ms.take(i + 1).last() == t.model());
        let ty = t.str_or("type", "");
        if str_eq(ty.as_str(), "function") {
            let name = t.str_or("name", "");
            push_tool(&mut unified, make_tool(t, name));
        } else if str_eq(ty.as_str(), "namespace") {
            match t.get("tools") {
                Some(inner_value) => {
                    match inner_value.as_array() {
                        Some(inner) => {
                            let ns = t.str_or("name", "");
                            push_namespace_tools(&mut unified, inner, &ns);
                        },
                        None => {},
                    }
                },
                None => {},
            }
        }
        i += 1;
    }
    assert(ms.take(tools.len() as int) =~= ms);
    if unified.len() == 0 {
        None
    } else {
        Some(unified)
    }
}

} // verus!

verus! {

// ---------------------------------------------------------------------------
// Request
// ---------------------------------------------------------------------------

/// The unified conversation a Responses API request stands for, ready for the
/// Kiro payload builder.
pub struct UnifiedRequest {
    pub system_prompt: String,
    pub messages: Vec<UnifiedMessage>,
    pub tools: Option<Vec<UnifiedTool>>,
}

/// The system prompt of a request: its instructions, or empty.
pub open spec fn system_prompt_of(request: ResponsesApiRequest) -> Seq<char> {
    match request.instructions {
        Some(s) => s@,
        None => Seq::empty(),
    }
}

/// An empty user message, sent when only instructions are given.
pub open spec fn empty_user_message() -> MessageView {
    MessageView { role: "user"@, text: Seq::empty(), tool_calls: None, tool_results: None }
}

/// Converts a Responses API request into the unified conversation: the
/// instructions become the system prompt, the input items the messages and the
/// tool definitions the tools. A request with neither input items that yield
/// messages nor instructions is refused; instructions alone come with one empty
/// user message.
pub fn prepare_kiro_conversation(request: &ResponsesApiRequest) -> (r: Result<UnifiedRequest, String>)
    ensures
        (unify_input(models(request.input@)).len() == 0 && system_prompt_of(*request).len() == 0)
            <==> r is Err,
        r matches Err(e) ==> e@ == "No input items to send"@,
        r matches Ok(u) ==> {
            &&& u.system_prompt@ == system_prompt_of(*request)
            &&& messages_view(u.messages@) == if unify_input(models(request.input@)).len() == 0 {
                seq![empty_user_message()]
            } else {
                unify_input(models(request.input@))
            }
            &&& unify_tools(models(request.tools@)).len() == 0 ==> u.tools is None
            &&& unify_tools(models(request.tools@)).len() > 0 ==> (u.tools matches Some(t)
                && tools_view(t@) == unify_tools(models(request.tools@)))
        },
{
    let system_prompt = match &request.instructions {
        Some(s) => s.clone(),
        None => String::new(),
    };
    let unified_messages = convert_responses_input_to_unified(&request.input);
    let unified_tools = convert_responses_tools_to_unified(&request.tools);
    if unified_messages.len() == 0 && system_prompt.as_str().is_empty() {
        return Err(owned("No input items to send"));
    }
    let messages = if unified_messages.len() == 0 {
        let m = UnifiedMessage {
            role: owned("user"),
            content: MessageContent::Text(String::new()),
            tool_calls: None,
            tool_results: None,
        };
        let v = vec![m];
        assert(messages_view(v@) =~= seq![empty_user_message()]);
        v
    } else {
        unified_messages
    };
    Ok(UnifiedRequest { system_prompt, messages, tools: unified_tools })
}

/// Every function tool keeps its name, description and parameter schema: for a
/// list of `function` definitions the unified tools are one per definition, in
/// order, with the definition's `name`, `description` and `parameters`.
pub proof fn law_function_tools_keep_their_schema(tools: Seq<Json>)
    requires
        forall|i: int| 0 <= i < tools.len() ==> #[trigger] tools[i].get_str("type"@) == Some("function"@),
    ensures
        unify_tools(tools).len() == tools.len(),
        forall|i: int|
            0 <= i < tools.len() ==> (#[trigger] unify_tools(tools)[i]).input_schema == tools[i].get("parameters"@)
                && unify_tools(tools)[i].description == tools[i].get_str("description"@) && unify_tools(tools)[i].name
                == tools[i].str_or("name"@, ""@),
    decreases tools.len(),
{
    if tools.len() > 0 {
        let d = tools.drop_last();
        assert forall|i: int| 0 <= i < d.len() implies #[trigger] d[i].get_str("type"@) == Some("function"@) by {
            assert(d[i] == tools[i]);
        }
        law_function_tools_keep_their_schema(d);
        assert(tools.last().get_str("type"@) == Some("function"@));
        assert forall|i: int| 0 <= i < tools.len() implies (#[trigger] unify_tools(tools)[i]).input_schema
            == tools[i].get("parameters"@) && unify_tools(tools)[i].description == tools[i].get_str("description"@)
            && unify_tools(tools)[i].name == tools[i].str_or("name"@, ""@) by {
            if i < d.len() {
                assert(unify_tools(d)[i].input_schema == d[i].get("parameters"@));
                assert(d[i] == tools[i]);
            }
        }
    }
}

proof fn lemma_namespace_functions(inner: Seq<Json>, ns: Seq<char>)
    requires
        forall|i: int| 0 <= i < inner.len() ==> #[trigger] inner[i].get_str("type"@) == Some("function"@),
    ensures
        namespace_tools(inner, ns).len() == inner.len(),
        forall|i: int|
            0 <= i < inner.len() ==> (#[trigger] namespace_tools(inner, ns)[i]).input_schema == inner[i].get(
                "parameters"@,
            ) && namespace_tools(inner, ns)[i].description == inner[i].get_str("description"@),
    decreases inner.len(),
{
    if inner.len() > 0 {
        let d = inner.drop_last();
        assert forall|i: int| 0 <= i < d.len() implies #[trigger] d[i].get_str("type"@) == Some("function"@) by {
            assert(d[i] == inner[i]);
        }
        lemma_namespace_functions(d, ns);
        assert(inner.last().get_str("type"@) == Some("function"@));
        assert forall|i: int| 0 <= i < inner.len() implies (#[trigger] namespace_tools(inner, ns)[i]).input_schema
            == inner[i].get("parameters"@) && namespace_tools(inner, ns)[i].description == inner[i].get_str(
            "description"@,
        ) by {
            if i < d.len() {
                assert(namespace_tools(d, ns)[i].input_schema == d[i].get("parameters"@));
                assert(d[i] == inner[i]);
            }
        }
    }
}

/// The function tools inside a namespace keep their descriptions and parameter
/// schemas too: a namespace whose `tools` are all `function` definitions gives
/// one unified tool per definition, in order, with its `description` and
/// `parameters`.
pub proof fn law_namespace_tools_keep_their_schema(t: Json, inner: Seq<Json>)
    requires
        t.get_str("type"@) == Some("namespace"@),
        t.get("tools"@) == Some(Json::Array(inner)),
        forall|i: int| 0 <= i < inner.len() ==> #[trigger] inner[i].get_str("type"@) == Some("function"@),
    ensures
        unify_tools(seq![t]).len() == inner.len(),
        forall|i: int|
            0 <= i < inner.len() ==> (#[trigger] unify_tools(seq![t])[i]).input_schema == inner[i].get("parameters"@)
                && unify_tools(seq![t])[i].description == inner[i].get_str("description"@),
{
    lemma_namespace_functions(inner, t.str_or("name"@, ""@));
    let one = seq![t];
    assert(one.drop_last() =~= Seq::<Json>::empty());
    assert(one.last() == t);
    assert(unify_tools(Seq::<Json>::empty()) == Seq::<ToolView>::empty());
    assert(unify_tools(one) == tool_step(Seq::empty(), t));
    reveal_strlit("function");
    reveal_strlit("namespace");
    assert("function"@[0] != "namespace"@[0]);
    assert(Seq::<ToolView>::empty() + namespace_tools(inner, t.str_or("name"@, ""@)) =~= namespace_tools(
        inner,
        t.str_or("name"@, ""@),
    ));
}

} // verus!
