//! Conversion of complete Kiro responses to OpenAI chat completions.

use vstd::prelude::*;
use crate::ids::unix_now;
use crate::json::{json_text, Json, JsonValue};
use crate::models::kiro::{ContentBlock, KiroResponse, ToolUse};
use crate::models::openai::{
    ChatCompletionChoice, ChatCompletionResponse, ChatCompletionUsage, ChatMessage, FunctionCall, ToolCall,
};
use crate::text::{owned, push_str};

verus! {

/// The text of a content block.
pub open spec fn block_text(b: ContentBlock) -> Seq<char> {
    match b {
        ContentBlock::Text { text } => text@,
    }
}

/// The texts of content blocks, joined with nothing between them.
pub open spec fn blocks_text(blocks: Seq<ContentBlock>) -> Seq<char>
    decreases blocks.len(),
{
    if blocks.len() == 0 {
        Seq::empty()
    } else {
        blocks_text(blocks.drop_last()) + block_text(blocks.last())
    }
}

/// Whether an OpenAI tool call stands for a Kiro tool use: same id and name,
/// type `function`, and the input's compact JSON text as arguments.
pub open spec fn call_matches(c: ToolCall, u: ToolUse) -> bool {
    &&& c.id@ == u.tool_use_id@
    &&& c.tool_type@ == "function"@
    &&& c.function.name@ == u.name@
    &&& c.function.arguments@ == json_text(u.input.model())
}

/// Whether the Kiro response called any tool.
pub open spec fn has_tool_calls(k: KiroResponse) -> bool {
    k.assistant_response_message.tool_uses matches Some(u) && u@.len() > 0
}

/// Whether `r` is the OpenAI form of the Kiro response `k` (its creation time
/// aside): one assistant choice holding the joined text as a string, the tool
/// uses as `function` tool calls (none when there are none), finish reason
/// `tool_calls` or `stop` accordingly, and the Kiro usage (zeros when absent)
/// with its total.
pub open spec fn openai_response_ok(k: KiroResponse, model: Seq<char>, request_id: Seq<char>, r: ChatCompletionResponse) -> bool {
    let msg = k.assistant_response_message;
    let c = r.choices@[0];
    let (pin, pout) = match k.usage {
        Some(u) => (u.input_tokens as int, u.output_tokens as int),
        None => (0int, 0int),
    };
    &&& r.id@ == request_id
    &&& r.object@ == "chat.completion"@
    &&& r.model@ == model
    &&& r.system_fingerprint is None
    &&& r.choices@.len() == 1
    &&& c.index == 0
    &&& c.logprobs is None
    &&& c.message.role@ == "assistant"@
    &&& (c.message.content matches Some(v) && v.model() == Json::Str(blocks_text(msg.content@)))
    &&& c.message.name is None
    &&& c.message.tool_call_id is None
    &&& if has_tool_calls(k) {
        &&& c.message.tool_calls matches Some(calls) && calls@.len() == msg.tool_uses.unwrap()@.len() && (forall|i: int|
            0 <= i < calls@.len() ==> call_matches(#[trigger] calls@[i], msg.tool_uses.unwrap()@[i]))
        &&& (c.finish_reason matches Some(f) && f@ == "tool_calls"@)
    } else {
        &&& c.message.tool_calls is None
        &&& (c.finish_reason matches Some(f) && f@ == "stop"@)
    }
    &&& (r.usage matches Some(u) && u.prompt_tokens == pin && u.completion_tokens == pout && u.total_tokens
        == pin + pout && u.prompt_tokens_details is None)
}

fn joined_text(blocks: &Vec<ContentBlock>) -> (s: String)
    ensures
        s@ == blocks_text(blocks@),
{
    let mut s = String::new();
    let mut i: usize = 0;
    while i < blocks.len()
        invariant
            i <= blocks.len(),
            s@ == blocks_text(blocks@.take(i as int)),
        decreases blocks.len() - i,
    {
        assert(blocks@.take(i + 1).drop_last() =~= blocks@.take(i as int));
        match &blocks[i] {
            ContentBlock::Text { text } => push_str(&mut s, text.as_str()),
        }
        i += 1;
    }
    assert(blocks@.take(blocks.len() as int) =~= blocks@);
    s
}

fn tool_calls_of(uses: &Vec<ToolUse>) -> (calls: Vec<ToolCall>)
    ensures
        calls@.len() == uses@.len(),
        forall|i: int| 0 <= i < calls@.len() ==> call_matches(#[trigger] calls@[i], uses@[i]),
{
    let mut calls: Vec<ToolCall> = Vec::new();
    let mut i: usize = 0;
    while i < uses.len()
        invariant
            i <= uses.len(),
            calls@.len() == i,
            forall|j: int| 0 <= j < i ==> call_matches(#[trigger] calls@[j], uses@[j]),
        decreases uses.len() - i,
    {
        let u = &uses[i];
        calls.push(ToolCall {
            id: u.tool_use_id.clone(),
            tool_type: owned("function"),
            function: FunctionCall { name: u.name.clone(), arguments: u.input.to_text() },
        });
        i += 1;
    }
    calls
}

/// The OpenAI chat completion for a complete Kiro response, created at
/// `created` (seconds since the Unix epoch); see [`openai_response_ok`].
pub fn convert_kiro_to_openai_response_at(
    kiro_response: &KiroResponse,
    model: &str,
    request_id: &str,
    created: i64,
) -> (r: ChatCompletionResponse)
    requires
        kiro_response.usage matches Some(u) ==> i32::MIN <= u.input_tokens + u.output_tokens <= i32::MAX,
    ensures
        openai_response_ok(*kiro_response, model@, request_id@, r),
        r.created == created,
{
    let msg = &kiro_response.assistant_response_message;
    let content = JsonValue::Str(joined_text(&msg.content));
    let tool_calls = match &msg.tool_uses {
        Some(uses) => {
            let calls = tool_calls_of(uses);
            if calls.len() == 0 {
                None
            } else {
                Some(calls)
            }
        },
        None => None,
    };
    let finish_reason = if tool_calls.is_some() {
        Some(owned("tool_calls"))
    } else {
        Some(owned("stop"))
    };
    let message = ChatMessage { role: owned("assistant"), content: Some(content), name: None, tool_calls, tool_call_id: None };
    let choice = ChatCompletionChoice { index: 0, message, finish_reason, logprobs: None };
    let usage = match &kiro_response.usage {
        Some(u) => ChatCompletionUsage {
            prompt_tokens: u.input_tokens,
            completion_tokens: u.output_tokens,
            total_tokens: u.input_tokens + u.output_tokens,
            prompt_tokens_details: None,
        },
        None => ChatCompletionUsage { prompt_tokens: 0, completion_tokens: 0, total_tokens: 0, prompt_tokens_details: None },
    };
    let mut choices = Vec::new();
    choices.push(choice);
    ChatCompletionResponse {
        id: owned(request_id),
        object: owned("chat.completion"),
        created,
        model: owned(model),
        choices,
        usage: Some(usage),
        system_fingerprint: None,
    }
}

/// The OpenAI chat completion for a complete Kiro response, created now.
pub fn convert_kiro_to_openai_response(kiro_response: &KiroResponse, model: &str, request_id: &str) -> (r: ChatCompletionResponse)
    requires
        kiro_response.usage matches Some(u) ==> i32::MIN <= u.input_tokens + u.output_tokens <= i32::MAX,
    ensures
        openai_response_ok(*kiro_response, model@, request_id@, r),
{
    convert_kiro_to_openai_response_at(kiro_response, model, request_id, unix_now())
}

} // verus!
