//! The format-neutral conversation that the converters produce.

use vstd::prelude::*;
use crate::json::{Json, JsonValue};

verus! {

/// The text content of a message.
pub enum MessageContent {
    Text(String),
}

/// The function named by a tool call and its JSON-encoded arguments.
pub struct ToolFunction {
    pub name: String,
    pub arguments: String,
}

/// A tool call made by the assistant.
pub struct ToolCall {
    pub id: String,
    pub call_type: String,
    pub function: ToolFunction,
}

/// The result of a tool call, sent back by the user.
pub struct ToolResult {
    pub result_type: String,
    pub tool_use_id: String,
    pub content: String,
}

/// One message of the conversation.
pub struct UnifiedMessage {
    pub role: String,
    pub content: MessageContent,
    pub tool_calls: Option<Vec<ToolCall>>,
    pub tool_results: Option<Vec<ToolResult>>,
}

/// A tool the model may call.
pub struct UnifiedTool {
    pub name: String,
    pub description: Option<String>,
    pub input_schema: Option<JsonValue>,
}

/// The model of a tool call.
pub struct ToolCallView {
    pub id: Seq<char>,
    pub call_type: Seq<char>,
    pub name: Seq<char>,
    pub arguments: Seq<char>,
}

/// The model of a tool result.
pub struct ToolResultView {
    pub result_type: Seq<char>,
    pub tool_use_id: Seq<char>,
    pub content: Seq<char>,
}

/// The model of a message.
pub struct MessageView {
    pub role: Seq<char>,
    pub text: Seq<char>,
    pub tool_calls: Option<Seq<ToolCallView>>,
    pub tool_results: Option<Seq<ToolResultView>>,
}

/// The model of a tool.
pub struct ToolView {
    pub name: Seq<char>,
    pub description: Option<Seq<char>>,
    pub input_schema: Option<Json>,
}

impl View for ToolCall {
    type V = ToolCallView;

    open spec fn view(&self) -> ToolCallView {
        ToolCallView {
            id: self.id@,
            call_type: self.call_type@,
            name: self.function.name@,
            arguments: self.function.arguments@,
        }
    }
}

impl View for ToolResult {
    type V = ToolResultView;

    open spec fn view(&self) -> ToolResultView {
        ToolResultView {
            result_type: self.result_type@,
            tool_use_id: self.tool_use_id@,
            content: self.content@,
        }
    }
}

/// The models of a sequence of tool calls.
pub open spec fn calls_view(v: Seq<ToolCall>) -> Seq<ToolCallView> {
    Seq::new(v.len(), |i: int| v[i]@)
}

/// The models of a sequence of tool results.
pub open spec fn results_view(v: Seq<ToolResult>) -> Seq<ToolResultView> {
    Seq::new(v.len(), |i: int| v[i]@)
}

impl View for UnifiedMessage {
    type V = MessageView;

    open spec fn view(&self) -> MessageView {
        MessageView {
            role: self.role@,
            text: match self.content {
                MessageContent::Text(t) => t@,
            },
            tool_calls: match self.tool_calls {
                Some(v) => Some(calls_view(v@)),
                None => None,
            },
            tool_results: match self.tool_results {
                Some(v) => Some(results_view(v@)),
                None => None,
            },
        }
    }
}

impl View for UnifiedTool {
    type V = ToolView;

    open spec fn view(&self) -> ToolView {
        ToolView {
            name: self.name@,
            description: match self.description {
                Some(d) => Some(d@),
                None => None,
            },
            input_schema: match self.input_schema {
                Some(j) => Some(j.model()),
                None => None,
            },
        }
    }
}

/// The models of a sequence of messages.
pub open spec fn messages_view(v: Seq<UnifiedMessage>) -> Seq<MessageView> {
    Seq::new(v.len(), |i: int| v[i]@)
}

/// The models of a sequence of tools.
pub open spec fn tools_view(v: Seq<UnifiedTool>) -> Seq<ToolView> {
    Seq::new(v.len(), |i: int| v[i]@)
}

} // verus!

verus! {

/// Views of messages follow `push` and `drop_last`.
pub proof fn lemma_messages_view(v: Seq<UnifiedMessage>, m: UnifiedMessage)
    ensures
        messages_view(v.push(m)) == messages_view(v).push(m@),
        v.len() > 0 ==> messages_view(v.drop_last()) == messages_view(v).drop_last(),
        v.len() > 0 ==> messages_view(v).last() == v.last()@,
{
    assert(messages_view(v.push(m)) =~= messages_view(v).push(m@));
    if v.len() > 0 {
        assert(messages_view(v.drop_last()) =~= messages_view(v).drop_last());
    }
}

/// Views of tool calls follow `push`.
pub proof fn lemma_calls_view(v: Seq<ToolCall>, c: ToolCall)
    ensures
        calls_view(v.push(c)) == calls_view(v).push(c@),
        calls_view(seq![c]) == seq![c@],
{
    assert(calls_view(v.push(c)) =~= calls_view(v).push(c@));
    assert(calls_view(seq![c]) =~= seq![c@]);
}

/// Views of tool results follow `push`.
pub proof fn lemma_results_view(v: Seq<ToolResult>, r: ToolResult)
    ensures
        results_view(v.push(r)) == results_view(v).push(r@),
        results_view(seq![r]) == seq![r@],
{
    assert(results_view(v.push(r)) =~= results_view(v).push(r@));
    assert(results_view(seq![r]) =~= seq![r@]);
}

/// Views of tools follow `push`.
pub proof fn lemma_tools_view(v: Seq<UnifiedTool>, t: UnifiedTool)
    ensures
        tools_view(v.push(t)) == tools_view(v).push(t@),
{
    assert(tools_view(v.push(t)) =~= tools_view(v).push(t@));
}

} // verus!
