//! Events parsed from Kiro's response stream, and server-sent events produced
//! from them.

use vstd::prelude::*;
use crate::json::{json_text, Json, JsonValue};
use crate::text::{owned, push_str};

verus! {

/// A tool use reported by the stream.
pub struct ToolUse {
    pub tool_use_id: String,
    pub name: String,
    pub input: JsonValue,
}

/// Token usage reported by the stream.
pub struct Usage {
    pub input_tokens: i32,
    pub output_tokens: i32,
}

/// One parsed stream event: its type ("content", "thinking", "tool_use",
/// "usage", ...) and the payload that type carries.
pub struct ParsedEvent {
    pub event_type: String,
    pub content: Option<String>,
    pub thinking_content: Option<String>,
    pub tool_use: Option<ToolUse>,
    pub usage: Option<Usage>,
}

/// A server-sent event: its name and its JSON data.
pub struct SseEvent {
    pub event: String,
    pub data: JsonValue,
}

/// The model of a tool use.
pub struct ToolUseView {
    pub id: Seq<char>,
    pub name: Seq<char>,
    pub input: Json,
}

impl View for ToolUse {
    type V = ToolUseView;

    open spec fn view(&self) -> ToolUseView {
        ToolUseView { id: self.tool_use_id@, name: self.name@, input: self.input.model() }
    }
}

impl View for Usage {
    type V = (i32, i32);

    open spec fn view(&self) -> (i32, i32) {
        (self.input_tokens, self.output_tokens)
    }
}

/// The model of an optional usage.
pub open spec fn usage_view(u: Option<Usage>) -> Option<(i32, i32)> {
    match u {
        Some(x) => Some(x@),
        None => None,
    }
}

/// The model of an optional string.
pub open spec fn opt_str(s: Option<String>) -> Option<Seq<char>> {
    match s {
        Some(x) => Some(x@),
        None => None,
    }
}

/// The model of an optional tool use.
pub open spec fn opt_tool(t: Option<ToolUse>) -> Option<ToolUseView> {
    match t {
        Some(x) => Some(x@),
        None => None,
    }
}

impl View for SseEvent {
    type V = (Seq<char>, Json);

    open spec fn view(&self) -> (Seq<char>, Json) {
        (self.event@, self.data.model())
    }
}

/// The models of a sequence of server-sent events.
pub open spec fn events_view(v: Seq<SseEvent>) -> Seq<(Seq<char>, Json)> {
    Seq::new(v.len(), |i: int| v[i]@)
}

/// Views of events follow `push`.
pub proof fn lemma_events_push(v: Seq<SseEvent>, e: SseEvent)
    ensures
        events_view(v.push(e)) == events_view(v).push(e@),
        events_view(Seq::<SseEvent>::empty()) == Seq::<(Seq<char>, Json)>::empty(),
{
    assert(events_view(v.push(e)) =~= events_view(v).push(e@));
    assert(events_view(Seq::<SseEvent>::empty()) =~= Seq::<(Seq<char>, Json)>::empty());
}

/// Appends a server-sent event.
pub fn push_event(v: &mut Vec<SseEvent>, e: SseEvent)
    ensures
        events_view(final(v)@) == events_view(old(v)@).push(e@),
{
    proof {
        lemma_events_push(v@, e);
    }
    v.push(e);
}

/// The text of a server-sent event: its name on an `event:` line, its compact
/// JSON on a `data:` line, and a blank line.
pub open spec fn sse_text(name: Seq<char>, data: Json) -> Seq<char> {
    "event: "@ + name + "\ndata: "@ + json_text(data) + "\n\n"@
}

impl SseEvent {
    /// The text sent for the event (see [`sse_text`]).
    pub fn to_text(&self) -> (s: String)
        ensures
            s@ == sse_text(self.event@, self.data.model()),
    {
        let mut s = owned("event: ");
        push_str(&mut s, self.event.as_str());
        push_str(&mut s, "\ndata: ");
        self.data.write_text(&mut s);
        push_str(&mut s, "\n\n");
        s
    }
}

} // verus!
