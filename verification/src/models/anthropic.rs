//! Anthropic Messages API models and their JSON form.
//!
//! The readers take JSON objects; the positional array form that serde also
//! accepts for structs is not read.

use vstd::prelude::*;
use crate::json::{array, entry_models, lemma_lookup_absent, lemma_lookup_append, models, json_bool, json_int, json_str, object, push_entry, tagged, Json, JsonValue};
use crate::text::{int_text, lemma_parse_i32_int_text, owned, parse_i32, parse_i32_spec, str_eq};

verus! {

/// Where an image comes from.
pub enum ImageSource {
    Base64 { media_type: String, data: String },
    Url { url: String },
}

/// How the model may choose tools.
pub enum ToolChoice {
    Auto,
    Any,
    Tool { name: String },
}

/// A block of message content.
pub enum ContentBlock {
    Text { text: String },
    Thinking { thinking: String, signature: String },
    Image { source: ImageSource },
    ToolUse { id: String, name: String, input: JsonValue },
    ToolResult { tool_use_id: String, content: Option<JsonValue>, is_error: Option<bool> },
    RedactedThinking { data: String },
}

/// A message of the conversation.
pub struct AnthropicMessage {
    pub role: String,
    pub content: JsonValue,
}

/// Token usage, with the prompt-cache counts when known.
pub struct AnthropicUsage {
    pub input_tokens: i32,
    pub output_tokens: i32,
    pub cache_creation_input_tokens: Option<i32>,
    pub cache_read_input_tokens: Option<i32>,
}

/// A complete Messages API response.
pub struct AnthropicMessagesResponse {
    pub id: String,
    pub response_type: String,
    pub role: String,
    pub content: Vec<ContentBlock>,
    pub model: String,
    pub stop_reason: Option<String>,
    pub stop_sequence: Option<String>,
    pub usage: AnthropicUsage,
}

/// An increment of streamed content.
pub enum Delta {
    TextDelta { text: String },
    ThinkingDelta { thinking: String },
    SignatureDelta { signature: String },
    InputJsonDelta { partial_json: String },
}

/// The usage reported at the end of a stream.
pub struct MessageDeltaUsage {
    pub output_tokens: i32,
}

impl AnthropicMessagesResponse {
    /// An assistant `message` with the given id, model, content and usage, and
    /// no stop reason or stop sequence yet.
    pub fn new(id: String, model: String, content: Vec<ContentBlock>, usage: AnthropicUsage) -> (r: Self)
        ensures
            r.id == id,
            r.response_type@ == "message"@,
            r.role@ == "assistant"@,
            r.content == content,
            r.model == model,
            r.stop_reason is None,
            r.stop_sequence is None,
            r.usage == usage,
    {
        AnthropicMessagesResponse {
            id,
            response_type: owned("message"),
            role: owned("assistant"),
            content,
            model,
            stop_reason: None,
            stop_sequence: None,
            usage,
        }
    }
}

// ---------------------------------------------------------------------------
// Models
// ---------------------------------------------------------------------------

/// The model of an image source.
pub enum ImageSourceView {
    Base64(Seq<char>, Seq<char>),
    Url(Seq<char>),
}

/// The model of a content block.
pub enum ContentBlockView {
    Text(Seq<char>),
    Thinking(Seq<char>, Seq<char>),
    Image(ImageSourceView),
    ToolUse(Seq<char>, Seq<char>, Json),
    ToolResult(Seq<char>, Option<Json>, Option<bool>),
    RedactedThinking(Seq<char>),
}

/// The model of a delta.
pub enum DeltaView {
    TextDelta(Seq<char>),
    ThinkingDelta(Seq<char>),
    SignatureDelta(Seq<char>),
    InputJsonDelta(Seq<char>),
}

impl View for ImageSource {
    type V = ImageSourceView;

    open spec fn view(&self) -> ImageSourceView {
        match self {
            ImageSource::Base64 { media_type, data } => ImageSourceView::Base64(media_type@, data@),
            ImageSource::Url { url } => ImageSourceView::Url(url@),
        }
    }
}

/// The model of an optional JSON value.
pub open spec fn opt_model(v: Option<JsonValue>) -> Option<Json> {
    match v {
        Some(x) => Some(x.model()),
        None => None,
    }
}

impl View for ContentBlock {
    type V = ContentBlockView;

    open spec fn view(&self) -> ContentBlockView {
        match self {
            ContentBlock::Text { text } => ContentBlockView::Text(text@),
            ContentBlock::Thinking { thinking, signature } => ContentBlockView::Thinking(thinking@, signature@),
            ContentBlock::Image { source } => ContentBlockView::Image(source@),
            ContentBlock::ToolUse { id, name, input } => ContentBlockView::ToolUse(id@, name@, input.model()),
            ContentBlock::ToolResult { tool_use_id, content, is_error } => ContentBlockView::ToolResult(
                tool_use_id@,
                opt_model(*content),
                *is_error,
            ),
            ContentBlock::RedactedThinking { data } => ContentBlockView::RedactedThinking(data@),
        }
    }
}

impl View for Delta {
    type V = DeltaView;

    open spec fn view(&self) -> DeltaView {
        match self {
            Delta::TextDelta { text } => DeltaView::TextDelta(text@),
            Delta::ThinkingDelta { thinking } => DeltaView::ThinkingDelta(thinking@),
            Delta::SignatureDelta { signature } => DeltaView::SignatureDelta(signature@),
            Delta::InputJsonDelta { partial_json } => DeltaView::InputJsonDelta(partial_json@),
        }
    }
}

// ---------------------------------------------------------------------------
// JSON form
// ---------------------------------------------------------------------------

/// A JSON integer.
pub open spec fn int_json(n: i32) -> Json {
    Json::Number(int_text(n as int))
}

/// The JSON form of usage: both counts, then each cache count that is known.
pub open spec fn usage_json(u: AnthropicUsage) -> Json {
    let base = seq![("input_tokens"@, int_json(u.input_tokens)), ("output_tokens"@, int_json(u.output_tokens))];
    let with_creation = match u.cache_creation_input_tokens {
        Some(n) => base.push(("cache_creation_input_tokens"@, int_json(n))),
        None => base,
    };
    Json::Object(
        match u.cache_read_input_tokens {
            Some(n) => with_creation.push(("cache_read_input_tokens"@, int_json(n))),
            None => with_creation,
        },
    )
}

/// A required 32-bit integer member.
pub open spec fn int_member(j: Json, key: Seq<char>) -> Option<i32> {
    match j.get(key) {
        Some(Json::Number(t)) => parse_i32_spec(t),
        _ => None,
    }
}

/// An optional 32-bit integer member: absent or null is `None`; anything
/// else but an integer makes the whole value unreadable (outer `None`).
pub open spec fn opt_int_member(j: Json, key: Seq<char>) -> Option<Option<i32>> {
    match j.get(key) {
        None => Some(None),
        Some(Json::Null) => Some(None),
        Some(Json::Number(t)) => match parse_i32_spec(t) {
            Some(n) => Some(Some(n)),
            None => None,
        },
        _ => None,
    }
}

/// Usage read from JSON: both counts are required, the cache counts optional.
pub open spec fn usage_of(j: Json) -> Option<AnthropicUsage> {
    let input = int_member(j, "input_tokens"@);
    let output = int_member(j, "output_tokens"@);
    let creation = opt_int_member(j, "cache_creation_input_tokens"@);
    let read = opt_int_member(j, "cache_read_input_tokens"@);
    if input is Some && output is Some && creation is Some && read is Some {
        Some(AnthropicUsage {
            input_tokens: input.unwrap(),
            output_tokens: output.unwrap(),
            cache_creation_input_tokens: creation.unwrap(),
            cache_read_input_tokens: read.unwrap(),
        })
    } else {
        None
    }
}

fn int_value(n: i32) -> (r: JsonValue)
    ensures
        r.model() == int_json(n),
{
    json_int(n as i64)
}

fn int_member_of(j: &JsonValue, key: &str) -> (r: Option<i32>)
    ensures
        r == int_member(j.model(), key@),
{
    match j.get(key) {
        Some(JsonValue::Number(t)) => parse_i32(t.as_str()),
        _ => None,
    }
}

fn opt_int_member_of(j: &JsonValue, key: &str) -> (r: Option<Option<i32>>)
    ensures
        r == opt_int_member(j.model(), key@),
{
    match j.get(key) {
        None => Some(None),
        Some(JsonValue::Null) => Some(None),
        Some(JsonValue::Number(t)) => match parse_i32(t.as_str()) {
            Some(n) => Some(Some(n)),
            None => None,
        },
        _ => None,
    }
}

impl AnthropicUsage {
    /// The JSON form (see [`usage_json`]).
    pub fn to_json(&self) -> (r: JsonValue)
        ensures
            r.model() == usage_json(*self),
    {
        let mut e: Vec<(String, JsonValue)> = Vec::new();
        push_entry(&mut e, "input_tokens", int_value(self.input_tokens));
        push_entry(&mut e, "output_tokens", int_value(self.output_tokens));
        if let Some(n) = self.cache_creation_input_tokens {
            push_entry(&mut e, "cache_creation_input_tokens", int_value(n));
        }
        if let Some(n) = self.cache_read_input_tokens {
            push_entry(&mut e, "cache_read_input_tokens", int_value(n));
        }
        let r = object(e);
        assert(entry_models(e@) =~= usage_json(*self)->Object_0);
        r
    }

    /// Usage read from JSON (see [`usage_of`]).
    pub fn from_json(j: &JsonValue) -> (r: Option<AnthropicUsage>)
        ensures
            r == usage_of(j.model()),
    {
        let input = int_member_of(j, "input_tokens");
        let output = int_member_of(j, "output_tokens");
        let creation = opt_int_member_of(j, "cache_creation_input_tokens");
        let read = opt_int_member_of(j, "cache_read_input_tokens");
        match (input, output, creation, read) {
            (Some(input_tokens), Some(output_tokens), Some(cache_creation_input_tokens), Some(cache_read_input_tokens)) => Some(
                AnthropicUsage { input_tokens, output_tokens, cache_creation_input_tokens, cache_read_input_tokens },
            ),
            _ => None,
        }
    }
}

proof fn lemma_usage_keys_distinct()
    ensures
        "input_tokens"@ != "output_tokens"@,
        "input_tokens"@ != "cache_creation_input_tokens"@,
        "input_tokens"@ != "cache_read_input_tokens"@,
        "output_tokens"@ != "cache_creation_input_tokens"@,
        "output_tokens"@ != "cache_read_input_tokens"@,
        "cache_creation_input_tokens"@ != "cache_read_input_tokens"@,
{
    reveal_strlit("input_tokens");
    reveal_strlit("output_tokens");
    reveal_strlit("cache_creation_input_tokens");
    reveal_strlit("cache_read_input_tokens");
    assert("input_tokens"@.len() == 12);
    assert("output_tokens"@.len() == 13);
    assert("cache_creation_input_tokens"@.len() == 27);
    assert("cache_read_input_tokens"@.len() == 23);
}

proof fn lemma_usage_lookups(u: AnthropicUsage)
    ensures
        usage_json(u).get("input_tokens"@) == Some(int_json(u.input_tokens)),
        usage_json(u).get("output_tokens"@) == Some(int_json(u.output_tokens)),
        usage_json(u).get("cache_creation_input_tokens"@) == match u.cache_creation_input_tokens {
            Some(n) => Some(int_json(n)),
            None => None::<Json>,
        },
        usage_json(u).get("cache_read_input_tokens"@) == match u.cache_read_input_tokens {
            Some(n) => Some(int_json(n)),
            None => None::<Json>,
        },
{
    lemma_usage_keys_distinct();
    reveal_with_fuel(crate::json::lookup, 5);
}

/// Usage survives its JSON form: reading back the JSON of any usage gives it.
pub proof fn law_usage_round_trip(u: AnthropicUsage)
    ensures
        usage_of(usage_json(u)) == Some(u),
{
    lemma_usage_lookups(u);
    lemma_parse_i32_int_text(u.input_tokens);
    lemma_parse_i32_int_text(u.output_tokens);
    if let Some(n) = u.cache_creation_input_tokens {
        lemma_parse_i32_int_text(n);
    }
    if let Some(n) = u.cache_read_input_tokens {
        lemma_parse_i32_int_text(n);
    }
}

fn tagged_value(t: &str, rest: Vec<(String, JsonValue)>) -> (r: JsonValue)
    ensures
        r.model() == tagged(t@, entry_models(rest@)),
{
    let mut e: Vec<(String, JsonValue)> = Vec::new();
    assert(entry_models(e@) =~= Seq::<(Seq<char>, Json)>::empty());
    push_entry(&mut e, "type", json_str(t));
    let ghost head = entry_models(e@);
    assert(head =~= seq![("type"@, Json::Str(t@))]);
    let mut rest = rest;
    let ghost rm = entry_models(rest@);
    e.append(&mut rest);
    assert(entry_models(e@) =~= head + rm);
    object(e)
}

fn entries1(k: &str, v: JsonValue) -> (r: Vec<(String, JsonValue)>)
    ensures
        entry_models(r@) == seq![(k@, v.model())],
{
    let mut e: Vec<(String, JsonValue)> = Vec::new();
    push_entry(&mut e, k, v);
    assert(entry_models(e@) =~= seq![(k@, v.model())]);
    e
}

/// The JSON form of a delta.
pub open spec fn delta_json(d: DeltaView) -> Json {
    match d {
        DeltaView::TextDelta(t) => tagged("text_delta"@, seq![("text"@, Json::Str(t))]),
        DeltaView::ThinkingDelta(t) => tagged("thinking_delta"@, seq![("thinking"@, Json::Str(t))]),
        DeltaView::SignatureDelta(t) => tagged("signature_delta"@, seq![("signature"@, Json::Str(t))]),
        DeltaView::InputJsonDelta(t) => tagged("input_json_delta"@, seq![("partial_json"@, Json::Str(t))]),
    }
}

/// A delta read from JSON, by its `type`.
pub open spec fn delta_of(j: Json) -> Option<DeltaView> {
    let t = j.get_str("type"@);
    if t == Some("text_delta"@) {
        match j.get_str("text"@) {
            Some(x) => Some(DeltaView::TextDelta(x)),
            None => None,
        }
    } else if t == Some("thinking_delta"@) {
        match j.get_str("thinking"@) {
            Some(x) => Some(DeltaView::ThinkingDelta(x)),
            None => None,
        }
    } else if t == Some("signature_delta"@) {
        match j.get_str("signature"@) {
            Some(x) => Some(DeltaView::SignatureDelta(x)),
            None => None,
        }
    } else if t == Some("input_json_delta"@) {
        match j.get_str("partial_json"@) {
            Some(x) => Some(DeltaView::InputJsonDelta(x)),
            None => None,
        }
    } else {
        None
    }
}

fn tag_is(t: Option<&String>, name: &str) -> (r: bool)
    ensures
        r == (match t {
            Some(s) => Some(s@),
            None => None,
        } == Some(name@)),
{
    match t {
        Some(s) => str_eq(s.as_str(), name),
        None => false,
    }
}

impl Delta {
    /// The JSON form (see [`delta_json`]).
    pub fn to_json(&self) -> (r: JsonValue)
        ensures
            r.model() == delta_json(self@),
    {
        match self {
            Delta::TextDelta { text } => tagged_value("text_delta", entries1("text", json_str(text.as_str()))),
            Delta::ThinkingDelta { thinking } => tagged_value("thinking_delta", entries1("thinking", json_str(thinking.as_str()))),
            Delta::SignatureDelta { signature } => tagged_value("signature_delta", entries1("signature", json_str(signature.as_str()))),
            Delta::InputJsonDelta { partial_json } => tagged_value("input_json_delta", entries1("partial_json", json_str(partial_json.as_str()))),
        }
    }

    /// A delta read from JSON (see [`delta_of`]).
    pub fn from_json(j: &JsonValue) -> (r: Option<Delta>)
        ensures
            r matches Some(d) ==> delta_of(j.model()) == Some(d@),
            r is None ==> delta_of(j.model()) is None,
    {
        let t = j.get_str("type");
        if tag_is(t, "text_delta") {
            match j.get_str("text") {
                Some(x) => Some(Delta::TextDelta { text: x.clone() }),
                None => None,
            }
        } else if tag_is(t, "thinking_delta") {
            match j.get_str("thinking") {
                Some(x) => Some(Delta::ThinkingDelta { thinking: x.clone() }),
                None => None,
            }
        } else if tag_is(t, "signature_delta") {
            match j.get_str("signature") {
                Some(x) => Some(Delta::SignatureDelta { signature: x.clone() }),
                None => None,
            }
        } else if tag_is(t, "input_json_delta") {
            match j.get_str("partial_json") {
                Some(x) => Some(Delta::InputJsonDelta { partial_json: x.clone() }),
                None => None,
            }
        } else {
            None
        }
    }
}

/// A delta survives its JSON form: reading back the JSON of any delta gives it.
pub proof fn law_delta_round_trip(d: DeltaView)
    ensures
        delta_of(delta_json(d)) == Some(d),
{
    reveal_strlit("type");
    reveal_strlit("text");
    reveal_strlit("text_delta");
    reveal_strlit("thinking_delta");
    reveal_strlit("signature_delta");
    reveal_strlit("input_json_delta");
    reveal_strlit("thinking");
    reveal_strlit("signature");
    reveal_strlit("partial_json");
    reveal_with_fuel(crate::json::lookup, 3);
    assert("type"@[1] != "text"@[1]);
    assert("type"@ != "text"@);
    assert("type"@.len() != "thinking"@.len());
    assert("type"@.len() != "signature"@.len());
    assert("type"@.len() != "partial_json"@.len());
    assert("text_delta"@.len() != "thinking_delta"@.len());
    assert("text_delta"@.len() != "signature_delta"@.len());
    assert("text_delta"@.len() != "input_json_delta"@.len());
    assert("thinking_delta"@.len() != "signature_delta"@.len());
    assert("thinking_delta"@.len() != "input_json_delta"@.len());
    assert("signature_delta"@.len() != "input_json_delta"@.len());
}

/// The JSON form of the usage reported at the end of a stream.
pub open spec fn delta_usage_json(u: MessageDeltaUsage) -> Json {
    Json::Object(seq![("output_tokens"@, int_json(u.output_tokens))])
}

impl MessageDeltaUsage {
    /// The JSON form (see [`delta_usage_json`]).
    pub fn to_json(&self) -> (r: JsonValue)
        ensures
            r.model() == delta_usage_json(*self),
    {
        let e = entries1("output_tokens", int_value(self.output_tokens));
        object(e)
    }
}

/// The JSON form of a tool choice.
pub open spec fn tool_choice_json(c: ToolChoice) -> Json {
    match c {
        ToolChoice::Auto => tagged("auto"@, Seq::empty()),
        ToolChoice::Any => tagged("any"@, Seq::empty()),
        ToolChoice::Tool { name } => tagged("tool"@, seq![("name"@, Json::Str(name@))]),
    }
}

impl ToolChoice {
    /// The JSON form (see [`tool_choice_json`]).
    pub fn to_json(&self) -> (r: JsonValue)
        ensures
            r.model() == tool_choice_json(*self),
    {
        match self {
            ToolChoice::Auto => {
                let r = tagged_value("auto", Vec::new());
                assert(entry_models(Seq::<(String, JsonValue)>::empty()) =~= Seq::empty());
                r
            },
            ToolChoice::Any => {
                let r = tagged_value("any", Vec::new());
                assert(entry_models(Seq::<(String, JsonValue)>::empty()) =~= Seq::empty());
                r
            },
            ToolChoice::Tool { name } => tagged_value("tool", entries1("name", json_str(name.as_str()))),
        }
    }
}

/// The JSON form of an image source.
pub open spec fn image_source_json(src: ImageSourceView) -> Json {
    match src {
        ImageSourceView::Base64(media_type, data) => tagged(
            "base64"@,
            seq![("media_type"@, Json::Str(media_type)), ("data"@, Json::Str(data))],
        ),
        ImageSourceView::Url(url) => tagged("url"@, seq![("url"@, Json::Str(url))]),
    }
}

/// An image source read from JSON, by its `type`.
pub open spec fn image_source_of(j: Json) -> Option<ImageSourceView> {
    let t = j.get_str("type"@);
    if t == Some("base64"@) {
        match (j.get_str("media_type"@), j.get_str("data"@)) {
            (Some(m), Some(d)) => Some(ImageSourceView::Base64(m, d)),
            _ => None,
        }
    } else if t == Some("url"@) {
        match j.get_str("url"@) {
            Some(u) => Some(ImageSourceView::Url(u)),
            None => None,
        }
    } else {
        None
    }
}

/// The JSON form of a content block: tagged by `type`; a tool result leaves
/// out the content and the error flag it does not have.
pub open spec fn content_block_json(b: ContentBlockView) -> Json {
    match b {
        ContentBlockView::Text(t) => tagged("text"@, seq![("text"@, Json::Str(t))]),
        ContentBlockView::Thinking(t, sig) => tagged(
            "thinking"@,
            seq![("thinking"@, Json::Str(t)), ("signature"@, Json::Str(sig))],
        ),
        ContentBlockView::Image(src) => tagged("image"@, seq![("source"@, image_source_json(src))]),
        ContentBlockView::ToolUse(id, name, input) => tagged(
            "tool_use"@,
            seq![("id"@, Json::Str(id)), ("name"@, Json::Str(name)), ("input"@, input)],
        ),
        ContentBlockView::ToolResult(id, content, is_error) => {
            let base = seq![("tool_use_id"@, Json::Str(id))];
            let with_content = match content {
                Some(c) => base.push(("content"@, c)),
                None => base,
            };
            tagged(
                "tool_result"@,
                match is_error {
                    Some(e) => with_content.push(("is_error"@, Json::Bool(e))),
                    None => with_content,
                },
            )
        },
        ContentBlockView::RedactedThinking(d) => tagged("redacted_thinking"@, seq![("data"@, Json::Str(d))]),
    }
}

/// A thinking signature: absent is empty; anything but a string is unreadable.
pub open spec fn signature_of(j: Json) -> Option<Seq<char>> {
    match j.get("signature"@) {
        None => Some(Seq::empty()),
        Some(Json::Str(s)) => Some(s),
        _ => None,
    }
}

/// An optional error flag: absent or null is `None`; anything but a boolean
/// is unreadable (outer `None`).
pub open spec fn is_error_of(j: Json) -> Option<Option<bool>> {
    match j.get("is_error"@) {
        None => Some(None),
        Some(Json::Null) => Some(None),
        Some(Json::Bool(b)) => Some(Some(b)),
        _ => None,
    }
}

/// Optional tool-result content: absent or null is `None`.
pub open spec fn result_content_of(j: Json) -> Option<Json> {
    match j.get("content"@) {
        None => None,
        Some(Json::Null) => None,
        Some(c) => Some(c),
    }
}

/// A content block read from JSON, by its `type`.
pub open spec fn content_block_of(j: Json) -> Option<ContentBlockView> {
    let t = j.get_str("type"@);
    if t == Some("text"@) {
        match j.get_str("text"@) {
            Some(x) => Some(ContentBlockView::Text(x)),
            None => None,
        }
    } else if t == Some("thinking"@) {
        match (j.get_str("thinking"@), signature_of(j)) {
            (Some(x), Some(sig)) => Some(ContentBlockView::Thinking(x, sig)),
            _ => None,
        }
    } else if t == Some("image"@) {
        match j.get("source"@) {
            Some(src) => match image_source_of(src) {
                Some(v) => Some(ContentBlockView::Image(v)),
                None => None,
            },
            None => None,
        }
    } else if t == Some("tool_use"@) {
        match (j.get_str("id"@), j.get_str("name"@), j.get("input"@)) {
            (Some(id), Some(name), Some(input)) => Some(ContentBlockView::ToolUse(id, name, input)),
            _ => None,
        }
    } else if t == Some("tool_result"@) {
        match (j.get_str("tool_use_id"@), is_error_of(j)) {
            (Some(id), Some(e)) => Some(ContentBlockView::ToolResult(id, result_content_of(j), e)),
            _ => None,
        }
    } else if t == Some("redacted_thinking"@) {
        match j.get_str("data"@) {
            Some(d) => Some(ContentBlockView::RedactedThinking(d)),
            None => None,
        }
    } else {
        None
    }
}

fn entries2(k1: &str, v1: JsonValue, k2: &str, v2: JsonValue) -> (r: Vec<(String, JsonValue)>)
    ensures
        entry_models(r@) == seq![(k1@, v1.model()), (k2@, v2.model())],
{
    let mut e: Vec<(String, JsonValue)> = Vec::new();
    push_entry(&mut e, k1, v1);
    push_entry(&mut e, k2, v2);
    assert(entry_models(e@) =~= seq![(k1@, v1.model()), (k2@, v2.model())]);
    e
}

impl ImageSource {
    /// The JSON form (see [`image_source_json`]).
    pub fn to_json(&self) -> (r: JsonValue)
        ensures
            r.model() == image_source_json(self@),
    {
        match self {
            ImageSource::Base64 { media_type, data } => tagged_value(
                "base64",
                entries2("media_type", json_str(media_type.as_str()), "data", json_str(data.as_str())),
            ),
            ImageSource::Url { url } => tagged_value("url", entries1("url", json_str(url.as_str()))),
        }
    }

    /// An image source read from JSON (see [`image_source_of`]).
    pub fn from_json(j: &JsonValue) -> (r: Option<ImageSource>)
        ensures
            r matches Some(v) ==> image_source_of(j.model()) == Some(v@),
            r is None ==> image_source_of(j.model()) is None,
    {
        let t = j.get_str("type");
        if tag_is(t, "base64") {
            match (j.get_str("media_type"), j.get_str("data")) {
                (Some(m), Some(d)) => Some(ImageSource::Base64 { media_type: m.clone(), data: d.clone() }),
                _ => None,
            }
        } else if tag_is(t, "url") {
            match j.get_str("url") {
                Some(u) => Some(ImageSource::Url { url: u.clone() }),
                None => None,
            }
        } else {
            None
        }
    }
}

impl ContentBlock {
    /// The JSON form (see [`content_block_json`]).
    pub fn to_json(&self) -> (r: JsonValue)
        ensures
            r.model() == content_block_json(self@),
    {
        match self {
            ContentBlock::Text { text } => tagged_value("text", entries1("text", json_str(text.as_str()))),
            ContentBlock::Thinking { thinking, signature } => tagged_value(
                "thinking",
                entries2("thinking", json_str(thinking.as_str()), "signature", json_str(signature.as_str())),
            ),
            ContentBlock::Image { source } => tagged_value("image", entries1("source", source.to_json())),
            ContentBlock::ToolUse { id, name, input } => {
                let mut e = entries2("id", json_str(id.as_str()), "name", json_str(name.as_str()));
                push_entry(&mut e, "input", input.deep_clone());
                assert(entry_models(e@) =~= seq![
                    ("id"@, Json::Str(id@)),
                    ("name"@, Json::Str(name@)),
                    ("input"@, input.model()),
                ]);
                tagged_value("tool_use", e)
            },
            ContentBlock::ToolResult { tool_use_id, content, is_error } => {
                let mut e = entries1("tool_use_id", json_str(tool_use_id.as_str()));
                let ghost base = seq![("tool_use_id"@, Json::Str(tool_use_id@))];
                let ghost with_content = match opt_model(*content) {
                    Some(c) => base.push(("content"@, c)),
                    None => base,
                };
                if let Some(c) = content {
                    push_entry(&mut e, "content", c.deep_clone());
                }
                assert(entry_models(e@) =~= with_content);
                if let Some(b) = is_error {
                    push_entry(&mut e, "is_error", json_bool(*b));
                }
                assert(entry_models(e@) =~= match *is_error {
                    Some(b) => with_content.push(("is_error"@, Json::Bool(b))),
                    None => with_content,
                });
                tagged_value("tool_result", e)
            },
            ContentBlock::RedactedThinking { data } => tagged_value(
                "redacted_thinking",
                entries1("data", json_str(data.as_str())),
            ),
        }
    }

    /// A content block read from JSON (see [`content_block_of`]).
    pub fn from_json(j: &JsonValue) -> (r: Option<ContentBlock>)
        ensures
            r matches Some(b) ==> content_block_of(j.model()) == Some(b@),
            r is None ==> content_block_of(j.model()) is None,
    {
        let t = j.get_str("type");
        if tag_is(t, "text") {
            match j.get_str("text") {
                Some(x) => Some(ContentBlock::Text { text: x.clone() }),
                None => None,
            }
        } else if tag_is(t, "thinking") {
            let signature = match j.get("signature") {
                None => Some(String::new()),
                Some(JsonValue::Str(s)) => Some(s.clone()),
                _ => None,
            };
            match (j.get_str("thinking"), signature) {
                (Some(x), Some(sig)) => Some(ContentBlock::Thinking { thinking: x.clone(), signature: sig }),
                _ => None,
            }
        } else if tag_is(t, "image") {
            match j.get("source") {
                Some(src) => match ImageSource::from_json(src) {
                    Some(v) => Some(ContentBlock::Image { source: v }),
                    None => None,
                },
                None => None,
            }
        } else if tag_is(t, "tool_use") {
            match (j.get_str("id"), j.get_str("name"), j.get("input")) {
                (Some(id), Some(name), Some(input)) => Some(
                    ContentBlock::ToolUse { id: id.clone(), name: name.clone(), input: input.deep_clone() },
                ),
                _ => None,
            }
        } else if tag_is(t, "tool_result") {
            let is_error = match j.get("is_error") {
                None => Some(None),
                Some(JsonValue::Null) => Some(None),
                Some(JsonValue::Bool(b)) => Some(Some(*b)),
                _ => None,
            };
            let content = match j.get("content") {
                None => None,
                Some(JsonValue::Null) => None,
                Some(c) => Some(c.deep_clone()),
            };
            match (j.get_str("tool_use_id"), is_error) {
                (Some(id), Some(e)) => Some(ContentBlock::ToolResult { tool_use_id: id.clone(), content, is_error: e }),
                _ => None,
            }
        } else if tag_is(t, "redacted_thinking") {
            match j.get_str("data") {
                Some(d) => Some(ContentBlock::RedactedThinking { data: d.clone() }),
                None => None,
            }
        } else {
            None
        }
    }
}

proof fn lemma_block_literals()
    ensures
        "type"@ != "text"@,
        "type"@ != "data"@,
        "type"@ != "name"@,
        "thinking"@ != "tool_use"@,
        "type"@ != "thinking"@ && "type"@ != "signature"@ && "thinking"@ != "signature"@,
        "type"@ != "source"@ && "type"@ != "media_type"@ && "media_type"@ != "data"@ && "type"@ != "url"@,
        "type"@ != "id"@ && "type"@ != "input"@ && "id"@ != "name"@ && "id"@ != "input"@ && "name"@ != "input"@,
        "type"@ != "tool_use_id"@ && "type"@ != "content"@ && "type"@ != "is_error"@,
        "tool_use_id"@ != "content"@ && "tool_use_id"@ != "is_error"@ && "content"@ != "is_error"@,
        "text"@ != "thinking"@ && "text"@ != "image"@ && "text"@ != "tool_use"@ && "text"@ != "tool_result"@,
        "text"@ != "redacted_thinking"@ && "thinking"@ != "image"@ && "thinking"@ != "tool_result"@,
        "thinking"@ != "redacted_thinking"@ && "image"@ != "tool_use"@ && "image"@ != "tool_result"@,
        "image"@ != "redacted_thinking"@ && "tool_use"@ != "tool_result"@ && "tool_use"@ != "redacted_thinking"@,
        "tool_result"@ != "redacted_thinking"@,
        "base64"@ != "url"@,
{
    reveal_strlit("type");
    reveal_strlit("text");
    reveal_strlit("data");
    reveal_strlit("name");
    reveal_strlit("thinking");
    reveal_strlit("tool_use");
    reveal_strlit("signature");
    reveal_strlit("source");
    reveal_strlit("media_type");
    reveal_strlit("url");
    reveal_strlit("id");
    reveal_strlit("input");
    reveal_strlit("tool_use_id");
    reveal_strlit("content");
    reveal_strlit("is_error");
    reveal_strlit("image");
    reveal_strlit("tool_result");
    reveal_strlit("redacted_thinking");
    reveal_strlit("base64");
    assert("type"@.len() == 4);
    assert("text"@.len() == 4);
    assert("data"@.len() == 4);
    assert("name"@.len() == 4);
    assert("thinking"@.len() == 8);
    assert("tool_use"@.len() == 8);
    assert("signature"@.len() == 9);
    assert("source"@.len() == 6);
    assert("media_type"@.len() == 10);
    assert("url"@.len() == 3);
    assert("id"@.len() == 2);
    assert("input"@.len() == 5);
    assert("tool_use_id"@.len() == 11);
    assert("content"@.len() == 7);
    assert("is_error"@.len() == 8);
    assert("image"@.len() == 5);
    assert("tool_result"@.len() == 11);
    assert("redacted_thinking"@.len() == 17);
    assert("base64"@.len() == 6);
    assert("type"@[1] != "text"@[1]);
    assert("type"@[0] != "data"@[0]);
    assert("type"@[0] != "name"@[0]);
    assert("thinking"@[1] != "tool_use"@[1]);
}

/// A content block survives its JSON form, except a tool result whose content
/// is JSON null: that reads back as a result without content.
pub proof fn law_content_block_round_trip(b: ContentBlockView)
    requires
        !(b matches ContentBlockView::ToolResult(_, Some(Json::Null), _)),
    ensures
        content_block_of(content_block_json(b)) == Some(b),
{
    lemma_block_literals();
    reveal_with_fuel(crate::json::lookup, 5);
    match b {
        ContentBlockView::Image(src) => {
            assert(image_source_of(image_source_json(src)) == Some(src));
        },
        _ => {},
    }
}

// ---------------------------------------------------------------------------
// Tool definitions
// ---------------------------------------------------------------------------

/// A tool defined by the caller: its name, an optional description, and the
/// JSON schema of its input.
pub struct AnthropicCustomTool {
    pub name: String,
    pub description: Option<String>,
    pub input_schema: JsonValue,
}

/// A tool that runs on the provider's side (web search, web fetch, bash, text
/// editor and the like): a versioned `type`, a name, an optional use limit,
/// and every other member as it came.
pub struct AnthropicServerSideTool {
    pub tool_type: String,
    pub name: String,
    pub max_uses: Option<i32>,
    pub extra: Vec<(String, JsonValue)>,
}

/// A tool definition: a custom tool, or a server-side one.
pub enum AnthropicTool {
    Custom(AnthropicCustomTool),
    ServerSide(AnthropicServerSideTool),
}

/// The model of a tool definition.
pub enum ToolView {
    Custom { name: Seq<char>, description: Option<Seq<char>>, input_schema: Json },
    ServerSide { tool_type: Seq<char>, name: Seq<char>, max_uses: Option<i32>, extra: Seq<(Seq<char>, Json)> },
}

impl View for AnthropicTool {
    type V = ToolView;

    open spec fn view(&self) -> ToolView {
        match self {
            AnthropicTool::Custom(t) => ToolView::Custom {
                name: t.name@,
                description: match t.description {
                    Some(d) => Some(d@),
                    None => None,
                },
                input_schema: t.input_schema.model(),
            },
            AnthropicTool::ServerSide(t) => ToolView::ServerSide {
                tool_type: t.tool_type@,
                name: t.name@,
                max_uses: t.max_uses,
                extra: entry_models(t.extra@),
            },
        }
    }
}

/// The JSON form of a tool. A custom tool lists its name, its description when
/// it has one, and its input schema; a server-side tool its type, its name, its
/// use limit when it has one, and then its other members.
pub open spec fn tool_json(t: ToolView) -> Json {
    match t {
        ToolView::Custom { name, description, input_schema } => {
            let head = seq![("name"@, Json::Str(name))];
            let with_description = match description {
                Some(d) => head.push(("description"@, Json::Str(d))),
                None => head,
            };
            Json::Object(with_description.push(("input_schema"@, input_schema)))
        },
        ToolView::ServerSide { tool_type, name, max_uses, extra } => {
            let head = seq![("type"@, Json::Str(tool_type)), ("name"@, Json::Str(name))];
            let with_limit = match max_uses {
                Some(n) => head.push(("max_uses"@, int_json(n))),
                None => head,
            };
            Json::Object(with_limit + extra)
        },
    }
}

/// An optional string member: absent or null is `None`; anything but a
/// string makes the whole value unreadable (outer `None`).
pub open spec fn opt_str_member(j: Json, key: Seq<char>) -> Option<Option<Seq<char>>> {
    match j.get(key) {
        None => Some(None),
        Some(Json::Null) => Some(None),
        Some(Json::Str(s)) => Some(Some(s)),
        _ => None,
    }
}

/// Whether a member is one that a server-side tool reads by name.
pub open spec fn server_tool_key(k: Seq<char>) -> bool {
    k == "type"@ || k == "name"@ || k == "max_uses"@
}

/// Keeps the members that a server-side tool does not read by name.
pub open spec fn extra_member() -> spec_fn((Seq<char>, Json)) -> bool {
    |e: (Seq<char>, Json)| !server_tool_key(e.0)
}

/// A custom tool read from JSON: a string `name` and an `input_schema` are
/// required, the description is optional, other members are ignored.
pub open spec fn custom_tool_of(j: Json) -> Option<ToolView> {
    match (j.get_str("name"@), opt_str_member(j, "description"@), j.get("input_schema"@)) {
        (Some(name), Some(description), Some(input_schema)) => Some(
            ToolView::Custom { name, description, input_schema },
        ),
        _ => None,
    }
}

/// A server-side tool read from JSON: a string `type` and `name` are
/// required, the use limit is optional, and every other member is kept in
/// order.
pub open spec fn server_tool_of(j: Json) -> Option<ToolView> {
    match j {
        Json::Object(entries) => match (j.get_str("type"@), j.get_str("name"@), opt_int_member(j, "max_uses"@)) {
            (Some(tool_type), Some(name), Some(max_uses)) => Some(
                ToolView::ServerSide { tool_type, name, max_uses, extra: entries.filter(extra_member()) },
            ),
            _ => None,
        },
        _ => None,
    }
}

/// A tool read from JSON: as a custom tool wherever it reads as one, else as a
/// server-side tool.
pub open spec fn tool_of(j: Json) -> Option<ToolView> {
    match custom_tool_of(j) {
        Some(t) => Some(t),
        None => server_tool_of(j),
    }
}

fn opt_str_member_of(j: &JsonValue, key: &str) -> (r: Option<Option<String>>)
    ensures
        r matches Some(o) ==> opt_str_member(j.model(), key@) == Some(
            match o {
                Some(s) => Some(s@),
                None => None::<Seq<char>>,
            },
        ),
        r is None ==> opt_str_member(j.model(), key@) is None,
{
    match j.get(key) {
        None => Some(None),
        Some(JsonValue::Null) => Some(None),
        Some(JsonValue::Str(s)) => Some(Some(s.clone())),
        _ => None,
    }
}

fn clone_entries(entries: &Vec<(String, JsonValue)>) -> (r: Vec<(String, JsonValue)>)
    ensures
        entry_models(r@) == entry_models(entries@),
{
    let ghost em = entry_models(entries@);
    let mut out: Vec<(String, JsonValue)> = Vec::new();
    let mut i: usize = 0;
    while i < entries.len()
        invariant
            i <= entries@.len(),
            em == entry_models(entries@),
            entry_models(out@) =~= em.take(i as int),
        decreases entries.len() - i,
    {
        let c = entries[i].1.deep_clone();
        let ghost before = out@;
        out.push((entries[i].0.clone(), c));
        assert(entry_models(out@) =~= entry_models(before).push(em[i as int]));
        assert(em.take(i + 1) =~= em.take(i as int).push(em[i as int]));
        i += 1;
    }
    assert(em.take(em.len() as int) =~= em);
    out
}

fn extra_entries(entries: &Vec<(String, JsonValue)>) -> (r: Vec<(String, JsonValue)>)
    ensures
        entry_models(r@) == entry_models(entries@).filter(extra_member()),
{
    let ghost em = entry_models(entries@);
    let mut out: Vec<(String, JsonValue)> = Vec::new();
    let mut i: usize = 0;
    while i < entries.len()
        invariant
            i <= entries@.len(),
            em == entry_models(entries@),
            entry_models(out@) == em.take(i as int).filter(extra_member()),
        decreases entries.len() - i,
    {
        let k = entries[i].0.as_str();
        let read_by_name = str_eq(k, "type") || str_eq(k, "name") || str_eq(k, "max_uses");
        proof {
            assert(em.take(i + 1) =~= em.take(i as int).push(em[i as int]));
            em.take(i as int).lemma_filter_push(em[i as int], extra_member());
            assert(em[i as int].0 == entries@[i as int].0@);
        }
        if !read_by_name {
            let c = entries[i].1.deep_clone();
            let ghost before = out@;
            out.push((entries[i].0.clone(), c));
            assert(entry_models(out@) =~= entry_models(before).push(em[i as int]));
        }
        i += 1;
    }
    assert(em.take(em.len() as int) =~= em);
    out
}

impl AnthropicTool {
    /// The JSON form (see [`tool_json`]).
    pub fn to_json(&self) -> (r: JsonValue)
        ensures
            r.model() == tool_json(self@),
    {
        match self {
            AnthropicTool::Custom(t) => {
                let mut e = entries1("name", json_str(t.name.as_str()));
                let ghost head = seq![("name"@, Json::Str(t.name@))];
                let ghost tv = self@;
                if let Some(d) = &t.description {
                    push_entry(&mut e, "description", json_str(d.as_str()));
                }
                let ghost with_description = match tv->Custom_description {
                    Some(d) => head.push(("description"@, Json::Str(d))),
                    None => head,
                };
                assert(entry_models(e@) =~= with_description);
                push_entry(&mut e, "input_schema", t.input_schema.deep_clone());
                object(e)
            },
            AnthropicTool::ServerSide(t) => {
                let mut e = entries2("type", json_str(t.tool_type.as_str()), "name", json_str(t.name.as_str()));
                let ghost head = seq![("type"@, Json::Str(t.tool_type@)), ("name"@, Json::Str(t.name@))];
                if let Some(n) = t.max_uses {
                    push_entry(&mut e, "max_uses", int_value(n));
                }
                let ghost with_limit = match t.max_uses {
                    Some(n) => head.push(("max_uses"@, int_json(n))),
                    None => head,
                };
                assert(entry_models(e@) =~= with_limit);
                let mut rest = clone_entries(&t.extra);
                let ghost rm = entry_models(rest@);
                e.append(&mut rest);
                assert(entry_models(e@) =~= with_limit + rm);
                object(e)
            },
        }
    }

    /// A tool read from JSON (see [`tool_of`]).
    pub fn from_json(j: &JsonValue) -> (r: Option<AnthropicTool>)
        ensures
            r matches Some(t) ==> tool_of(j.model()) == Some(t@),
            r is None ==> tool_of(j.model()) is None,
    {
        proof {
            j.lemma_model_shape();
        }
        match (j.get_str("name"), opt_str_member_of(j, "description"), j.get("input_schema")) {
            (Some(name), Some(description), Some(schema)) => {
                return Some(
                    AnthropicTool::Custom(
                        AnthropicCustomTool { name: name.clone(), description, input_schema: schema.deep_clone() },
                    ),
                );
            },
            _ => {},
        }
        match j {
            JsonValue::Object(entries) => match (j.get_str("type"), j.get_str("name"), opt_int_member_of(j, "max_uses")) {
                (Some(tool_type), Some(name), Some(max_uses)) => Some(
                    AnthropicTool::ServerSide(
                        AnthropicServerSideTool {
                            tool_type: tool_type.clone(),
                            name: name.clone(),
                            max_uses,
                            extra: extra_entries(entries),
                        },
                    ),
                ),
                _ => None,
            },
            _ => None,
        }
    }
}


proof fn lemma_tool_literals()
    ensures
        "name"@ != "description"@ && "name"@ != "input_schema"@ && "description"@ != "input_schema"@,
        "type"@ != "name"@ && "type"@ != "max_uses"@ && "name"@ != "max_uses"@,
        "type"@ != "input_schema"@ && "max_uses"@ != "input_schema"@,
        !server_tool_key("input_schema"@),
{
    reveal_strlit("name");
    reveal_strlit("description");
    reveal_strlit("input_schema");
    reveal_strlit("type");
    reveal_strlit("max_uses");
    assert("name"@.len() == 4);
    assert("description"@.len() == 11);
    assert("input_schema"@.len() == 12);
    assert("type"@.len() == 4);
    assert("max_uses"@.len() == 8);
    assert("type"@[0] != "name"@[0]);
}

proof fn lemma_filter_keeps_all(s: Seq<(Seq<char>, Json)>)
    requires
        forall|i: int| 0 <= i < s.len() ==> !server_tool_key(#[trigger] s[i].0),
    ensures
        s.filter(extra_member()) == s,
    decreases s.len(),
{
    reveal(Seq::filter);
    if s.len() > 0 {
        let d = s.drop_last();
        assert forall|i: int| 0 <= i < d.len() implies !server_tool_key(#[trigger] d[i].0) by {
            assert(d[i] == s[i]);
        }
        lemma_filter_keeps_all(d);
        assert(!server_tool_key(s[s.len() - 1].0));
        assert(d.push(s.last()) =~= s);
    }
}

proof fn lemma_custom_tool_round_trip(t: ToolView)
    requires
        t is Custom,
    ensures
        tool_of(tool_json(t)) == Some(t),
{
    lemma_tool_literals();
    reveal_with_fuel(crate::json::lookup, 4);
}

proof fn lemma_server_tool_round_trip(
    tool_type: Seq<char>,
    name: Seq<char>,
    max_uses: Option<i32>,
    extra: Seq<(Seq<char>, Json)>,
)
    requires
        forall|i: int| 0 <= i < extra.len() ==> !server_tool_key(#[trigger] extra[i].0) && extra[i].0 != "input_schema"@,
    ensures
        tool_of(tool_json(ToolView::ServerSide { tool_type, name, max_uses, extra })) == Some(
            ToolView::ServerSide { tool_type, name, max_uses, extra },
        ),
{
    let t = ToolView::ServerSide { tool_type, name, max_uses, extra };
    let head = seq![("type"@, Json::Str(tool_type)), ("name"@, Json::Str(name))];
    let with_limit = match max_uses {
        Some(n) => head.push(("max_uses"@, int_json(n))),
        None => head,
    };
    let j = Json::Object(with_limit + extra);
    assert(tool_json(t) == j);
    lemma_tool_literals();
    assert(j.get("input_schema"@) is None) by {
        assert forall|i: int| 0 <= i < extra.len() implies #[trigger] extra[i].0 != "input_schema"@ by {}
        lemma_lookup_absent(extra, "input_schema"@);
        lemma_lookup_append(with_limit, extra, "input_schema"@);
        reveal_with_fuel(crate::json::lookup, 4);
    }
    assert(custom_tool_of(j) is None);
    assert(j.get_str("type"@) == Some(tool_type)) by {
        lemma_lookup_append(with_limit, extra, "type"@);
        reveal_with_fuel(crate::json::lookup, 2);
    }
    assert(j.get_str("name"@) == Some(name)) by {
        lemma_lookup_append(with_limit, extra, "name"@);
        reveal_with_fuel(crate::json::lookup, 3);
    }
    assert(opt_int_member(j, "max_uses"@) == Some(max_uses)) by {
        assert forall|i: int| 0 <= i < extra.len() implies #[trigger] extra[i].0 != "max_uses"@ by {
            assert(!server_tool_key(extra[i].0));
        }
        lemma_lookup_absent(extra, "max_uses"@);
        lemma_lookup_append(with_limit, extra, "max_uses"@);
        reveal_with_fuel(crate::json::lookup, 4);
        if let Some(n) = max_uses {
            lemma_parse_i32_int_text(n);
        }
    }
    assert((with_limit + extra).filter(extra_member()) == extra) by {
        Seq::filter_distributes_over_add(with_limit, extra, extra_member());
        assert(with_limit.filter(extra_member()) =~= Seq::empty()) by {
            reveal_with_fuel(Seq::filter, 4);
            if max_uses is Some {
                assert(with_limit.drop_last() =~= head);
            }
            assert(head.drop_last() =~= seq![("type"@, Json::Str(tool_type))]);
            assert(seq![("type"@, Json::Str(tool_type))].drop_last() =~= Seq::<(Seq<char>, Json)>::empty());
        }
        lemma_filter_keeps_all(extra);
        assert(Seq::<(Seq<char>, Json)>::empty() + extra =~= extra);
    }
}

/// A tool definition survives its JSON form. A server-side tool does so as long
/// as none of its other members is named like one that is read by name (`type`,
/// `name`, `max_uses`) or like the input schema of a custom tool: with an
/// `input_schema` member it reads back as a custom tool.
pub proof fn law_tool_round_trip(t: ToolView)
    requires
        t matches ToolView::ServerSide { extra, .. } ==> forall|i: int|
            0 <= i < extra.len() ==> !server_tool_key(#[trigger] extra[i].0) && extra[i].0 != "input_schema"@,
    ensures
        tool_of(tool_json(t)) == Some(t),
{
    match t {
        ToolView::Custom { .. } => lemma_custom_tool_round_trip(t),
        ToolView::ServerSide { tool_type, name, max_uses, extra } => lemma_server_tool_round_trip(
            tool_type,
            name,
            max_uses,
            extra,
        ),
    }
}

// ---------------------------------------------------------------------------
// System prompt blocks
// ---------------------------------------------------------------------------

/// A block of the system prompt: its `type`, its text, and the prompt-cache
/// settings when there are any.
pub struct SystemContentBlock {
    pub content_type: String,
    pub text: String,
    pub cache_control: Option<Vec<(String, JsonValue)>>,
}

/// The model of a system prompt block.
pub struct SystemBlockView {
    pub content_type: Seq<char>,
    pub text: Seq<char>,
    pub cache_control: Option<Seq<(Seq<char>, Json)>>,
}

impl View for SystemContentBlock {
    type V = SystemBlockView;

    open spec fn view(&self) -> SystemBlockView {
        SystemBlockView {
            content_type: self.content_type@,
            text: self.text@,
            cache_control: match self.cache_control {
                Some(c) => Some(entry_models(c@)),
                None => None,
            },
        }
    }
}

/// The JSON form of a system prompt block: its type and text, then its cache
/// settings as an object when it has them.
pub open spec fn system_block_json(b: SystemBlockView) -> Json {
    let head = seq![("type"@, Json::Str(b.content_type)), ("text"@, Json::Str(b.text))];
    Json::Object(
        match b.cache_control {
            Some(c) => head.push(("cache_control"@, Json::Object(c))),
            None => head,
        },
    )
}

/// Cache settings: absent or null is `None`, an object gives its members, and
/// anything else makes the block unreadable (outer `None`).
pub open spec fn cache_control_of(j: Json) -> Option<Option<Seq<(Seq<char>, Json)>>> {
    match j.get("cache_control"@) {
        None => Some(None),
        Some(Json::Null) => Some(None),
        Some(Json::Object(c)) => Some(Some(c)),
        _ => None,
    }
}

/// A system prompt block read from JSON: a string `type` and `text` are required.
pub open spec fn system_block_of(j: Json) -> Option<SystemBlockView> {
    match (j.get_str("type"@), j.get_str("text"@), cache_control_of(j)) {
        (Some(content_type), Some(text), Some(cache_control)) => Some(
            SystemBlockView { content_type, text, cache_control },
        ),
        _ => None,
    }
}

impl SystemContentBlock {
    /// The JSON form (see [`system_block_json`]).
    pub fn to_json(&self) -> (r: JsonValue)
        ensures
            r.model() == system_block_json(self@),
    {
        let mut e = entries2("type", json_str(self.content_type.as_str()), "text", json_str(self.text.as_str()));
        let ghost head = seq![("type"@, Json::Str(self.content_type@)), ("text"@, Json::Str(self.text@))];
        if let Some(c) = &self.cache_control {
            push_entry(&mut e, "cache_control", object(clone_entries(c)));
        }
        assert(entry_models(e@) =~= match self@.cache_control {
            Some(c) => head.push(("cache_control"@, Json::Object(c))),
            None => head,
        });
        object(e)
    }

    /// A system prompt block read from JSON (see [`system_block_of`]).
    pub fn from_json(j: &JsonValue) -> (r: Option<SystemContentBlock>)
        ensures
            r matches Some(b) ==> system_block_of(j.model()) == Some(b@),
            r is None ==> system_block_of(j.model()) is None,
    {
        let cache_control = match j.get("cache_control") {
            None => Some(None),
            Some(v) => {
                proof {
                    v.lemma_model_shape();
                }
                match v {
                    JsonValue::Null => Some(None),
                    JsonValue::Object(c) => Some(Some(clone_entries(c))),
                    _ => None,
                }
            },
        };
        match (j.get_str("type"), j.get_str("text"), cache_control) {
            (Some(t), Some(x), Some(c)) => Some(
                SystemContentBlock { content_type: t.clone(), text: x.clone(), cache_control: c },
            ),
            _ => None,
        }
    }
}

/// A system prompt block survives its JSON form.
pub proof fn law_system_block_round_trip(b: SystemBlockView)
    ensures
        system_block_of(system_block_json(b)) == Some(b),
{
    reveal_strlit("type");
    reveal_strlit("text");
    reveal_strlit("cache_control");
    assert("type"@[1] != "text"@[1]);
    assert("type"@.len() != "cache_control"@.len());
    assert("text"@.len() != "cache_control"@.len());
    reveal_with_fuel(crate::json::lookup, 4);
}

// ---------------------------------------------------------------------------
// Streaming events
// ---------------------------------------------------------------------------

/// An event of a streamed Messages API response.
pub enum StreamEvent {
    MessageStart { message: JsonValue },
    ContentBlockStart { index: i32, content_block: JsonValue },
    ContentBlockDelta { index: i32, delta: Delta },
    ContentBlockStop { index: i32 },
    MessageDelta { delta: JsonValue, usage: MessageDeltaUsage },
    MessageStop,
    Ping,
}

/// The model of a streaming event.
pub enum StreamEventView {
    MessageStart(Json),
    ContentBlockStart(i32, Json),
    ContentBlockDelta(i32, DeltaView),
    ContentBlockStop(i32),
    MessageDelta(Json, MessageDeltaUsage),
    MessageStop,
    Ping,
}

impl View for StreamEvent {
    type V = StreamEventView;

    open spec fn view(&self) -> StreamEventView {
        match self {
            StreamEvent::MessageStart { message } => StreamEventView::MessageStart(message.model()),
            StreamEvent::ContentBlockStart { index, content_block } => StreamEventView::ContentBlockStart(
                *index,
                content_block.model(),
            ),
            StreamEvent::ContentBlockDelta { index, delta } => StreamEventView::ContentBlockDelta(*index, delta@),
            StreamEvent::ContentBlockStop { index } => StreamEventView::ContentBlockStop(*index),
            StreamEvent::MessageDelta { delta, usage } => StreamEventView::MessageDelta(delta.model(), *usage),
            StreamEvent::MessageStop => StreamEventView::MessageStop,
            StreamEvent::Ping => StreamEventView::Ping,
        }
    }
}

/// The JSON form of a streaming event, tagged by `type`.
pub open spec fn stream_event_json(e: StreamEventView) -> Json {
    match e {
        StreamEventView::MessageStart(m) => tagged("message_start"@, seq![("message"@, m)]),
        StreamEventView::ContentBlockStart(i, b) => tagged(
            "content_block_start"@,
            seq![("index"@, int_json(i)), ("content_block"@, b)],
        ),
        StreamEventView::ContentBlockDelta(i, d) => tagged(
            "content_block_delta"@,
            seq![("index"@, int_json(i)), ("delta"@, delta_json(d))],
        ),
        StreamEventView::ContentBlockStop(i) => tagged("content_block_stop"@, seq![("index"@, int_json(i))]),
        StreamEventView::MessageDelta(d, u) => tagged(
            "message_delta"@,
            seq![("delta"@, d), ("usage"@, delta_usage_json(u))],
        ),
        StreamEventView::MessageStop => tagged("message_stop"@, Seq::empty()),
        StreamEventView::Ping => tagged("ping"@, Seq::empty()),
    }
}

/// The usage at the end of a stream, read from JSON.
pub open spec fn delta_usage_of(j: Json) -> Option<MessageDeltaUsage> {
    match int_member(j, "output_tokens"@) {
        Some(n) => Some(MessageDeltaUsage { output_tokens: n }),
        None => None,
    }
}

/// A streaming event read from JSON, by its `type`.
pub open spec fn stream_event_of(j: Json) -> Option<StreamEventView> {
    let t = j.get_str("type"@);
    if t == Some("message_start"@) {
        match j.get("message"@) {
            Some(m) => Some(StreamEventView::MessageStart(m)),
            None => None,
        }
    } else if t == Some("content_block_start"@) {
        match (int_member(j, "index"@), j.get("content_block"@)) {
            (Some(i), Some(b)) => Some(StreamEventView::ContentBlockStart(i, b)),
            _ => None,
        }
    } else if t == Some("content_block_delta"@) {
        match (int_member(j, "index"@), j.get("delta"@)) {
            (Some(i), Some(d)) => match delta_of(d) {
                Some(dv) => Some(StreamEventView::ContentBlockDelta(i, dv)),
                None => None,
            },
            _ => None,
        }
    } else if t == Some("content_block_stop"@) {
        match int_member(j, "index"@) {
            Some(i) => Some(StreamEventView::ContentBlockStop(i)),
            None => None,
        }
    } else if t == Some("message_delta"@) {
        match (j.get("delta"@), j.get("usage"@)) {
            (Some(d), Some(u)) => match delta_usage_of(u) {
                Some(uv) => Some(StreamEventView::MessageDelta(d, uv)),
                None => None,
            },
            _ => None,
        }
    } else if t == Some("message_stop"@) {
        Some(StreamEventView::MessageStop)
    } else if t == Some("ping"@) {
        Some(StreamEventView::Ping)
    } else {
        None
    }
}

impl StreamEvent {
    /// The JSON form (see [`stream_event_json`]).
    pub fn to_json(&self) -> (r: JsonValue)
        ensures
            r.model() == stream_event_json(self@),
    {
        match self {
            StreamEvent::MessageStart { message } => tagged_value(
                "message_start",
                entries1("message", message.deep_clone()),
            ),
            StreamEvent::ContentBlockStart { index, content_block } => tagged_value(
                "content_block_start",
                entries2("index", int_value(*index), "content_block", content_block.deep_clone()),
            ),
            StreamEvent::ContentBlockDelta { index, delta } => tagged_value(
                "content_block_delta",
                entries2("index", int_value(*index), "delta", delta.to_json()),
            ),
            StreamEvent::ContentBlockStop { index } => tagged_value(
                "content_block_stop",
                entries1("index", int_value(*index)),
            ),
            StreamEvent::MessageDelta { delta, usage } => tagged_value(
                "message_delta",
                entries2("delta", delta.deep_clone(), "usage", usage.to_json()),
            ),
            StreamEvent::MessageStop => {
                let r = tagged_value("message_stop", Vec::new());
                assert(entry_models(Seq::<(String, JsonValue)>::empty()) =~= Seq::empty());
                r
            },
            StreamEvent::Ping => {
                let r = tagged_value("ping", Vec::new());
                assert(entry_models(Seq::<(String, JsonValue)>::empty()) =~= Seq::empty());
                r
            },
        }
    }

    /// A streaming event read from JSON (see [`stream_event_of`]).
    pub fn from_json(j: &JsonValue) -> (r: Option<StreamEvent>)
        ensures
            r matches Some(e) ==> stream_event_of(j.model()) == Some(e@),
            r is None ==> stream_event_of(j.model()) is None,
    {
        let t = j.get_str("type");
        if tag_is(t, "message_start") {
            match j.get("message") {
                Some(m) => Some(StreamEvent::MessageStart { message: m.deep_clone() }),
                None => None,
            }
        } else if tag_is(t, "content_block_start") {
            match (int_member_of(j, "index"), j.get("content_block")) {
                (Some(index), Some(b)) => Some(StreamEvent::ContentBlockStart { index, content_block: b.deep_clone() }),
                _ => None,
            }
        } else if tag_is(t, "content_block_delta") {
            match (int_member_of(j, "index"), j.get("delta")) {
                (Some(index), Some(d)) => match Delta::from_json(d) {
                    Some(delta) => Some(StreamEvent::ContentBlockDelta { index, delta }),
                    None => None,
                },
                _ => None,
            }
        } else if tag_is(t, "content_block_stop") {
            match int_member_of(j, "index") {
                Some(index) => Some(StreamEvent::ContentBlockStop { index }),
                None => None,
            }
        } else if tag_is(t, "message_delta") {
            match (j.get("delta"), j.get("usage")) {
                (Some(d), Some(u)) => match int_member_of(u, "output_tokens") {
                    Some(n) => Some(
                        StreamEvent::MessageDelta { delta: d.deep_clone(), usage: MessageDeltaUsage { output_tokens: n } },
                    ),
                    None => None,
                },
                _ => None,
            }
        } else if tag_is(t, "message_stop") {
            Some(StreamEvent::MessageStop)
        } else if tag_is(t, "ping") {
            Some(StreamEvent::Ping)
        } else {
            None
        }
    }
}

proof fn lemma_event_literals()
    ensures
        "type"@ != "message"@ && "type"@ != "index"@ && "type"@ != "content_block"@,
        "type"@ != "delta"@ && "type"@ != "usage"@ && "index"@ != "content_block"@,
        "index"@ != "delta"@ && "delta"@ != "usage"@,
        "message_start"@ != "content_block_start"@ && "message_start"@ != "content_block_delta"@,
        "message_start"@ != "content_block_stop"@ && "message_start"@ != "message_delta"@,
        "message_start"@ != "message_stop"@ && "message_start"@ != "ping"@,
        "content_block_start"@ != "content_block_delta"@ && "content_block_start"@ != "content_block_stop"@,
        "content_block_start"@ != "message_delta"@ && "content_block_start"@ != "message_stop"@,
        "content_block_start"@ != "ping"@ && "content_block_delta"@ != "content_block_stop"@,
        "content_block_delta"@ != "message_delta"@ && "content_block_delta"@ != "message_stop"@,
        "content_block_delta"@ != "ping"@ && "content_block_stop"@ != "message_delta"@,
        "content_block_stop"@ != "message_stop"@ && "content_block_stop"@ != "ping"@,
        "message_delta"@ != "message_stop"@ && "message_delta"@ != "ping"@ && "message_stop"@ != "ping"@,
{
    reveal_strlit("type");
    reveal_strlit("message");
    reveal_strlit("index");
    reveal_strlit("content_block");
    reveal_strlit("delta");
    reveal_strlit("usage");
    reveal_strlit("message_start");
    reveal_strlit("content_block_start");
    reveal_strlit("content_block_delta");
    reveal_strlit("content_block_stop");
    reveal_strlit("message_delta");
    reveal_strlit("message_stop");
    reveal_strlit("ping");
    assert("type"@.len() == 4);
    assert("message"@.len() == 7);
    assert("index"@.len() == 5);
    assert("content_block"@.len() == 13);
    assert("delta"@.len() == 5);
    assert("usage"@.len() == 5);
    assert("message_start"@.len() == 13);
    assert("content_block_start"@.len() == 19);
    assert("content_block_delta"@.len() == 19);
    assert("content_block_stop"@.len() == 18);
    assert("message_delta"@.len() == 13);
    assert("message_stop"@.len() == 12);
    assert("ping"@.len() == 4);
    assert("index"@[0] != "delta"@[0]);
    assert("delta"@[0] != "usage"@[0]);
    assert("message_start"@[8] != "message_delta"@[8]);
    assert("content_block_start"@[14] != "content_block_delta"@[14]);
}

/// A streaming event survives its JSON form: reading back the JSON of any
/// event gives it.
pub proof fn law_stream_event_round_trip(e: StreamEventView)
    ensures
        stream_event_of(stream_event_json(e)) == Some(e),
{
    lemma_event_literals();
    reveal_with_fuel(crate::json::lookup, 3);
    match e {
        StreamEventView::ContentBlockStart(i, _) => {
            lemma_parse_i32_int_text(i);
        },
        StreamEventView::ContentBlockDelta(i, d) => {
            lemma_parse_i32_int_text(i);
            law_delta_round_trip(d);
        },
        StreamEventView::ContentBlockStop(i) => {
            lemma_parse_i32_int_text(i);
        },
        StreamEventView::MessageDelta(_, u) => {
            lemma_parse_i32_int_text(u.output_tokens);
        },
        _ => {},
    }
}

/// The message that opens a stream: its id, `type` and role, its content so
/// far, its model and its usage.
pub struct MessageStartData {
    pub id: String,
    pub message_type: String,
    pub role: String,
    pub content: Vec<JsonValue>,
    pub model: String,
    pub usage: AnthropicUsage,
}

/// The model of the message that opens a stream.
pub struct MessageStartView {
    pub id: Seq<char>,
    pub message_type: Seq<char>,
    pub role: Seq<char>,
    pub content: Seq<Json>,
    pub model: Seq<char>,
    pub usage: AnthropicUsage,
}

impl View for MessageStartData {
    type V = MessageStartView;

    open spec fn view(&self) -> MessageStartView {
        MessageStartView {
            id: self.id@,
            message_type: self.message_type@,
            role: self.role@,
            content: models(self.content@),
            model: self.model@,
            usage: self.usage,
        }
    }
}

/// The JSON form of the message that opens a stream.
pub open spec fn message_start_json(m: MessageStartView) -> Json {
    Json::Object(
        seq![
            ("id"@, Json::Str(m.id)),
            ("type"@, Json::Str(m.message_type)),
            ("role"@, Json::Str(m.role)),
            ("content"@, Json::Array(m.content)),
            ("model"@, Json::Str(m.model)),
            ("usage"@, usage_json(m.usage)),
        ],
    )
}

/// The message that opens a stream, read from JSON: every member is required,
/// the content as an array.
pub open spec fn message_start_of(j: Json) -> Option<MessageStartView> {
    match (j.get_str("id"@), j.get_str("type"@), j.get_str("role"@), j.get("content"@), j.get_str("model"@), j.get("usage"@)) {
        (Some(id), Some(message_type), Some(role), Some(Json::Array(content)), Some(model), Some(u)) => match usage_of(u) {
            Some(usage) => Some(MessageStartView { id, message_type, role, content, model, usage }),
            None => None,
        },
        _ => None,
    }
}

fn clone_items(items: &Vec<JsonValue>) -> (r: Vec<JsonValue>)
    ensures
        models(r@) == models(items@),
{
    let ghost ms = models(items@);
    let mut out: Vec<JsonValue> = Vec::new();
    let mut i: usize = 0;
    while i < items.len()
        invariant
            i <= items@.len(),
            ms == models(items@),
            models(out@) =~= ms.take(i as int),
        decreases items.len() - i,
    {
        let c = items[i].deep_clone();
        let ghost before = out@;
        out.push(c);
        assert(models(out@) =~= models(before).push(ms[i as int]));
        assert(ms.take(i + 1) =~= ms.take(i as int).push(ms[i as int]));
        i += 1;
    }
    assert(ms.take(ms.len() as int) =~= ms);
    out
}

impl MessageStartData {
    /// The JSON form (see [`message_start_json`]).
    pub fn to_json(&self) -> (r: JsonValue)
        ensures
            r.model() == message_start_json(self@),
    {
        let mut e = entries2("id", json_str(self.id.as_str()), "type", json_str(self.message_type.as_str()));
        push_entry(&mut e, "role", json_str(self.role.as_str()));
        push_entry(&mut e, "content", array(clone_items(&self.content)));
        push_entry(&mut e, "model", json_str(self.model.as_str()));
        push_entry(&mut e, "usage", self.usage.to_json());
        assert(entry_models(e@) =~= message_start_json(self@)->Object_0);
        object(e)
    }

    /// The message that opens a stream, read from JSON (see [`message_start_of`]).
    pub fn from_json(j: &JsonValue) -> (r: Option<MessageStartData>)
        ensures
            r matches Some(m) ==> message_start_of(j.model()) == Some(m@),
            r is None ==> message_start_of(j.model()) is None,
    {
        let content = match j.get("content") {
            Some(c) => c.as_array(),
            None => None,
        };
        let usage = match j.get("usage") {
            Some(u) => AnthropicUsage::from_json(u),
            None => None,
        };
        match (j.get_str("id"), j.get_str("type"), j.get_str("role"), content, j.get_str("model"), usage) {
            (Some(id), Some(t), Some(role), Some(items), Some(model), Some(usage)) => Some(
                MessageStartData {
                    id: id.clone(),
                    message_type: t.clone(),
                    role: role.clone(),
                    content: clone_items(items),
                    model: model.clone(),
                    usage,
                },
            ),
            _ => None,
        }
    }
}

/// The message that opens a stream survives its JSON form.
pub proof fn law_message_start_round_trip(m: MessageStartView)
    ensures
        message_start_of(message_start_json(m)) == Some(m),
{
    reveal_strlit("id");
    reveal_strlit("type");
    reveal_strlit("role");
    reveal_strlit("content");
    reveal_strlit("model");
    reveal_strlit("usage");
    assert("id"@.len() == 2);
    assert("type"@.len() == 4);
    assert("role"@.len() == 4);
    assert("content"@.len() == 7);
    assert("model"@.len() == 5);
    assert("usage"@.len() == 5);
    assert("type"@[0] != "role"@[0]);
    assert("model"@[0] != "usage"@[0]);
    reveal_with_fuel(crate::json::lookup, 6);
    law_usage_round_trip(m.usage);
}

} // verus!
