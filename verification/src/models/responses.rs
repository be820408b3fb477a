//! OpenAI Responses API request model.

use vstd::prelude::*;
use crate::json::{array, entry_models, models, object, str_entry, Json, JsonValue};
use crate::text::owned;

verus! {

/// Reasoning settings of a Responses API request.
pub struct Reasoning {
    pub effort: Option<String>,
    pub summary: Option<String>,
}

/// A Responses API request. Fields that are accepted but not forwarded are kept
/// as they came; `included` holds the request's `include` list.
pub struct ResponsesApiRequest {
    pub model: String,
    pub instructions: Option<String>,
    pub input: Vec<JsonValue>,
    pub tools: Vec<JsonValue>,
    pub tool_choice: String,
    pub parallel_tool_calls: bool,
    pub reasoning: Option<Reasoning>,
    pub store: bool,
    pub stream: bool,
    pub included: Vec<String>,
    pub service_tier: Option<String>,
    pub text: Option<JsonValue>,
    pub prompt_cache_key: Option<String>,
    pub client_metadata: Option<JsonValue>,
    pub previous_response_id: Option<String>,
}

/// The default of `stream`: true.
pub fn default_true() -> (b: bool)
    ensures
        b,
{
    true
}

/// The default of `tool_choice`: "auto".
pub fn default_tool_choice() -> (s: String)
    ensures
        s@ == "auto"@,
{
    owned("auto")
}

/// The single user message that a plain-string input stands for.
pub open spec fn text_input_message(s: Seq<char>) -> Json {
    Json::Object(
        seq![
            ("type"@, Json::Str("message"@)),
            ("role"@, Json::Str("user"@)),
            (
                "content"@,
                Json::Array(
                    seq![Json::Object(seq![("type"@, Json::Str("input_text"@)), ("text"@, Json::Str(s))])],
                ),
            ),
        ],
    )
}

/// The input items that an `input` value stands for: an array's items, a string
/// as one user message, anything else as no items.
pub open spec fn input_items(value: Json) -> Seq<Json> {
    match value {
        Json::Array(items) => items,
        Json::Str(s) => seq![text_input_message(s)],
        _ => Seq::empty(),
    }
}

/// Reads the `input` field of a request into a list of input items.
pub fn input_items_from_value(value: JsonValue) -> (r: Vec<JsonValue>)
    ensures
        models(r@) == input_items(value.model()),
{
    proof {
        value.lemma_model_shape();
    }
    match value {
        JsonValue::Array(items) => items,
        JsonValue::Str(s) => {
            let ghost sm = s@;
            let part_entries = vec![str_entry("type", "input_text"), (owned("text"), JsonValue::Str(s))];
            assert(entry_models(part_entries@) =~= seq![("type"@, Json::Str("input_text"@)), ("text"@, Json::Str(sm))]);
            let part = object(part_entries);
            let parts = vec![part];
            assert(models(parts@) =~= seq![part.model()]);
            let content = array(parts);
            let msg_entries = vec![str_entry("type", "message"), str_entry("role", "user"), (owned("content"), content)];
            assert(entry_models(msg_entries@) =~= seq![
                ("type"@, Json::Str("message"@)),
                ("role"@, Json::Str("user"@)),
                ("content"@, content.model()),
            ]);
            let msg = object(msg_entries);
            assert(msg.model() == text_input_message(sm));
            let r = vec![msg];
            assert(models(r@) =~= input_items(value.model()));
            r
        },
        _ => Vec::new(),
    }
}

} // verus!
