//! Request credentials and the small decisions the API handlers make.

use vstd::prelude::*;
use crate::error::{ApiError, ApiErrorView};
use crate::json::{entry_models, json_str, object, push_entry, Json, JsonValue};
use crate::text::{owned, parse_i64, parse_i64_spec, push_str};

verus! {

/// Kiro credentials a request is served with, as the authentication layer
/// resolved them.
#[derive(Clone, Debug)]
pub struct KiroCreds {
    pub user_id: Option<String>,
    pub api_key_id: Option<String>,
    pub access_token: String,
    pub region: String,
}

/// A stream with a callback to run once, when the stream has ended.
pub struct OnCompleteStream<S, F> {
    pub inner: S,
    pub on_complete: Option<F>,
}

impl<S, F> OnCompleteStream<S, F> {
    /// Whether the callback has not run yet.
    pub open spec fn pending(self) -> bool {
        self.on_complete is Some
    }

    /// Wraps `inner`, to run `on_complete` when it ends.
    pub fn new(inner: S, on_complete: F) -> (s: Self)
        ensures
            s.inner == inner,
            s.pending(),
    {
        OnCompleteStream { inner, on_complete: Some(on_complete) }
    }

    /// The callback to run now that the stream has ended: it is handed out the
    /// first time only.
    pub fn take_on_complete(&mut self) -> (f: Option<F>)
        ensures
            old(self).pending() ==> f is Some,
            !old(self).pending() ==> f is None,
            !final(self).pending(),
            final(self).inner == old(self).inner,
    {
        self.on_complete.take()
    }
}

/// The Kiro endpoint that generates responses, in a region.
pub open spec fn kiro_api_url_of(region: Seq<char>) -> Seq<char> {
    "https://codewhisperer."@ + region + ".amazonaws.com/generateAssistantResponse"@
}

/// `https://codewhisperer.<region>.amazonaws.com/generateAssistantResponse`.
pub fn kiro_api_url(region: &str) -> (s: String)
    ensures
        s@ == kiro_api_url_of(region@),
{
    let mut s = owned("https://codewhisperer.");
    push_str(&mut s, region);
    push_str(&mut s, ".amazonaws.com/generateAssistantResponse");
    s
}

/// The `Authorization` header value for an access token.
pub fn bearer(token: &str) -> (s: String)
    ensures
        s@ == "Bearer "@ + token@,
{
    let mut s = owned("Bearer ");
    push_str(&mut s, token);
    s
}

/// A request must carry at least one message.
pub fn check_messages(count: usize) -> (r: Result<(), ApiError>)
    ensures
        count == 0 ==> (r matches Err(e) && e@ == ApiErrorView::ValidationError("messages cannot be empty"@)),
        count > 0 ==> r is Ok,
{
    if count == 0 {
        Err(ApiError::ValidationError(owned("messages cannot be empty")))
    } else {
        Ok(())
    }
}

/// An Anthropic request must ask for a positive number of tokens.
pub fn check_max_tokens(max_tokens: i32) -> (r: Result<(), ApiError>)
    ensures
        max_tokens <= 0 ==> (r matches Err(e) && e@ == ApiErrorView::ValidationError("max_tokens must be positive"@)),
        max_tokens > 0 ==> r is Ok,
{
    if max_tokens <= 0 {
        Err(ApiError::ValidationError(owned("max_tokens must be positive")))
    } else {
        Ok(())
    }
}

/// A handler reached without credentials.
pub fn missing_credentials() -> (e: ApiError)
    ensures
        e@ == ApiErrorView::AuthError("Missing credentials"@),
{
    ApiError::AuthError(owned("Missing credentials"))
}

/// Whether a streamed chat completion reports usage: the `include_usage`
/// stream option when it is a boolean, else yes.
pub open spec fn include_usage_of(stream_options: Option<Json>) -> bool {
    match stream_options {
        Some(o) => match o.get("include_usage"@) {
            Some(Json::Bool(b)) => b,
            _ => true,
        },
        None => true,
    }
}

/// Whether a streamed chat completion reports usage (see [`include_usage_of`]).
pub fn include_usage(stream_options: Option<&JsonValue>) -> (b: bool)
    ensures
        b == include_usage_of(match stream_options {
            Some(o) => Some(o.model()),
            None => None,
        }),
{
    match stream_options {
        Some(o) => match o.get("include_usage") {
            Some(JsonValue::Bool(b)) => *b,
            _ => true,
        },
        None => true,
    }
}

/// The model variants the proxy lists, after the model family's name.
pub open spec fn listed_variants() -> Seq<Seq<char>> {
    seq![
        "sonnet-4"@,
        "sonnet-4-5"@,
        "sonnet-4-6"@,
        "haiku-4"@,
        "haiku-4-5"@,
        "haiku-4-6"@,
        "opus-4"@,
        "opus-4-6"@,
        "opus-4-7"@,
    ]
}

/// The name of a model variant of a family: the family's name, a hyphen and
/// the variant; the variant alone when the family's name is empty.
pub open spec fn model_name(family: Seq<char>, variant: Seq<char>) -> Seq<char> {
    if family.len() == 0 {
        variant
    } else {
        family + "-"@ + variant
    }
}

fn model_id(family: &str, variant: &str) -> (s: String)
    ensures
        s@ == model_name(family@, variant@),
{
    if family.is_empty() {
        return owned(variant);
    }
    let mut s = owned(family);
    push_str(&mut s, "-");
    push_str(&mut s, variant);
    s
}

/// The names of the models the proxy lists, in order (see [`model_name`]).
pub fn model_ids(family: &str) -> (v: Vec<String>)
    ensures
        v@.len() == listed_variants().len(),
        forall|i: int| 0 <= i < v@.len() ==> #[trigger] v@[i]@ == model_name(family@, listed_variants()[i]),
{
    let mut v = Vec::new();
    v.push(model_id(family, "sonnet-4"));
    v.push(model_id(family, "sonnet-4-5"));
    v.push(model_id(family, "sonnet-4-6"));
    v.push(model_id(family, "haiku-4"));
    v.push(model_id(family, "haiku-4-5"));
    v.push(model_id(family, "haiku-4-6"));
    v.push(model_id(family, "opus-4"));
    v.push(model_id(family, "opus-4-6"));
    v.push(model_id(family, "opus-4-7"));
    v
}

/// The body of `GET /`: running, with the version.
pub open spec fn root_json(version: Seq<char>) -> Json {
    Json::Object(seq![
        ("status"@, Json::Str("ok"@)),
        ("message"@, Json::Str("Kiro Proxy is running"@)),
        ("version"@, Json::Str(version)),
    ])
}

/// The body of `GET /` (see [`root_json`]).
pub fn root_body(version: &str) -> (r: JsonValue)
    ensures
        r.model() == root_json(version@),
{
    let mut e: Vec<(String, JsonValue)> = Vec::new();
    push_entry(&mut e, "status", json_str("ok"));
    push_entry(&mut e, "message", json_str("Kiro Proxy is running"));
    push_entry(&mut e, "version", json_str(version));
    let r = object(e);
    assert(entry_models(e@) =~= root_json(version@)->Object_0);
    r
}

/// The body of `GET /health`: healthy, with the time and the version.
pub open spec fn health_json(timestamp: Seq<char>, version: Seq<char>) -> Json {
    Json::Object(seq![
        ("status"@, Json::Str("healthy"@)),
        ("timestamp"@, Json::Str(timestamp)),
        ("version"@, Json::Str(version)),
    ])
}

/// The body of `GET /health` (see [`health_json`]).
pub fn health_body(timestamp: &str, version: &str) -> (r: JsonValue)
    ensures
        r.model() == health_json(timestamp@, version@),
{
    let mut e: Vec<(String, JsonValue)> = Vec::new();
    push_entry(&mut e, "status", json_str("healthy"));
    push_entry(&mut e, "timestamp", json_str(timestamp));
    push_entry(&mut e, "version", json_str(version));
    let r = object(e);
    assert(entry_models(e@) =~= health_json(timestamp@, version@)->Object_0);
    r
}

/// A member of the completion's `usage` object read as a 64-bit integer.
pub open spec fn usage_member(body: Json, key: Seq<char>) -> Option<i64> {
    match body.get("usage"@) {
        Some(u) => match u.get(key) {
            Some(Json::Number(t)) => parse_i64_spec(t),
            _ => None,
        },
        None => None,
    }
}

fn usage_member_of(body: &JsonValue, key: &str) -> (r: Option<i64>)
    ensures
        r == usage_member(body.model(), key@),
{
    match body.get("usage") {
        Some(u) => match u.get(key) {
            Some(JsonValue::Number(t)) => parse_i64(t.as_str()),
            _ => None,
        },
        None => None,
    }
}

/// The token counts recorded for a completed chat completion: its reported
/// prompt and completion tokens, else the estimated input and no output.
pub fn usage_tokens(body: &JsonValue, input_tokens: i32) -> (r: (i64, i64))
    ensures
        r.0 == (match usage_member(body.model(), "prompt_tokens"@) {
            Some(n) => n,
            None => input_tokens as i64,
        }),
        r.1 == (match usage_member(body.model(), "completion_tokens"@) {
            Some(n) => n,
            None => 0,
        }),
{
    let prompt = match usage_member_of(body, "prompt_tokens") {
        Some(n) => n,
        None => input_tokens as i64,
    };
    let completion = match usage_member_of(body, "completion_tokens") {
        Some(n) => n,
        None => 0,
    };
    (prompt, completion)
}

} // verus!
