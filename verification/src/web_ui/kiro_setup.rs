//! Binding a user's Kiro token through the device authorization flow.

use vstd::prelude::*;
use crate::auth::types::{DeviceAuthResponse, PollResult};
use crate::config::opt_view;
use crate::db::KiroTokenRow;
use crate::error::{ApiError, ApiErrorView};
use crate::json::{entry_models, json_bool, json_int, json_str, object, opt_str_json, opt_str_model, push_entry, Json, JsonValue};
use crate::text::{int_text, owned};
use crate::web_ui::session::{later, parse_rfc3339, rfc3339_instant};

verus! {

/// Where the device flow starts: an SSO start URL and region, both optional.
pub struct SetupRequest {
    pub sso_start_url: Option<String>,
    pub sso_region: Option<String>,
}

/// A poll of a started device authorization.
pub struct PollRequest {
    pub device_code: String,
}

/// The region and start URL of a setup: `us-east-1` and the empty URL unless given.
pub fn setup_target(req: &SetupRequest) -> (r: (String, String))
    ensures
        r.0@ == (match req.sso_region {
            Some(s) => s@,
            None => "us-east-1"@,
        }),
        r.1@ == (match req.sso_start_url {
            Some(s) => s@,
            None => Seq::<char>::empty(),
        }),
{
    let region = match &req.sso_region {
        Some(s) => s.clone(),
        None => owned("us-east-1"),
    };
    let start_url = match &req.sso_start_url {
        Some(s) => s.clone(),
        None => String::new(),
    };
    (region, start_url)
}

/// The body answering a started device authorization.
pub open spec fn device_auth_json(d: DeviceAuthResponse) -> Json {
    Json::Object(seq![
        ("device_code"@, Json::Str(d.device_code@)),
        ("user_code"@, Json::Str(d.user_code@)),
        ("verification_uri"@, Json::Str(d.verification_uri@)),
        ("verification_uri_complete"@, opt_str_model(d.verification_uri_complete)),
        ("expires_in"@, Json::Number(int_text(d.expires_in as int))),
        ("interval"@, Json::Number(int_text(d.interval as int))),
    ])
}

/// The body answering a started device authorization (see [`device_auth_json`]).
pub fn device_auth_body(d: &DeviceAuthResponse) -> (r: JsonValue)
    ensures
        r.model() == device_auth_json(*d),
{
    let mut e: Vec<(String, JsonValue)> = Vec::new();
    push_entry(&mut e, "device_code", json_str(d.device_code.as_str()));
    push_entry(&mut e, "user_code", json_str(d.user_code.as_str()));
    push_entry(&mut e, "verification_uri", json_str(d.verification_uri.as_str()));
    push_entry(&mut e, "verification_uri_complete", opt_str_json(&d.verification_uri_complete));
    push_entry(&mut e, "expires_in", json_int(d.expires_in));
    push_entry(&mut e, "interval", json_int(d.interval));
    let r = object(e);
    assert(entry_models(e@) =~= device_auth_json(*d)->Object_0);
    r
}

/// The client credentials and region a poll uses, from the user's stored row:
/// a setup must be in progress and have left a client id and secret.
pub fn poll_credentials(row: Option<KiroTokenRow>) -> (r: Result<(String, String, String), ApiError>)
    ensures
        row is None ==> (r matches Err(e) && e@ == ApiErrorView::ValidationError(
            "No setup in progress. Call /api/kiro/setup first."@,
        )),
        row matches Some(k) ==> (k.client_id is None ==> (r matches Err(e) && e@ == ApiErrorView::ValidationError(
            "Missing client_id"@,
        ))),
        row matches Some(k) ==> (k.client_id is Some && k.client_secret is None ==> (r matches Err(e) && e@
            == ApiErrorView::ValidationError("Missing client_secret"@))),
        row matches Some(k) ==> (k.client_id is Some && k.client_secret is Some ==> (r matches Ok((id, secret, region))
            && Some(id) == k.client_id && Some(secret) == k.client_secret && region@ == (match k.sso_region {
            Some(s) => s@,
            None => "us-east-1"@,
        }))),
{
    match row {
        None => Err(ApiError::ValidationError(owned("No setup in progress. Call /api/kiro/setup first."))),
        Some(k) => match k.client_id {
            None => Err(ApiError::ValidationError(owned("Missing client_id"))),
            Some(id) => match k.client_secret {
                None => Err(ApiError::ValidationError(owned("Missing client_secret"))),
                Some(secret) => {
                    let region = match k.sso_region {
                        Some(s) => s,
                        None => owned("us-east-1"),
                    };
                    Ok((id, secret, region))
                },
            },
        },
    }
}

/// The body answering a poll: pending, too fast, or bound.
pub open spec fn poll_answer_json(r: PollResult) -> Json {
    let (status, message) = match r {
        PollResult::Pending => ("pending"@, "Waiting for user authorization"@),
        PollResult::SlowDown => ("slow_down"@, "Polling too fast"@),
        PollResult::Success(_) => ("success"@, "Kiro token bound successfully"@),
    };
    Json::Object(seq![("status"@, Json::Str(status)), ("message"@, Json::Str(message))])
}

/// The body answering a poll (see [`poll_answer_json`]).
pub fn poll_answer_body(r: &PollResult) -> (v: JsonValue)
    ensures
        v.model() == poll_answer_json(*r),
{
    let (status, message) = match r {
        PollResult::Pending => ("pending", "Waiting for user authorization"),
        PollResult::SlowDown => ("slow_down", "Polling too fast"),
        PollResult::Success(_) => ("success", "Kiro token bound successfully"),
    };
    let mut e: Vec<(String, JsonValue)> = Vec::new();
    push_entry(&mut e, "status", json_str(status));
    push_entry(&mut e, "message", json_str(message));
    let v = object(e);
    assert(entry_models(e@) =~= poll_answer_json(*r)->Object_0);
    v
}

/// The RFC 3339 text `chrono` gives an instant (`to_rfc3339`), `None` when the
/// instant is out of its range.
pub uninterp spec fn rfc3339_text(secs: i64, nanos: u32) -> Option<Seq<char>>;

/// Calls `chrono::DateTime::from_timestamp` and `to_rfc3339`. Claimed: the
/// result is the RFC 3339 text of the instant (named, not computed here),
/// `None` when `from_timestamp` gives none.
#[verifier::external_body]
pub(crate) fn format_rfc3339(secs: i64, nanos: u32) -> (r: Option<String>)
    ensures
        opt_view(r) == rfc3339_text(secs, nanos),
{
    match chrono::DateTime::from_timestamp(secs, nanos) {
        Some(dt) => Some(dt.to_rfc3339()),
        None => None,
    }
}

/// The seconds after `now` at which a token lasting `expires_in` seconds (an
/// hour when not given) is recorded to expire: a minute early.
pub open spec fn expiry_secs(now: (i64, u32), expires_in: Option<i64>) -> int {
    now.0 + (match expires_in {
        Some(e) => e,
        None => 3600,
    }) - 60
}

/// The recorded expiry of a token obtained at `now` (see [`expiry_secs`]), as
/// RFC 3339 text; `None` when the instant is out of `chrono`'s range.
pub fn token_expiry_text(now: (i64, u32), expires_in: Option<i64>) -> (r: Option<String>)
    requires
        i64::MIN <= expiry_secs(now, expires_in) <= i64::MAX,
    ensures
        opt_view(r) == rfc3339_text(expiry_secs(now, expires_in) as i64, now.1),
{
    let e: i64 = match expires_in {
        Some(e) => e,
        None => 3600,
    };
    let secs = (now.0 as i128 + e as i128 - 60) as i64;
    format_rfc3339(secs, now.1)
}

/// Whether a stored expiry text lies in the past at `now`: a missing or
/// unreadable expiry counts as expired.
pub open spec fn expiry_passed(token_expiry: Option<String>, now: (i64, u32)) -> bool {
    match token_expiry {
        None => true,
        Some(t) => match rfc3339_instant(t@) {
            Some(exp) => later(now, exp),
            None => true,
        },
    }
}

/// The body of the token status: with a row, whether it holds an access token,
/// whether it has expired at `now`, its SSO region and start URL; without one,
/// no token and expired.
pub open spec fn kiro_status_json(row: Option<KiroTokenRow>, now: (i64, u32)) -> Json {
    match row {
        Some(k) => Json::Object(seq![
            ("has_token"@, Json::Bool(k.access_token is Some)),
            ("expired"@, Json::Bool(expiry_passed(k.token_expiry, now))),
            ("sso_region"@, opt_str_model(k.sso_region)),
            ("sso_start_url"@, opt_str_model(k.sso_start_url)),
        ]),
        None => Json::Object(seq![("has_token"@, Json::Bool(false)), ("expired"@, Json::Bool(true))]),
    }
}

/// The body of the token status (see [`kiro_status_json`]).
pub fn kiro_status_body(row: &Option<KiroTokenRow>, now: (i64, u32)) -> (r: JsonValue)
    ensures
        r.model() == kiro_status_json(*row, now),
{
    let mut e: Vec<(String, JsonValue)> = Vec::new();
    match row {
        Some(k) => {
            let expired = match &k.token_expiry {
                None => true,
                Some(t) => match parse_rfc3339(t.as_str()) {
                    Some(exp) => now.0 > exp.0 || (now.0 == exp.0 && now.1 > exp.1),
                    None => true,
                },
            };
            push_entry(&mut e, "has_token", json_bool(k.access_token.is_some()));
            push_entry(&mut e, "expired", json_bool(expired));
            push_entry(&mut e, "sso_region", opt_str_json(&k.sso_region));
            push_entry(&mut e, "sso_start_url", opt_str_json(&k.sso_start_url));
        },
        None => {
            push_entry(&mut e, "has_token", json_bool(false));
            push_entry(&mut e, "expired", json_bool(true));
        },
    }
    let r = object(e);
    assert(entry_models(e@) =~= kiro_status_json(*row, now)->Object_0);
    r
}

} // verus!
