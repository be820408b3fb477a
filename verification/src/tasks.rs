//! The background refresh of expiring tokens: which tokens can be refreshed,
//! with which credentials, and how far ahead.

use vstd::prelude::*;
use crate::auth::oauth::oidc_base;
use crate::auth::types::{Credentials, TokenData};
use crate::config::opt_view;
use crate::db::{KiroTokenRow, PoolEntryRow};
use crate::json::{entry_models, json_str, object, push_entry, Json, JsonValue};
use crate::text::owned;
use crate::web_ui::kiro_setup::{format_rfc3339, rfc3339_text};

verus! {

/// How many seconds ahead tokens are refreshed.
pub const REFRESH_AHEAD_SECS: i64 = 300;

/// How often the refresh runs, in seconds.
pub const REFRESH_INTERVAL_SECS: u64 = 300;

/// How often expired sessions are cleaned up, in seconds.
pub const SESSION_CLEANUP_INTERVAL_SECS: u64 = 3600;

/// The credentials a stored token is refreshed with, when it has client
/// credentials: its refresh and access tokens, its SSO region (`us-east-1`
/// when none) as region, and its client id, secret and SSO region.
pub open spec fn refresh_credentials_ok(
    refresh_token: String,
    access_token: Option<String>,
    client_id: Option<String>,
    client_secret: Option<String>,
    sso_region: Option<String>,
    c: Credentials,
) -> bool {
    &&& c.refresh_token == refresh_token
    &&& c.access_token == access_token
    &&& c.expires_at is None
    &&& c.profile_arn is None
    &&& c.region@ == (match sso_region {
        Some(r) => r@,
        None => "us-east-1"@,
    })
    &&& c.client_id == client_id
    &&& c.client_secret == client_secret
    &&& c.sso_region == sso_region
    &&& c.scopes is None
}

fn credentials_for(
    refresh_token: &String,
    access_token: &Option<String>,
    client_id: &Option<String>,
    client_secret: &Option<String>,
    sso_region: &Option<String>,
) -> (r: Option<Credentials>)
    ensures
        (client_id is None || client_secret is None) ==> r is None,
        !(client_id is None || client_secret is None) ==> (r matches Some(c) && refresh_credentials_ok(
            *refresh_token,
            *access_token,
            *client_id,
            *client_secret,
            *sso_region,
            c,
        )),
{
    if client_id.is_none() || client_secret.is_none() {
        return None;
    }
    let region = match sso_region {
        Some(r) => r.clone(),
        None => owned("us-east-1"),
    };
    Some(Credentials {
        refresh_token: refresh_token.clone(),
        access_token: access_token.clone(),
        expires_at: None,
        profile_arn: None,
        region,
        client_id: client_id.clone(),
        client_secret: client_secret.clone(),
        sso_region: sso_region.clone(),
        scopes: None,
    })
}

/// The credentials to refresh a user's token with; `None` (skipped) without a
/// client id and secret.
pub fn user_refresh_credentials(row: &KiroTokenRow) -> (r: Option<Credentials>)
    ensures
        (row.client_id is None || row.client_secret is None) ==> r is None,
        !(row.client_id is None || row.client_secret is None) ==> (r matches Some(c) && refresh_credentials_ok(
            row.refresh_token,
            row.access_token,
            row.client_id,
            row.client_secret,
            row.sso_region,
            c,
        )),
{
    credentials_for(&row.refresh_token, &row.access_token, &row.client_id, &row.client_secret, &row.sso_region)
}

/// The credentials to refresh a pool entry with; `None` (skipped) without a
/// client id and secret.
pub fn pool_refresh_credentials(entry: &PoolEntryRow) -> (r: Option<Credentials>)
    ensures
        (entry.client_id is None || entry.client_secret is None) ==> r is None,
        !(entry.client_id is None || entry.client_secret is None) ==> (r matches Some(c) && refresh_credentials_ok(
            entry.refresh_token,
            entry.access_token,
            entry.client_id,
            entry.client_secret,
            entry.sso_region,
            c,
        )),
{
    credentials_for(&entry.refresh_token, &entry.access_token, &entry.client_id, &entry.client_secret, &entry.sso_region)
}

/// The expiry text below which tokens are refreshed at `now`: five minutes
/// ahead, as RFC 3339; `None` when out of `chrono`'s range.
pub fn refresh_horizon(now: (i64, u32)) -> (r: Option<String>)
    requires
        now.0 + REFRESH_AHEAD_SECS <= i64::MAX,
    ensures
        opt_view(r) == rfc3339_text((now.0 + REFRESH_AHEAD_SECS) as i64, now.1),
{
    format_rfc3339(now.0 + REFRESH_AHEAD_SECS, now.1)
}

/// The region whose OIDC service refreshes a credential: its SSO region, else
/// its region.
pub open spec fn refresh_region(c: Credentials) -> Seq<char> {
    match c.sso_region {
        Some(r) => r@,
        None => c.region@,
    }
}

/// The token endpoint a credential is refreshed at.
pub fn refresh_url(c: &Credentials) -> (s: String)
    ensures
        s@ == oidc_base(refresh_region(*c)) + "/token"@,
{
    let region = match &c.sso_region {
        Some(r) => r.as_str(),
        None => c.region.as_str(),
    };
    crate::auth::oauth::oidc_url(region, "/token")
}

/// The body of a refresh-token grant of the OIDC token endpoint.
pub open spec fn refresh_json(client_id: Seq<char>, client_secret: Seq<char>, refresh_token: Seq<char>) -> Json {
    Json::Object(seq![
        ("clientId"@, Json::Str(client_id)),
        ("clientSecret"@, Json::Str(client_secret)),
        ("grantType"@, Json::Str("refresh_token"@)),
        ("refreshToken"@, Json::Str(refresh_token)),
    ])
}

/// The body of a refresh-token grant for credentials that hold a client id
/// and secret (see [`refresh_json`]).
pub fn refresh_body(c: &Credentials) -> (r: Option<JsonValue>)
    ensures
        (c.client_id is None || c.client_secret is None) ==> r is None,
        c.client_id matches Some(id) ==> (c.client_secret matches Some(secret) ==> (r matches Some(v) && v.model()
            == refresh_json(id@, secret@, c.refresh_token@))),
{
    match (&c.client_id, &c.client_secret) {
        (Some(id), Some(secret)) => {
            let mut e: Vec<(String, JsonValue)> = Vec::new();
            push_entry(&mut e, "clientId", json_str(id.as_str()));
            push_entry(&mut e, "clientSecret", json_str(secret.as_str()));
            push_entry(&mut e, "grantType", json_str("refresh_token"));
            push_entry(&mut e, "refreshToken", json_str(c.refresh_token.as_str()));
            let v = object(e);
            assert(entry_models(e@) =~= refresh_json(id@, secret@, c.refresh_token@)->Object_0);
            Some(v)
        },
        _ => None,
    }
}

// ---------------------------------------------------------------------------
// What a refresh outcome does to the stored token
// ---------------------------------------------------------------------------

/// What the stored token becomes after a refresh attempt.
pub enum RefreshAction {
    /// Store the new access token, expiring at the given RFC 3339 time, and
    /// the rotated refresh token when one came.
    StoreToken { access_token: String, expiry: String, refresh_token: Option<String> },
    /// Mark the token expired.
    MarkExpired,
}

/// Nanoseconds per second.
pub const NANOS: i128 = 1_000_000_000;

/// An instant given in nanoseconds since the Unix epoch, as whole seconds
/// (rounded down) and the nanoseconds past them.
pub open spec fn instant_parts(nanos: i128) -> (int, int) {
    (nanos as int / NANOS as int, nanos as int % NANOS as int)
}

fn split_instant(e: i128) -> (r: (i128, i128))
    ensures
        r.0 as int == instant_parts(e).0,
        r.1 as int == instant_parts(e).1,
        0 <= r.1 < NANOS,
{
    if e >= 0 {
        (e / NANOS, e % NANOS)
    } else {
        let m: i128 = -(e + 1);
        let q: i128 = -(m / NANOS) - 1;
        let r: i128 = NANOS - 1 - m % NANOS;
        proof {
            let n = NANOS as int;
            let mq = m as int / n;
            let mr = m as int % n;
            vstd::arithmetic::div_mod::lemma_fundamental_div_mod(m as int, n);
            assert(m as int == n * mq + mr);
            assert(e as int == q as int * n + r as int) by (nonlinear_arith)
                requires
                    m as int == n * mq + mr,
                    e as int == -(m as int) - 1,
                    q as int == -mq - 1,
                    r as int == n - 1 - mr,
            ;
            vstd::arithmetic::div_mod::lemma_fundamental_div_mod_converse(e as int, n, q as int, r as int);
        }
        (q, r)
    }
}

/// The action for the outcome of refreshing a stored token: a failure marks it
/// expired; a success stores the new access token with its expiry as RFC 3339
/// text and the rotated refresh token, if any. `None` when the expiry cannot
/// be written as RFC 3339 text (its seconds do not fit in 64 bits, or the
/// instant is out of the calendar's range).
pub fn refresh_action(outcome: Result<TokenData, String>) -> (r: Option<RefreshAction>)
    ensures
        outcome is Err ==> r matches Some(RefreshAction::MarkExpired),
        outcome matches Ok(d) ==> {
            let (secs, sub) = instant_parts(d.expires_at);
            let text = if i64::MIN <= secs <= i64::MAX {
                rfc3339_text(secs as i64, sub as u32)
            } else {
                None
            };
            &&& text is None ==> r is None
            &&& text matches Some(t) ==> (r matches Some(RefreshAction::StoreToken { access_token, expiry, refresh_token })
                && access_token@ == d.access_token@ && expiry@ == t && opt_view(refresh_token) == opt_view(d.refresh_token))
        },
{
    match outcome {
        Err(_) => Some(RefreshAction::MarkExpired),
        Ok(d) => {
            let (secs, sub) = split_instant(d.expires_at);
            if secs < i64::MIN as i128 || secs > i64::MAX as i128 {
                return None;
            }
            match format_rfc3339(secs as i64, sub as u32) {
                Some(expiry) => Some(
                    RefreshAction::StoreToken { access_token: d.access_token, expiry, refresh_token: d.refresh_token },
                ),
                None => None,
            }
        },
    }
}

} // verus!
