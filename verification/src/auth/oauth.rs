//! The AWS SSO OIDC device authorization flow: endpoints, request bodies,
//! poll answers and PKCE material.

use vstd::prelude::*;
use vstd::utf8::encode_utf8;
use base64::Engine;
use rand::RngCore;
use crate::auth::types::{PkceState, PollResult};
use crate::crypto::{sha256, sha256_digest};
use crate::json::{array, entry_models, json_str, models, object, push_entry, Json, JsonValue};
use crate::text::{concat, contains, contains_spec, owned, push_str, str_eq};

verus! {

/// The scopes requested for a registered client.
pub open spec fn scopes() -> Seq<Seq<char>> {
    seq!["codewhisperer:completions"@, "codewhisperer:analysis"@, "codewhisperer:conversations"@]
}

/// The grant types of a client registered for a flow: the browser flow uses
/// authorization codes, any other flow device codes; both refresh.
pub open spec fn grant_types(flow: Seq<char>) -> Seq<Seq<char>> {
    if flow == "browser"@ {
        seq!["authorization_code"@, "refresh_token"@]
    } else {
        seq!["urn:ietf:params:oauth:grant-type:device_code"@, "refresh_token"@]
    }
}

/// JSON strings for texts.
pub open spec fn str_items(items: Seq<Seq<char>>) -> Seq<Json> {
    Seq::new(items.len(), |i: int| Json::Str(items[i]))
}

/// The base URL of the OIDC service of a region.
pub open spec fn oidc_base(region: Seq<char>) -> Seq<char> {
    "https://oidc."@ + region + ".amazonaws.com"@
}

/// `https://oidc.<region>.amazonaws.com`.
pub fn get_oidc_base_url(region: &str) -> (s: String)
    ensures
        s@ == oidc_base(region@),
{
    let mut s = owned("https://oidc.");
    push_str(&mut s, region);
    push_str(&mut s, ".amazonaws.com");
    s
}

/// The URL of an OIDC endpoint (`/client/register`, `/device_authorization`, `/token`).
pub fn oidc_url(region: &str, path: &str) -> (s: String)
    ensures
        s@ == oidc_base(region@) + path@,
{
    let base = get_oidc_base_url(region);
    concat(base.as_str(), path)
}

/// The body of a client registration: name `kiro-proxy`, type `public`, the
/// scopes and the flow's grant types, then the redirect URI when given and the
/// issuer URL when a non-empty start URL is given.
pub open spec fn registration_json(flow: Seq<char>, redirect_uri: Option<Seq<char>>, start_url: Option<Seq<char>>) -> Json {
    let base = seq![
        ("clientName"@, Json::Str("kiro-proxy"@)),
        ("clientType"@, Json::Str("public"@)),
        ("scopes"@, Json::Array(str_items(scopes()))),
        ("grantTypes"@, Json::Array(str_items(grant_types(flow)))),
    ];
    let with_redirect = match redirect_uri {
        Some(u) => base.push(("redirectUris"@, Json::Array(seq![Json::Str(u)]))),
        None => base,
    };
    let with_issuer = match start_url {
        Some(su) => if su.len() > 0 {
            with_redirect.push(("issuerUrl"@, Json::Str(su)))
        } else {
            with_redirect
        },
        None => with_redirect,
    };
    Json::Object(with_issuer)
}

fn text_array2(a: &str, b: &str) -> (r: JsonValue)
    ensures
        r.model() == Json::Array(str_items(seq![a@, b@])),
{
    let mut items = Vec::new();
    items.push(json_str(a));
    items.push(json_str(b));
    let r = array(items);
    assert(models(items@) =~= str_items(seq![a@, b@]));
    r
}

/// The body of a client registration (see [`registration_json`]).
pub fn registration_body(flow: &str, redirect_uri: Option<&str>, start_url: Option<&str>) -> (r: JsonValue)
    ensures
        r.model() == registration_json(
            flow@,
            match redirect_uri {
                Some(u) => Some(u@),
                None => None,
            },
            match start_url {
                Some(s) => Some(s@),
                None => None,
            },
        ),
{
    let mut entries: Vec<(String, JsonValue)> = Vec::new();
    push_entry(&mut entries, "clientName", json_str("kiro-proxy"));
    push_entry(&mut entries, "clientType", json_str("public"));
    let mut scope_items = Vec::new();
    scope_items.push(json_str("codewhisperer:completions"));
    scope_items.push(json_str("codewhisperer:analysis"));
    scope_items.push(json_str("codewhisperer:conversations"));
    let scopes_json = array(scope_items);
    assert(models(scope_items@) =~= str_items(scopes()));
    push_entry(&mut entries, "scopes", scopes_json);
    let grants = if str_eq(flow, "browser") {
        text_array2("authorization_code", "refresh_token")
    } else {
        text_array2("urn:ietf:params:oauth:grant-type:device_code", "refresh_token")
    };
    push_entry(&mut entries, "grantTypes", grants);
    if let Some(uri) = redirect_uri {
        let mut uris = Vec::new();
        uris.push(json_str(uri));
        let uris_json = array(uris);
        assert(models(uris@) =~= seq![Json::Str(uri@)]);
        push_entry(&mut entries, "redirectUris", uris_json);
    }
    if let Some(su) = start_url {
        if !su.is_empty() {
            push_entry(&mut entries, "issuerUrl", json_str(su));
        }
    }
    let r = object(entries);
    assert(entry_models(entries@) =~= registration_json(
        flow@,
        match redirect_uri {
            Some(u) => Some(u@),
            None => None,
        },
        match start_url {
            Some(s) => Some(s@),
            None => None,
        },
    )->Object_0);
    r
}

/// The body that starts a device authorization.
pub open spec fn device_authorization_json(client_id: Seq<char>, client_secret: Seq<char>, start_url: Seq<char>) -> Json {
    Json::Object(seq![
        ("clientId"@, Json::Str(client_id)),
        ("clientSecret"@, Json::Str(client_secret)),
        ("startUrl"@, Json::Str(start_url)),
    ])
}

/// The body that starts a device authorization (see [`device_authorization_json`]).
pub fn device_authorization_body(client_id: &str, client_secret: &str, start_url: &str) -> (r: JsonValue)
    ensures
        r.model() == device_authorization_json(client_id@, client_secret@, start_url@),
{
    let mut entries: Vec<(String, JsonValue)> = Vec::new();
    push_entry(&mut entries, "clientId", json_str(client_id));
    push_entry(&mut entries, "clientSecret", json_str(client_secret));
    push_entry(&mut entries, "startUrl", json_str(start_url));
    let r = object(entries);
    assert(entry_models(entries@) =~= device_authorization_json(client_id@, client_secret@, start_url@)->Object_0);
    r
}

/// The body of one poll for the tokens of a device authorization.
pub open spec fn device_token_json(client_id: Seq<char>, client_secret: Seq<char>, device_code: Seq<char>) -> Json {
    Json::Object(seq![
        ("grantType"@, Json::Str("urn:ietf:params:oauth:grant-type:device_code"@)),
        ("clientId"@, Json::Str(client_id)),
        ("clientSecret"@, Json::Str(client_secret)),
        ("deviceCode"@, Json::Str(device_code)),
    ])
}

/// The body of one poll for the tokens of a device authorization (see [`device_token_json`]).
pub fn device_token_body(client_id: &str, client_secret: &str, device_code: &str) -> (r: JsonValue)
    ensures
        r.model() == device_token_json(client_id@, client_secret@, device_code@),
{
    let mut entries: Vec<(String, JsonValue)> = Vec::new();
    push_entry(&mut entries, "grantType", json_str("urn:ietf:params:oauth:grant-type:device_code"));
    push_entry(&mut entries, "clientId", json_str(client_id));
    push_entry(&mut entries, "clientSecret", json_str(client_secret));
    push_entry(&mut entries, "deviceCode", json_str(device_code));
    let r = object(entries);
    assert(entry_models(entries@) =~= device_token_json(client_id@, client_secret@, device_code@)->Object_0);
    r
}

/// What a failed poll means, by its error text: the user has not authorized
/// yet (`authorization_pending`), polling is too fast (`slow_down`), or the
/// flow failed.
pub fn classify_poll_failure(error_text: &str) -> (r: Result<PollResult, String>)
    ensures
        contains_spec(error_text@, "authorization_pending"@) ==> r matches Ok(PollResult::Pending),
        !contains_spec(error_text@, "authorization_pending"@) && contains_spec(error_text@, "slow_down"@) ==> r matches Ok(PollResult::SlowDown),
        !contains_spec(error_text@, "authorization_pending"@) && !contains_spec(error_text@, "slow_down"@) ==> (r matches Err(m)
            && m@ == "Device token polling failed: "@ + error_text@),
{
    if contains(error_text, "authorization_pending") {
        Ok(PollResult::Pending)
    } else if contains(error_text, "slow_down") {
        Ok(PollResult::SlowDown)
    } else {
        Err(concat("Device token polling failed: ", error_text))
    }
}

// ---------------------------------------------------------------------------
// PKCE
// ---------------------------------------------------------------------------

/// The character of a 6-bit value in the URL-safe base64 alphabet
/// (`A`-`Z`, `a`-`z`, `0`-`9`, `-`, `_`).
pub open spec fn b64_char(n: int) -> char {
    if n < 26 {
        ((65 + n) as u32) as char
    } else if n < 52 {
        ((97 + n - 26) as u32) as char
    } else if n < 62 {
        ((48 + n - 52) as u32) as char
    } else if n == 62 {
        '-'
    } else {
        '_'
    }
}

/// URL-safe base64 without padding: each three bytes become four characters,
/// a final one or two bytes two or three characters.
pub open spec fn b64url(d: Seq<u8>) -> Seq<char>
    decreases d.len(),
{
    if d.len() == 0 {
        Seq::empty()
    } else if d.len() == 1 {
        seq![b64_char((d[0] / 4) as int), b64_char((d[0] % 4) * 16)]
    } else if d.len() == 2 {
        seq![b64_char((d[0] / 4) as int), b64_char((d[0] % 4) * 16 + d[1] / 16), b64_char((d[1] % 16) * 4)]
    } else {
        seq![
            b64_char((d[0] / 4) as int),
            b64_char((d[0] % 4) * 16 + d[1] / 16),
            b64_char((d[1] % 16) * 4 + d[2] / 64),
            b64_char((d[2] % 64) as int),
        ] + b64url(d.skip(3))
    }
}

/// Calls `Engine::encode` of `base64::engine::general_purpose::URL_SAFE_NO_PAD`.
/// Claimed: the result is the URL-safe, unpadded base64 text of `data`, as
/// RFC 4648 section 5 defines it.
#[verifier::external_body]
fn base64_url_encode(data: &[u8]) -> (s: String)
    ensures
        s@ == b64url(data@),
{
    base64::engine::general_purpose::URL_SAFE_NO_PAD.encode(data)
}

/// Fills `n` bytes with `rand::thread_rng().fill_bytes`. The bytes are random;
/// claimed of every outcome: there are `n` of them.
#[verifier::external_body]
fn random_bytes(n: usize) -> (v: Vec<u8>)
    ensures
        v@.len() == n,
{
    let mut v = vec![0u8; n];
    rand::thread_rng().fill_bytes(&mut v);
    v
}

/// The PKCE state made from the given random bytes: the verifier is the
/// base64 text of `verifier_bytes`, the challenge the base64 of the SHA-256
/// of the verifier's text, and the state the base64 text of `state_bytes`.
pub fn pkce_from_bytes(verifier_bytes: &[u8], state_bytes: &[u8]) -> (p: PkceState)
    ensures
        p.code_verifier@ == b64url(verifier_bytes@),
        p.code_challenge@ == b64url(sha256_digest(encode_utf8(b64url(verifier_bytes@)))),
        p.state@ == b64url(state_bytes@),
{
    let code_verifier = base64_url_encode(verifier_bytes);
    let digest = sha256(code_verifier.as_str().as_bytes());
    let code_challenge = base64_url_encode(digest.as_slice());
    let state = base64_url_encode(state_bytes);
    PkceState { code_verifier, code_challenge, state }
}

/// A fresh PKCE state from 32 random verifier bytes and 16 random state bytes
/// (see [`pkce_from_bytes`]).
pub fn generate_pkce() -> (p: PkceState)
    ensures
        exists|vb: Seq<u8>, sb: Seq<u8>| vb.len() == 32 && sb.len() == 16 && p.code_verifier@ == b64url(vb)
            && p.code_challenge@ == b64url(sha256_digest(encode_utf8(b64url(vb)))) && p.state@ == b64url(sb),
{
    let verifier_bytes = random_bytes(32);
    let state_bytes = random_bytes(16);
    pkce_from_bytes(verifier_bytes.as_slice(), state_bytes.as_slice())
}

} // verus!
