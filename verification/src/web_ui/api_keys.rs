//! Issuing and revoking API keys.

use vstd::prelude::*;
use vstd::utf8::encode_utf8;
use rand::RngCore;
use crate::crypto::{hex_encode, hex_lower, lemma_hex_lower_len, sha256, sha256_digest};
use crate::error::{ApiError, ApiErrorView};
use crate::json::{entry_models, json_str, object, push_entry, Json, JsonValue};
use crate::middleware::{auth_start, AuthAction, AuthContext, AuthState};
use crate::text::{chars_of, concat, string_from_chars, sub_chars};

verus! {

/// The optional name of a key to create.
pub struct CreateKeyRequest {
    pub name: Option<String>,
}

/// A newly issued key: the secret handed to the user once, the prefix kept
/// for display, and the hash stored for lookup.
pub struct ApiKeyMaterial {
    pub raw_key: String,
    pub key_prefix: String,
    pub key_hash: String,
}

/// The secret text of the key made of `bytes`: `sk-` and their hexadecimal text.
pub open spec fn raw_key_text(bytes: Seq<u8>) -> Seq<char> {
    "sk-"@ + hex_lower(bytes)
}

/// The stored hash of a key: the hexadecimal SHA-256 of its text.
pub open spec fn key_hash_text(raw: Seq<char>) -> Seq<char> {
    hex_lower(sha256_digest(encode_utf8(raw)))
}

/// The key made of `key_bytes`: the secret `sk-<hex>`, the prefix `sk-` and the
/// first 8 hexadecimal digits, and the hash of the secret.
pub fn api_key_material(key_bytes: &[u8]) -> (m: ApiKeyMaterial)
    requires
        key_bytes@.len() >= 4,
    ensures
        m.raw_key@ == raw_key_text(key_bytes@),
        m.key_prefix@ == "sk-"@ + hex_lower(key_bytes@).take(8),
        m.key_hash@ == key_hash_text(m.raw_key@),
{
    let hex = hex_encode(key_bytes);
    proof {
        lemma_hex_lower_len(key_bytes@);
    }
    let raw_key = concat("sk-", hex.as_str());
    let hex_chars = chars_of(hex.as_str());
    let first = sub_chars(&hex_chars, 0, 8);
    assert(first@ =~= hex_lower(key_bytes@).take(8));
    let first_text = string_from_chars(first.as_slice());
    let key_prefix = concat("sk-", first_text.as_str());
    let digest = sha256(raw_key.as_str().as_bytes());
    let key_hash = hex_encode(digest.as_slice());
    ApiKeyMaterial { raw_key, key_prefix, key_hash }
}

/// Fills `n` bytes with `rand::rngs::OsRng.fill_bytes`. The bytes are random;
/// claimed of every outcome: there are `n` of them.
#[verifier::external_body]
fn os_random_bytes(n: usize) -> (v: Vec<u8>)
    ensures
        v@.len() == n,
{
    let mut v = vec![0u8; n];
    rand::rngs::OsRng.fill_bytes(&mut v);
    v
}

/// A new key from 32 random bytes (see [`api_key_material`]).
pub fn new_api_key() -> (m: ApiKeyMaterial)
    ensures
        exists|b: Seq<u8>| b.len() == 32 && m.raw_key@ == raw_key_text(b) && m.key_prefix@ == "sk-"@ + hex_lower(b).take(8),
        m.key_hash@ == key_hash_text(m.raw_key@),
{
    let bytes = os_random_bytes(32);
    api_key_material(bytes.as_slice())
}

/// The body answering a created key: `id`, `key`, `prefix`, `name`.
pub open spec fn created_key_json(id: Seq<char>, key: Seq<char>, prefix: Seq<char>, name: Seq<char>) -> Json {
    Json::Object(seq![
        ("id"@, Json::Str(id)),
        ("key"@, Json::Str(key)),
        ("prefix"@, Json::Str(prefix)),
        ("name"@, Json::Str(name)),
    ])
}

/// The body answering a created key (see [`created_key_json`]).
pub fn created_key_body(id: &str, material: &ApiKeyMaterial, name: &str) -> (r: JsonValue)
    ensures
        r.model() == created_key_json(id@, material.raw_key@, material.key_prefix@, name@),
{
    let mut entries: Vec<(String, JsonValue)> = Vec::new();
    push_entry(&mut entries, "id", json_str(id));
    push_entry(&mut entries, "key", json_str(material.raw_key.as_str()));
    push_entry(&mut entries, "prefix", json_str(material.key_prefix.as_str()));
    push_entry(&mut entries, "name", json_str(name));
    let r = object(entries);
    assert(entry_models(entries@) =~= created_key_json(id@, material.raw_key@, material.key_prefix@, name@)->Object_0);
    r
}

/// `Ok` when the thing was found, else `NotFound` with the message.
pub fn found_or(found: bool, message: &str) -> (r: Result<(), ApiError>)
    ensures
        found ==> r is Ok,
        !found ==> (r matches Err(e) && e@ == ApiErrorView::NotFound(message@)),
{
    if found {
        Ok(())
    } else {
        Err(ApiError::NotFound(crate::text::owned(message)))
    }
}

/// An issued key is found again: a request carrying the secret of an issued
/// key (other than the proxy's own key, with a database present) is looked up
/// by exactly the hash that was stored when the key was issued.
pub proof fn law_issued_key_is_looked_up(
    bytes: Seq<u8>,
    proxy_key_hash: Seq<u8>,
    ctx: AuthContext,
    next: AuthState,
    action: AuthAction,
)
    requires
        sha256_digest(encode_utf8(raw_key_text(bytes))) != proxy_key_hash,
        auth_start(Some(raw_key_text(bytes)), proxy_key_hash, ctx, true, next, action),
    ensures
        action matches AuthAction::CheckKeyCache { key_hash } && key_hash@ == key_hash_text(raw_key_text(bytes)),
{
}

} // verus!
