//! Authentication of API requests: which key a request carries, whom it
//! belongs to, and which Kiro credentials serve it.

use vstd::prelude::*;
use vstd::utf8::encode_utf8;
use crate::codec::{decode_or_empty, decoded_or_empty};
use crate::crypto::{constant_time_eq, hex_encode, hex_lower, sha256, sha256_digest};
use crate::db::KiroTokenRow;
use crate::error::{ApiError, ApiErrorView};
use crate::pool::PoolToken;
use crate::routes::KiroCreds;
use crate::text::{owned, split_char, split_on, str_eq, strings_view, strip_prefix, strip_prefix_spec};

verus! {

// ---------------------------------------------------------------------------
// Finding the key
// ---------------------------------------------------------------------------

/// The first `api_key=` query parameter whose decoded value is not empty.
pub open spec fn query_key(params: Seq<Seq<char>>) -> Option<Seq<char>>
    decreases params.len(),
{
    if params.len() == 0 {
        None
    } else {
        let value = strip_prefix_spec(params[0], "api_key="@);
        if value is Some && decoded_or_empty(value.unwrap()).len() > 0 {
            Some(decoded_or_empty(value.unwrap()))
        } else {
            query_key(params.drop_first())
        }
    }
}

/// The text of an optional string slice.
pub open spec fn opt_text(s: Option<&str>) -> Option<Seq<char>> {
    match s {
        Some(t) => Some(t@),
        None => None,
    }
}

/// The API key a request carries: a non-empty `Bearer` token of the
/// `Authorization` header, else a non-empty `x-api-key` header, else the first
/// non-empty decoded `api_key` query parameter. Headers that are not visible
/// ASCII count as absent.
pub open spec fn api_key_of(
    authorization: Option<Seq<char>>,
    x_api_key: Option<Seq<char>>,
    query: Option<Seq<char>>,
) -> Option<Seq<char>> {
    let bearer = match authorization {
        Some(a) => strip_prefix_spec(a, "Bearer "@),
        None => None,
    };
    if bearer is Some && bearer.unwrap().len() > 0 {
        bearer
    } else if x_api_key is Some && x_api_key.unwrap().len() > 0 {
        x_api_key
    } else {
        match query {
            Some(q) => query_key(split_on(q, '&')),
            None => None,
        }
    }
}

fn key_from_query(query: &str) -> (r: Option<String>)
    ensures
        r matches Some(k) ==> query_key(split_on(query@, '&')) == Some(k@),
        r is None ==> query_key(split_on(query@, '&')) is None,
{
    let params = split_char(query, '&');
    let ghost all = strings_view(params@);
    let mut i: usize = 0;
    assert(all.skip(0) =~= all);
    while i < params.len()
        invariant
            i <= params.len(),
            all == strings_view(params@),
            all == split_on(query@, '&'),
            query_key(all) == query_key(all.skip(i as int)),
        decreases params.len() - i,
    {
        let ghost rest = all.skip(i as int);
        assert(rest[0] == params@[i as int]@);
        assert(rest.drop_first() =~= all.skip(i + 1));
        match strip_prefix(params[i].as_str(), "api_key=") {
            Some(value) => {
                let decoded = decode_or_empty(value.as_str());
                if !decoded.as_str().is_empty() {
                    return Some(decoded);
                }
            },
            None => {},
        }
        i += 1;
    }
    None
}

/// The API key a request carries (see [`api_key_of`]).
pub fn extract_api_key(authorization: Option<&str>, x_api_key: Option<&str>, query: Option<&str>) -> (r: Option<String>)
    ensures
        r matches Some(k) ==> api_key_of(opt_text(authorization), opt_text(x_api_key), opt_text(query)) == Some(k@),
        r is None ==> api_key_of(opt_text(authorization), opt_text(x_api_key), opt_text(query)) is None,
{
    if let Some(auth) = authorization {
        if let Some(key) = strip_prefix(auth, "Bearer ") {
            if !key.as_str().is_empty() {
                return Some(key);
            }
        }
    }
    if let Some(key) = x_api_key {
        if !key.is_empty() {
            return Some(owned(key));
        }
    }
    match query {
        Some(q) => key_from_query(q),
        None => None,
    }
}

// ---------------------------------------------------------------------------
// Resolving the credentials
// ---------------------------------------------------------------------------

/// How many entries each credential cache may hold.
pub const CACHE_CAPACITY: usize = 10000;

/// For how many seconds a cached user token may be used.
pub const TOKEN_CACHE_TTL_SECS: u64 = 240;

/// What stays fixed while one request is authenticated.
pub struct AuthContext {
    pub default_region: String,
    pub global_enabled: bool,
}

/// Where the authentication of a request stands, waiting for the outcome of
/// the action last asked for.
pub enum AuthState {
    /// The proxy's own key was given; waiting for the global token.
    ProxyKey,
    /// Waiting for the key cache.
    KeyCache { key_hash: String },
    /// Waiting for the key's database row.
    KeyDb { key_hash: String },
    /// Waiting for the owner's account status.
    Status { key_id: String, user_id: String },
    /// Waiting for the owner's cached Kiro token.
    TokenCache { key_id: String, user_id: String, pool_allowed: bool },
    /// Waiting for the owner's stored Kiro token.
    UserToken { key_id: String, user_id: String, pool_allowed: bool },
    /// Waiting for a token of the shared pool.
    Pool { key_id: String, user_id: String },
    /// Waiting for the global token, as a last resort.
    Fallback { key_id: String, user_id: String },
    /// Decided.
    Done,
}

/// The outcome of an action.
pub enum AuthEvent {
    /// The global account's access token and region, or `None` when it could not be had.
    GlobalToken(Option<(String, String)>),
    /// The cached `(key id, user id)` of a key hash.
    KeyCache(Option<(String, String)>),
    /// The stored `(key id, user id)` of a key hash, and the key cache's size.
    KeyRow { row: Result<Option<(String, String)>, String>, cache_len: usize },
    /// The owner's `(status, pool allowed)`.
    Status(Result<Option<(String, bool)>, String>),
    /// The owner's cached `(access token, region, age in seconds)`.
    TokenCache(Option<(String, String, u64)>),
    /// The owner's stored Kiro token, and the token cache's size.
    KiroToken { kiro_row: Result<Option<KiroTokenRow>, String>, cache_len: usize },
    /// The next token of the shared pool.
    PoolToken(Option<PoolToken>),
}

/// What to do next.
pub enum AuthAction {
    /// Get the global account's access token and region.
    FetchGlobalToken,
    /// Look the key hash up in the key cache.
    CheckKeyCache { key_hash: String },
    /// Look the key hash up in the database.
    LookupKey { key_hash: String },
    /// Remember `(key hash, key id, user id)` in the key cache if given, then
    /// look up the user's status.
    LookupStatus { user_id: String, remember_key: Option<(String, String, String)> },
    /// Look the user's token up in the token cache.
    CheckTokenCache { user_id: String },
    /// Look the user's Kiro token up in the database.
    LookupKiroToken { user_id: String },
    /// Take the next token of the shared pool.
    NextPoolToken { default_region: String },
    /// Serve the request with these credentials, after remembering
    /// `(user id, access token, region)` in the token cache if given.
    Allow { creds: KiroCreds, remember_token: Option<(String, String, String)> },
    /// Answer the request with this error.
    Reject(ApiError),
}

/// Whether `a` rejects with the error `e`.
pub open spec fn rejects(a: AuthAction, e: ApiErrorView) -> bool {
    a matches AuthAction::Reject(x) && x@ == e
}

/// Whether `a` serves the request with exactly these credentials and no cache write.
pub open spec fn allows(a: AuthAction, user_id: Option<String>, key_id: Option<String>, token: String, region: String) -> bool {
    a == (AuthAction::Allow {
        creds: KiroCreds { user_id, api_key_id: key_id, access_token: token, region },
        remember_token: None,
    })
}

/// How authentication begins: no key is refused; the proxy's own key is
/// served by the global account when that is enabled; any other key is looked
/// up by the hexadecimal SHA-256 of its text, first in the key cache, when
/// there is a database.
pub open spec fn auth_start(
    raw_key: Option<Seq<char>>,
    proxy_key_hash: Seq<u8>,
    ctx: AuthContext,
    db_available: bool,
    next: AuthState,
    action: AuthAction,
) -> bool {
    match raw_key {
        None => next is Done && rejects(action, ApiErrorView::AuthError("Invalid or missing API Key"@)),
        Some(k) => {
            let d = sha256_digest(encode_utf8(k));
            if d == proxy_key_hash {
                if ctx.global_enabled {
                    next is ProxyKey && action is FetchGlobalToken
                } else {
                    next is Done && rejects(action, ApiErrorView::Forbidden("Global Kiro account is disabled"@))
                }
            } else if !db_available {
                next is Done && rejects(action, ApiErrorView::AuthError("Invalid API key"@))
            } else {
                &&& next matches AuthState::KeyCache { key_hash } && key_hash@ == hex_lower(d)
                &&& action matches AuthAction::CheckKeyCache { key_hash } && key_hash@ == hex_lower(d)
            }
        },
    }
}

/// Whether an event is the outcome of the action a state waits for.
pub open spec fn expects(state: AuthState, event: AuthEvent) -> bool {
    match state {
        AuthState::ProxyKey => event is GlobalToken,
        AuthState::KeyCache { .. } => event is KeyCache,
        AuthState::KeyDb { .. } => event is KeyRow,
        AuthState::Status { .. } => event is Status,
        AuthState::TokenCache { .. } => event is TokenCache,
        AuthState::UserToken { .. } => event is KiroToken,
        AuthState::Pool { .. } => event is PoolToken,
        AuthState::Fallback { .. } => event is GlobalToken,
        AuthState::Done => false,
    }
}

/// The last resort once the user's own token and the pool gave nothing: the
/// global account if it is enabled, else the user must bind a Kiro token.
pub open spec fn fallback_ok(ctx: AuthContext, key_id: String, user_id: String, next: AuthState, action: AuthAction) -> bool {
    if ctx.global_enabled {
        next == (AuthState::Fallback { key_id, user_id }) && action is FetchGlobalToken
    } else {
        next is Done && rejects(action, ApiErrorView::KiroTokenRequired)
    }
}

/// One step of authentication. Credentials are tried in this order: the
/// user's cached token (younger than the TTL), the user's stored, enabled
/// token, the shared pool (only for users allowed to use it), the global
/// account (only when enabled). Cache writes are asked for only while the
/// cache holds fewer than [`CACHE_CAPACITY`] entries.
pub open spec fn auth_transition(state: AuthState, event: AuthEvent, ctx: AuthContext, next: AuthState, action: AuthAction) -> bool {
    match state {
        AuthState::ProxyKey => match event {
            AuthEvent::GlobalToken(Some((t, r))) => next is Done && allows(action, None, None, t, r),
            _ => next is Done && rejects(action, ApiErrorView::AuthError("Proxy authentication unavailable"@)),
        },
        AuthState::KeyCache { key_hash } => match event {
            AuthEvent::KeyCache(Some((k, u))) => {
                &&& next == (AuthState::Status { key_id: k, user_id: u })
                &&& action matches AuthAction::LookupStatus { user_id, remember_key } && user_id == u && remember_key is None
            },
            _ => {
                &&& next == (AuthState::KeyDb { key_hash })
                &&& action matches AuthAction::LookupKey { key_hash: h } && h == key_hash
            },
        },
        AuthState::KeyDb { key_hash } => match event {
            AuthEvent::KeyRow { row: Err(e), .. } => next is Done && rejects(action, ApiErrorView::Internal(e@)),
            AuthEvent::KeyRow { row: Ok(Some((k, u))), cache_len } => {
                &&& next == (AuthState::Status { key_id: k, user_id: u })
                &&& action matches AuthAction::LookupStatus { user_id, remember_key } && user_id == u && (
                if cache_len < CACHE_CAPACITY {
                    remember_key == Some((key_hash, k, u))
                } else {
                    remember_key is None
                })
            },
            _ => next is Done && rejects(action, ApiErrorView::AuthError("Invalid API key"@)),
        },
        AuthState::Status { key_id, user_id } => match event {
            AuthEvent::Status(Err(e)) => next is Done && rejects(action, ApiErrorView::Internal(e@)),
            AuthEvent::Status(Ok(Some((status, pool_allowed)))) => if status@ == "active"@ {
                &&& next == (AuthState::TokenCache { key_id, user_id, pool_allowed })
                &&& action matches AuthAction::CheckTokenCache { user_id: u } && u == user_id
            } else if status@ == "pending"@ {
                next is Done && rejects(action, ApiErrorView::Forbidden("Account pending admin approval"@))
            } else if status@ == "rejected"@ {
                next is Done && rejects(action, ApiErrorView::Forbidden("Account has been rejected"@))
            } else {
                next is Done && rejects(action, ApiErrorView::AuthError("Invalid API key"@))
            },
            _ => next is Done && rejects(action, ApiErrorView::AuthError("Invalid API key"@)),
        },
        AuthState::TokenCache { key_id, user_id, pool_allowed } => match event {
            AuthEvent::TokenCache(Some((t, r, age))) if age < TOKEN_CACHE_TTL_SECS =>
                next is Done && allows(action, Some(user_id), Some(key_id), t, r),
            _ => {
                &&& next == (AuthState::UserToken { key_id, user_id, pool_allowed })
                &&& action matches AuthAction::LookupKiroToken { user_id: u } && u == user_id
            },
        },
        AuthState::UserToken { key_id, user_id, pool_allowed } => match event {
            AuthEvent::KiroToken { kiro_row: Err(e), .. } => next is Done && rejects(action, ApiErrorView::Internal(e@)),
            AuthEvent::KiroToken { kiro_row: Ok(Some(row)), cache_len } if row.enabled && row.access_token is Some => {
                let t = row.access_token.unwrap();
                let region = match row.sso_region {
                    Some(r) => r@,
                    None => ctx.default_region@,
                };
                &&& next is Done
                &&& action matches AuthAction::Allow { creds, remember_token } && creds.user_id == Some(user_id)
                    && creds.api_key_id == Some(key_id) && creds.access_token == t && creds.region@ == region && (
                if cache_len < CACHE_CAPACITY {
                    remember_token matches Some((cu, ct, cr)) && cu == user_id && ct == t && cr@ == region
                } else {
                    remember_token is None
                })
            },
            _ => if pool_allowed {
                &&& next == (AuthState::Pool { key_id, user_id })
                &&& action matches AuthAction::NextPoolToken { default_region } && default_region@ == ctx.default_region@
            } else {
                fallback_ok(ctx, key_id, user_id, next, action)
            },
        },
        AuthState::Pool { key_id, user_id } => match event {
            AuthEvent::PoolToken(Some(p)) => next is Done && allows(action, Some(user_id), Some(key_id), p.access_token, p.region),
            _ => fallback_ok(ctx, key_id, user_id, next, action),
        },
        AuthState::Fallback { key_id, user_id } => match event {
            AuthEvent::GlobalToken(Some((t, r))) => next is Done && allows(action, Some(user_id), Some(key_id), t, r),
            _ => next is Done && rejects(action, ApiErrorView::KiroTokenRequired),
        },
        AuthState::Done => false,
    }
}

fn reject(e: ApiError) -> (r: (AuthState, AuthAction))
    ensures
        r.0 is Done,
        r.1 == AuthAction::Reject(e),
{
    (AuthState::Done, AuthAction::Reject(e))
}

fn allow(user_id: Option<String>, key_id: Option<String>, token: String, region: String) -> (r: (AuthState, AuthAction))
    ensures
        r.0 is Done,
        allows(r.1, user_id, key_id, token, region),
{
    (AuthState::Done, AuthAction::Allow {
        creds: KiroCreds { user_id, api_key_id: key_id, access_token: token, region },
        remember_token: None,
    })
}

fn fallback(ctx: &AuthContext, key_id: String, user_id: String) -> (r: (AuthState, AuthAction))
    ensures
        fallback_ok(*ctx, key_id, user_id, r.0, r.1),
{
    if ctx.global_enabled {
        (AuthState::Fallback { key_id, user_id }, AuthAction::FetchGlobalToken)
    } else {
        reject(ApiError::KiroTokenRequired)
    }
}

/// Begins the authentication of a request carrying `raw_key` (see [`auth_start`]).
pub fn auth_begin(raw_key: Option<String>, proxy_key_hash: &[u8], ctx: &AuthContext, db_available: bool) -> (r: (AuthState, AuthAction))
    ensures
        auth_start(
            match raw_key {
                Some(k) => Some(k@),
                None => None,
            },
            proxy_key_hash@,
            *ctx,
            db_available,
            r.0,
            r.1,
        ),
{
    match raw_key {
        None => reject(ApiError::AuthError(owned("Invalid or missing API Key"))),
        Some(k) => {
            let digest = sha256(k.as_str().as_bytes());
            if constant_time_eq(digest.as_slice(), proxy_key_hash) {
                if ctx.global_enabled {
                    (AuthState::ProxyKey, AuthAction::FetchGlobalToken)
                } else {
                    reject(ApiError::Forbidden(owned("Global Kiro account is disabled")))
                }
            } else if !db_available {
                reject(ApiError::AuthError(owned("Invalid API key")))
            } else {
                let key_hash = hex_encode(digest.as_slice());
                let probe = key_hash.clone();
                (AuthState::KeyCache { key_hash }, AuthAction::CheckKeyCache { key_hash: probe })
            }
        },
    }
}

/// Takes the outcome of the last action and decides what comes next (see
/// [`auth_transition`]).
pub fn auth_step(state: AuthState, event: AuthEvent, ctx: &AuthContext) -> (r: (AuthState, AuthAction))
    requires
        expects(state, event),
    ensures
        auth_transition(state, event, *ctx, r.0, r.1),
{
    match state {
        AuthState::ProxyKey => match event {
            AuthEvent::GlobalToken(Some((t, r))) => allow(None, None, t, r),
            _ => reject(ApiError::AuthError(owned("Proxy authentication unavailable"))),
        },
        AuthState::KeyCache { key_hash } => match event {
            AuthEvent::KeyCache(Some((k, u))) => {
                let lookup = u.clone();
                (AuthState::Status { key_id: k, user_id: u }, AuthAction::LookupStatus { user_id: lookup, remember_key: None })
            },
            _ => {
                let probe = key_hash.clone();
                (AuthState::KeyDb { key_hash }, AuthAction::LookupKey { key_hash: probe })
            },
        },
        AuthState::KeyDb { key_hash } => match event {
            AuthEvent::KeyRow { row: Err(e), .. } => reject(ApiError::Internal(e)),
            AuthEvent::KeyRow { row: Ok(Some((k, u))), cache_len } => {
                let lookup = u.clone();
                let remember_key = if cache_len < CACHE_CAPACITY {
                    Some((key_hash, k.clone(), u.clone()))
                } else {
                    None
                };
                (AuthState::Status { key_id: k, user_id: u }, AuthAction::LookupStatus { user_id: lookup, remember_key })
            },
            _ => reject(ApiError::AuthError(owned("Invalid API key"))),
        },
        AuthState::Status { key_id, user_id } => match event {
            AuthEvent::Status(Err(e)) => reject(ApiError::Internal(e)),
            AuthEvent::Status(Ok(Some((status, pool_allowed)))) => {
                if str_eq(status.as_str(), "active") {
                    let lookup = user_id.clone();
                    (AuthState::TokenCache { key_id, user_id, pool_allowed }, AuthAction::CheckTokenCache { user_id: lookup })
                } else if str_eq(status.as_str(), "pending") {
                    reject(ApiError::Forbidden(owned("Account pending admin approval")))
                } else if str_eq(status.as_str(), "rejected") {
                    reject(ApiError::Forbidden(owned("Account has been rejected")))
                } else {
                    reject(ApiError::AuthError(owned("Invalid API key")))
                }
            },
            _ => reject(ApiError::AuthError(owned("Invalid API key"))),
        },
        AuthState::TokenCache { key_id, user_id, pool_allowed } => match event {
            AuthEvent::TokenCache(Some((t, r, age))) if age < TOKEN_CACHE_TTL_SECS => allow(Some(user_id), Some(key_id), t, r),
            _ => {
                let lookup = user_id.clone();
                (AuthState::UserToken { key_id, user_id, pool_allowed }, AuthAction::LookupKiroToken { user_id: lookup })
            },
        },
        AuthState::UserToken { key_id, user_id, pool_allowed } => match event {
            AuthEvent::KiroToken { kiro_row: Err(e), .. } => reject(ApiError::Internal(e)),
            AuthEvent::KiroToken { kiro_row: Ok(Some(row)), cache_len } if row.enabled && row.access_token.is_some() => {
                let t = match row.access_token {
                    Some(t) => t,
                    None => String::new(),
                };
                let region = match row.sso_region {
                    Some(r) => r,
                    None => ctx.default_region.clone(),
                };
                let remember_token = if cache_len < CACHE_CAPACITY {
                    Some((user_id.clone(), t.clone(), region.clone()))
                } else {
                    None
                };
                (AuthState::Done, AuthAction::Allow {
                    creds: KiroCreds { user_id: Some(user_id), api_key_id: Some(key_id), access_token: t, region },
                    remember_token,
                })
            },
            _ => {
                if pool_allowed {
                    let default_region = ctx.default_region.clone();
                    (AuthState::Pool { key_id, user_id }, AuthAction::NextPoolToken { default_region })
                } else {
                    fallback(ctx, key_id, user_id)
                }
            },
        },
        AuthState::Pool { key_id, user_id } => match event {
            AuthEvent::PoolToken(Some(p)) => allow(Some(user_id), Some(key_id), p.access_token, p.region),
            _ => fallback(ctx, key_id, user_id),
        },
        AuthState::Fallback { key_id, user_id } => match event {
            AuthEvent::GlobalToken(Some((t, r))) => allow(Some(user_id), Some(key_id), t, r),
            _ => reject(ApiError::KiroTokenRequired),
        },
        AuthState::Done => reject(ApiError::KiroTokenRequired),
    }
}

/// Token resolution priority: a user's own enabled token is used before the
/// shared pool, and the pool only for users allowed to use it; the global
/// account is asked only once the user's token and the pool gave nothing and
/// only when it is enabled; `KiroTokenRequired` is answered only when all of
/// them gave nothing.
pub proof fn law_token_resolution_priority(
    state: AuthState,
    event: AuthEvent,
    ctx: AuthContext,
    next: AuthState,
    action: AuthAction,
)
    requires
        expects(state, event),
        auth_transition(state, event, ctx, next, action),
    ensures
        state is UserToken ==> (event matches AuthEvent::KiroToken { kiro_row: Ok(Some(row)), .. } ==> (
        row.enabled && row.access_token is Some ==> (action matches AuthAction::Allow { creds, .. }
            && Some(creds.access_token) == row.access_token))),
        action is NextPoolToken ==> (state matches AuthState::UserToken { pool_allowed, .. } && pool_allowed),
        (action is FetchGlobalToken && !(state is ProxyKey)) ==> ctx.global_enabled && (state is UserToken
            || (state is Pool && event matches AuthEvent::PoolToken(None))),
        rejects(action, ApiErrorView::KiroTokenRequired) ==> (state is Fallback && event matches AuthEvent::GlobalToken(None))
            || (!ctx.global_enabled && (state is UserToken || (state is Pool && event matches AuthEvent::PoolToken(None)))),
{
}

} // verus!
