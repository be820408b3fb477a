use kiro_proxy::db::KiroTokenRow;
use kiro_proxy::error::ApiError;
use kiro_proxy::middleware::{auth_begin, auth_step, extract_api_key, AuthAction, AuthContext, AuthEvent, AuthState};
use kiro_proxy::pool::PoolToken;
use sha2::Digest;

fn ctx(global_enabled: bool) -> AuthContext {
    AuthContext { default_region: "us-east-1".to_string(), global_enabled }
}

fn digest(s: &str) -> Vec<u8> {
    sha2::Sha256::digest(s.as_bytes()).to_vec()
}

fn row(enabled: bool, token: Option<&str>, region: Option<&str>) -> KiroTokenRow {
    KiroTokenRow {
        user_id: "u1".to_string(),
        refresh_token: "r".to_string(),
        access_token: token.map(|t| t.to_string()),
        token_expiry: None,
        client_id: None,
        client_secret: None,
        sso_region: region.map(|r| r.to_string()),
        sso_start_url: None,
        enabled,
        updated_at: "now".to_string(),
    }
}

fn user_state(pool_allowed: bool) -> AuthState {
    AuthState::UserToken { key_id: "k1".to_string(), user_id: "u1".to_string(), pool_allowed }
}

#[test]
fn bearer_header_wins_over_other_places() {
    let k = extract_api_key(Some("Bearer abc"), Some("xyz"), Some("api_key=q"));
    assert_eq!(k, Some("abc".to_string()));
}

#[test]
fn empty_bearer_falls_back_to_x_api_key_then_query() {
    assert_eq!(extract_api_key(Some("Bearer "), Some("xyz"), None), Some("xyz".to_string()));
    assert_eq!(extract_api_key(Some("Basic abc"), Some(""), Some("a=1&api_key=sk%2Dabc%20d")), Some("sk-abc d".to_string()));
    assert_eq!(extract_api_key(None, None, Some("api_key=&api_key=second")), Some("second".to_string()));
}

#[test]
fn query_keys_keep_plus_and_lone_percent() {
    assert_eq!(extract_api_key(None, None, Some("api_key=a+b%zz")), Some("a+b%zz".to_string()));
    assert_eq!(extract_api_key(None, None, Some("api_key=%FF")), None);
    assert_eq!(extract_api_key(None, None, None), None);
}

#[test]
fn missing_key_is_refused() {
    let (state, action) = auth_begin(None, &digest("proxy-key"), &ctx(true), true);
    assert!(matches!(state, AuthState::Done));
    assert!(matches!(action, AuthAction::Reject(ApiError::AuthError(m)) if m == "Invalid or missing API Key"));
}

#[test]
fn proxy_key_uses_global_account_unless_disabled() {
    let (state, action) = auth_begin(Some("proxy-key".to_string()), &digest("proxy-key"), &ctx(true), true);
    assert!(matches!(state, AuthState::ProxyKey));
    assert!(matches!(action, AuthAction::FetchGlobalToken));
    let (_, action) = auth_begin(Some("proxy-key".to_string()), &digest("proxy-key"), &ctx(false), true);
    assert!(matches!(action, AuthAction::Reject(ApiError::Forbidden(m)) if m == "Global Kiro account is disabled"));
    let (_, action) = auth_step(AuthState::ProxyKey, AuthEvent::GlobalToken(None), &ctx(true));
    assert!(matches!(action, AuthAction::Reject(ApiError::AuthError(m)) if m == "Proxy authentication unavailable"));
    let (_, action) =
        auth_step(AuthState::ProxyKey, AuthEvent::GlobalToken(Some(("tok".to_string(), "eu".to_string()))), &ctx(true));
    match action {
        AuthAction::Allow { creds, remember_token } => {
            assert!(creds.user_id.is_none() && creds.api_key_id.is_none());
            assert_eq!(creds.access_token, "tok");
            assert_eq!(creds.region, "eu");
            assert!(remember_token.is_none());
        },
        _ => panic!("expected Allow"),
    }
}

#[test]
fn other_keys_are_looked_up_by_hex_sha256() {
    let (_, action) = auth_begin(Some("sk-user".to_string()), &digest("proxy-key"), &ctx(true), false);
    assert!(matches!(action, AuthAction::Reject(ApiError::AuthError(m)) if m == "Invalid API key"));
    let (state, action) = auth_begin(Some("abc".to_string()), &digest("proxy-key"), &ctx(true), true);
    let expected = "ba7816bf8f01cfea414140de5dae2223b00361a396177a9cb410ff61f20015ad";
    assert!(matches!(state, AuthState::KeyCache { key_hash } if key_hash == expected));
    assert!(matches!(action, AuthAction::CheckKeyCache { key_hash } if key_hash == expected));
}

#[test]
fn key_rows_are_remembered_while_the_cache_has_room() {
    let state = AuthState::KeyDb { key_hash: "h".to_string() };
    let (next, action) = auth_step(
        state,
        AuthEvent::KeyRow { row: Ok(Some(("k1".to_string(), "u1".to_string()))), cache_len: 3 },
        &ctx(true),
    );
    assert!(matches!(next, AuthState::Status { .. }));
    match action {
        AuthAction::LookupStatus { user_id, remember_key } => {
            assert_eq!(user_id, "u1");
            assert_eq!(remember_key, Some(("h".to_string(), "k1".to_string(), "u1".to_string())));
        },
        _ => panic!("expected LookupStatus"),
    }
    let state = AuthState::KeyDb { key_hash: "h".to_string() };
    let (_, action) = auth_step(
        state,
        AuthEvent::KeyRow { row: Ok(Some(("k1".to_string(), "u1".to_string()))), cache_len: 10000 },
        &ctx(true),
    );
    assert!(matches!(action, AuthAction::LookupStatus { remember_key: None, .. }));
    let (_, action) =
        auth_step(AuthState::KeyDb { key_hash: "h".to_string() }, AuthEvent::KeyRow { row: Ok(None), cache_len: 0 }, &ctx(true));
    assert!(matches!(action, AuthAction::Reject(ApiError::AuthError(m)) if m == "Invalid API key"));
}

#[test]
fn only_active_accounts_pass() {
    let status = |s: &str| {
        auth_step(
            AuthState::Status { key_id: "k1".to_string(), user_id: "u1".to_string() },
            AuthEvent::Status(Ok(Some((s.to_string(), true)))),
            &ctx(true),
        )
        .1
    };
    assert!(matches!(status("active"), AuthAction::CheckTokenCache { user_id } if user_id == "u1"));
    assert!(matches!(status("pending"), AuthAction::Reject(ApiError::Forbidden(m)) if m == "Account pending admin approval"));
    assert!(matches!(status("rejected"), AuthAction::Reject(ApiError::Forbidden(m)) if m == "Account has been rejected"));
    assert!(matches!(status("banned"), AuthAction::Reject(ApiError::AuthError(m)) if m == "Invalid API key"));
}

#[test]
fn cached_tokens_expire_after_four_minutes() {
    let st = || AuthState::TokenCache { key_id: "k1".to_string(), user_id: "u1".to_string(), pool_allowed: true };
    let (_, a) = auth_step(st(), AuthEvent::TokenCache(Some(("t".to_string(), "r".to_string(), 239))), &ctx(true));
    assert!(matches!(a, AuthAction::Allow { .. }));
    let (_, a) = auth_step(st(), AuthEvent::TokenCache(Some(("t".to_string(), "r".to_string(), 240))), &ctx(true));
    assert!(matches!(a, AuthAction::LookupKiroToken { .. }));
}

#[test]
fn own_token_comes_first_with_default_region() {
    let (_, a) = auth_step(user_state(true), AuthEvent::KiroToken { kiro_row: Ok(Some(row(true, Some("own"), None))), cache_len: 0 }, &ctx(true));
    match a {
        AuthAction::Allow { creds, remember_token } => {
            assert_eq!(creds.access_token, "own");
            assert_eq!(creds.region, "us-east-1");
            assert_eq!(creds.user_id.as_deref(), Some("u1"));
            assert_eq!(creds.api_key_id.as_deref(), Some("k1"));
            assert_eq!(remember_token, Some(("u1".to_string(), "own".to_string(), "us-east-1".to_string())));
        },
        _ => panic!("expected Allow"),
    }
}

#[test]
fn disabled_token_goes_to_pool_or_global() {
    let (s, a) = auth_step(user_state(true), AuthEvent::KiroToken { kiro_row: Ok(Some(row(false, Some("own"), None))), cache_len: 0 }, &ctx(true));
    assert!(matches!(a, AuthAction::NextPoolToken { default_region } if default_region == "us-east-1"));
    let pool = PoolToken { pool_id: "p1".to_string(), access_token: "pooled".to_string(), region: "eu".to_string() };
    let (_, a) = auth_step(s, AuthEvent::PoolToken(Some(pool)), &ctx(true));
    assert!(matches!(a, AuthAction::Allow { creds, .. } if creds.access_token == "pooled" && creds.region == "eu"));

    let (s, a) = auth_step(user_state(false), AuthEvent::KiroToken { kiro_row: Ok(None), cache_len: 0 }, &ctx(true));
    assert!(matches!(a, AuthAction::FetchGlobalToken));
    let (_, a) = auth_step(s, AuthEvent::GlobalToken(None), &ctx(true));
    assert!(matches!(a, AuthAction::Reject(ApiError::KiroTokenRequired)));

    let (_, a) = auth_step(user_state(false), AuthEvent::KiroToken { kiro_row: Ok(None), cache_len: 0 }, &ctx(false));
    assert!(matches!(a, AuthAction::Reject(ApiError::KiroTokenRequired)));
}
