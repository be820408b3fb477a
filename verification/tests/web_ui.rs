use kiro_proxy::auth::types::{DeviceAuthResponse, PollResult};
use kiro_proxy::db::{KiroTokenRow, KiroTokenWithUser, PoolEntryRow, SessionRow, UserRow};
use kiro_proxy::error::ApiError;
use kiro_proxy::web_ui::admin::{
    account_kind, accounts_body, check_not_self, require_admin, toggled_body, users_body, validate_pool_request, AccountKind,
    AddPoolRequest,
};
use kiro_proxy::web_ui::api_keys::{api_key_material, created_key_body, found_or};
use kiro_proxy::web_ui::auth::{
    login_check, logout_cookie_header, me_json, password_hash_for, session_cookie_header, validate_registration, verify_login,
    AuthResponse,
    RegisterRequest,
};
use kiro_proxy::web_ui::kiro_setup::{
    device_auth_body, kiro_status_body, poll_answer_body, poll_credentials, setup_target, token_expiry_text, SetupRequest,
};
use kiro_proxy::web_ui::session::{session_cookie, session_user_at, SessionFailure, SessionUser};

fn user(role: &str) -> SessionUser {
    SessionUser { user_id: "u1".to_string(), email: "a@b.c".to_string(), role: role.to_string(), status: "active".to_string() }
}

fn token_row(client: bool, expiry: Option<&str>) -> KiroTokenRow {
    KiroTokenRow {
        user_id: "u1".to_string(),
        refresh_token: "r".to_string(),
        access_token: Some("a".to_string()),
        token_expiry: expiry.map(|s| s.to_string()),
        client_id: if client { Some("cid".to_string()) } else { None },
        client_secret: if client { Some("sec".to_string()) } else { None },
        sso_region: None,
        sso_start_url: Some("https://start".to_string()),
        enabled: true,
        updated_at: "2024-01-01T00:00:00Z".to_string(),
    }
}

#[test]
fn session_cookie_is_found_among_cookies() {
    assert_eq!(session_cookie("theme=dark; kp_session=abc123 ; x=1"), Some("abc123".to_string()));
    assert_eq!(session_cookie("kp_sessionx=1"), None);
    assert_eq!(session_cookie(""), None);
}

#[test]
fn sessions_expire_strictly_after_their_expiry() {
    let row = || SessionRow {
        id: "s".to_string(),
        user_id: "u1".to_string(),
        expires_at: "x".to_string(),
        email: "e".to_string(),
        role: "user".to_string(),
        status: "active".to_string(),
    };
    assert!(session_user_at(row(), Some((100, 0)), (100, 0)).is_ok());
    assert!(matches!(session_user_at(row(), Some((100, 0)), (100, 1)), Err(SessionFailure::Expired)));
    assert!(matches!(session_user_at(row(), None, (0, 0)), Err(SessionFailure::Invalid)));
    assert!(matches!(SessionFailure::Expired.to_error(), ApiError::AuthError(m) if m == "Session expired"));
}

#[test]
fn registration_rules() {
    let req = |e: &str, n: &str, p: &str| RegisterRequest { email: e.to_string(), name: n.to_string(), password: p.to_string() };
    assert!(matches!(validate_registration(&req("", "n", "password")), Err(ApiError::ValidationError(m)) if m == "email, name, and password are required"));
    assert!(matches!(validate_registration(&req("a@b", "n", "short")), Err(ApiError::ValidationError(m)) if m == "Password must be at least 8 characters"));
    assert!(validate_registration(&req("a@b", "n", "longenough")).is_ok());
    assert!(matches!(login_check(Some(false)), Err(ApiError::InvalidCredentials)));
    assert!(matches!(verify_login("pw", None), Err(ApiError::InvalidCredentials)));
    assert!(matches!(verify_login("pw", Some("not-a-phc-string")), Err(ApiError::InvalidCredentials)));
}

#[test]
fn cookies_and_account_bodies() {
    assert_eq!(session_cookie_header("s1"), "kp_session=s1; HttpOnly; SameSite=Strict; Path=/; Max-Age=86400");
    assert_eq!(logout_cookie_header(), "kp_session=; HttpOnly; SameSite=Strict; Path=/; Max-Age=0");
    assert_eq!(me_json(&user("admin")).to_text(), r#"{"email":"a@b.c","role":"admin","status":"active","user_id":"u1"}"#);
    let r = AuthResponse { user_id: "u".to_string(), email: "e".to_string(), role: "user".to_string(), status: "pending".to_string() };
    assert_eq!(r.to_json().to_text(), r#"{"email":"e","role":"user","status":"pending","user_id":"u"}"#);
}

#[test]
fn api_key_material_is_prefix_and_hash() {
    let bytes = [0u8; 32];
    let m = api_key_material(&bytes);
    assert_eq!(m.raw_key, format!("sk-{}", "0".repeat(64)));
    assert_eq!(m.key_prefix, "sk-00000000");
    assert_eq!(m.key_hash.len(), 64);
    let body = created_key_body("id1", &m, "laptop");
    assert!(body.to_text().starts_with(r#"{"id":"id1","key":"sk-000"#));
    assert!(matches!(found_or(false, "API key not found"), Err(ApiError::NotFound(m)) if m == "API key not found"));
}

#[test]
fn admin_rules() {
    assert!(matches!(require_admin(None), Err(ApiError::AuthError(m)) if m == "Not authenticated"));
    assert!(matches!(require_admin(Some(user("user"))), Err(ApiError::Forbidden(m)) if m == "Admin access required"));
    assert!(require_admin(Some(user("admin"))).is_ok());
    assert!(matches!(check_not_self("u1", "u1"), Err(ApiError::ValidationError(m)) if m == "Cannot delete yourself"));
    assert!(check_not_self("u1", "u2").is_ok());
    let pool = |l: &str, t: &str| AddPoolRequest { label: l.to_string(), refresh_token: t.to_string(), client_id: None, client_secret: None, sso_region: None };
    assert!(validate_pool_request(&pool("", "t")).is_err());
    assert!(validate_pool_request(&pool("l", "t")).is_ok());
    assert!(matches!(account_kind("pool"), Ok(AccountKind::Pool)));
    assert!(matches!(account_kind("other"), Err(ApiError::ValidationError(m)) if m == "Invalid account type"));
    assert_eq!(toggled_body(false).to_text(), r#"{"enabled":false,"status":"ok"}"#);
}

#[test]
fn account_list_orders_global_users_pool() {
    let users = vec![KiroTokenWithUser {
        user_id: "u1".to_string(),
        email: "a@b.c".to_string(),
        name: "Ann".to_string(),
        sso_region: None,
        enabled: true,
        has_token: true,
        updated_at: "t1".to_string(),
    }];
    let pool = vec![PoolEntryRow {
        id: "p1".to_string(),
        label: "Pool 1".to_string(),
        refresh_token: "r".to_string(),
        access_token: None,
        token_expiry: None,
        client_id: None,
        client_secret: None,
        sso_region: Some("eu".to_string()),
        enabled: false,
        last_used: None,
        created_at: "t0".to_string(),
    }];
    let body = accounts_body(Some((true, "us-east-1".to_string())), &users, &pool).to_text();
    let expected = [
        r#"{"accounts":[{"enabled":true,"has_token":true,"id":"global","label":"Global (env)","last_used":null,"region":"us-east-1","type":"global"},"#,
        r#"{"enabled":true,"has_token":true,"id":"u1","label":"a@b.c (Ann)","last_used":"t1","region":null,"type":"user"},"#,
        r#"{"enabled":false,"has_token":false,"id":"p1","label":"Pool 1","last_used":null,"region":"eu","type":"pool"}]}"#,
    ]
    .join("");
    assert_eq!(body, expected);
    let rows = vec![UserRow {
        id: "u1".to_string(),
        email: "e".to_string(),
        name: "n".to_string(),
        role: "user".to_string(),
        status: "pending".to_string(),
        password_hash: "secret".to_string(),
        created_at: "c".to_string(),
        last_login: None,
    }];
    let listed = users_body(&rows).to_text();
    assert_eq!(listed, r#"{"users":[{"created_at":"c","email":"e","id":"u1","last_login":null,"name":"n","role":"user","status":"pending"}]}"#);
    assert!(!listed.contains("secret"));
}

#[test]
fn device_flow_bodies() {
    let (region, start) = setup_target(&SetupRequest { sso_start_url: None, sso_region: None });
    assert_eq!(region, "us-east-1");
    assert_eq!(start, "");
    let d = DeviceAuthResponse {
        device_code: "dc".to_string(),
        user_code: "UC".to_string(),
        verification_uri: "https://v".to_string(),
        verification_uri_complete: None,
        expires_in: 600,
        interval: 5,
    };
    assert_eq!(device_auth_body(&d).to_text(), r#"{"device_code":"dc","expires_in":600,"interval":5,"user_code":"UC","verification_uri":"https://v","verification_uri_complete":null}"#);
    assert_eq!(poll_answer_body(&PollResult::Pending).to_text(), r#"{"message":"Waiting for user authorization","status":"pending"}"#);
    assert_eq!(poll_answer_body(&PollResult::SlowDown).to_text(), r#"{"message":"Polling too fast","status":"slow_down"}"#);
    assert!(matches!(poll_credentials(None), Err(ApiError::ValidationError(m)) if m == "No setup in progress. Call /api/kiro/setup first."));
    assert!(matches!(poll_credentials(Some(token_row(false, None))), Err(ApiError::ValidationError(m)) if m == "Missing client_id"));
    let (id, secret, region) = poll_credentials(Some(token_row(true, None))).unwrap();
    assert_eq!((id.as_str(), secret.as_str(), region.as_str()), ("cid", "sec", "us-east-1"));
}

#[test]
fn token_status_and_expiry() {
    assert_eq!(kiro_status_body(&None, (0, 0)).to_text(), r#"{"expired":true,"has_token":false}"#);
    let row = Some(token_row(true, Some("2024-01-01T00:00:00Z")));
    let before = kiro_status_body(&row, (1704067199, 0)).to_text();
    assert!(before.contains(r#""expired":false"#));
    let after = kiro_status_body(&row, (1704067200, 1)).to_text();
    assert!(after.contains(r#""expired":true"#));
    let unreadable = kiro_status_body(&Some(token_row(true, Some("soon"))), (0, 0)).to_text();
    assert!(unreadable.contains(r#""expired":true"#));
    assert_eq!(token_expiry_text((1704067200, 0), None).unwrap(), "2024-01-01T00:59:00+00:00");
    assert_eq!(token_expiry_text((1704067200, 0), Some(120)).unwrap(), "2024-01-01T00:01:00+00:00");
}

#[test]
fn a_hashed_password_signs_in() {
    let h = password_hash_for("correct horse").unwrap();
    assert!(h.starts_with("$argon2id$"));
    assert!(verify_login("correct horse", Some(h.as_str())).is_ok());
    assert!(matches!(verify_login("wrong horse", Some(h.as_str())), Err(ApiError::InvalidCredentials)));
}
