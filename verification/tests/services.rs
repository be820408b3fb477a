use kiro_proxy::auth::manager::AuthManager;
use kiro_proxy::auth::oauth::{
    classify_poll_failure, device_authorization_body, device_token_body, get_oidc_base_url, oidc_url, pkce_from_bytes,
    registration_body,
};
use kiro_proxy::auth::types::{PollResult, TokenData};
use kiro_proxy::config::{parse_debug_mode, Config, DebugMode, EnvValues, FakeReasoningHandling};
use kiro_proxy::error::ApiError;
use kiro_proxy::http_client::{status_error, transport_error, Outcome, RetryDecision, RetryState};
use kiro_proxy::json::JsonValue;

fn get<'a>(v: &'a JsonValue, key: &str) -> Option<&'a JsonValue> {
    match v {
        JsonValue::Object(es) => es.iter().find(|(k, _)| k == key).map(|(_, v)| v),
        _ => None,
    }
}

fn keys(v: &JsonValue) -> Vec<String> {
    match v {
        JsonValue::Object(es) => es.iter().map(|(k, _)| k.clone()).collect(),
        _ => vec![],
    }
}

fn text(v: Option<&JsonValue>) -> Option<&str> {
    match v {
        Some(JsonValue::Str(s)) => Some(s.as_str()),
        _ => None,
    }
}

fn env() -> EnvValues {
    EnvValues {
        server_host: None,
        server_port: None,
        proxy_api_key: None,
        database_url: None,
        kiro_region: None,
        kiro_sso_region: None,
        kiro_refresh_token: None,
        kiro_client_id: None,
        kiro_client_secret: None,
        debug_mode: None,
        log_level: None,
        enable_conversation_log: None,
    }
}

#[test]
fn retries_back_off_exponentially_then_stop() {
    let mut s = RetryState::new(3, 1000);
    assert!(matches!(s.on_outcome(&Outcome::Status(429)), RetryDecision::Retry { delay_ms: 1000 }));
    assert!(matches!(s.on_outcome(&Outcome::Status(503)), RetryDecision::Retry { delay_ms: 2000 }));
    assert!(matches!(s.on_outcome(&Outcome::Transport { timeout: true, connect: false }), RetryDecision::Retry { delay_ms: 4000 }));
    assert!(matches!(s.on_outcome(&Outcome::Status(500)), RetryDecision::FailStatus { status: 500 }));
    assert_eq!(s.attempt, 3);
}

#[test]
fn success_and_client_errors_are_not_retried() {
    let mut s = RetryState::new(3, 1000);
    assert!(matches!(s.on_outcome(&Outcome::Status(200)), RetryDecision::Deliver));
    assert!(matches!(s.on_outcome(&Outcome::Status(404)), RetryDecision::FailStatus { status: 404 }));
    assert_eq!(s.attempt, 0);
    let mut none = RetryState::new(0, 1000);
    assert!(matches!(none.on_outcome(&Outcome::Transport { timeout: false, connect: true }), RetryDecision::FailTransport));
}

#[test]
fn transport_and_status_errors_read_as_reported() {
    assert!(matches!(transport_error("boom", false, true), ApiError::Internal(m) if m == "HTTP request failed: boom (kind: connection_failed)"));
    assert!(matches!(transport_error("t", true, true), ApiError::Internal(m) if m.ends_with("(kind: timeout)")));
    assert!(matches!(transport_error("x", false, false), ApiError::Internal(m) if m.ends_with("(kind: unknown)")));
    assert!(matches!(status_error(418, "teapot".to_string()), ApiError::KiroApiError { status: 418, message } if message == "teapot"));
}

#[test]
fn defaults_and_validation() {
    let c = Config::with_defaults();
    assert_eq!(c.server_host, "0.0.0.0");
    assert_eq!(c.server_port, 9199);
    assert_eq!(c.kiro_region, "us-east-1");
    assert_eq!(c.http_max_retries, 3);
    assert!(!c.fake_reasoning_enabled);
    assert!(c.fake_reasoning_handling == FakeReasoningHandling::AsReasoningContent);
    assert_eq!(c.validate().unwrap_err(), "PROXY_API_KEY must be at least 16 characters for security");
    let ok = Config { proxy_api_key: "0123456789abcdef".to_string(), ..Config::with_defaults() };
    assert!(ok.validate().is_ok());
}

#[test]
fn environment_values_are_read_with_defaults() {
    let mut e = env();
    e.server_port = Some("+8080".to_string());
    e.database_url = Some(String::new());
    e.kiro_refresh_token = Some("rt".to_string());
    e.debug_mode = Some("ERRORS".to_string());
    e.enable_conversation_log = Some("1".to_string());
    let c = Config::from_env_values(e);
    assert_eq!(c.server_port, 8080);
    assert!(c.database_url.is_none());
    assert_eq!(c.kiro_refresh_token.as_deref(), Some("rt"));
    assert!(c.debug_mode == DebugMode::Errors);
    assert!(c.enable_conversation_log);
    assert!(c.fake_reasoning_enabled);
    let mut e = env();
    e.server_port = Some("70000".to_string());
    e.enable_conversation_log = Some("yes".to_string());
    let c = Config::from_env_values(e);
    assert_eq!(c.server_port, 9199);
    assert!(!c.enable_conversation_log);
    assert!(parse_debug_mode("All") == DebugMode::All);
    assert!(parse_debug_mode("verbose") == DebugMode::Off);
}

#[test]
fn token_lifecycle_of_the_global_account() {
    let config = Config { kiro_refresh_token: Some("rt".to_string()), kiro_client_id: Some("cid".to_string()), ..Config::with_defaults() };
    let mut m = AuthManager::new_from_env(&config);
    assert!(m.needs_bootstrap());
    assert!(m.is_token_expiring_soon(0));
    assert!(m.is_token_expired(0));
    assert_eq!(m.current_token().unwrap_err(), "No access token available");
    let second: i128 = 1_000_000_000;
    m.apply_refresh(TokenData { access_token: "at".to_string(), expires_at: 1000 * second, refresh_token: Some("rt2".to_string()), profile_arn: Some("arn".to_string()) });
    assert_eq!(m.current_token().unwrap(), "at");
    assert_eq!(m.credentials.refresh_token, "rt2");
    assert_eq!(m.get_profile_arn().as_deref(), Some("arn"));
    assert!(!m.is_token_expiring_soon(600 * second));
    assert!(m.is_token_expiring_soon(700 * second));
    assert_eq!(m.after_failed_refresh(999 * second).unwrap(), "at");
    assert_eq!(m.after_failed_refresh(1000 * second).unwrap_err(), "Failed to refresh token and no valid token available");
}

#[test]
fn oidc_requests() {
    assert_eq!(get_oidc_base_url("us-west-2"), "https://oidc.us-west-2.amazonaws.com");
    assert_eq!(oidc_url("eu-west-1", "/token"), "https://oidc.eu-west-1.amazonaws.com/token");
    let reg = registration_body("device", Some("http://cb"), Some(""));
    assert_eq!(keys(&reg), vec!["clientName", "clientType", "scopes", "grantTypes", "redirectUris"]);
    assert_eq!(reg.to_text(), r#"{"clientName":"kiro-proxy","clientType":"public","grantTypes":["urn:ietf:params:oauth:grant-type:device_code","refresh_token"],"redirectUris":["http://cb"],"scopes":["codewhisperer:completions","codewhisperer:analysis","codewhisperer:conversations"]}"#);
    let browser = registration_body("browser", None, Some("https://start"));
    assert_eq!(text(get(&browser, "issuerUrl")), Some("https://start"));
    assert!(browser.to_text().contains(r#""grantTypes":["authorization_code","refresh_token"]"#));
    assert_eq!(device_authorization_body("i", "s", "u").to_text(), r#"{"clientId":"i","clientSecret":"s","startUrl":"u"}"#);
    assert_eq!(device_token_body("i", "s", "d").to_text(), r#"{"clientId":"i","clientSecret":"s","deviceCode":"d","grantType":"urn:ietf:params:oauth:grant-type:device_code"}"#);
}

#[test]
fn poll_failures_are_classified() {
    assert!(matches!(classify_poll_failure("{\"error\":\"authorization_pending\"}"), Ok(PollResult::Pending)));
    assert!(matches!(classify_poll_failure("slow_down"), Ok(PollResult::SlowDown)));
    assert!(matches!(classify_poll_failure("expired_token"), Err(m) if m == "Device token polling failed: expired_token"));
}

#[test]
fn pkce_uses_url_safe_base64() {
    let p = pkce_from_bytes(&[0xfb, 0xff, 0x00], &[0x01]);
    assert_eq!(p.code_verifier, "-_8A");
    assert_eq!(p.state, "AQ");
    // SHA-256 of "-_8A", URL-safe base64 without padding, is 43 characters.
    assert_eq!(p.code_challenge.len(), 43);
    assert!(!p.code_challenge.contains('=') && !p.code_challenge.contains('+') && !p.code_challenge.contains('/'));
}

#[test]
fn config_debug_text_redacts_secrets() {
    let c = Config::with_defaults();
    assert_eq!(
        c.debug_text(),
        r#"Config { server_host: "0.0.0.0", server_port: 9199, proxy_api_key: "[REDACTED]", kiro_region: "us-east-1", kiro_sso_region: None, kiro_refresh_token: None, debug_mode: Off, log_level: "info" }"#
    );
    let secret = Config {
        proxy_api_key: "super-secret-proxy-key".to_string(),
        kiro_refresh_token: Some("refresh-secret".to_string()),
        kiro_sso_region: Some("eu-west-1".to_string()),
        debug_mode: DebugMode::Errors,
        log_level: "de\"bug".to_string(),
        ..Config::with_defaults()
    };
    let text = secret.debug_text();
    assert!(!text.contains("super-secret-proxy-key"));
    assert!(!text.contains("refresh-secret"));
    assert!(text.contains(r#"kiro_sso_region: Some("eu-west-1"), kiro_refresh_token: Some("[REDACTED]"), debug_mode: Errors, log_level: "de\"bug" }"#));
}

#[test]
fn proxy_key_length_counts_characters() {
    let eight_accents = Config { proxy_api_key: "é".repeat(8), ..Config::with_defaults() };
    assert_eq!(eight_accents.validate().unwrap_err(), "PROXY_API_KEY must be at least 16 characters for security");
    let sixteen_accents = Config { proxy_api_key: "é".repeat(16), ..Config::with_defaults() };
    assert!(sixteen_accents.validate().is_ok());
}

#[test]
fn large_retry_budgets_are_accepted_until_a_delay_overflows() {
    let mut s = RetryState::new(60, 1000);
    assert!(s.can_decide(&Outcome::Status(200)));
    assert!(s.can_decide(&Outcome::Status(503)));
    for _ in 0..54 {
        assert!(matches!(s.on_outcome(&Outcome::Status(503)), RetryDecision::Retry { .. }));
    }
    assert_eq!(s.attempt, 54);
    assert!(s.can_decide(&Outcome::Status(503)));
    assert_eq!(s.backoff_delay(), 1000u64 << 54);
    assert!(matches!(s.on_outcome(&Outcome::Status(503)), RetryDecision::Retry { .. }));
    assert!(!s.can_decide(&Outcome::Status(503)));
    assert!(s.can_decide(&Outcome::Status(404)));
}
