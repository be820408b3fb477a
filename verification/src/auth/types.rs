//! Credentials and the results of the AWS SSO OIDC endpoints.

use vstd::prelude::*;

verus! {

/// The credentials of a Kiro account. Instants are nanoseconds since the Unix
/// epoch.
pub struct Credentials {
    pub refresh_token: String,
    pub access_token: Option<String>,
    pub expires_at: Option<i128>,
    pub profile_arn: Option<String>,
    pub region: String,
    pub client_id: Option<String>,
    pub client_secret: Option<String>,
    pub sso_region: Option<String>,
    pub scopes: Option<Vec<String>>,
}

/// What a successful token refresh returns.
pub struct TokenData {
    pub access_token: String,
    pub expires_at: i128,
    pub refresh_token: Option<String>,
    pub profile_arn: Option<String>,
}

/// The state of a PKCE authorization: verifier, its challenge, and the CSRF state.
pub struct PkceState {
    pub code_verifier: String,
    pub code_challenge: String,
    pub state: String,
}

/// A client registered with the OIDC service.
pub struct ClientRegistrationResponse {
    pub client_id: String,
    pub client_secret: String,
}

/// A started device authorization.
pub struct DeviceAuthResponse {
    pub device_code: String,
    pub user_code: String,
    pub verification_uri: String,
    pub verification_uri_complete: Option<String>,
    pub expires_in: i64,
    pub interval: i64,
}

/// The tokens a completed device authorization yields.
pub struct TokenExchangeResponse {
    pub access_token: String,
    pub refresh_token: Option<String>,
    pub expires_in: Option<i64>,
}

/// The answer to one poll of a device authorization.
pub enum PollResult {
    Success(TokenExchangeResponse),
    Pending,
    SlowDown,
}

} // verus!
