//! Rows of the multi-user database and the rules applied when writing them.

use vstd::prelude::*;
use crate::text::owned;

verus! {

/// A registered user.
#[derive(Clone, Debug)]
pub struct UserRow {
    pub id: String,
    pub email: String,
    pub name: String,
    pub role: String,
    pub status: String,
    pub password_hash: String,
    pub created_at: String,
    pub last_login: Option<String>,
}

/// A login session joined with its user.
#[derive(Clone, Debug)]
pub struct SessionRow {
    pub id: String,
    pub user_id: String,
    pub expires_at: String,
    pub email: String,
    pub role: String,
    pub status: String,
}

/// An API key as listed to its owner.
#[derive(Clone, Debug)]
pub struct ApiKeyRow {
    pub id: String,
    pub user_id: String,
    pub key_prefix: String,
    pub name: String,
    pub last_used: Option<String>,
    pub created_at: String,
}

/// A user's bound Kiro token.
#[derive(Clone, Debug)]
pub struct KiroTokenRow {
    pub user_id: String,
    pub refresh_token: String,
    pub access_token: Option<String>,
    pub token_expiry: Option<String>,
    pub client_id: Option<String>,
    pub client_secret: Option<String>,
    pub sso_region: Option<String>,
    pub sso_start_url: Option<String>,
    pub enabled: bool,
    pub updated_at: String,
}

/// A user's Kiro token with the user's identity, for the admin listing.
#[derive(Clone, Debug)]
pub struct KiroTokenWithUser {
    pub user_id: String,
    pub email: String,
    pub name: String,
    pub sso_region: Option<String>,
    pub enabled: bool,
    pub has_token: bool,
    pub updated_at: String,
}

/// An entry of the admin token pool.
#[derive(Clone, Debug)]
pub struct PoolEntryRow {
    pub id: String,
    pub label: String,
    pub refresh_token: String,
    pub access_token: Option<String>,
    pub token_expiry: Option<String>,
    pub client_id: Option<String>,
    pub client_secret: Option<String>,
    pub sso_region: Option<String>,
    pub enabled: bool,
    pub last_used: Option<String>,
    pub created_at: String,
}

/// Usage totals of one API key.
#[derive(Clone, Debug)]
pub struct KeyUsageStats {
    pub id: String,
    pub key_prefix: String,
    pub name: String,
    pub last_used: Option<String>,
    pub created_at: String,
    pub user_id: String,
    pub total_input_tokens: i64,
    pub total_output_tokens: i64,
    pub request_count: i64,
}

/// The most API keys a user may hold.
pub const MAX_API_KEYS_PER_USER: i64 = 10;

/// The role and status of a new user: the first user becomes an active admin,
/// later users are pending users.
pub fn initial_role_and_status(existing_users: i64) -> (r: (String, String))
    ensures
        existing_users == 0 ==> r.0@ == "admin"@ && r.1@ == "active"@,
        existing_users != 0 ==> r.0@ == "user"@ && r.1@ == "pending"@,
{
    if existing_users == 0 {
        (owned("admin"), owned("active"))
    } else {
        (owned("user"), owned("pending"))
    }
}

/// Whether a user holding `existing_keys` keys may create another.
pub fn check_api_key_quota(existing_keys: i64) -> (r: Result<(), String>)
    ensures
        existing_keys >= MAX_API_KEYS_PER_USER <==> r is Err,
        r matches Err(m) ==> m@ == "Maximum 10 API keys per user"@,
{
    if existing_keys >= MAX_API_KEYS_PER_USER {
        Err(owned("Maximum 10 API keys per user"))
    } else {
        Ok(())
    }
}

} // verus!
