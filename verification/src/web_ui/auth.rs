//! Registration, sign-in and sign-out.

use vstd::prelude::*;
use vstd::utf8::encode_utf8;
use argon2::{PasswordHasher, PasswordVerifier};
use crate::error::{ApiError, ApiErrorView};
use crate::json::{entry_models, json_str, object, push_entry, Json, JsonValue};
use crate::text::{owned, push_str};
use crate::web_ui::session::SessionUser;

verus! {

/// A registration form.
pub struct RegisterRequest {
    pub email: String,
    pub name: String,
    pub password: String,
}

/// A sign-in form.
pub struct LoginRequest {
    pub email: String,
    pub password: String,
}

/// The account a registration or sign-in answers with.
pub struct AuthResponse {
    pub user_id: String,
    pub email: String,
    pub role: String,
    pub status: String,
}

/// The JSON of an account: `user_id`, `email`, `role`, `status`.
pub open spec fn account_json(user_id: Seq<char>, email: Seq<char>, role: Seq<char>, status: Seq<char>) -> Json {
    Json::Object(seq![
        ("user_id"@, Json::Str(user_id)),
        ("email"@, Json::Str(email)),
        ("role"@, Json::Str(role)),
        ("status"@, Json::Str(status)),
    ])
}

fn account_value(user_id: &str, email: &str, role: &str, status: &str) -> (r: JsonValue)
    ensures
        r.model() == account_json(user_id@, email@, role@, status@),
{
    let mut entries: Vec<(String, JsonValue)> = Vec::new();
    push_entry(&mut entries, "user_id", json_str(user_id));
    push_entry(&mut entries, "email", json_str(email));
    push_entry(&mut entries, "role", json_str(role));
    push_entry(&mut entries, "status", json_str(status));
    let r = object(entries);
    assert(entry_models(entries@) =~= account_json(user_id@, email@, role@, status@)->Object_0);
    r
}

impl AuthResponse {
    /// The response body.
    pub fn to_json(&self) -> (r: JsonValue)
        ensures
            r.model() == account_json(self.user_id@, self.email@, self.role@, self.status@),
    {
        account_value(self.user_id.as_str(), self.email.as_str(), self.role.as_str(), self.status.as_str())
    }
}

/// The body of `GET /api/auth/me`: the signed-in user.
pub fn me_json(user: &SessionUser) -> (r: JsonValue)
    ensures
        r.model() == account_json(user.user_id@, user.email@, user.role@, user.status@),
{
    account_value(user.user_id.as_str(), user.email.as_str(), user.role.as_str(), user.status.as_str())
}

/// Checks a registration form: every field is required, and the password must
/// be at least 8 bytes long.
pub fn validate_registration(req: &RegisterRequest) -> (r: Result<(), ApiError>)
    ensures
        (req.email@.len() == 0 || req.password@.len() == 0 || req.name@.len() == 0) ==> (r matches Err(e)
            && e@ == ApiErrorView::ValidationError("email, name, and password are required"@)),
        !(req.email@.len() == 0 || req.password@.len() == 0 || req.name@.len() == 0) && (encode_utf8(req.password@).len() as usize)
            < 8 ==> (r matches Err(e) && e@ == ApiErrorView::ValidationError("Password must be at least 8 characters"@)),
        !(req.email@.len() == 0 || req.password@.len() == 0 || req.name@.len() == 0) && (encode_utf8(req.password@).len() as usize)
            >= 8 ==> r is Ok,
{
    if req.email.as_str().is_empty() || req.password.as_str().is_empty() || req.name.as_str().is_empty() {
        return Err(ApiError::ValidationError(owned("email, name, and password are required")));
    }
    if req.password.as_str().len() < 8 {
        return Err(ApiError::ValidationError(owned("Password must be at least 8 characters")));
    }
    Ok(())
}

/// The `Set-Cookie` value that opens a session for a day.
pub fn session_cookie_header(session_id: &str) -> (s: String)
    ensures
        s@ == "kp_session="@ + session_id@ + "; HttpOnly; SameSite=Strict; Path=/; Max-Age=86400"@,
{
    let mut s = owned("kp_session=");
    push_str(&mut s, session_id);
    push_str(&mut s, "; HttpOnly; SameSite=Strict; Path=/; Max-Age=86400");
    s
}

/// The `Set-Cookie` value that ends a session.
pub fn logout_cookie_header() -> (s: String)
    ensures
        s@ == "kp_session=; HttpOnly; SameSite=Strict; Path=/; Max-Age=0"@,
{
    owned("kp_session=; HttpOnly; SameSite=Strict; Path=/; Max-Age=0")
}

/// Whether `password` matches the PHC string `hash` under Argon2 with default
/// parameters; `None` when the hash cannot be parsed.
pub uninterp spec fn argon2_verdict(password: Seq<char>, hash: Seq<char>) -> Option<bool>;

/// Calls `argon2::PasswordHash::new` and `Argon2::default().verify_password`.
/// Claimed: the result is the verdict for the password and hash (named, not
/// computed here), `None` when the hash does not parse.
#[verifier::external_body]
fn check_password(password: &str, hash: &str) -> (r: Option<bool>)
    ensures
        r == argon2_verdict(password@, hash@),
{
    match argon2::PasswordHash::new(hash) {
        Ok(parsed) => Some(argon2::Argon2::default().verify_password(password.as_bytes(), &parsed).is_ok()),
        Err(_) => None,
    }
}

/// Calls `Argon2::default().hash_password` with a fresh `SaltString` drawn from
/// `OsRng`, giving the PHC string. The salt is random, so the text is not named;
/// claimed, as the crate's documentation shows it: the same password verifies
/// against the PHC string that comes back.
#[verifier::external_body]
fn hash_password(password: &str) -> (r: Result<String, String>)
    ensures
        r matches Ok(h) ==> argon2_verdict(password@, h@) == Some(true),
{
    let salt = argon2::password_hash::SaltString::generate(&mut argon2::password_hash::rand_core::OsRng);
    match argon2::Argon2::default().hash_password(password.as_bytes(), &salt) {
        Ok(h) => Ok(h.to_string()),
        Err(e) => Err(e.to_string()),
    }
}

/// A fresh Argon2 hash of a new password, against which that password
/// verifies; a hashing failure is an internal error
/// `Password hashing failed: <reason>`.
pub fn password_hash_for(password: &str) -> (r: Result<String, ApiError>)
    ensures
        r matches Ok(h) ==> argon2_verdict(password@, h@) == Some(true),
        r matches Err(e) ==> (e matches ApiError::Internal(m) && m@.len() >= 25 && m@.take(25)
            == "Password hashing failed: "@),
{
    match hash_password(password) {
        Ok(h) => Ok(h),
        Err(reason) => {
            let mut m = owned("Password hashing failed: ");
            push_str(&mut m, reason.as_str());
            proof {
                reveal_strlit("Password hashing failed: ");
                assert(m@.take(25) =~= "Password hashing failed: "@);
            }
            Err(ApiError::Internal(m))
        },
    }
}

/// The sign-in decision once the password has been checked against the
/// stored hash: only a verdict of `true` signs in.
pub fn login_check(verdict: Option<bool>) -> (r: Result<(), ApiError>)
    ensures
        verdict == Some(true) ==> r is Ok,
        verdict != Some(true) ==> (r matches Err(e) && e@ == ApiErrorView::InvalidCredentials),
{
    match verdict {
        Some(true) => Ok(()),
        _ => Err(ApiError::InvalidCredentials),
    }
}

/// Signs in with `password` against the stored hash of the account found by
/// email (`None` when there is none).
pub fn verify_login(password: &str, stored_hash: Option<&str>) -> (r: Result<(), ApiError>)
    ensures
        (stored_hash matches Some(h) && argon2_verdict(password@, h@) == Some(true)) ==> r is Ok,
        !(stored_hash matches Some(h) && argon2_verdict(password@, h@) == Some(true)) ==> (r matches Err(e) && e@
            == ApiErrorView::InvalidCredentials),
{
    match stored_hash {
        None => Err(ApiError::InvalidCredentials),
        Some(h) => login_check(check_password(password, h)),
    }
}

} // verus!
