//! The global Kiro account's access token: when to refresh it and what to hand
//! out. Instants are nanoseconds since the Unix epoch.

use vstd::prelude::*;
use crate::auth::types::{Credentials, TokenData};
use crate::config::{non_empty, Config};
use crate::text::owned;

verus! {

/// The token state of the global Kiro account.
pub struct AuthManager {
    pub credentials: Credentials,
    pub access_token: Option<String>,
    pub expires_at: Option<i128>,
    pub refresh_threshold: i64,
}

/// Nanoseconds per second.
pub const NANOS_PER_SEC: i128 = 1000000000;

impl AuthManager {
    /// Whether the token must be refreshed at `now`: there is none, or it
    /// expires within the refresh threshold.
    pub open spec fn expiring_soon(self, now: i128) -> bool {
        match self.expires_at {
            None => true,
            Some(exp) => exp <= now + self.refresh_threshold * NANOS_PER_SEC,
        }
    }

    /// Whether the token has expired at `now` (or there is none).
    pub open spec fn expired(self, now: i128) -> bool {
        match self.expires_at {
            None => true,
            Some(exp) => now >= exp,
        }
    }

    /// The state for the configured global account: its refresh token (empty
    /// when none is set), region, client credentials and SSO region, no token
    /// yet, and the configured refresh threshold in seconds.
    pub fn new_from_env(config: &Config) -> (m: Self)
        ensures
            m.credentials.refresh_token@ == (match non_empty(config.kiro_refresh_token) {
                Some(t) => t,
                None => Seq::empty(),
            }),
            m.credentials.access_token is None,
            m.credentials.expires_at is None,
            m.credentials.profile_arn is None,
            m.credentials.region@ == config.kiro_region@,
            m.credentials.client_id == config.kiro_client_id,
            m.credentials.client_secret == config.kiro_client_secret,
            m.credentials.sso_region == config.kiro_sso_region,
            m.credentials.scopes is None,
            m.access_token is None,
            m.expires_at is None,
            m.refresh_threshold == config.token_refresh_threshold as i64,
    {
        let refresh_token = match &config.kiro_refresh_token {
            Some(t) => if t.as_str().is_empty() {
                String::new()
            } else {
                t.clone()
            },
            None => String::new(),
        };
        let credentials = Credentials {
            refresh_token,
            access_token: None,
            expires_at: None,
            profile_arn: None,
            region: config.kiro_region.clone(),
            client_id: config.kiro_client_id.clone(),
            client_secret: config.kiro_client_secret.clone(),
            sso_region: config.kiro_sso_region.clone(),
            scopes: None,
        };
        AuthManager {
            credentials,
            access_token: None,
            expires_at: None,
            refresh_threshold: config.token_refresh_threshold as i64,
        }
    }

    /// Whether start-up should fetch a token: a refresh token and a client id are set.
    pub fn needs_bootstrap(&self) -> (r: bool)
        ensures
            r == (self.credentials.refresh_token@.len() > 0 && self.credentials.client_id is Some),
    {
        !self.credentials.refresh_token.as_str().is_empty() && self.credentials.client_id.is_some()
    }

    /// Whether the token must be refreshed at `now` (see [`AuthManager::expiring_soon`]).
    pub fn is_token_expiring_soon(&self, now: i128) -> (r: bool)
        requires
            i128::MIN <= now + self.refresh_threshold * NANOS_PER_SEC <= i128::MAX,
        ensures
            r == self.expiring_soon(now),
    {
        match self.expires_at {
            None => true,
            Some(exp) => exp <= now + (self.refresh_threshold as i128) * NANOS_PER_SEC,
        }
    }

    /// Whether the token has expired at `now` (see [`AuthManager::expired`]).
    pub fn is_token_expired(&self, now: i128) -> (r: bool)
        ensures
            r == self.expired(now),
    {
        match self.expires_at {
            None => true,
            Some(exp) => now >= exp,
        }
    }

    /// The state after taking in a refreshed token: it becomes the current
    /// token with its expiry; a new refresh token or profile ARN replaces the
    /// old one; everything else stays.
    pub open spec fn refreshed(self, data: TokenData) -> AuthManager {
        AuthManager {
            access_token: Some(data.access_token),
            expires_at: Some(data.expires_at),
            credentials: Credentials {
                refresh_token: match data.refresh_token {
                    Some(t) => t,
                    None => self.credentials.refresh_token,
                },
                profile_arn: match data.profile_arn {
                    Some(p) => Some(p),
                    None => self.credentials.profile_arn,
                },
                ..self.credentials
            },
            ..self
        }
    }

    /// Takes in a refreshed token (see [`AuthManager::refreshed`]).
    pub fn apply_refresh(&mut self, data: TokenData)
        ensures
            *final(self) == old(self).refreshed(data),
    {
        self.access_token = Some(data.access_token);
        self.expires_at = Some(data.expires_at);
        if let Some(t) = data.refresh_token {
            self.credentials.refresh_token = t;
        }
        if let Some(p) = data.profile_arn {
            self.credentials.profile_arn = Some(p);
        }
    }

    /// The current token, or an error when there is none.
    pub fn current_token(&self) -> (r: Result<String, String>)
        ensures
            self.access_token matches Some(t) ==> r == Ok::<String, String>(t),
            self.access_token is None ==> (r matches Err(m) && m@ == "No access token available"@),
    {
        match &self.access_token {
            Some(t) => Ok(t.clone()),
            None => Err(owned("No access token available")),
        }
    }

    /// What to hand out when a refresh failed at `now`: the current token while
    /// it has not expired, else an error.
    pub fn after_failed_refresh(&self, now: i128) -> (r: Result<String, String>)
        ensures
            !self.expired(now) && self.access_token is Some ==> r == Ok::<String, String>(self.access_token.unwrap()),
            !(!self.expired(now) && self.access_token is Some) ==> (r matches Err(m) && m@
                == "Failed to refresh token and no valid token available"@),
    {
        if !self.is_token_expired(now) {
            if let Some(t) = &self.access_token {
                return Ok(t.clone());
            }
        }
        Err(owned("Failed to refresh token and no valid token available"))
    }

    /// The region of the account.
    pub fn get_region(&self) -> (r: String)
        ensures
            r == self.credentials.region,
    {
        self.credentials.region.clone()
    }

    /// The profile ARN of the account, once a refresh reported one.
    pub fn get_profile_arn(&self) -> (r: Option<String>)
        ensures
            r == self.credentials.profile_arn,
    {
        self.credentials.profile_arn.clone()
    }
}

/// A refreshed token serves until it expires: after taking in a refresh whose
/// expiry lies after `now`, the current token is the refreshed one, and even a
/// refresh that fails at `now` still hands it out.
pub proof fn law_refreshed_token_serves_until_expiry(m: AuthManager, data: TokenData, now: i128)
    requires
        now < data.expires_at,
    ensures
        m.refreshed(data).access_token == Some(data.access_token),
        !m.refreshed(data).expired(now),
{
}

} // verus!
