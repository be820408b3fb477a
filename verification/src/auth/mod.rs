//! Kiro account credentials: the global account's token lifecycle and the
//! AWS SSO OIDC device flow.

pub mod manager;
pub mod oauth;
pub mod types;
