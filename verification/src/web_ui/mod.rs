//! The decisions behind the Web UI: sessions, accounts, API keys, token
//! binding and administration.

pub mod admin;
pub mod api_keys;
pub mod auth;
pub mod kiro_setup;
pub mod session;
