//! Verified core of the Kiro API proxy: request conversion, truncation
//! diagnosis, credential routing decisions, retry policy, and the small
//! text and JSON utilities they rest on.

pub mod auth;
pub mod cache;
pub mod codec;
pub mod config;
pub mod conversation_log;
pub mod converters;
pub mod crypto;
pub mod db;
pub mod error;
pub mod http_client;
pub mod ids;
pub mod json;
pub mod middleware;
pub mod models;
pub mod pool;
pub mod routes;
pub mod streaming;
pub mod tasks;
pub mod text;
pub mod tokenizer;
pub mod web_ui;
pub mod truncation;
