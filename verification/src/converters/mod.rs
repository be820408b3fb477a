//! Conversions between the client-facing API formats and Kiro's format.

pub mod unified;
pub mod kiro_to_openai;
pub mod kiro_to_responses;
pub mod responses_to_kiro;
