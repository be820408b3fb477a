//! Request and response models of the supported API formats.

pub mod anthropic;
pub mod kiro;
pub mod openai;
pub mod responses;
