//! Errors answered to API clients.

use vstd::prelude::*;

verus! {

/// An error answered to a client, by kind, with its message.
#[derive(Debug)]
pub enum ApiError {
    AuthError(String),
    Forbidden(String),
    ValidationError(String),
    NotFound(String),
    ConfigError(String),
    Internal(String),
    InvalidCredentials,
    KiroTokenRequired,
    KiroApiError { status: u16, message: String },
}

/// The model of an error.
pub enum ApiErrorView {
    AuthError(Seq<char>),
    Forbidden(Seq<char>),
    ValidationError(Seq<char>),
    NotFound(Seq<char>),
    ConfigError(Seq<char>),
    Internal(Seq<char>),
    InvalidCredentials,
    KiroTokenRequired,
    KiroApiError(u16, Seq<char>),
}

impl View for ApiError {
    type V = ApiErrorView;

    open spec fn view(&self) -> ApiErrorView {
        match self {
            ApiError::AuthError(m) => ApiErrorView::AuthError(m@),
            ApiError::Forbidden(m) => ApiErrorView::Forbidden(m@),
            ApiError::ValidationError(m) => ApiErrorView::ValidationError(m@),
            ApiError::NotFound(m) => ApiErrorView::NotFound(m@),
            ApiError::ConfigError(m) => ApiErrorView::ConfigError(m@),
            ApiError::Internal(m) => ApiErrorView::Internal(m@),
            ApiError::InvalidCredentials => ApiErrorView::InvalidCredentials,
            ApiError::KiroTokenRequired => ApiErrorView::KiroTokenRequired,
            ApiError::KiroApiError { status, message } => ApiErrorView::KiroApiError(*status, message@),
        }
    }
}

} // verus!
