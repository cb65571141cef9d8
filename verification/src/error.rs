//! The request-time error taxonomy exposed to HTTP plumbing, with its status
//! codes and display texts. Every failing gateway result maps to exactly one
//! variant; success maps to none.

use crate::outcome::{GatewayResult, GatewayView};
use vstd::prelude::*;
use vstd::string::StringExecFns;

verus! {

/// A request-time failure, carrying what the HTTP layer needs to render it.
#[derive(Debug, PartialEq, Eq)]
pub enum ApiError {
    /// The presented secret did not match the configured one.
    AuthenticationError,
    /// The identifier fell outside the safe character class.
    InvalidUsername,
    /// The external command started but exited non-zero.
    CommandError(String),
    /// The external command could not be started.
    Internal(String),
}

/// The mathematical value of an [`ApiError`].
pub enum ApiErrorView {
    /// The presented secret did not match the configured one.
    AuthenticationError,
    /// The identifier fell outside the safe character class.
    InvalidUsername,
    /// The external command started but exited non-zero.
    CommandError(Seq<char>),
    /// The external command could not be started.
    Internal(Seq<char>),
}

impl View for ApiError {
    type V = ApiErrorView;

    open spec fn view(&self) -> ApiErrorView {
        match self {
            ApiError::AuthenticationError => ApiErrorView::AuthenticationError,
            ApiError::InvalidUsername => ApiErrorView::InvalidUsername,
            ApiError::CommandError(d) => ApiErrorView::CommandError(d@),
            ApiError::Internal(d) => ApiErrorView::Internal(d@),
        }
    }
}

/// The HTTP status code of each variant.
pub open spec fn status_code_of(e: ApiErrorView) -> u16 {
    match e {
        ApiErrorView::AuthenticationError => 403,
        ApiErrorView::InvalidUsername => 400,
        ApiErrorView::CommandError(_) => 500,
        ApiErrorView::Internal(_) => 500,
    }
}

/// The display text of each variant.
pub open spec fn message_of(e: ApiErrorView) -> Seq<char> {
    match e {
        ApiErrorView::AuthenticationError => "Authentication failed"@,
        ApiErrorView::InvalidUsername => "Invalid username format"@,
        ApiErrorView::CommandError(d) => "Command execution failed: "@ + d,
        ApiErrorView::Internal(d) => "Internal server error: "@ + d,
    }
}

/// The failing variant for each failing gateway result; success yields none.
pub open spec fn api_error_of(g: GatewayView) -> Option<ApiErrorView> {
    match g {
        GatewayView::Success { .. } => Option::None,
        GatewayView::AuthFailed => Option::Some(ApiErrorView::AuthenticationError),
        GatewayView::InvalidIdentifier => Option::Some(ApiErrorView::InvalidUsername),
        GatewayView::CommandFailed { detail } => Option::Some(
            ApiErrorView::CommandError(detail),
        ),
        GatewayView::LaunchFailed { detail } => Option::Some(ApiErrorView::Internal(detail)),
    }
}

impl ApiError {
    /// The HTTP status code this error renders as.
    pub fn status_code(&self) -> (c: u16)
        ensures
            c == status_code_of(self@),
    {
        match self {
            ApiError::AuthenticationError => 403,
            ApiError::InvalidUsername => 400,
            ApiError::CommandError(_) => 500,
            ApiError::Internal(_) => 500,
        }
    }

    /// The display text this error renders as.
    pub fn message(&self) -> (m: String)
        ensures
            m@ == message_of(self@),
    {
        match self {
            ApiError::AuthenticationError => "Authentication failed".to_owned(),
            ApiError::InvalidUsername => "Invalid username format".to_owned(),
            ApiError::CommandError(d) => "Command execution failed: ".to_owned().concat(
                d.as_str(),
            ),
            ApiError::Internal(d) => "Internal server error: ".to_owned().concat(d.as_str()),
        }
    }

    /// Maps a failing gateway result to its error variant, exactly as
    /// [`api_error_of`] states.
    pub fn from_result(g: GatewayResult) -> (e: Option<ApiError>)
        ensures
            match e {
                Option::Some(err) => api_error_of(g@) == Option::Some(err@),
                Option::None => api_error_of(g@) is None,
            },
    {
        match g {
            GatewayResult::Success { .. } => None,
            GatewayResult::AuthFailed => Some(ApiError::AuthenticationError),
            GatewayResult::InvalidIdentifier => Some(ApiError::InvalidUsername),
            GatewayResult::CommandFailed { detail } => Some(ApiError::CommandError(detail)),
            GatewayResult::LaunchFailed { detail } => Some(ApiError::Internal(detail)),
        }
    }
}

} // verus!
