//! Error taxonomy of the client core.

use vstd::prelude::*;
use vstd::string::StringExecFns;

verus! {

/// Everything that can go wrong in the client core.
///
/// `BundleExtractionError` is fatal to client initialization until retried;
/// `InvalidAppSecret` signals that no candidate secret is honored (or a
/// previously valid one was rotated away); `ApiResponse` carries the raw
/// status or missing field name for diagnosis; `Transport` wraps transport
/// and deserialization failures reported by the surrounding application.
#[derive(Debug, Clone, PartialEq)]
pub enum ApiError {
    BundleExtractionError(String),
    AuthenticationError(String),
    InvalidAppId,
    InvalidAppSecret,
    ApiResponse(String),
    NoQualityAvailable,
    Transport(String),
}

/// The one-line description `message` returns for each error.
pub open spec fn error_message_spec(e: ApiError) -> Seq<char> {
    match e {
        ApiError::BundleExtractionError(m) => ("Bundle extraction error: ")@ + m@,
        ApiError::AuthenticationError(m) => ("Authentication error: ")@ + m@,
        ApiError::InvalidAppId => ("Invalid app ID")@,
        ApiError::InvalidAppSecret => ("Invalid app secret")@,
        ApiError::ApiResponse(m) => ("API response error: ")@ + m@,
        ApiError::NoQualityAvailable => ("No audio quality available")@,
        ApiError::Transport(m) => ("Transport error: ")@ + m@,
    }
}

impl ApiError {
    /// A single human-readable message, suitable for the boundary that
    /// reports errors to a user as one string.
    pub fn message(&self) -> (r: String)
        ensures
            r@ == error_message_spec(*self),
    {
        match self {
            ApiError::BundleExtractionError(m) => {
                String::from_str("Bundle extraction error: ").concat(m.as_str())
            },
            ApiError::AuthenticationError(m) => {
                String::from_str("Authentication error: ").concat(m.as_str())
            },
            ApiError::InvalidAppId => String::from_str("Invalid app ID"),
            ApiError::InvalidAppSecret => String::from_str("Invalid app secret"),
            ApiError::ApiResponse(m) => {
                String::from_str("API response error: ").concat(m.as_str())
            },
            ApiError::NoQualityAvailable => String::from_str("No audio quality available"),
            ApiError::Transport(m) => String::from_str("Transport error: ").concat(m.as_str()),
        }
    }
}

} // verus!
