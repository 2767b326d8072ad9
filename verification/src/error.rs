//! The errors this library reports.
use vstd::prelude::*;
use crate::util::str_eq;

verus! {

/// Error details returned by the service.
#[derive(Debug)]
pub struct ErrorInfo {
    /// Error name
    pub name: String,
    /// Service-assigned error code
    pub code: String,
    /// HTTP status code
    pub status_code: u16,
    /// Error message
    pub message: String,
    /// Additional description
    pub description: String,
}

/// Error response returned by the service.
#[derive(Debug)]
pub struct ErrorResult {
    /// Error detailed info
    pub error: ErrorInfo,
}

/// Errors returned by this crate
#[derive(Debug)]
pub enum Error {
    /// Error returned by the service: (http status, optional service-defined error info)
    ApiError(u16, Option<ErrorInfo>),
    /// Error serializing or deserializing json data
    JsonError(String),
    /// Invalid utf-8 (converting binary to text)
    Utf8Error(String),
    /// URL parsing error
    ParseError(String),
    /// IO error
    IoError(String),
    /// Network failure, with the http client's report of it
    Reqwest(String),
    /// Assumed single-value category field but multiple values were set.
    /// First param is general message, second is field name
    MultiCategory(String, String),
    /// Api token has not been set
    MissingApiToken(String),
    /// The shared client is already initialized
    AlreadyInitialized,
    /// The shared client was used before it was initialized
    NotInitialized,
    /// An identifier matched no workspace, list, field, user or choice
    NotFound(String),
    /// A value, or its pairing with an action, is not valid for the field
    Validation(String),
    /// A lock on a cache was left poisoned by a thread that died while it
    /// held it: the cache can no longer be trusted
    Concurrency(String),
    /// Error that doesn't fit any of the above
    Other(String),
}

/// The two service error codes that signal rate limiting.
pub open spec fn is_rate_limit_code(code: Seq<char>) -> bool {
    code == "D1"@ || code == "D2"@
}

impl Error {
    /// Whether this error is a rate-limit refusal by the service.
    pub open spec fn rate_limited(&self) -> bool {
        match self {
            Error::ApiError(_, Some(info)) => is_rate_limit_code(info.code@),
            _ => false,
        }
    }

    /// Returns true if the error means a rate limit has been hit
    pub fn is_rate_limit(&self) -> (r: bool)
        ensures
            r == self.rate_limited(),
    {
        if let Error::ApiError(_, Some(info)) = self {
            if str_eq(info.code.as_str(), "D1") || str_eq(info.code.as_str(), "D2") {
                return true;
            }
        }
        false
    }
}

} // verus!
