//! The error kinds of the proxy and the client-facing status each one maps to.

use vstd::prelude::*;
use vstd::std_specs::convert::FromSpecImpl;

verus! {

/// `url::ParseError`, carried through as an opaque value.
#[verifier::external_type_specification]
#[verifier::external_body]
pub struct ExUrlParseError(url::ParseError);

/// `serde_json::Error`, carried through as an opaque value.
#[verifier::external_type_specification]
#[verifier::external_body]
pub struct ExJsonError(serde_json::Error);

/// The text that `url::ParseError` displays as.
pub uninterp spec fn url_error_text(error: url::ParseError) -> Seq<char>;

/// The text that `serde_json::Error` displays as.
pub uninterp spec fn json_error_text(error: serde_json::Error) -> Seq<char>;

/// Calls `ToString::to_string` on a `url::ParseError`, which goes through its
/// `Display` impl: one fixed description per variant. The contract only names
/// that text.
#[verifier::external_body]
fn url_error_to_string(error: &url::ParseError) -> (text: String)
    ensures
        text@ == url_error_text(*error),
{
    error.to_string()
}

/// Calls `ToString::to_string` on a `serde_json::Error`, which goes through its
/// `Display` impl: the error code, followed by line and column where it has
/// them. The contract only names that text.
#[verifier::external_body]
fn json_error_to_string(error: &serde_json::Error) -> (text: String)
    ensures
        text@ == json_error_text(*error),
{
    error.to_string()
}

/// What is known of a failed upstream exchange: the HTTP status that the
/// failure carries, if any, and its description.
#[derive(Debug, Clone)]
pub struct RequestFailure {
    pub status: Option<u16>,
    pub message: String,
}

#[derive(Debug)]
pub enum AppError {
    /// No provider of this name is in the table.
    ProviderNotFound(String),
    /// The base URL did not parse, or joining the remainder to it failed.
    UrlParseError(url::ParseError),
    /// The client could not be built or the upstream exchange failed.
    RequestError(RequestFailure),
    /// The override configuration is not JSON.
    SerdeJsonError(serde_json::Error),
    /// Anything else, with its message.
    Other(String),
}

/// Status sent to the client when the request cannot be resolved.
pub const STATUS_BAD_REQUEST: u16 = 400;

/// Status sent to the client for an internal failure.
pub const STATUS_INTERNAL_ERROR: u16 = 500;

/// Status sent to the client when the upstream exchange failed without a
/// status of its own.
pub const STATUS_BAD_GATEWAY: u16 = 502;

impl AppError {
    /// The human-readable message of the error.
    pub open spec fn message_text(self) -> Seq<char> {
        match self {
            AppError::ProviderNotFound(name) => "Other error: Provider not found: "@ + name@,
            AppError::UrlParseError(e) => "URL parse error: "@ + url_error_text(e),
            AppError::RequestError(f) => "Request error: "@ + f.message@,
            AppError::SerdeJsonError(e) => "JSON serialization/deserialization error: "@
                + json_error_text(e),
            AppError::Other(msg) => "Other error: "@ + msg@,
        }
    }

    /// The status of the response that reports this error to the client.
    pub open spec fn status_code(self) -> u16 {
        match self {
            AppError::ProviderNotFound(_) => STATUS_BAD_REQUEST,
            AppError::UrlParseError(_) => STATUS_BAD_REQUEST,
            AppError::RequestError(f) => match f.status {
                Some(code) => code,
                None => STATUS_BAD_GATEWAY,
            },
            AppError::SerdeJsonError(_) => STATUS_INTERNAL_ERROR,
            AppError::Other(_) => STATUS_INTERNAL_ERROR,
        }
    }

    /// Renders the error as text: a prefix that tells the kind, then the
    /// detail.
    pub fn message(&self) -> (text: String)
        ensures
            text@ == self.message_text(),
    {
        match self {
            AppError::ProviderNotFound(name) => {
                String::from_str("Other error: Provider not found: ").concat(name.as_str())
            },
            AppError::UrlParseError(e) => {
                let detail = url_error_to_string(e);
                String::from_str("URL parse error: ").concat(detail.as_str())
            },
            AppError::RequestError(f) => {
                String::from_str("Request error: ").concat(f.message.as_str())
            },
            AppError::SerdeJsonError(e) => {
                let detail = json_error_to_string(e);
                String::from_str("JSON serialization/deserialization error: ").concat(
                    detail.as_str(),
                )
            },
            AppError::Other(msg) => String::from_str("Other error: ").concat(msg.as_str()),
        }
    }

    /// The status and body of the response that reports this error: a
    /// client error where the request could not be resolved, the status of
    /// the failed exchange (or bad gateway) where the upstream call failed,
    /// and an internal error otherwise.
    pub fn error_response(&self) -> (response: (u16, String))
        ensures
            response.0 == self.status_code(),
            response.1@ == self.message_text(),
    {
        let status: u16 = match self {
            AppError::ProviderNotFound(_) => STATUS_BAD_REQUEST,
            AppError::UrlParseError(_) => STATUS_BAD_REQUEST,
            AppError::RequestError(f) => match f.status {
                Some(code) => code,
                None => STATUS_BAD_GATEWAY,
            },
            AppError::SerdeJsonError(_) => STATUS_INTERNAL_ERROR,
            AppError::Other(_) => STATUS_INTERNAL_ERROR,
        };
        (status, self.message())
    }
}

impl From<url::ParseError> for AppError {
    fn from(e: url::ParseError) -> (r: AppError) {
        AppError::UrlParseError(e)
    }
}

impl FromSpecImpl<url::ParseError> for AppError {
    open spec fn obeys_from_spec() -> bool {
        true
    }

    open spec fn from_spec(e: url::ParseError) -> AppError {
        AppError::UrlParseError(e)
    }
}

impl From<serde_json::Error> for AppError {
    fn from(e: serde_json::Error) -> (r: AppError) {
        AppError::SerdeJsonError(e)
    }
}

impl FromSpecImpl<serde_json::Error> for AppError {
    open spec fn obeys_from_spec() -> bool {
        true
    }

    open spec fn from_spec(e: serde_json::Error) -> AppError {
        AppError::SerdeJsonError(e)
    }
}

impl From<RequestFailure> for AppError {
    fn from(e: RequestFailure) -> (r: AppError) {
        AppError::RequestError(e)
    }
}

impl FromSpecImpl<RequestFailure> for AppError {
    open spec fn obeys_from_spec() -> bool {
        true
    }

    open spec fn from_spec(e: RequestFailure) -> AppError {
        AppError::RequestError(e)
    }
}

impl From<String> for AppError {
    fn from(msg: String) -> (r: AppError) {
        AppError::Other(msg)
    }
}

impl FromSpecImpl<String> for AppError {
    open spec fn obeys_from_spec() -> bool {
        true
    }

    open spec fn from_spec(msg: String) -> AppError {
        AppError::Other(msg)
    }
}

} // verus!
