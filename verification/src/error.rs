//! The error taxonomy returned to callers.
//!
//! Every failed call produces exactly one `Error` value: a transport failure,
//! an API rejection classified by [`ErrorKind`], a decode failure, a
//! configuration problem, a rate limit with its optional retry hint, or a
//! client-side timeout carrying the configured timeout. The retry policy is
//! driven entirely by [`Error::is_retryable`].

use vstd::prelude::*;

use crate::strutil::str_eq;

verus! {

/// The classification of an API rejection, derived from the response status
/// or from the server's own error code string.
#[derive(Debug, Clone, Copy, PartialEq, Eq, Structural)]
pub enum ErrorKind {
    InvalidRequest,
    Authentication,
    RateLimit,
    NotFound,
    PermissionDenied,
    Idempotency,
    ServerError,
    Unknown,
}

impl ErrorKind {
    /// The wire name of this kind.
    pub open spec fn spec_code(self) -> Seq<char> {
        match self {
            ErrorKind::InvalidRequest => "invalid_request"@,
            ErrorKind::Authentication => "authentication_error"@,
            ErrorKind::RateLimit => "rate_limit"@,
            ErrorKind::NotFound => "not_found"@,
            ErrorKind::PermissionDenied => "permission_denied"@,
            ErrorKind::Idempotency => "idempotency_error"@,
            ErrorKind::ServerError => "server_error"@,
            ErrorKind::Unknown => "unknown_error"@,
        }
    }

    /// The wire name of this kind, as shown to users.
    pub fn as_str(self) -> (r: &'static str)
        ensures
            r@ == self.spec_code(),
    {
        match self {
            ErrorKind::InvalidRequest => "invalid_request",
            ErrorKind::Authentication => "authentication_error",
            ErrorKind::RateLimit => "rate_limit",
            ErrorKind::NotFound => "not_found",
            ErrorKind::PermissionDenied => "permission_denied",
            ErrorKind::Idempotency => "idempotency_error",
            ErrorKind::ServerError => "server_error",
            ErrorKind::Unknown => "unknown_error",
        }
    }

    /// The kind named by a server-supplied code string; codes come in a short
    /// and a long form, and anything else is `Unknown`.
    pub open spec fn spec_from_code(s: Seq<char>) -> ErrorKind {
        if s == "invalid_request"@ || s == "invalid_request_error"@ {
            ErrorKind::InvalidRequest
        } else if s == "authentication"@ || s == "authentication_error"@ {
            ErrorKind::Authentication
        } else if s == "rate_limit"@ || s == "rate_limit_error"@ {
            ErrorKind::RateLimit
        } else if s == "not_found"@ || s == "resource_not_found"@ {
            ErrorKind::NotFound
        } else if s == "permission_denied"@ || s == "forbidden"@ {
            ErrorKind::PermissionDenied
        } else if s == "idempotency"@ || s == "idempotency_error"@ {
            ErrorKind::Idempotency
        } else if s == "server_error"@ || s == "internal_server_error"@ {
            ErrorKind::ServerError
        } else {
            ErrorKind::Unknown
        }
    }

    /// Parses a server-supplied error code string.
    pub fn from_str(s: &str) -> (r: Self)
        ensures
            r == Self::spec_from_code(s@),
    {
        if str_eq(s, "invalid_request") || str_eq(s, "invalid_request_error") {
            ErrorKind::InvalidRequest
        } else if str_eq(s, "authentication") || str_eq(s, "authentication_error") {
            ErrorKind::Authentication
        } else if str_eq(s, "rate_limit") || str_eq(s, "rate_limit_error") {
            ErrorKind::RateLimit
        } else if str_eq(s, "not_found") || str_eq(s, "resource_not_found") {
            ErrorKind::NotFound
        } else if str_eq(s, "permission_denied") || str_eq(s, "forbidden") {
            ErrorKind::PermissionDenied
        } else if str_eq(s, "idempotency") || str_eq(s, "idempotency_error") {
            ErrorKind::Idempotency
        } else if str_eq(s, "server_error") || str_eq(s, "internal_server_error") {
            ErrorKind::ServerError
        } else {
            ErrorKind::Unknown
        }
    }

    /// Whether a failed attempt with this kind may be attempted again: only
    /// rate limits and server errors are transient.
    pub fn is_retryable(self) -> (r: bool)
        ensures
            r == (self is RateLimit || self is ServerError),
    {
        match self {
            ErrorKind::RateLimit => true,
            ErrorKind::ServerError => true,
            _ => false,
        }
    }
}

/// The one error type that crosses the library boundary. Durations are plain
/// integers: retry-after hints in seconds, timeouts in milliseconds.
#[derive(Debug, Clone, PartialEq, Eq)]
pub enum Error {
    /// The network exchange itself failed to complete. The flags record
    /// whether the transport reported a timeout or a connection failure.
    Http { message: String, is_timeout: bool, is_connect: bool },
    /// The server rejected the request.
    Api { kind: ErrorKind, message: String, status_code: Option<u16>, request_id: Option<String> },
    /// A response body could not be decoded as the expected type.
    Json(String),
    /// The client was configured incorrectly.
    Config(String),
    /// The credential supplied at construction is unusable.
    InvalidApiKey(String),
    /// The server imposed throttling; the hint is in seconds.
    RateLimit { retry_after: Option<u64> },
    /// The client-side deadline elapsed; carries that deadline in
    /// milliseconds.
    Timeout(u64),
    InvalidRequest(String),
    NotFound(String),
    Authentication(String),
    PermissionDenied(String),
    Idempotency(String),
    Internal(String),
}

impl Error {
    /// Whether the retry controller may attempt the call again: rate limits,
    /// server-error-class API rejections, timeouts and connection failures.
    pub open spec fn spec_retryable(self) -> bool {
        match self {
            Error::Api { kind, .. } => kind is RateLimit || kind is ServerError,
            Error::RateLimit { .. } => true,
            Error::Timeout(_) => true,
            Error::Http { is_timeout, is_connect, .. } => is_timeout || is_connect,
            _ => false,
        }
    }

    /// An API error with neither status code nor trace id.
    pub fn api(kind: ErrorKind, message: String) -> (r: Self)
        ensures
            r == (Error::Api {
                kind,
                message,
                status_code: None::<u16>,
                request_id: None::<String>,
            }),
    {
        Error::Api { kind, message, status_code: None, request_id: None }
    }

    /// An API error carrying the numeric status it was derived from.
    pub fn api_with_status(kind: ErrorKind, message: String, status_code: u16) -> (r: Self)
        ensures
            r == (Error::Api {
                kind,
                message,
                status_code: Some(status_code),
                request_id: None::<String>,
            }),
    {
        Error::Api { kind, message, status_code: Some(status_code), request_id: None }
    }

    /// Whether the retry controller may attempt the call again.
    pub fn is_retryable(&self) -> (r: bool)
        ensures
            r == self.spec_retryable(),
    {
        match self {
            Error::Api { kind, .. } => kind.is_retryable(),
            Error::RateLimit { .. } => true,
            Error::Timeout(_) => true,
            Error::Http { is_timeout, is_connect, .. } => *is_timeout || *is_connect,
            _ => false,
        }
    }

    /// The numeric status an API error carries.
    pub fn status_code(&self) -> (r: Option<u16>)
        ensures
            r == (match *self {
                Error::Api { status_code, .. } => status_code,
                _ => None::<u16>,
            }),
    {
        match self {
            Error::Api { status_code, .. } => *status_code,
            _ => None,
        }
    }

    /// The request-trace id an API error carries.
    pub fn request_id(&self) -> (r: Option<&str>)
        ensures
            (match *self {
                Error::Api { request_id: Some(ref id), .. } => {
                    r is Some && r->0@ == id@
                },
                _ => r is None,
            }),
    {
        match self {
            Error::Api { request_id: Some(id), .. } => Some(id.as_str()),
            _ => None,
        }
    }
}

} // verus!
