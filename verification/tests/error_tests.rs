use payrex::Error;
use payrex::ErrorKind;

#[test]
fn test_error_kind_from_str() {
    assert_eq!(ErrorKind::from_str("invalid_request"), ErrorKind::InvalidRequest);
    assert_eq!(ErrorKind::from_str("authentication_error"), ErrorKind::Authentication);
    assert_eq!(ErrorKind::from_str("rate_limit"), ErrorKind::RateLimit);
    assert_eq!(ErrorKind::from_str("unknown"), ErrorKind::Unknown);
}

#[test]
fn test_error_kind_is_retryable() {
    assert!(ErrorKind::RateLimit.is_retryable());
    assert!(ErrorKind::ServerError.is_retryable());
    assert!(!ErrorKind::InvalidRequest.is_retryable());
    assert!(!ErrorKind::Authentication.is_retryable());
}

#[test]
fn test_error_is_retryable() {
    let error = Error::api(ErrorKind::RateLimit, "Too many requests".to_string());
    assert!(error.is_retryable());

    let error = Error::api(ErrorKind::InvalidRequest, "Bad request".to_string());
    assert!(!error.is_retryable());
}

#[test]
fn test_error_status_code() {
    let error = Error::api_with_status(ErrorKind::NotFound, "Not found".to_string(), 404);
    assert_eq!(error.status_code(), Some(404));
}

#[test]
fn test_error_kind_long_codes() {
    assert_eq!(ErrorKind::from_str("invalid_request_error"), ErrorKind::InvalidRequest);
    assert_eq!(ErrorKind::from_str("authentication"), ErrorKind::Authentication);
    assert_eq!(ErrorKind::from_str("rate_limit_error"), ErrorKind::RateLimit);
    assert_eq!(ErrorKind::from_str("not_found"), ErrorKind::NotFound);
    assert_eq!(ErrorKind::from_str("resource_not_found"), ErrorKind::NotFound);
    assert_eq!(ErrorKind::from_str("permission_denied"), ErrorKind::PermissionDenied);
    assert_eq!(ErrorKind::from_str("forbidden"), ErrorKind::PermissionDenied);
    assert_eq!(ErrorKind::from_str("idempotency"), ErrorKind::Idempotency);
    assert_eq!(ErrorKind::from_str("idempotency_error"), ErrorKind::Idempotency);
    assert_eq!(ErrorKind::from_str("server_error"), ErrorKind::ServerError);
    assert_eq!(ErrorKind::from_str("internal_server_error"), ErrorKind::ServerError);
}

#[test]
fn test_error_kind_as_str() {
    assert_eq!(ErrorKind::InvalidRequest.as_str(), "invalid_request");
    assert_eq!(ErrorKind::Authentication.as_str(), "authentication_error");
    assert_eq!(ErrorKind::RateLimit.as_str(), "rate_limit");
    assert_eq!(ErrorKind::NotFound.as_str(), "not_found");
    assert_eq!(ErrorKind::PermissionDenied.as_str(), "permission_denied");
    assert_eq!(ErrorKind::Idempotency.as_str(), "idempotency_error");
    assert_eq!(ErrorKind::ServerError.as_str(), "server_error");
    assert_eq!(ErrorKind::Unknown.as_str(), "unknown_error");
}

#[test]
fn test_error_request_id() {
    let error = Error::Api {
        kind: ErrorKind::NotFound,
        message: "missing".to_string(),
        status_code: Some(404),
        request_id: Some("req_42".to_string()),
    };
    assert_eq!(error.request_id(), Some("req_42"));
    assert_eq!(Error::Timeout(30_000).request_id(), None);
}

#[test]
fn test_error_retryable_variants() {
    assert!(Error::RateLimit { retry_after: None }.is_retryable());
    assert!(Error::Timeout(1_000).is_retryable());
    assert!(Error::Http {
        message: "connection refused".to_string(),
        is_timeout: false,
        is_connect: true,
    }
    .is_retryable());
    assert!(!Error::Http {
        message: "bad response".to_string(),
        is_timeout: false,
        is_connect: false,
    }
    .is_retryable());
    assert!(!Error::Json("decode failure".to_string()).is_retryable());
    assert!(!Error::Config("bad setup".to_string()).is_retryable());
    assert!(!Error::InvalidApiKey("empty".to_string()).is_retryable());
}
