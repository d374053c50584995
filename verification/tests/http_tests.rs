use payrex::Error;
use payrex::ErrorKind;
use payrex::http::basic_auth_header;
use payrex::http::build_url;
use payrex::http::classify_status;
use payrex::http::status_to_error_kind;
use payrex::http::transport_failure;

#[test]
fn test_build_url() {
    let url = build_url("https://api.payrexhq.com", "/payment_intents");
    assert!(url.contains("payment_intents"));
    assert!(url.starts_with("https://"));
}

#[test]
fn test_build_url_normalizes_slashes() {
    assert_eq!(build_url("https://x.test", "/a"), "https://x.test/a");
    assert_eq!(build_url("https://x.test/", "a"), "https://x.test/a");
    assert_eq!(build_url("https://x.test//", "//a/b"), "https://x.test/a/b");
    assert_eq!(build_url("https://x.test", "a"), "https://x.test/a");
}

#[test]
fn test_status_to_error_kind() {
    assert_eq!(status_to_error_kind(400), ErrorKind::InvalidRequest);
    assert_eq!(status_to_error_kind(401), ErrorKind::Authentication);
    assert_eq!(status_to_error_kind(404), ErrorKind::NotFound);
}

#[test]
fn test_status_to_error_kind_ranges() {
    assert_eq!(status_to_error_kind(403), ErrorKind::PermissionDenied);
    assert_eq!(status_to_error_kind(429), ErrorKind::RateLimit);
    assert_eq!(status_to_error_kind(500), ErrorKind::ServerError);
    assert_eq!(status_to_error_kind(503), ErrorKind::ServerError);
    assert_eq!(status_to_error_kind(599), ErrorKind::ServerError);
    assert_eq!(status_to_error_kind(600), ErrorKind::Unknown);
    assert_eq!(status_to_error_kind(302), ErrorKind::Unknown);
}

#[test]
fn test_basic_auth_header() {
    let header = basic_auth_header("sk_test").unwrap();
    assert_eq!(header, "Basic c2tfdGVzdDo=");

    let header = basic_auth_header("test_key").unwrap();
    assert_eq!(header, "Basic dGVzdF9rZXk6");
}

#[test]
fn test_classify_success_statuses() {
    assert_eq!(classify_status(200, None, None, String::new()), None);
    assert_eq!(classify_status(201, None, None, String::new()), None);
    assert_eq!(classify_status(299, None, None, String::new()), None);
}

#[test]
fn test_classify_rate_limit_with_retry_after() {
    // A too-many-requests response with a parsable retry-after header yields
    // a rate-limit error carrying that many seconds.
    let error = classify_status(429, None, Some("5"), String::new()).unwrap();
    assert_eq!(error, Error::RateLimit { retry_after: Some(5) });
    assert!(error.is_retryable());
}

#[test]
fn test_classify_rate_limit_without_hint() {
    let error = classify_status(429, None, None, String::new()).unwrap();
    assert_eq!(error, Error::RateLimit { retry_after: None });

    let error = classify_status(429, None, Some("soon"), String::new()).unwrap();
    assert_eq!(error, Error::RateLimit { retry_after: None });
}

#[test]
fn test_classify_authentication_error() {
    let error =
        classify_status(401, Some("req_1".to_string()), None, "denied".to_string()).unwrap();
    assert_eq!(
        error,
        Error::Api {
            kind: ErrorKind::Authentication,
            message: "denied".to_string(),
            status_code: Some(401),
            request_id: Some("req_1".to_string()),
        }
    );
    assert!(!error.is_retryable());
}

#[test]
fn test_classify_server_error_carries_body() {
    let error = classify_status(500, None, None, "boom".to_string()).unwrap();
    assert_eq!(
        error,
        Error::Api {
            kind: ErrorKind::ServerError,
            message: "boom".to_string(),
            status_code: Some(500),
            request_id: None,
        }
    );
    assert!(error.is_retryable());
}

#[test]
fn test_transport_failure_timeout() {
    // A client-side timeout is reported as a timeout carrying the configured
    // deadline, and is retryable like a server error.
    let error = transport_failure("deadline elapsed".to_string(), true, false, 30_000);
    assert_eq!(error, Error::Timeout(30_000));
    assert!(error.is_retryable());
}

#[test]
fn test_transport_failure_connect() {
    let error = transport_failure("connection refused".to_string(), false, true, 30_000);
    assert_eq!(
        error,
        Error::Http {
            message: "connection refused".to_string(),
            is_timeout: false,
            is_connect: true,
        }
    );
    assert!(error.is_retryable());
}
