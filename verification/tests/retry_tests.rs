use payrex::Error;
use payrex::ErrorKind;
use payrex::http::classify_status;
use payrex::retry::RetryDecision;
use payrex::retry::retry_delay_ms;
use payrex::retry::retry_step;
use payrex::retry::run_retry;

fn server_error(message: &str) -> Error {
    classify_status(500, None, None, message.to_string()).unwrap()
}

#[test]
fn test_calculate_retry_delay() {
    assert_eq!(retry_delay_ms(100, 1), 100);
    assert_eq!(retry_delay_ms(100, 2), 200);
    assert_eq!(retry_delay_ms(100, 3), 400);
}

#[test]
fn test_retry_delay_sequence() {
    // For a base delay of 100 ms the delays before attempts 1..4 are exactly
    // 100, 200, 400, 800 ms.
    assert_eq!(retry_delay_ms(100, 1), 100);
    assert_eq!(retry_delay_ms(100, 2), 200);
    assert_eq!(retry_delay_ms(100, 3), 400);
    assert_eq!(retry_delay_ms(100, 4), 800);
    assert_eq!(retry_delay_ms(500, 1), 500);
    assert_eq!(retry_delay_ms(500, 4), 4_000);
}

#[test]
fn test_retry_delay_saturates() {
    assert_eq!(retry_delay_ms(u64::MAX, 2), u64::MAX);
    assert_eq!(retry_delay_ms(1, 64), 1u64 << 63);
    assert_eq!(retry_delay_ms(1, 65), u64::MAX);
}

#[test]
fn test_retry_step_decisions() {
    let retryable = server_error("boom");
    assert_eq!(retry_step(3, 100, 0, &retryable), RetryDecision::RetryAfter(100));
    assert_eq!(retry_step(3, 100, 1, &retryable), RetryDecision::RetryAfter(200));
    assert_eq!(retry_step(3, 100, 3, &retryable), RetryDecision::Stop);

    let terminal = Error::api(ErrorKind::InvalidRequest, "bad".to_string());
    assert_eq!(retry_step(3, 100, 0, &terminal), RetryDecision::Stop);
}

#[test]
fn test_success_on_third_attempt() {
    // Two server errors, then a success: three attempts, and the success is
    // surfaced.
    let outcomes: Vec<Result<u32, Error>> = vec![
        Err(server_error("first")),
        Err(server_error("second")),
        Ok(7),
        Err(server_error("never reached")),
    ];
    let run = run_retry(3, 100, outcomes);
    assert_eq!(run.attempts, 3);
    assert_eq!(run.result, Ok(7));
    assert_eq!(run.delays, vec![100, 200]);
}

#[test]
fn test_first_attempt_success_makes_one_attempt() {
    let outcomes: Vec<Result<u32, Error>> = vec![Ok(1), Ok(2)];
    let run = run_retry(1, 100, outcomes);
    assert_eq!(run.attempts, 1);
    assert_eq!(run.result, Ok(1));
    assert!(run.delays.is_empty());
}

#[test]
fn test_authentication_error_not_retried() {
    // A 401 is terminal: exactly one attempt, and the surfaced error is the
    // authentication-kind API error with status 401.
    let auth = classify_status(401, None, None, "denied".to_string()).unwrap();
    let outcomes: Vec<Result<u32, Error>> = vec![Err(auth.clone()), Ok(1), Ok(2), Ok(3)];
    let run = run_retry(3, 100, outcomes);
    assert_eq!(run.attempts, 1);
    assert_eq!(run.result, Err(auth));
    assert!(run.delays.is_empty());
}

#[test]
fn test_rate_limit_retried_while_attempts_remain() {
    // A rate-limit failure is retried; the next attempt's success is
    // surfaced.
    let limited = classify_status(429, None, Some("5"), String::new()).unwrap();
    assert_eq!(limited, Error::RateLimit { retry_after: Some(5) });
    let outcomes: Vec<Result<u32, Error>> = vec![Err(limited), Ok(9)];
    let run = run_retry(1, 100, outcomes);
    assert_eq!(run.attempts, 2);
    assert_eq!(run.result, Ok(9));
}

#[test]
fn test_timeout_retried_like_server_error() {
    let outcomes: Vec<Result<u32, Error>> = vec![Err(Error::Timeout(30_000)), Ok(4)];
    let run = run_retry(3, 100, outcomes);
    assert_eq!(run.attempts, 2);
    assert_eq!(run.result, Ok(4));
}

#[test]
fn test_exhaustion_surfaces_final_server_error() {
    // Persistent 500s exhaust the budget; the surfaced error is the final
    // attempt's own API error, not an invented one.
    let outcomes: Vec<Result<u32, Error>> = vec![
        Err(server_error("boom0")),
        Err(server_error("boom1")),
        Err(server_error("boom2")),
        Err(server_error("boom3")),
    ];
    let run = run_retry(3, 100, outcomes);
    assert_eq!(run.attempts, 4);
    assert_eq!(
        run.result,
        Err(Error::Api {
            kind: ErrorKind::ServerError,
            message: "boom3".to_string(),
            status_code: Some(500),
            request_id: None,
        })
    );
    assert_eq!(run.delays, vec![100, 200, 400]);
}
