use tushare_api::RateLimiter;
use tushare_api::RetryConfig;
use tushare_api::TushareError;
use tushare_api::retry::RetryStep;
use tushare_api::retry::compute_backoff_delay;
use tushare_api::retry::is_retryable_error;
use tushare_api::retry::retry_step;

#[test]
fn always_failing_call_is_attempted_exactly_four_times() {
    let cfg = Some(RetryConfig { max_retries: 3, base_delay: 200, max_delay: 5000 });
    let mut attempt = 0usize;
    let mut attempts_made = 1usize;
    loop {
        match retry_step(&cfg, attempt, Err(TushareError::TimeoutError)) {
            RetryStep::Retry { delay_ms } => {
                let cap = std::cmp::min(5000u64, 200u64 << attempt);
                assert!(cap / 2 <= delay_ms && delay_ms <= cap, "attempt {}", attempt);
                attempt += 1;
                attempts_made += 1;
            }
            RetryStep::Done(r) => {
                assert!(matches!(r, Err(TushareError::TimeoutError)));
                break;
            }
        }
        assert!(attempts_made <= 10, "retry loop did not terminate");
    }
    assert_eq!(attempts_made, 4);
}

#[test]
fn business_errors_are_never_retried() {
    let cfg = Some(RetryConfig { max_retries: 3, base_delay: 200, max_delay: 5000 });
    let business = TushareError::ApiError { code: 40001, message: "no credit".to_string() };
    assert!(!is_retryable_error(&business));
    match retry_step(&cfg, 0, Err(business)) {
        RetryStep::Done(Err(TushareError::ApiError { code, message })) => {
            assert_eq!(code, 40001);
            assert_eq!(message, "no credit");
        }
        other => panic!("expected the business error back, got {:?}", other),
    }
}

#[test]
fn only_transport_failures_are_retryable() {
    assert!(is_retryable_error(&TushareError::HttpError("reset".to_string())));
    assert!(is_retryable_error(&TushareError::TimeoutError));
    assert!(!is_retryable_error(&TushareError::SerializationError("bad".to_string())));
    assert!(!is_retryable_error(&TushareError::ParseError("bad".to_string())));
    assert!(!is_retryable_error(&TushareError::InvalidToken));
    assert!(!is_retryable_error(&TushareError::Other("bad".to_string())));
}

#[test]
fn retry_disabled_returns_the_first_failure() {
    match retry_step(&None, 0, Err(TushareError::TimeoutError)) {
        RetryStep::Done(Err(TushareError::TimeoutError)) => {}
        other => panic!("expected the failure back, got {:?}", other),
    }
}

#[test]
fn backoff_delay_lies_within_the_equal_jitter_window() {
    let cfg = RetryConfig { max_retries: 3, base_delay: 200, max_delay: 5000 };
    for _ in 0..20 {
        let d0 = compute_backoff_delay(&cfg, 0);
        assert!(100 <= d0 && d0 <= 200, "{}", d0);
        let d1 = compute_backoff_delay(&cfg, 1);
        assert!(200 <= d1 && d1 <= 400, "{}", d1);
        // The cap takes over once doubling passes it.
        let d10 = compute_backoff_delay(&cfg, 10);
        assert!(2500 <= d10 && d10 <= 5000, "{}", d10);
    }
    let zero = RetryConfig { max_retries: 1, base_delay: 0, max_delay: 5000 };
    assert_eq!(compute_backoff_delay(&zero, 0), 0);
}

#[test]
fn rate_limiter_spaces_same_endpoint_calls_by_the_interval() {
    let mut limiter = RateLimiter::new().with_min_interval("daily", 100);
    // Two back-to-back gates at one instant: the second waits the interval.
    let w1 = limiter.plan("daily", 1000);
    assert_eq!(w1, 0);
    let w2 = limiter.plan("daily", 1000);
    assert_eq!(w2, 100);
    // A third call after the window has passed waits nothing extra.
    let w3 = limiter.plan("daily", 1300);
    assert_eq!(w3, 0);
    // ... and the next one is again held to the interval.
    let w4 = limiter.plan("daily", 1300);
    assert_eq!(w4, 100);
}

#[test]
fn rate_limiter_leaves_other_endpoints_alone() {
    let mut limiter = RateLimiter::new()
        .with_min_interval("daily", 100)
        .with_min_interval("weekly", 250);
    let _ = limiter.plan("daily", 1000);
    let _ = limiter.plan("daily", 1000);
    // The first gate of a different endpoint is not delayed by them.
    assert_eq!(limiter.plan("weekly", 1000), 0);
    assert_eq!(limiter.plan("weekly", 1000), 250);
    // An endpoint with no configured interval is never throttled.
    assert_eq!(limiter.plan("monthly", 1000), 0);
    assert_eq!(limiter.plan("monthly", 1000), 0);
}

#[test]
fn gate_follows_the_wall_clock() {
    let mut limiter = RateLimiter::new().with_min_interval("daily", 200);
    let w1 = limiter.gate("daily");
    assert_eq!(w1, 0);
    let w2 = limiter.gate("daily");
    // Back-to-back, so nearly the whole interval remains.
    assert!(w2 <= 200, "{}", w2);
    assert_eq!(limiter.gate("weekly"), 0);
}
