use diy_typeless_core::retry::{is_retryable_status, HttpResult, RetryPolicy, RetryStep};

/// Drive the retry policy with an operation, recording the backoffs the
/// caller would sleep, as the application shell's retry loop does.
fn run_with_retry<T>(
    max_attempts: u32,
    mut operation: impl FnMut() -> HttpResult<T>,
    error_message: &str,
) -> (Result<T, String>, Vec<u64>) {
    let mut policy = RetryPolicy::new(max_attempts);
    let mut backoffs: Vec<u64> = Vec::new();
    loop {
        assert!(policy.can_attempt());
        match policy.observe(operation(), error_message) {
            RetryStep::Done(result) => return (result, backoffs),
            RetryStep::Backoff(seconds) => backoffs.push(seconds),
        }
    }
}

#[test]
fn test_success_on_first_attempt() {
    let (result, backoffs) = run_with_retry(3, || HttpResult::Success::<i32>(42), "test");
    assert_eq!(result, Ok(42));
    assert!(backoffs.is_empty());
}

#[test]
fn test_success_after_retries() {
    let mut attempts: u32 = 0;
    let (result, backoffs) = run_with_retry(
        3,
        || {
            let current = attempts;
            attempts += 1;
            if current < 2 {
                HttpResult::Retryable::<u32>
            } else {
                HttpResult::Success(current)
            }
        },
        "test",
    );
    assert_eq!(result, Ok(2));
    assert_eq!(attempts, 3);
    assert_eq!(backoffs, vec![1, 2]);
}

#[test]
fn test_non_retryable_fails_immediately() {
    let mut attempts: u32 = 0;
    let (result, _) = run_with_retry(
        3,
        || {
            attempts += 1;
            HttpResult::NonRetryable::<u32>("bad request".to_string())
        },
        "test",
    );
    assert!(result.is_err());
    assert_eq!(result.unwrap_err(), "bad request");
    assert_eq!(attempts, 1);
}

#[test]
fn test_all_retries_exhausted() {
    let mut attempts: u32 = 0;
    let (result, backoffs) = run_with_retry(
        3,
        || {
            attempts += 1;
            HttpResult::Retryable::<u32>
        },
        "API call",
    );
    assert!(result.is_err());
    assert!(result.unwrap_err().contains("API call: retries exceeded"));
    assert_eq!(attempts, 3);
    // no backoff after the final attempt
    assert_eq!(backoffs, vec![1, 2]);
}

#[test]
fn test_is_retryable_status() {
    assert!(is_retryable_status(429));
    assert!(is_retryable_status(500));
    assert!(is_retryable_status(502));
    assert!(is_retryable_status(503));
    assert!(is_retryable_status(504));

    assert!(!is_retryable_status(200));
    assert!(!is_retryable_status(400));
    assert!(!is_retryable_status(401));
    assert!(!is_retryable_status(404));
}

#[test]
fn test_exponential_backoff_timing() {
    // Verify the backoff calculation is correct
    assert_eq!(2u64.pow(0), 1);
    assert_eq!(2u64.pow(1), 2);
    assert_eq!(2u64.pow(2), 4);
}

#[test]
fn llm_processor_test_exponential_backoff_calculation() {
    // Test that backoff increases exponentially
    assert_eq!(2u64.pow(0), 1);
    assert_eq!(2u64.pow(1), 2);
    assert_eq!(2u64.pow(2), 4);
}

#[test]
fn backoff_steps_grow_exponentially_with_the_attempt() {
    let (result, backoffs) = run_with_retry(6, || HttpResult::Retryable::<u32>, "op");
    assert!(result.is_err());
    assert_eq!(backoffs, vec![1, 2, 4, 8, 16]);
}
