use tide::metrics::RequestMetrics;
use tide::retry::{
    execute_attempts, AttemptOutcome, RequestOutcome, RetryAction, RetryExecutor, BACKOFF_MILLIS,
};

#[test]
fn response_on_first_attempt_is_one_success() {
    let mut metrics = RequestMetrics::new();
    let mut exec = RetryExecutor::new(2);

    let action = exec.on_attempt(
        AttemptOutcome::Response { status: 503, nanos: 5_000_000 },
        &mut metrics,
    );

    match action {
        RetryAction::Finished(RequestOutcome::Success { status, nanos }) => {
            assert_eq!(status, 503);
            assert_eq!(nanos, 5_000_000);
        }
        _ => panic!("a response must finish the request at once"),
    }
    assert!(exec.finished);
    assert_eq!(exec.attempts_made, 1);
    assert_eq!(metrics.successful_requests, 1);
    assert_eq!(metrics.failed_requests, 0);
    assert_eq!(metrics.request_times, vec![5_000_000]);
}

#[test]
fn transport_failure_with_retries_left_asks_for_backoff() {
    let mut metrics = RequestMetrics::new();
    let mut exec = RetryExecutor::new(1);

    let action = exec.on_attempt(
        AttemptOutcome::TransportFailure { error: "connection refused".to_string(), nanos: 7 },
        &mut metrics,
    );

    match action {
        RetryAction::Backoff { millis } => assert_eq!(millis, BACKOFF_MILLIS),
        _ => panic!("a failed attempt with retries left must back off"),
    }
    assert!(!exec.finished);
    assert_eq!(exec.attempts_made, 1);
    // nothing is recorded until the logical request finishes
    assert_eq!(metrics.successful_requests, 0);
    assert_eq!(metrics.failed_requests, 0);
    assert!(metrics.request_times.is_empty());
}

#[test]
fn all_attempts_failing_counts_one_failure() {
    let mut metrics = RequestMetrics::new();
    let outcomes = vec![
        AttemptOutcome::TransportFailure { error: "dns error".to_string(), nanos: 10 },
        AttemptOutcome::TransportFailure { error: "timeout".to_string(), nanos: 20 },
        AttemptOutcome::TransportFailure { error: "connection reset".to_string(), nanos: 30 },
    ];

    let (outcome, attempts) = execute_attempts(2, &outcomes, &mut metrics);

    assert_eq!(attempts, 3);
    match outcome {
        RequestOutcome::Failure { error, nanos } => {
            assert_eq!(error, "connection reset");
            assert_eq!(nanos, 30);
        }
        _ => panic!("exhausted retries must end in a failure"),
    }
    assert_eq!(metrics.failed_requests, 1);
    assert_eq!(metrics.successful_requests, 0);
    assert_eq!(metrics.request_times, vec![30]);
}

#[test]
fn first_response_stops_the_retry_sequence() {
    let mut metrics = RequestMetrics::new();
    let outcomes = vec![
        AttemptOutcome::TransportFailure { error: "timeout".to_string(), nanos: 11 },
        AttemptOutcome::Response { status: 200, nanos: 22 },
        AttemptOutcome::Response { status: 404, nanos: 33 },
        AttemptOutcome::Response { status: 500, nanos: 44 },
    ];

    let (outcome, attempts) = execute_attempts(3, &outcomes, &mut metrics);

    // at least one attempt, at most max_retries + 1, and here exactly two
    assert!(attempts >= 1);
    assert!(attempts <= 4);
    assert_eq!(attempts, 2);
    match outcome {
        RequestOutcome::Success { status, nanos } => {
            assert_eq!(status, 200);
            assert_eq!(nanos, 22);
        }
        _ => panic!("a received response is a success"),
    }
    assert_eq!(metrics.successful_requests, 1);
    assert_eq!(metrics.failed_requests, 0);
    assert_eq!(metrics.request_times, vec![22]);
}

#[test]
fn zero_retries_gives_a_single_attempt() {
    let mut metrics = RequestMetrics::new();
    let outcomes =
        vec![AttemptOutcome::TransportFailure { error: "unreachable".to_string(), nanos: 9 }];

    let (outcome, attempts) = execute_attempts(0, &outcomes, &mut metrics);

    assert_eq!(attempts, 1);
    assert!(matches!(outcome, RequestOutcome::Failure { .. }));
    assert_eq!(metrics.failed_requests, 1);
    assert_eq!(metrics.request_times, vec![9]);
}
