use tide::metrics::RequestMetrics;

#[test]
fn test_request_metrics_new() {
    let metrics = RequestMetrics::new();

    assert!(metrics.successful_requests == 0);
    assert!(metrics.failed_requests == 0);
    assert!(metrics.request_times.is_empty());
}

#[test]
fn counters_account_for_every_recorded_duration() {
    let mut metrics = RequestMetrics::new();
    metrics.record_success(1_000_000);
    metrics.record_failure(2_000_000);
    metrics.record_success(3_000_000);
    metrics.record_success(4_000_000);
    metrics.record_failure(5_000_000);

    assert_eq!(metrics.successful_requests, 3);
    assert_eq!(metrics.failed_requests, 2);
    assert_eq!(
        metrics.successful_requests + metrics.failed_requests,
        metrics.request_times.len() as u32
    );
    assert_eq!(
        metrics.request_times,
        vec![1_000_000, 2_000_000, 3_000_000, 4_000_000, 5_000_000]
    );
}
