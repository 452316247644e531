use tide::metrics::RequestMetrics;
use tide::report::{create_separator, summarize};

#[test]
fn test_create_separator() {
    let separator = create_separator(10, 20);
    assert_eq!(separator, "+------------+----------------------+");
}

#[test]
fn median_of_even_length_list_is_the_upper_median() {
    // 10ms, 20ms, 30ms, 40ms in nanoseconds: the median is the element at
    // index 2 of the ascending order, 30ms, never an interpolated 25ms.
    let mut metrics = RequestMetrics::new();
    metrics.record_success(10_000_000);
    metrics.record_success(20_000_000);
    metrics.record_success(30_000_000);
    metrics.record_success(40_000_000);

    let stats = summarize(&metrics).expect("four durations were recorded");
    assert_eq!(stats.median_nanos, 30_000_000);
    assert_eq!(stats.min_nanos, 10_000_000);
    assert_eq!(stats.max_nanos, 40_000_000);
    assert_eq!(stats.avg_nanos, 25_000_000);
}

#[test]
fn summary_sorts_before_reading_the_statistics() {
    let mut metrics = RequestMetrics::new();
    metrics.record_success(30);
    metrics.record_failure(10);
    metrics.record_success(20);

    let stats = summarize(&metrics).expect("three durations were recorded");
    assert_eq!(stats.min_nanos, 10);
    assert_eq!(stats.median_nanos, 20);
    assert_eq!(stats.max_nanos, 30);
    assert_eq!(stats.avg_nanos, 20);
}

#[test]
fn summarizing_twice_yields_identical_statistics() {
    let mut metrics = RequestMetrics::new();
    metrics.record_success(7);
    metrics.record_success(3);
    metrics.record_failure(11);

    let first = summarize(&metrics);
    let second = summarize(&metrics);
    assert_eq!(first, second);
}

#[test]
fn no_completed_request_yields_no_statistics() {
    let metrics = RequestMetrics::new();
    assert!(summarize(&metrics).is_none());
}

#[test]
fn single_duration_is_every_statistic() {
    let mut metrics = RequestMetrics::new();
    metrics.record_failure(42);

    let stats = summarize(&metrics).expect("one duration was recorded");
    assert_eq!(stats.min_nanos, 42);
    assert_eq!(stats.median_nanos, 42);
    assert_eq!(stats.max_nanos, 42);
    assert_eq!(stats.avg_nanos, 42);
}

#[test]
fn average_is_the_integer_mean() {
    let mut metrics = RequestMetrics::new();
    metrics.record_success(1);
    metrics.record_success(2);
    metrics.record_success(2);

    let stats = summarize(&metrics).expect("three durations were recorded");
    // (1 + 2 + 2) / 3 rounds down
    assert_eq!(stats.avg_nanos, 1);
}

#[test]
fn separator_matches_tiny_widths() {
    assert_eq!(create_separator(0, 0), "+--+--+");
}
