//! Counters, gauges and histograms of the service.

use std::time::Duration;

use grpc_alarms::metrics::{Histogram, Metrics, PublishOutcomeKind, QueueCapacityConfig};

fn test_queue_config() -> QueueCapacityConfig {
    QueueCapacityConfig { automated: 10, user: 10, job: 10, publish: 10, snooze: 10 }
}

#[test]
fn snapshot_reflects_counter_gauge_and_histogram_updates() {
    let mut metrics = Metrics::new(&test_queue_config());

    metrics.record_automated_queue_full();
    metrics.record_user_queue_full_rejection();
    metrics.record_overload_entry(7);
    metrics.record_retained_automated_keys(3);
    metrics.record_overload_exit(Duration::from_millis(120));

    metrics.record_publish_attempt_started();
    metrics.record_publish_retry();
    metrics.record_publish_completion(PublishOutcomeKind::Failure, Duration::from_millis(40));

    metrics.record_publish_attempt_started();
    metrics.record_publish_completion(PublishOutcomeKind::Success, Duration::from_millis(15));

    metrics.record_confirmation_latency(Duration::from_millis(80));

    let snapshot = metrics.snapshot();

    assert_eq!(snapshot.automated_queue_capacity, 10);
    assert_eq!(snapshot.user_queue_capacity, 10);
    assert_eq!(snapshot.job_queue_capacity, 10);
    assert_eq!(snapshot.publish_queue_capacity, 10);
    assert_eq!(snapshot.snooze_queue_capacity, 10);

    assert_eq!(snapshot.automated_queue_full, 1);
    assert_eq!(snapshot.user_queue_full_rejections, 1);
    assert_eq!(snapshot.overload_entries, 1);
    assert_eq!(snapshot.overload_exits, 1);
    assert_eq!(snapshot.retained_automated_keys, 0);

    assert_eq!(snapshot.publish_attempts, 2);
    assert_eq!(snapshot.publish_retries, 1);
    assert_eq!(snapshot.publish_failures, 1);
    assert_eq!(snapshot.in_flight_publish_attempts, 0);

    assert_eq!(snapshot.confirmation_latency_ms.samples, 1);
    assert_eq!(snapshot.confirmation_latency_ms.total_ms, 80);
    assert_eq!(snapshot.publish_latency_ms.samples, 2);
    assert_eq!(snapshot.publish_latency_ms.total_ms, 55);
    assert_eq!(snapshot.overload_duration_ms.samples, 1);
    assert_eq!(snapshot.overload_duration_ms.total_ms, 120);
}

#[test]
fn histogram_overflow_is_tracked() {
    let mut metrics = Metrics::new(&test_queue_config());
    metrics.record_confirmation_latency(Duration::from_secs(5));
    let snapshot = metrics.snapshot();
    assert_eq!(snapshot.confirmation_latency_ms.samples, 1);
    assert_eq!(snapshot.confirmation_latency_ms.overflow, 1);
}

#[test]
fn workflow_counters_are_tracked() {
    let mut metrics = Metrics::new(&test_queue_config());
    metrics.record_job_dispatched();
    metrics.record_job_dispatched();
    metrics.record_job_committed();
    metrics.record_job_failed();
    metrics.record_snooze_wake();
    let snapshot = metrics.snapshot();
    assert_eq!(snapshot.jobs_dispatched, 2);
    assert_eq!(snapshot.jobs_committed, 1);
    assert_eq!(snapshot.jobs_failed, 1);
    assert_eq!(snapshot.snooze_wakes, 1);
}

#[test]
fn snooze_counters_are_tracked() {
    let mut metrics = Metrics::new(&test_queue_config());
    metrics.record_snooze_set();
    metrics.record_snooze_set();
    metrics.record_snooze_cancel();
    metrics.record_snooze_invalid_wake();
    metrics.record_snooze_expiration();
    let snapshot = metrics.snapshot();
    assert_eq!(snapshot.snooze_sets, 2);
    assert_eq!(snapshot.snooze_cancels, 1);
    assert_eq!(snapshot.snooze_invalid_wakes, 1);
    assert_eq!(snapshot.snooze_expirations, 1);
}

#[test]
fn in_flight_snooze_timers_increments_and_decrements() {
    let mut metrics = Metrics::new(&test_queue_config());
    metrics.record_snooze_set();
    metrics.record_snooze_set();
    assert_eq!(metrics.snapshot().in_flight_snooze_timers, 2);
    metrics.record_snooze_cancel();
    assert_eq!(metrics.snapshot().in_flight_snooze_timers, 1);
    metrics.record_snooze_expiration();
    assert_eq!(metrics.snapshot().in_flight_snooze_timers, 0);
}

#[test]
fn histogram_places_samples_in_the_first_bucket_that_holds_them() {
    let mut h = Histogram::new(&[10, 100]);
    h.observe(Duration::from_millis(10));
    h.observe(Duration::from_millis(11));
    h.observe(Duration::from_millis(101));
    let s = h.snapshot();
    assert_eq!(s.buckets_ms, vec![10, 100]);
    assert_eq!(s.counts, vec![1, 1]);
    assert_eq!(s.overflow, 1);
    assert_eq!(s.samples, 3);
    assert_eq!(s.total_ms, 122);
}

#[test]
fn gauge_decrement_from_zero_wraps_around() {
    let mut metrics = Metrics::new(&test_queue_config());
    metrics.record_snooze_cancel();
    let s = metrics.snapshot();
    assert_eq!(s.in_flight_snooze_timers, usize::MAX);
}
