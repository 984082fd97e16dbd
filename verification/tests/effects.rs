//! Publish retries and batching, snooze bookkeeping, and workflow sequencing.

use std::time::Duration;

use grpc_alarms::effects::publish::{AttemptDecision, PublishEngine, BATCH_SIZE};
use grpc_alarms::effects::snooze::{delay_until, SnoozeRegistry, TimerChange, MAX_DELAY_SECS};
use grpc_alarms::engine::workflow::{Job, JobOutcome, WorkflowCommand, WorkflowHandler};
use grpc_alarms::metrics::{Metrics, QueueCapacityConfig};
use grpc_alarms::model::errors::SymmetricalResult;
use grpc_alarms::model::key::Key;
use grpc_alarms::model::publish::{Publish, PublishAttempt, PublishDetails, PublishOutcome};
use grpc_alarms::model::snooze::{Snooze, SnoozeOutcome};
use grpc_alarms::model::status::{Source, State, Status, Timestamp};

fn metrics() -> Metrics {
    Metrics::new(&QueueCapacityConfig { automated: 1, user: 1, job: 1, publish: 1, snooze: 1 })
}

fn key(text: &str) -> Key {
    Key::try_from(text).unwrap()
}

fn status(device: &str, state: State) -> Status {
    Status { device: device.to_string(), state, source: Source::Analog, ..Status::default() }
}

fn details(device: &str) -> PublishDetails {
    PublishDetails {
        key: key(&format!("{device}#Analog")),
        status: status(device, State::Alarmed),
    }
}

fn key_text(r: &SymmetricalResult<Key>) -> String {
    r.inner_ref().to_string()
}

#[test]
fn user_completion_is_reported_alone() {
    let mut engine = PublishEngine::new();
    let attempt = PublishAttempt::new(Publish::User(details("A")));
    match engine.handle_completed_work(SymmetricalResult::Succeeded(attempt)) {
        Some(PublishOutcome::Single(r)) => {
            assert!(r.is_ok());
            assert_eq!(key_text(&r), "A#Analog");
        }
        _ => panic!("a user completion is reported at once"),
    }
    assert!(engine.on_flush_tick().is_none());
}

#[test]
fn automated_completions_wait_for_the_flush_tick() {
    let mut engine = PublishEngine::new();
    for device in ["A", "B"] {
        let attempt = PublishAttempt::new(Publish::Automated(details(device)));
        assert!(engine.handle_completed_work(SymmetricalResult::Succeeded(attempt)).is_none());
    }
    match engine.on_flush_tick() {
        Some(PublishOutcome::Batch(b)) => {
            assert_eq!(b.len(), 2);
            assert_eq!(key_text(&b[0]), "A#Analog");
            assert_eq!(key_text(&b[1]), "B#Analog");
        }
        _ => panic!("the tick flushes the buffered results"),
    }
    assert!(engine.on_flush_tick().is_none());
}

#[test]
fn automated_batch_flushed_when_buffer_reaches_capacity() {
    let mut engine = PublishEngine::new();
    for i in 0..BATCH_SIZE - 1 {
        let attempt = PublishAttempt::new(Publish::Automated(details(&format!("D{i}"))));
        assert!(engine.handle_completed_work(SymmetricalResult::Succeeded(attempt)).is_none());
    }
    let last = PublishAttempt::new(Publish::Automated(details("LAST")));
    match engine.handle_completed_work(SymmetricalResult::Failed(last)) {
        Some(PublishOutcome::Batch(b)) => {
            assert_eq!(b.len(), BATCH_SIZE);
            assert!(!b[BATCH_SIZE - 1].is_ok());
        }
        _ => panic!("a full buffer is reported as a batch"),
    }
}

#[test]
fn failed_attempt_is_retried_once_then_settled() {
    let mut engine = PublishEngine::new();
    let mut m = metrics();
    let attempt = PublishAttempt::new(Publish::User(details("A")));
    let again = match engine.on_attempt_finished(
        SymmetricalResult::Failed(attempt),
        Duration::from_millis(5),
        &mut m,
    ) {
        AttemptDecision::Retry(a) => a,
        _ => panic!("a first failure is retried"),
    };
    assert_eq!(again.attempt_count, 2);
    match engine.on_attempt_finished(SymmetricalResult::Failed(again), Duration::from_millis(7), &mut m)
    {
        AttemptDecision::Completed(Some(PublishOutcome::Single(r))) => assert!(!r.is_ok()),
        _ => panic!("a second failure settles the request"),
    }
    let s = m.snapshot();
    assert_eq!(s.publish_retries, 1);
    assert_eq!(s.publish_failures, 2);
    assert_eq!(s.publish_latency_ms.samples, 2);
    assert_eq!(s.publish_latency_ms.total_ms, 12);
}

#[test]
fn snooze_set_replace_cancel_and_expire() {
    let mut registry = SnoozeRegistry::new();
    let mut m = metrics();
    let wake = Timestamp { seconds: 9_999_999_999, nanos: 0 };

    let (outcome, change) =
        registry.handle_snooze_input(Snooze::SetTimer { key: key("A#Epics"), wake }, &mut m);
    assert!(matches!(outcome, SnoozeOutcome::Accepted { .. }));
    match change {
        TimerChange::Insert { delay, .. } => assert_eq!(delay.secs, MAX_DELAY_SECS),
        _ => panic!("a first timer is inserted"),
    }

    let (_, change) =
        registry.handle_snooze_input(Snooze::SetTimer { key: key("A#Epics"), wake }, &mut m);
    assert!(matches!(change, TimerChange::Reset { .. }));

    let (outcome, change) = registry.handle_snooze_input(Snooze::Cancel { key: key("A#Epics") }, &mut m);
    assert!(matches!(outcome, SnoozeOutcome::Accepted { .. }));
    assert!(matches!(change, TimerChange::Remove { .. }));

    let (outcome, change) = registry.handle_snooze_input(Snooze::Cancel { key: key("B#Epics") }, &mut m);
    assert!(matches!(outcome, SnoozeOutcome::Accepted { .. }));
    assert!(matches!(change, TimerChange::Unchanged));

    let past = Timestamp { seconds: 1, nanos: 0 };
    let (outcome, change) =
        registry.handle_snooze_input(Snooze::SetTimer { key: key("C#Epics"), wake: past }, &mut m);
    assert!(matches!(outcome, SnoozeOutcome::InvalidWake { .. }));
    assert!(matches!(change, TimerChange::Unchanged));

    let outcome = registry.on_expired(key("D#Epics"), &mut m);
    assert!(matches!(outcome, SnoozeOutcome::Expired { .. }));

    let s = m.snapshot();
    assert_eq!(s.snooze_sets, 1);
    assert_eq!(s.snooze_cancels, 1);
    assert_eq!(s.snooze_invalid_wakes, 1);
    assert_eq!(s.snooze_expirations, 1);
}

#[test]
fn delay_until_exact_values() {
    let d = delay_until(Timestamp { seconds: 100, nanos: 0 }, 90, 250_000_000).unwrap();
    assert_eq!((d.secs, d.nanos), (9, 750_000_000));
    assert!(delay_until(Timestamp { seconds: 100, nanos: 0 }, 100, 1).is_none());
    assert!(delay_until(Timestamp { seconds: 100, nanos: 0 }, 100, 0).is_none(), "a wake time of now is not in the future");
    let d = delay_until(Timestamp { seconds: 100, nanos: 0 }, 99, 999_999_999).unwrap();
    assert_eq!((d.secs, d.nanos), (0, 1));
    assert!(delay_until(Timestamp { seconds: i64::MAX, nanos: 0 }, 0, 0).is_none());
}

fn job(id: u64, device: &str, state: State, user_initiated: bool) -> Job {
    Job {
        id,
        key: key(&format!("{device}#Analog")),
        status: status(device, state),
        user_initiated,
    }
}

#[test]
fn workflow_runs_snooze_then_publish_then_commits() {
    let mut handler = WorkflowHandler::new();
    let mut m = metrics();
    match handler.handle_new_job(job(1, "A", State::Alarmed, true), &mut m) {
        WorkflowCommand::Snooze(input) => assert!(input.wake.is_none()),
        _ => panic!("snooze comes first"),
    }
    match handler.handle_snooze_result(SnoozeOutcome::Accepted { key: key("A#Analog") }, &mut m) {
        WorkflowCommand::Publish(Publish::User(d)) => assert_eq!(d.status.device, "A"),
        _ => panic!("publish comes second, tagged as user-initiated"),
    }
    let outcomes = handler.handle_publish_outcome(
        PublishOutcome::Single(SymmetricalResult::Succeeded(key("A#Analog"))),
        &mut m,
    );
    assert_eq!(outcomes.len(), 1);
    assert!(matches!(&outcomes[0], JobOutcome::Committed(j) if j.id == 1));
    assert!(!handler.has_job(&key("A#Analog")));
    let s = m.snapshot();
    assert_eq!(s.jobs_dispatched, 1);
    assert_eq!(s.jobs_committed, 1);
}

#[test]
fn workflow_bypass_job_sets_a_timer_and_invalid_wake_fails_it() {
    let mut handler = WorkflowHandler::new();
    let mut m = metrics();
    let mut bypass = job(2, "B", State::Bypassed, true);
    bypass.status.wake = Some(Timestamp { seconds: 1, nanos: 0 });
    match handler.handle_new_job(bypass, &mut m) {
        WorkflowCommand::Snooze(input) => assert_eq!(input.wake, Some(Timestamp { seconds: 1, nanos: 0 })),
        _ => panic!("snooze comes first"),
    }
    match handler.handle_snooze_result(SnoozeOutcome::InvalidWake { key: key("B#Analog") }, &mut m) {
        WorkflowCommand::Report(JobOutcome::Failed(j)) => assert_eq!(j.id, 2),
        _ => panic!("an invalid wake fails the job"),
    }
    assert_eq!(m.snapshot().jobs_failed, 1);
}

#[test]
fn workflow_batch_outcome_settles_every_job_in_order() {
    let mut handler = WorkflowHandler::new();
    let mut m = metrics();
    for (id, device) in [(1, "A"), (2, "B")] {
        handler.handle_new_job(job(id, device, State::Alarmed, false), &mut m);
        handler.handle_snooze_result(SnoozeOutcome::Accepted { key: key(&format!("{device}#Analog")) }, &mut m);
    }
    let outcomes = handler.handle_publish_outcome(
        PublishOutcome::Batch(vec![
            SymmetricalResult::Failed(key("B#Analog")),
            SymmetricalResult::Succeeded(key("A#Analog")),
        ]),
        &mut m,
    );
    assert!(matches!(&outcomes[0], JobOutcome::Failed(j) if j.id == 2));
    assert!(matches!(&outcomes[1], JobOutcome::Committed(j) if j.id == 1));
}

#[test]
fn workflow_expiry_becomes_a_wake() {
    let mut handler = WorkflowHandler::new();
    let mut m = metrics();
    match handler.handle_snooze_result(SnoozeOutcome::Expired { key: key("A#Analog") }, &mut m) {
        WorkflowCommand::Report(JobOutcome::Wake(k)) => assert_eq!(k.to_string(), "A#Analog"),
        _ => panic!("an expiry is reported as a wake"),
    }
    assert_eq!(m.snapshot().snooze_wakes, 1);
}
