//! End-to-end scenarios: the coordinator, the workflow handler, the snooze registry and the
//! publish engine driven together, with publishing that succeeds or fails on demand.

use std::time::Duration;

use grpc_alarms::collections::KeyMap;
use grpc_alarms::effects::publish::{AttemptDecision, PublishEngine};
use grpc_alarms::effects::snooze::{SnoozeRegistry, TimerChange};
use grpc_alarms::engine::coordinator::{AlarmStateCoordinator, MessageOutcome, UserDecision};
use grpc_alarms::engine::messages::DomainInput;
use grpc_alarms::engine::workflow::{Job, JobOutcome, WorkflowCommand, WorkflowHandler};
use grpc_alarms::metrics::{Metrics, QueueCapacityConfig};
use grpc_alarms::model::errors::{SymmetricalResult, UpdateError};
use grpc_alarms::model::key::Key;
use grpc_alarms::model::publish::{PublishAttempt, PublishOutcome};
use grpc_alarms::model::snooze::Snooze;
use grpc_alarms::model::status::{Severity, Source, State, Status, Timestamp};
use grpc_alarms::model::user_action::UserAction;

struct Pipeline {
    coordinator: AlarmStateCoordinator,
    workflow: WorkflowHandler,
    snooze: SnoozeRegistry,
    publish: PublishEngine,
    metrics: Metrics,
    failing_attempts: usize,
    confirmations: Vec<(u64, Result<(), UpdateError>)>,
    timers: Vec<TimerChange>,
}

impl Pipeline {
    fn new() -> Pipeline {
        Pipeline::hydrated(KeyMap::new())
    }

    fn hydrated(statuses: KeyMap<Status>) -> Pipeline {
        Pipeline {
            coordinator: AlarmStateCoordinator::new(statuses),
            workflow: WorkflowHandler::new(),
            snooze: SnoozeRegistry::new(),
            publish: PublishEngine::new(),
            metrics: Metrics::new(&QueueCapacityConfig {
                automated: 10,
                user: 10,
                job: 10,
                publish: 10,
                snooze: 10,
            }),
            failing_attempts: 0,
            confirmations: Vec::new(),
            timers: Vec::new(),
        }
    }

    fn automated(&mut self, status: Status) {
        match self.coordinator.handle_message(DomainInput::AutomatedUpdate(status)) {
            MessageOutcome::Dispatch(Some(job)) => self.run_job(job),
            MessageOutcome::Dispatch(None) => {}
            _ => panic!("an automated update yields a dispatch"),
        }
    }

    fn user(&mut self, key: &str, action: UserAction, user: &str) -> Result<(), UpdateError> {
        let key = Key::try_from(key).unwrap();
        let input = DomainInput::UserUpdate { key, action, user: user.to_string() };
        match self.coordinator.handle_message(input) {
            MessageOutcome::User(UserDecision::Accepted { id, job }) => {
                if let Some(job) = job {
                    self.run_job(job);
                }
                let at = self
                    .confirmations
                    .iter()
                    .position(|(cid, _)| *cid == id)
                    .expect("an accepted update is confirmed once its job settles");
                self.confirmations.remove(at).1
            }
            MessageOutcome::User(UserDecision::Rejected(e)) => Err(e),
            _ => panic!("a user update yields a user decision"),
        }
    }

    fn snapshot(&mut self) -> Vec<Status> {
        match self.coordinator.handle_message(DomainInput::SnapshotRequest) {
            MessageOutcome::Snapshot(s) => s,
            _ => panic!("a snapshot request yields a snapshot"),
        }
    }

    fn run_job(&mut self, job: Job) {
        let cmd = self.workflow.handle_new_job(job, &mut self.metrics);
        self.run_command(cmd);
    }

    fn run_command(&mut self, cmd: WorkflowCommand) {
        match cmd {
            WorkflowCommand::Snooze(input) => {
                let (outcome, change) =
                    self.snooze.handle_snooze_input(Snooze::from(input), &mut self.metrics);
                self.timers.push(change);
                let next = self.workflow.handle_snooze_result(outcome, &mut self.metrics);
                self.run_command(next);
            }
            WorkflowCommand::Publish(request) => {
                let mut attempt = PublishAttempt::new(request);
                loop {
                    self.metrics.record_publish_attempt_started();
                    let result = if self.failing_attempts > 0 {
                        self.failing_attempts -= 1;
                        SymmetricalResult::Failed(attempt)
                    } else {
                        SymmetricalResult::Succeeded(attempt)
                    };
                    match self.publish.on_attempt_finished(
                        result,
                        Duration::from_millis(3),
                        &mut self.metrics,
                    ) {
                        AttemptDecision::Retry(again) => attempt = again,
                        AttemptDecision::Completed(outcome) => {
                            let outcome = match outcome {
                                Some(o) => Some(o),
                                None => self.publish.on_flush_tick(),
                            };
                            if let Some(o) = outcome {
                                self.settle(o);
                            }
                            break;
                        }
                    }
                }
            }
            WorkflowCommand::Report(outcome) => self.reconcile(outcome),
        }
    }

    fn settle(&mut self, outcome: PublishOutcome) {
        let outcomes = self.workflow.handle_publish_outcome(outcome, &mut self.metrics);
        for o in outcomes {
            self.reconcile(o);
        }
    }

    fn reconcile(&mut self, outcome: JobOutcome) {
        let r = self.coordinator.reconcile_job_outcome(outcome);
        if let Some(c) = r.confirmation {
            self.confirmations.push(c);
        }
        match r.dispatch {
            Ok(Some(job)) => self.run_job(job),
            Ok(None) => {}
            Err(e) => panic!("coordinator fault: {e:?}"),
        }
    }

    fn expire(&mut self, key: &str) {
        let key = Key::try_from(key).unwrap();
        let outcome = self.snooze.on_expired(key, &mut self.metrics);
        let cmd = self.workflow.handle_snooze_result(outcome, &mut self.metrics);
        self.run_command(cmd);
    }
}

fn make_status(device: &str, state: State, source: Source) -> Status {
    Status {
        device: device.to_string(),
        state,
        source,
        time: Some(Timestamp { seconds: 0, nanos: 0 }),
        ..Status::default()
    }
}

fn with_severity(mut s: Status, severity: Severity) -> Status {
    s.severity = severity;
    s
}

#[test]
fn automated_update_appears_in_snapshot() {
    let mut p = Pipeline::new();
    p.automated(make_status("M:BEAM", State::Alarmed, Source::Analog));
    let snap = p.snapshot();
    assert_eq!(snap.len(), 1);
    assert_eq!(snap[0].device, "M:BEAM");
    assert_eq!(snap[0].state, State::Alarmed);
}

#[test]
fn ok_alarm_does_not_appear_in_snapshot() {
    let mut p = Pipeline::new();
    p.automated(make_status("M:BEAM", State::Alarmed, Source::Analog));
    p.automated(make_status("M:BEAM", State::Nominal, Source::Analog));
    assert!(p.snapshot().is_empty(), "Ok-state alarm must not appear in snapshot");
}

#[test]
fn duplicate_automated_update_is_suppressed() {
    let mut p = Pipeline::new();
    for _ in 0..3 {
        p.automated(make_status("M:BEAM", State::Alarmed, Source::Analog));
    }
    assert_eq!(p.snapshot().len(), 1, "duplicate updates must be deduplicated");
    assert_eq!(p.metrics.snapshot().jobs_dispatched, 1);
}

#[test]
fn alarmed_to_alarmed_severity_escalation_is_published() {
    let mut p = Pipeline::new();
    p.automated(with_severity(make_status("M:BEAM", State::Alarmed, Source::Analog), Severity::Low));
    p.automated(with_severity(make_status("M:BEAM", State::Alarmed, Source::Analog), Severity::High));
    let snap = p.snapshot();
    assert_eq!(snap.len(), 1, "still one entry for the device-source");
    assert_eq!(snap[0].severity, Severity::High, "snapshot must reflect the escalated severity");
}

#[test]
fn alarmed_to_alarmed_same_severity_is_suppressed() {
    let mut p = Pipeline::new();
    p.automated(with_severity(make_status("M:BEAM", State::Alarmed, Source::Analog), Severity::Low));
    let mut again = with_severity(make_status("M:BEAM", State::Alarmed, Source::Analog), Severity::Low);
    again.time = Some(Timestamp { seconds: 1, nanos: 0 });
    p.automated(again);
    let snap = p.snapshot();
    assert_eq!(snap.len(), 1, "duplicate must not create a second entry");
    assert_eq!(snap[0].severity, Severity::Low);
    assert_eq!(snap[0].time, Some(Timestamp { seconds: 0, nanos: 0 }));
}

#[test]
fn multiple_distinct_alarms_all_appear_in_snapshot() {
    let mut p = Pipeline::new();
    for (device, source) in
        [("M:BEAM", Source::Analog), ("M:BEAM", Source::Digital), ("Z:ACLTST", Source::Analog)]
    {
        p.automated(make_status(device, State::Alarmed, source));
    }
    assert_eq!(p.snapshot().len(), 3, "all three distinct device-sources must appear");
}

#[test]
fn empty_machine_snapshot_is_empty() {
    let mut p = Pipeline::new();
    assert!(p.snapshot().is_empty());
}

#[test]
fn acknowledge_alarmed_device_succeeds() {
    let mut p = Pipeline::new();
    p.automated(make_status("M:BEAM", State::Alarmed, Source::Analog));
    let result = p.user("M:BEAM#Analog", UserAction::Acknowledge, "operator");
    assert!(result.is_ok(), "acknowledge of Alarmed must succeed");
    let snap = p.snapshot();
    assert_eq!(snap[0].state, State::Acknowledged);
    assert_eq!(snap[0].user, "operator");
}

#[test]
fn acknowledge_unknown_device_returns_state_not_allowed() {
    let mut p = Pipeline::new();
    let result = p.user("M:BEAM#Analog", UserAction::Acknowledge, "operator");
    match result {
        Err(UpdateError::StateNotAllowed(t)) => {
            assert_eq!(t.current, State::Unknown);
            assert_eq!(t.requested, State::Acknowledged);
            assert_eq!(t.key.to_string(), "M:BEAM#Analog");
        }
        _ => panic!("acknowledging an unknown device must return StateNotAllowed"),
    }
}

#[test]
fn acknowledge_latched_device_succeeds() {
    let mut p = Pipeline::new();
    p.automated(make_status("M:BEAM", State::Alarmed, Source::Analog));
    p.automated(make_status("M:BEAM", State::Latched, Source::Analog));
    assert!(p.user("M:BEAM#Analog", UserAction::Acknowledge, "operator").is_ok());
}

#[test]
fn bypass_non_bypassed_device_succeeds() {
    let mut p = Pipeline::new();
    assert!(p.user("M:BEAM#Analog", UserAction::Bypass(None), "operator").is_ok());
    let snap = p.snapshot();
    assert_eq!(snap.len(), 1, "bypass should become confirmed state");
    assert_eq!(snap[0].state, State::Bypassed);
    assert_eq!(snap[0].user, "operator");
}

#[test]
fn bypass_already_bypassed_same_wake_returns_state_not_allowed() {
    let mut p = Pipeline::new();
    p.user("M:BEAM#Analog", UserAction::Bypass(None), "operator").unwrap();
    let result = p.user("M:BEAM#Analog", UserAction::Bypass(None), "operator");
    assert!(matches!(result, Err(UpdateError::StateNotAllowed(_))));
}

#[test]
fn bypass_already_bypassed_different_wake_succeeds() {
    let mut p = Pipeline::new();
    let old_wake = Some(Timestamp { seconds: 4_000_000_000, nanos: 0 });
    let new_wake = Some(Timestamp { seconds: 9_999_999_999, nanos: 0 });
    p.user("M:BEAM#Analog", UserAction::Bypass(old_wake), "operator").unwrap();
    assert!(p.user("M:BEAM#Analog", UserAction::Bypass(new_wake), "operator").is_ok());
    let snap = p.snapshot();
    assert_eq!(snap.len(), 1, "updated bypass should replace prior bypass");
    assert_eq!(snap[0].wake, new_wake);
    assert!(matches!(p.timers[0], TimerChange::Insert { .. }));
    assert!(matches!(p.timers[1], TimerChange::Reset { .. }));
}

#[test]
fn automated_alarm_suppressed_while_bypassed() {
    let mut p = Pipeline::new();
    p.user("M:BEAM#Epics", UserAction::Bypass(None), "operator").unwrap();
    p.automated(make_status("M:BEAM", State::Alarmed, Source::Epics));
    let snap = p.snapshot();
    assert_eq!(snap.len(), 1, "only the bypass entry must be in the snapshot");
    assert_eq!(snap[0].state, State::Bypassed);
}

#[test]
fn bypass_on_one_source_does_not_suppress_other_source() {
    let mut p = Pipeline::new();
    p.user("M:BEAM#Analog", UserAction::Bypass(None), "operator").unwrap();
    p.automated(make_status("M:BEAM", State::Alarmed, Source::Digital));
    let snap = p.snapshot();
    assert_eq!(snap.len(), 2, "bypass on Analog must not suppress Digital alarm");
    assert!(snap.iter().any(|s| s.source == Source::Digital && s.state == State::Alarmed));
}

#[test]
fn unbypass_bypassed_device_succeeds() {
    let mut p = Pipeline::new();
    p.user("M:BEAM#Analog", UserAction::Bypass(None), "operator").unwrap();
    assert!(p.user("M:BEAM#Analog", UserAction::Activate, "operator").is_ok());
}

#[test]
fn unbypass_non_bypassed_device_returns_state_not_allowed() {
    let mut p = Pipeline::new();
    let result = p.user("M:BEAM#Analog", UserAction::Activate, "operator");
    assert!(matches!(result, Err(UpdateError::StateNotAllowed(_))));
}

#[test]
fn after_unbypass_entry_absent_from_snapshot() {
    let mut p = Pipeline::new();
    p.user("M:BEAM#Analog", UserAction::Bypass(None), "operator").unwrap();
    assert!(p.user("M:BEAM#Analog", UserAction::Activate, "operator").is_ok());
    assert!(p.snapshot().is_empty(), "snapshot must not contain unbypass");
}

#[test]
fn burst_of_same_key_automated_updates_converges_to_latest_snapshot_state() {
    let mut p = Pipeline::new();
    for severity in [Severity::Low, Severity::High, Severity::Low, Severity::High] {
        p.automated(with_severity(make_status("M:BEAM", State::Alarmed, Source::Analog), severity));
    }
    let snap = p.snapshot();
    assert_eq!(snap.len(), 1);
    assert_eq!(snap[0].severity, Severity::High);
}

#[test]
fn failed_publish_reports_internal_error_and_rolls_back() {
    let mut p = Pipeline::new();
    p.failing_attempts = 2;
    let result = p.user("M:BEAM#Analog", UserAction::Bypass(None), "operator");
    match result {
        Err(UpdateError::Internal(key)) => assert_eq!(key.to_string(), "M:BEAM#Analog"),
        _ => panic!("a failed publish must be answered with an internal error"),
    }
    let snap = p.snapshot();
    assert_eq!(snap.len(), 1, "the key converges to a blank status, which is published again");
    assert_eq!(snap[0].state, State::Unknown);
    assert_eq!(snap[0].user, "");
    let m = p.metrics.snapshot();
    assert_eq!(m.publish_attempts, 3);
    assert_eq!(m.publish_retries, 1);
    assert_eq!(m.publish_failures, 2);
    assert_eq!(m.jobs_failed, 1);
    assert_eq!(m.jobs_committed, 1);
}

#[test]
fn stale_automated_failure_does_not_block_later_user_command() {
    let mut p = Pipeline::new();
    p.failing_attempts = 2;
    p.automated(make_status("M:BEAM", State::Alarmed, Source::Analog));
    assert_eq!(p.snapshot()[0].state, State::Alarmed, "the automated intent is dispatched again");
    let result = p.user("M:BEAM#Analog", UserAction::Acknowledge, "operator");
    assert!(result.is_ok(), "the earlier automated failure must not block the user command");
}

#[test]
fn hydrated_bypass_is_visible_and_can_be_activated() {
    let mut hydrated = KeyMap::new();
    let status = make_status("Z:VAC", State::Bypassed, Source::Epics);
    hydrated.insert(Key::from(&status), status);
    let mut p = Pipeline::hydrated(hydrated);
    let snap = p.snapshot();
    assert_eq!(snap.len(), 1);
    assert_eq!(snap[0].state, State::Bypassed);
    assert!(p.user("Z:VAC#Epics", UserAction::Activate, "operator").is_ok());
    assert!(p.snapshot().is_empty());
}

#[test]
fn snooze_wake_unbypasses_the_key() {
    let mut p = Pipeline::new();
    let wake = Some(Timestamp { seconds: 9_999_999_999, nanos: 0 });
    p.user("M:BEAM#Analog", UserAction::Bypass(wake), "operator").unwrap();
    assert_eq!(p.metrics.snapshot().in_flight_snooze_timers, 1);
    p.expire("M:BEAM#Analog");
    assert!(p.snapshot().is_empty(), "the wake unbypasses the alarm");
    let m = p.metrics.snapshot();
    assert_eq!(m.snooze_expirations, 1);
    assert_eq!(m.snooze_wakes, 1);
    assert_eq!(m.in_flight_snooze_timers, 0);
}

#[test]
fn past_wake_time_fails_the_bypass() {
    let mut p = Pipeline::new();
    let wake = Some(Timestamp { seconds: 1, nanos: 0 });
    let result = p.user("M:BEAM#Analog", UserAction::Bypass(wake), "operator");
    assert!(matches!(result, Err(UpdateError::Internal(_))));
    assert_eq!(p.metrics.snapshot().snooze_invalid_wakes, 1);
    let snap = p.snapshot();
    assert_eq!(snap.len(), 1);
    assert_eq!(snap[0].state, State::Unknown);
}
