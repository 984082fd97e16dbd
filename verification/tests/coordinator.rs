//! Coordinator decisions driven step by step: stale outcomes, id order, and what snapshots show.

use grpc_alarms::collections::KeyMap;
use grpc_alarms::engine::coordinator::{
    user_status_at, wake_status_at, AlarmStateCoordinator, CoordinatorError, MessageOutcome,
    UserDecision,
};
use grpc_alarms::engine::messages::DomainInput;
use grpc_alarms::engine::workflow::{Job, JobOutcome};
use grpc_alarms::model::errors::UpdateError;
use grpc_alarms::model::key::Key;
use grpc_alarms::model::status::{Severity, Source, State, Status};
use grpc_alarms::model::user_action::UserAction;

fn alarm(severity: Severity) -> Status {
    Status {
        device: "M:BEAM".to_string(),
        state: State::Alarmed,
        source: Source::Analog,
        severity,
        ..Status::default()
    }
}

fn automated(c: &mut AlarmStateCoordinator, status: Status) -> Option<Job> {
    match c.handle_message(DomainInput::AutomatedUpdate(status)) {
        MessageOutcome::Dispatch(job) => job,
        _ => panic!("an automated update yields a dispatch"),
    }
}

fn snapshot(c: &mut AlarmStateCoordinator) -> Vec<Status> {
    match c.handle_message(DomainInput::SnapshotRequest) {
        MessageOutcome::Snapshot(s) => s,
        _ => panic!("a snapshot request yields a snapshot"),
    }
}

#[test]
fn stale_success_keeps_newer_intent_and_dispatches_it() {
    let mut c = AlarmStateCoordinator::new(KeyMap::new());
    let first = automated(&mut c, alarm(Severity::Low)).expect("first update is dispatched");
    assert!(automated(&mut c, alarm(Severity::High)).is_none(), "a job for the key is in flight");
    let first_id = first.id;
    let r = c.reconcile_job_outcome(JobOutcome::Committed(first));
    assert!(r.confirmation.is_none());
    let next = r.dispatch.unwrap().expect("the newer intent is dispatched");
    assert!(next.id > first_id);
    assert_eq!(next.status.severity, Severity::High);
    let snap = snapshot(&mut c);
    assert_eq!(snap[0].severity, Severity::Low, "the committed status is confirmed");
}

#[test]
fn stale_failure_keeps_newer_intent() {
    let mut c = AlarmStateCoordinator::new(KeyMap::new());
    let first = automated(&mut c, alarm(Severity::Low)).unwrap();
    automated(&mut c, alarm(Severity::High));
    let r = c.reconcile_job_outcome(JobOutcome::Failed(first));
    let next = r.dispatch.unwrap().expect("the newer intent is dispatched again");
    assert_eq!(next.status.severity, Severity::High);
    assert!(snapshot(&mut c).is_empty(), "nothing was confirmed");
}

#[test]
fn snapshots_show_only_confirmed_state() {
    let mut c = AlarmStateCoordinator::new(KeyMap::new());
    let job = automated(&mut c, alarm(Severity::Low)).unwrap();
    assert!(snapshot(&mut c).is_empty(), "speculative intent is not visible");
    c.reconcile_job_outcome(JobOutcome::Committed(job));
    assert_eq!(snapshot(&mut c).len(), 1);
}

#[test]
fn ids_grow_with_each_new_intent() {
    let mut c = AlarmStateCoordinator::new(KeyMap::new());
    let a = automated(&mut c, alarm(Severity::Low)).unwrap();
    let mut other = alarm(Severity::Low);
    other.device = "Z:VAC".to_string();
    let b = automated(&mut c, other).unwrap();
    assert_eq!(a.id, 1);
    assert_eq!(b.id, 2);
    assert!(!c.ids_exhausted());
}

#[test]
fn user_confirmation_is_resolved_under_its_own_id() {
    let mut c = AlarmStateCoordinator::new(KeyMap::new());
    let key = Key::try_from("M:BEAM#Analog").unwrap();
    let input = DomainInput::UserUpdate { key, action: UserAction::Bypass(None), user: "op".to_string() };
    let (id, job) = match c.handle_message(input) {
        MessageOutcome::User(UserDecision::Accepted { id, job }) => (id, job.unwrap()),
        _ => panic!("a bypass of an unknown alarm is accepted"),
    };
    assert!(job.user_initiated);
    assert_eq!(job.id, id);
    let r = c.reconcile_job_outcome(JobOutcome::Committed(job));
    assert!(matches!(r.confirmation, Some((cid, Ok(()))) if cid == id));
    assert!(matches!(r.dispatch, Ok(None)));
}

#[test]
fn refused_action_reports_states_and_changes_nothing() {
    let mut c = AlarmStateCoordinator::new(KeyMap::new());
    let key = Key::try_from("M:BEAM#Analog").unwrap();
    let input = DomainInput::UserUpdate { key, action: UserAction::Activate, user: "op".to_string() };
    match c.handle_message(input) {
        MessageOutcome::User(UserDecision::Rejected(UpdateError::StateNotAllowed(t))) => {
            assert_eq!(t.current, State::Unknown);
            assert_eq!(t.requested, State::Unbypassed);
        }
        _ => panic!("activating an alarm that is not bypassed is refused"),
    }
    assert!(snapshot(&mut c).is_empty());
    let next = automated(&mut c, alarm(Severity::Low)).unwrap();
    assert_eq!(next.id, 1, "a refusal hands out no id");
}

#[test]
fn shutdown_fails_pending_confirmations() {
    let mut c = AlarmStateCoordinator::new(KeyMap::new());
    let key = Key::try_from("M:BEAM#Analog").unwrap();
    let input = DomainInput::UserUpdate { key, action: UserAction::Bypass(None), user: "op".to_string() };
    let id = match c.handle_message(input) {
        MessageOutcome::User(UserDecision::Accepted { id, .. }) => id,
        _ => panic!("accepted"),
    };
    let failed = c.fail_all_confirmations();
    assert_eq!(failed.len(), 1);
    assert_eq!(failed[0].0, id);
    assert!(matches!(&failed[0].1, UpdateError::Internal(k) if k.to_string() == "M:BEAM#Analog"));
}

#[test]
fn outcome_for_a_key_without_intent_is_a_fault() {
    let mut c = AlarmStateCoordinator::new(KeyMap::new());
    let job = Job {
        id: 9,
        key: Key::try_from("M:BEAM#Analog").unwrap(),
        status: alarm(Severity::Low),
        user_initiated: false,
    };
    let r = c.reconcile_job_outcome(JobOutcome::Failed(job));
    assert!(matches!(r.dispatch, Err(CoordinatorError::LostStateForJob)));
    assert!(r.confirmation.is_none());
}

#[test]
fn user_and_wake_statuses_carry_the_given_time() {
    let key = Key::try_from("M:BEAM#Epics").unwrap();
    let wake = grpc_alarms::model::status::Timestamp { seconds: 500, nanos: 0 };
    let s = user_status_at(&key, UserAction::Bypass(Some(wake)), "op".to_string(), 42);
    assert_eq!(s.time, Some(grpc_alarms::model::status::Timestamp { seconds: 42, nanos: 0 }));
    assert_eq!(s.state, State::Bypassed);
    assert_eq!(s.wake, Some(wake));
    assert_eq!(s.user, "op");
    let w = wake_status_at(key, 43);
    assert_eq!(w.time, Some(grpc_alarms::model::status::Timestamp { seconds: 43, nanos: 0 }));
    assert_eq!(w.state, State::Unbypassed);
    assert_eq!(w.source, Source::Epics);
}
