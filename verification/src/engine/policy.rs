//! Policy for automated alarm transitions and user-requested actions.

use vstd::prelude::*;

use crate::model::key::Key;
use crate::model::status::{Source, State, Status, Timestamp};
use crate::model::user_action::UserAction;

verus! {

/// The automated transitions that are meaningful enough to publish.
pub open spec fn spec_transition_allowed(prev: State, next: State) -> bool {
    match (prev, next) {
        (State::Nominal, State::Alarmed) => true,
        (State::Alarmed, State::Latched) => true,
        (State::Alarmed, State::Nominal) => true,
        (State::Acknowledged, State::Nominal) => true,
        (State::Acknowledged, State::Alarmed) => true,
        (State::Bypassed, _) => true,
        (State::Unknown, _) => true,
        _ => false,
    }
}

/// The status an optional reference points at.
pub open spec fn opt_status(o: Option<&Status>) -> Option<Status> {
    match o {
        Some(r) => Some(*r),
        None => None,
    }
}

/// Whether the latest known status for a key is bypassed.
pub open spec fn spec_is_bypassed(prev: Option<Status>) -> bool {
    prev matches Some(p) && p.state == State::Bypassed
}

/// Whether an automated update should be published given the latest known status.
///
/// A bypassed key suppresses every automated EPICS update except `Unbypassed`; otherwise an
/// update is published when nothing is known yet, when the transition is meaningful, or when
/// the severity changed.
pub open spec fn spec_should_publish(prev: Option<Status>, alarm: Status) -> bool {
    if spec_is_bypassed(prev) && alarm.source == Source::Epics && alarm.state != State::Unbypassed {
        false
    } else {
        match prev {
            None => true,
            Some(p) => spec_transition_allowed(p.state, alarm.state) || p.severity != alarm.severity,
        }
    }
}

/// Returns whether an automated transition is meaningful enough to publish.
pub fn transition_allowed(prev: State, next: State) -> (allowed: bool)
    ensures
        allowed == spec_transition_allowed(prev, next),
{
    match (prev, next) {
        (State::Nominal, State::Alarmed)
        | (State::Alarmed, State::Latched)
        | (State::Alarmed, State::Nominal)
        | (State::Acknowledged, State::Nominal)
        | (State::Acknowledged, State::Alarmed)
        | (State::Bypassed, _)
        | (State::Unknown, _) => true,
        _ => false,
    }
}

/// Returns whether the latest known state is bypassed for the source-specific key.
pub fn is_bypassed(prev: Option<&Status>) -> (bypassed: bool)
    ensures
        bypassed == spec_is_bypassed(opt_status(prev)),
{
    match prev {
        Some(prev_status) => prev_status.state == State::Bypassed,
        None => false,
    }
}

/// Whether a user action is allowed from the latest known state and wake time.
///
/// Acknowledging needs an active (alarmed or latched) alarm, activating needs a bypassed one,
/// and bypassing is refused only when the alarm is already bypassed with the same wake time.
pub open spec fn spec_user_action_allowed(
    latest_state: State,
    latest_wake: Option<Timestamp>,
    action: UserAction,
) -> bool {
    match action {
        UserAction::Acknowledge => latest_state == State::Alarmed || latest_state == State::Latched,
        UserAction::Activate => latest_state == State::Bypassed,
        UserAction::Bypass(user_wake) => latest_state != State::Bypassed || latest_wake != user_wake,
    }
}

/// Whether two optional timestamps are equal.
pub fn wake_eq(a: Option<Timestamp>, b: Option<Timestamp>) -> (r: bool)
    ensures
        r == (a == b),
{
    match (a, b) {
        (Some(x), Some(y)) => x.seconds == y.seconds && x.nanos == y.nanos,
        (None, None) => true,
        _ => false,
    }
}

/// Returns whether an automated status update should be published.
pub fn should_publish(prev: Option<&Status>, key: &Key, alarm: &Status) -> (publish: bool)
    ensures
        publish == spec_should_publish(opt_status(prev), *alarm),
        alarm.source != Source::Epics ==> (publish <==> match prev {
            None => true,
            Some(p) => spec_transition_allowed(p.state, alarm.state) || p.severity != alarm.severity,
        }),
        alarm.source == Source::Epics && alarm.state != State::Unbypassed && (prev matches Some(p)
            && p.state == State::Bypassed) ==> !publish,
{
    let next_state = alarm.state;
    if is_bypassed(prev) {
        if alarm.source == Source::Epics && next_state != State::Unbypassed {
            return false;
        }
    }
    match prev {
        None => true,
        Some(prev_status) => transition_allowed(prev_status.state, next_state)
            || prev_status.severity != alarm.severity,
    }
}

/// Returns whether a user action is allowed from the latest known state.
pub fn user_action_allowed(
    latest_state: State,
    latest_wake: Option<Timestamp>,
    action: &UserAction,
) -> (allowed: bool)
    ensures
        allowed == spec_user_action_allowed(latest_state, latest_wake, *action),
        *action is Acknowledge ==> (allowed <==> (latest_state == State::Alarmed || latest_state
            == State::Latched)),
        *action is Activate ==> (allowed <==> latest_state == State::Bypassed),
        *action matches UserAction::Bypass(w) ==> (allowed <==> (latest_state != State::Bypassed
            || latest_wake != w)),
{
    match action {
        UserAction::Acknowledge => latest_state == State::Alarmed || latest_state == State::Latched,
        UserAction::Activate => latest_state == State::Bypassed,
        UserAction::Bypass(user_wake) => latest_state != State::Bypassed || !wake_eq(
            latest_wake,
            *user_wake,
        ),
    }
}

/// Acknowledging is allowed exactly from an alarmed or latched alarm; in particular an alarm
/// that is already acknowledged cannot be acknowledged again.
pub proof fn law_acknowledge_needs_active_alarm(latest_state: State, latest_wake: Option<Timestamp>)
    ensures
        spec_user_action_allowed(latest_state, latest_wake, UserAction::Acknowledge) <==> (
        latest_state == State::Alarmed || latest_state == State::Latched),
        !spec_user_action_allowed(State::Acknowledged, latest_wake, UserAction::Acknowledge),
        !spec_user_action_allowed(State::Nominal, latest_wake, UserAction::Acknowledge),
        !spec_user_action_allowed(State::Unknown, latest_wake, UserAction::Acknowledge),
        !spec_user_action_allowed(State::Bypassed, latest_wake, UserAction::Acknowledge),
{
}

/// Activating is allowed exactly from a bypassed alarm.
pub proof fn law_activate_needs_bypass(latest_state: State, latest_wake: Option<Timestamp>)
    ensures
        spec_user_action_allowed(latest_state, latest_wake, UserAction::Activate) <==> latest_state
            == State::Bypassed,
{
}

/// Bypassing is refused only when it would change nothing: the alarm is already bypassed until
/// the same wake time. Any other state, or a different wake time, is accepted.
pub proof fn law_bypass_refused_only_when_unchanged(
    latest_state: State,
    latest_wake: Option<Timestamp>,
    wake: Option<Timestamp>,
)
    ensures
        !spec_user_action_allowed(latest_state, latest_wake, UserAction::Bypass(wake)) <==> (
        latest_state == State::Bypassed && latest_wake == wake),
{
}

/// Bypass suppression applies to EPICS updates only: for an update from any other source, the
/// bypass state of the latest status makes no difference, and the update is published when
/// nothing is known yet, when the transition is meaningful, or when the severity changed.
pub proof fn law_non_epics_updates_ignore_bypass(prev: Option<Status>, alarm: Status)
    requires
        alarm.source != Source::Epics,
    ensures
        spec_should_publish(prev, alarm) <==> match prev {
            None => true,
            Some(p) => spec_transition_allowed(p.state, alarm.state) || p.severity != alarm.severity,
        },
        prev matches Some(p) && p.state == State::Bypassed ==> spec_should_publish(prev, alarm),
{
}

/// While the latest status is bypassed, an EPICS update is published exactly when it is
/// `Unbypassed`.
pub proof fn law_bypassed_epics_publishes_only_unbypass(p: Status, alarm: Status)
    requires
        p.state == State::Bypassed,
        alarm.source == Source::Epics,
    ensures
        spec_should_publish(Some(p), alarm) <==> alarm.state == State::Unbypassed,
{
}

/// The meaningful automated transitions: anything out of `Unknown` or `Bypassed`; out of a
/// nominal alarm only into `Alarmed`; out of an alarmed one only into `Latched` or back to
/// nominal; out of an acknowledged one only back to nominal or `Alarmed`. Out of `Latched` and
/// `Unbypassed`, and any repeat of the same state other than from `Unknown` or `Bypassed`,
/// nothing is meaningful.
pub proof fn law_transition_table(prev: State, next: State)
    ensures
        prev == State::Unknown || prev == State::Bypassed ==> spec_transition_allowed(prev, next),
        prev == State::Nominal ==> (spec_transition_allowed(prev, next) <==> next == State::Alarmed),
        prev == State::Alarmed ==> (spec_transition_allowed(prev, next) <==> (next == State::Latched
            || next == State::Nominal)),
        prev == State::Acknowledged ==> (spec_transition_allowed(prev, next) <==> (next
            == State::Nominal || next == State::Alarmed)),
        prev == State::Latched || prev == State::Unbypassed ==> !spec_transition_allowed(prev, next),
        prev != State::Unknown && prev != State::Bypassed ==> !spec_transition_allowed(prev, prev),
{
}

} // verus!
