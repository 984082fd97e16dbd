//! User-initiated alarm actions and their state transitions.

use vstd::prelude::*;

use crate::model::status::{State, Timestamp};

verus! {

/// A user action that changes alarm state.
#[derive(Clone, Copy, Debug)]
pub enum UserAction {
    /// Acknowledge the current alarm.
    Acknowledge,
    /// Reactivate a previously bypassed alarm.
    Activate,
    /// Bypass an alarm until an optional wake time.
    Bypass(Option<Timestamp>),
}

/// The alarm state an action requests.
pub open spec fn action_state(action: UserAction) -> State {
    match action {
        UserAction::Acknowledge => State::Acknowledged,
        UserAction::Activate => State::Unbypassed,
        UserAction::Bypass(_) => State::Bypassed,
    }
}

/// The wake time an action carries: only a bypass has one.
pub open spec fn action_wake(action: UserAction) -> Option<Timestamp> {
    match action {
        UserAction::Bypass(wake) => wake,
        _ => None,
    }
}

impl UserAction {
    /// Returns the alarm state represented by this action.
    pub fn as_state(&self) -> (state: State)
        ensures
            state == action_state(*self),
    {
        match self {
            UserAction::Acknowledge => State::Acknowledged,
            UserAction::Activate => State::Unbypassed,
            UserAction::Bypass(_) => State::Bypassed,
        }
    }

    /// Returns the wake timestamp associated with a bypass action, if any.
    pub fn get_wake(&self) -> (wake: Option<Timestamp>)
        ensures
            wake == action_wake(*self),
    {
        match self {
            UserAction::Bypass(wake) => *wake,
            _ => None,
        }
    }
}

} // verus!
