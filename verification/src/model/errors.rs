//! Error types for alarm update operations, and [`SymmetricalResult`].

use vstd::prelude::*;

use crate::model::key::{key_string, Key};
use crate::model::status::{state_name, state_to_str, State};
use crate::text::concat2;

verus! {

/// Describes an attempted transition from one alarm state to another.
#[derive(Debug)]
pub struct StateTransition {
    /// The alarm being updated.
    pub key: Key,
    /// The alarm state before the requested change.
    pub current: State,
    /// The alarm state requested by the caller.
    pub requested: State,
}

/// The text of a transition: `"for KEY from CURRENT into REQUESTED"`.
pub open spec fn transition_text(t: StateTransition) -> Seq<char> {
    "for "@ + key_string(t.key@) + " from "@ + state_name(t.current) + " into "@ + state_name(
        t.requested,
    )
}

impl StateTransition {
    /// Renders the transition as text.
    pub fn to_message(&self) -> (r: String)
        ensures
            r@ == transition_text(*self),
    {
        let mut out = String::from_str("for ");
        let key_text = self.key.to_string();
        out.append(key_text.as_str());
        out.append(" from ");
        out.append(state_to_str(self.current));
        out.append(" into ");
        out.append(state_to_str(self.requested));
        out
    }
}

/// Errors that can occur while applying or publishing an alarm update.
#[derive(Debug)]
pub enum UpdateError {
    /// An internal subsystem failure prevented the update from being persisted.
    Internal(Key),
    /// The requested state transition is not allowed.
    StateNotAllowed(StateTransition),
}

/// The text of an update error.
pub open spec fn update_error_text(e: UpdateError) -> Seq<char> {
    match e {
        UpdateError::Internal(key) => "Internal error. The update for "@ + key_string(key@)
            + " has not been persisted."@,
        UpdateError::StateNotAllowed(t) => "Invalid state transition "@ + transition_text(t)
            + " requested."@,
    }
}

impl UpdateError {
    /// Renders the error as text.
    pub fn to_message(&self) -> (r: String)
        ensures
            r@ == update_error_text(*self),
    {
        match self {
            UpdateError::Internal(key) => {
                let mut out = String::from_str("Internal error. The update for ");
                let key_text = key.to_string();
                out.append(key_text.as_str());
                out.append(" has not been persisted.");
                out
            },
            UpdateError::StateNotAllowed(transition) => {
                let text = transition.to_message();
                let out = concat2("Invalid state transition ", text.as_str());
                out.concat(" requested.")
            },
        }
    }
}

/// A result where both the success and the failure carry the same kind of value, such as the
/// key of the alarm that was affected.
pub enum SymmetricalResult<T> {
    /// The operation succeeded; the inner value identifies the subject.
    Succeeded(T),
    /// The operation failed; the inner value identifies the subject.
    Failed(T),
}

impl<T> SymmetricalResult<T> {
    /// The value carried, whichever the outcome.
    pub open spec fn inner(self) -> T {
        match self {
            SymmetricalResult::Succeeded(v) => v,
            SymmetricalResult::Failed(v) => v,
        }
    }

    /// Whether this is a success.
    pub open spec fn succeeded(self) -> bool {
        self is Succeeded
    }

    /// Borrows the value carried.
    pub fn inner_ref(&self) -> (r: &T)
        ensures
            *r == self.inner(),
    {
        match self {
            SymmetricalResult::Failed(val) => val,
            SymmetricalResult::Succeeded(val) => val,
        }
    }

    /// Returns the value carried.
    pub fn into_inner(self) -> (r: T)
        ensures
            r == self.inner(),
    {
        match self {
            SymmetricalResult::Failed(val) => val,
            SymmetricalResult::Succeeded(val) => val,
        }
    }

    /// Applies `func` to the value carried, keeping the outcome.
    pub fn map<U, F: Fn(T) -> U>(self, func: F) -> (r: SymmetricalResult<U>)
        requires
            call_requires(func, (self.inner(),)),
        ensures
            r.succeeded() == self.succeeded(),
            call_ensures(func, (self.inner(),), r.inner()),
    {
        match self {
            SymmetricalResult::Failed(val) => SymmetricalResult::Failed(func(val)),
            SymmetricalResult::Succeeded(val) => SymmetricalResult::Succeeded(func(val)),
        }
    }

    /// Whether this is a success.
    pub fn is_ok(&self) -> (r: bool)
        ensures
            r == self.succeeded(),
    {
        match self {
            SymmetricalResult::Succeeded(_) => true,
            SymmetricalResult::Failed(_) => false,
        }
    }
}

} // verus!
