//! Snooze command and outcome types for the snooze scheduler protocol.

use vstd::prelude::*;

use crate::model::key::Key;
use crate::model::status::Timestamp;

verus! {

/// A command sent to the snooze scheduler.
pub struct SnoozeInput {
    pub key: Key,
    pub wake: Option<Timestamp>,
}

/// The action taken by the scheduler, derived from a [`SnoozeInput`].
pub enum Snooze {
    /// Register (or replace) a timer for `key` that fires at the `wake` timestamp.
    SetTimer { key: Key, wake: Timestamp },
    /// Remove any existing timer for `key`; nothing happens if there is none.
    Cancel { key: Key },
}

impl Snooze {
    /// A wake time sets a timer; no wake time cancels one.
    pub fn from(value: SnoozeInput) -> (r: Snooze)
        ensures
            match value.wake {
                Some(w) => r matches Snooze::SetTimer { key, wake } && key == value.key && wake == w,
                None => r matches Snooze::Cancel { key } && key == value.key,
            },
    {
        match value.wake {
            Some(timestamp) => Snooze::SetTimer { key: value.key, wake: timestamp },
            None => Snooze::Cancel { key: value.key },
        }
    }
}

/// The outcome of a [`Snooze`] command, or a timer expiry notification.
pub enum SnoozeOutcome {
    /// A previously registered timer has elapsed.
    Expired { key: Key },
    /// A `Snooze::SetTimer` was rejected because the wake timestamp is not a valid future time.
    InvalidWake { key: Key },
    /// The command was accepted.
    Accepted { key: Key },
}

} // verus!
