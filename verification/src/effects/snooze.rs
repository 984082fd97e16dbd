//! Snooze scheduler decisions: which keys have live timers, and when a wake time is valid.
//!
//! `SetTimer { key, wake }` registers (or replaces) a timer for `key` that fires at `wake`, and
//! is accepted, or rejected as an invalid wake when the time is in the past or beyond what can
//! be represented. `Cancel { key }` removes any timer for `key` and is always accepted. The timer
//! queue itself belongs to the runtime; the decisions here say how to change it.

use vstd::prelude::*;

use crate::clock::{chrono_timestamp_valid, timestamp_secs_representable, utc_now};
use crate::collections::KeyMap;
use crate::metrics::{add_one, bump, drop_one, Metrics, MetricsView};
use crate::model::key::{Key, KeyView};
use crate::model::snooze::{Snooze, SnoozeOutcome};
use crate::model::status::Timestamp;

verus! {

/// The longest delay a timer is given, in seconds: one year, which keeps deadlines well within
/// the timer queue's horizon.
pub const MAX_DELAY_SECS: u64 = 31_536_000;

/// How long until a timer fires.
#[derive(Clone, Copy, Debug, PartialEq, Eq, Structural)]
pub struct WakeDelay {
    pub secs: u64,
    pub nanos: u32,
}

/// The length of a delay in nanoseconds.
pub open spec fn delay_nanos(d: WakeDelay) -> int {
    d.secs * 1_000_000_000 + d.nanos
}

/// The delay until `wake_secs` seen from `now_secs` and `now_nanos`: none when chrono cannot
/// represent the wake time or when it is not later than now; otherwise the difference, capped at
/// [`MAX_DELAY_SECS`].
pub open spec fn delay_until_spec(wake_secs: i64, now_secs: i64, now_nanos: u32) -> Option<int> {
    let diff = wake_secs * 1_000_000_000 - (now_secs * 1_000_000_000 + now_nanos);
    if !chrono_timestamp_valid(wake_secs, 0) || diff <= 0 {
        None
    } else if diff > MAX_DELAY_SECS * 1_000_000_000 {
        Some(MAX_DELAY_SECS * 1_000_000_000)
    } else {
        Some(diff)
    }
}

/// The delay from the instant `now_secs`/`now_nanos` until the wake time, if the wake time is a
/// valid future time.
pub fn delay_until(wake: Timestamp, now_secs: i64, now_nanos: u32) -> (r: Option<WakeDelay>)
    requires
        now_nanos < 1_000_000_000,
    ensures
        r matches Some(d) ==> d.nanos < 1_000_000_000,
        match delay_until_spec(wake.seconds, now_secs, now_nanos) {
            None => r is None,
            Some(n) => r matches Some(d) && delay_nanos(d) == n,
        },
{
    if !timestamp_secs_representable(wake.seconds) {
        return None;
    }
    let target: i128 = wake.seconds as i128 * 1_000_000_000;
    let now: i128 = now_secs as i128 * 1_000_000_000 + now_nanos as i128;
    let diff: i128 = target - now;
    if diff <= 0 {
        return None;
    }
    let cap: i128 = MAX_DELAY_SECS as i128 * 1_000_000_000;
    let capped: i128 = if diff > cap { cap } else { diff };
    let secs: u64 = (capped / 1_000_000_000) as u64;
    let nanos: u32 = (capped % 1_000_000_000) as u32;
    Some(WakeDelay { secs, nanos })
}

/// Converts a wake timestamp into the delay until it, measured from the current wall-clock
/// time, or `None` when the wake time is not a valid future time.
pub fn timestamp_secs_to_delay(wake: Timestamp) -> (r: Option<WakeDelay>)
    ensures
        !chrono_timestamp_valid(wake.seconds, 0) ==> r is None,
        r matches Some(d) ==> d.nanos < 1_000_000_000 && delay_nanos(d) <= MAX_DELAY_SECS * 1_000_000_000,
        exists|now: (i64, u32)|
            #![auto]
            now.1 < 1_000_000_000 && match delay_until_spec(wake.seconds, now.0, now.1) {
                None => r is None,
                Some(n) => r matches Some(d) && delay_nanos(d) == n,
            },
{
    let now = utc_now();
    let r = delay_until(wake, now.0, now.1);
    assert(now.1 < 1_000_000_000);
    r
}

/// How the runtime's timer queue must change.
pub enum TimerChange {
    /// Start a timer for the key.
    Insert { key: Key, delay: WakeDelay },
    /// Move the key's existing timer.
    Reset { key: Key, delay: WakeDelay },
    /// Drop the key's timer.
    Remove { key: Key },
    /// Leave the timers alone.
    Unchanged,
}

/// Deciding a snooze command, given the delay computed for a `SetTimer` (if valid).
pub open spec fn snooze_step(
    old: Set<KeyView>,
    new: Set<KeyView>,
    old_metrics: MetricsView,
    new_metrics: MetricsView,
    snooze: Snooze,
    delay: Option<WakeDelay>,
    outcome: SnoozeOutcome,
    change: TimerChange,
) -> bool {
    match snooze {
        Snooze::SetTimer { key, wake } => match delay {
            Some(d) => {
                &&& outcome matches SnoozeOutcome::Accepted { key: k } && k == key
                &&& if old.contains(key@) {
                    &&& new == old
                    &&& new_metrics == old_metrics
                    &&& change matches TimerChange::Reset { key: k, delay: dd } && k@ == key@ && dd == d
                } else {
                    &&& new == old.insert(key@)
                    &&& new_metrics == (MetricsView {
                        snooze_sets: bump(old_metrics.snooze_sets),
                        in_flight_snooze_timers: add_one(old_metrics.in_flight_snooze_timers),
                        ..old_metrics
                    })
                    &&& change matches TimerChange::Insert { key: k, delay: dd } && k@ == key@ && dd == d
                }
            },
            None => {
                &&& new == old
                &&& new_metrics == (MetricsView { snooze_invalid_wakes: bump(old_metrics.snooze_invalid_wakes), ..old_metrics })
                &&& outcome matches SnoozeOutcome::InvalidWake { key: k } && k == key
                &&& change is Unchanged
            },
        },
        Snooze::Cancel { key } => {
            &&& new == old.remove(key@)
            &&& outcome matches SnoozeOutcome::Accepted { key: k } && k == key
            &&& if old.contains(key@) {
                &&& new_metrics == (MetricsView {
                    snooze_cancels: bump(old_metrics.snooze_cancels),
                    in_flight_snooze_timers: drop_one(old_metrics.in_flight_snooze_timers),
                    ..old_metrics
                })
                &&& change matches TimerChange::Remove { key: k } && k@ == key@
            } else {
                new_metrics == old_metrics && change is Unchanged
            }
        },
    }
}

/// The delay of a `SetTimer` command is the one measured from the clock reading `now`: none
/// when the wake time is not a representable time later than `now`, else the time until it,
/// capped at [`MAX_DELAY_SECS`]. A `Cancel` command has no delay.
pub open spec fn delay_from_clock(snooze: Snooze, delay: Option<WakeDelay>, now: (i64, u32)) -> bool {
    match snooze {
        Snooze::SetTimer { wake, .. } => match delay_until_spec(wake.seconds, now.0, now.1) {
            None => delay is None,
            Some(n) => delay matches Some(d) && delay_nanos(d) == n,
        },
        Snooze::Cancel { .. } => delay is None,
    }
}

/// A delay is only ever computed for a wake time chrono can represent.
pub open spec fn delay_respects_wake(snooze: Snooze, delay: Option<WakeDelay>) -> bool {
    match snooze {
        Snooze::SetTimer { wake, .. } => delay is Some ==> chrono_timestamp_valid(wake.seconds, 0),
        Snooze::Cancel { .. } => true,
    }
}

/// The keys that have a live timer.
pub struct SnoozeRegistry {
    timers: KeyMap<()>,
}

impl SnoozeRegistry {
    /// The keys with a live timer.
    pub closed spec fn view(&self) -> Set<KeyView> {
        self.timers@.dom()
    }

    /// No live timers.
    pub fn new() -> (r: Self)
        ensures
            r@ == Set::<KeyView>::empty(),
    {
        let r = SnoozeRegistry { timers: KeyMap::new() };
        assert(r@ =~= Set::<KeyView>::empty());
        r
    }

    /// Decides a snooze command given the delay for a `SetTimer` command, or `None` when its wake
    /// time is invalid.
    pub fn decide(&mut self, snooze: Snooze, delay: Option<WakeDelay>, metrics: &mut Metrics) -> (r: (SnoozeOutcome, TimerChange))
        requires
            old(metrics).wf(),
        ensures
            final(metrics).wf(),
            snooze_step(old(self)@, final(self)@, old(metrics)@, final(metrics)@, snooze, delay, r.0, r.1),
    {
        match snooze {
            Snooze::SetTimer { key, wake } => match delay {
                Some(d) => {
                    if self.timers.contains_key(&key) {
                        let change = TimerChange::Reset { key: key.clone(), delay: d };
                        (SnoozeOutcome::Accepted { key }, change)
                    } else {
                        self.timers.insert(key.clone(), ());
                        metrics.record_snooze_set();
                        let change = TimerChange::Insert { key: key.clone(), delay: d };
                        (SnoozeOutcome::Accepted { key }, change)
                    }
                },
                None => {
                    metrics.record_snooze_invalid_wake();
                    (SnoozeOutcome::InvalidWake { key }, TimerChange::Unchanged)
                },
            },
            Snooze::Cancel { key } => {
                let removed = self.timers.remove(&key);
                if removed.is_some() {
                    metrics.record_snooze_cancel();
                    let change = TimerChange::Remove { key: key.clone() };
                    (SnoozeOutcome::Accepted { key }, change)
                } else {
                    (SnoozeOutcome::Accepted { key }, TimerChange::Unchanged)
                }
            },
        }
    }

    /// Handles a snooze command: a `SetTimer` command's wake time is converted into a delay from
    /// the current time, and the command is decided as [`decide`](Self::decide) says.
    pub fn handle_snooze_input(&mut self, snooze: Snooze, metrics: &mut Metrics) -> (r: (SnoozeOutcome, TimerChange))
        requires
            old(metrics).wf(),
        ensures
            final(metrics).wf(),
            exists|delay: Option<WakeDelay>, now: (i64, u32)|
                #![auto]
                now.1 < 1_000_000_000
                    && snooze_step(old(self)@, final(self)@, old(metrics)@, final(metrics)@, snooze, delay, r.0, r.1)
                    && delay_respects_wake(snooze, delay)
                    && delay_from_clock(snooze, delay, now),
    {
        let ghost snooze_v = snooze;
        let delay = match &snooze {
            Snooze::SetTimer { key: _, wake } => timestamp_secs_to_delay(*wake),
            Snooze::Cancel { key: _ } => None,
        };
        let ghost now: (i64, u32) = match snooze_v {
            Snooze::SetTimer { wake, .. } => choose|now: (i64, u32)|
                #![auto]
                now.1 < 1_000_000_000 && match delay_until_spec(wake.seconds, now.0, now.1) {
                    None => delay is None,
                    Some(n) => delay matches Some(d) && delay_nanos(d) == n,
                },
            Snooze::Cancel { .. } => (0i64, 0u32),
        };
        let r = self.decide(snooze, delay, metrics);
        assert(snooze_step(old(self)@, self@, old(metrics)@, metrics@, snooze_v, delay, r.0, r.1));
        assert(delay_respects_wake(snooze_v, delay));
        assert(delay_from_clock(snooze_v, delay, now));
        r
    }

    /// Records that the timer for `key` fired: it is no longer live, the expiration is counted,
    /// and the workflow handler is told.
    pub fn on_expired(&mut self, key: Key, metrics: &mut Metrics) -> (outcome: SnoozeOutcome)
        requires
            old(metrics).wf(),
        ensures
            final(metrics).wf(),
            final(self)@ == old(self)@.remove(key@),
            final(metrics)@ == (MetricsView {
                snooze_expirations: bump(old(metrics)@.snooze_expirations),
                in_flight_snooze_timers: drop_one(old(metrics)@.in_flight_snooze_timers),
                ..old(metrics)@
            }),
            outcome matches SnoozeOutcome::Expired { key: k } && k == key,
    {
        self.timers.remove(&key);
        metrics.record_snooze_expiration();
        SnoozeOutcome::Expired { key }
    }
}

} // verus!
