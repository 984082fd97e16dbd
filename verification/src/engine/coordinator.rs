//! Alarm-state coordination: snapshots, user actions, and publish reconciliation.
//!
//! The coordinator is the semantic authority for the alarm domain. It decides whether an input
//! changes the latest desired state for a key, gives every emitted [`Job`] a fresh id, tracks
//! speculative state until the job's outcome comes back, and interprets outcomes by id so that
//! stale results never replace newer intent. Each method here is one decision: it changes the
//! state and says what to send (a job, a confirmation, a snapshot); the runtime that owns the
//! channels performs the sends.

use vstd::prelude::*;

use crate::clock::utc_now;
use crate::collections::{keys_unique, lemma_entries_map_at, KeyMap};
use crate::engine::messages::DomainInput;
use crate::engine::policy::{
    opt_status, should_publish, spec_should_publish, spec_user_action_allowed, user_action_allowed,
};
use crate::engine::workflow::{Job, JobOutcome};
use crate::model::errors::{StateTransition, UpdateError};
use crate::model::key::{normalize_device, Key, KeyView};
use crate::model::status::{Severity, Source, State, Status, Timestamp};
use crate::model::user_action::{action_state, action_wake, UserAction};

verus! {

/// The id given to statuses restored at startup; every live id is larger.
pub const DEFAULT_HYDRATED_ID: u64 = 0;

/// The first id handed out to a live job.
pub const INITIAL_PUBLISH_ID: u64 = 1;

/// The abstract state of a coordinator.
pub struct CoordinatorView {
    /// State known to have been published successfully, with the id of the job that did it.
    pub confirmed: Map<KeyView, (Status, u64)>,
    /// The latest desired state per key, with the id of the job expected to settle it.
    pub speculative: Map<KeyView, (Status, u64)>,
    /// Ids of jobs whose user is waiting for a confirmation.
    pub pending: Set<u64>,
    /// The id the next decision will hand out.
    pub next_id: u64,
}

/// The latest known status for a key: speculative state wins over confirmed state.
pub open spec fn latest_status(v: CoordinatorView, k: KeyView) -> Option<Status> {
    if v.speculative.contains_key(k) {
        Some(v.speculative[k].0)
    } else if v.confirmed.contains_key(k) {
        Some(v.confirmed[k].0)
    } else {
        None
    }
}

/// The latest known state for a key, `Unknown` when nothing is known.
pub open spec fn latest_state(v: CoordinatorView, k: KeyView) -> State {
    match latest_status(v, k) {
        Some(s) => s.state,
        None => State::Unknown,
    }
}

/// The latest known wake time for a key.
pub open spec fn latest_wake(v: CoordinatorView, k: KeyView) -> Option<Timestamp> {
    match latest_status(v, k) {
        Some(s) => s.wake,
        None => None,
    }
}

/// A job carries exactly these fields.
pub open spec fn job_is(job: Job, id: u64, k: KeyView, status: Status, user_initiated: bool) -> bool {
    &&& job.id == id
    &&& job.key@ == k
    &&& job.status == status
    &&& job.user_initiated == user_initiated
}

/// What is dispatched for a key after a decision: the job for its speculative entry, marked
/// user-initiated when a user waits on that id, or nothing when no intent is pending.
pub open spec fn next_job_for(v: CoordinatorView, k: KeyView, job: Option<Job>) -> bool {
    if v.speculative.contains_key(k) {
        job matches Some(j) && job_is(
            j,
            v.speculative[k].1,
            k,
            v.speculative[k].0,
            v.pending.contains(v.speculative[k].1),
        )
    } else {
        job is None
    }
}

/// The key an automated status belongs to.
pub open spec fn status_key(status: Status) -> KeyView {
    (normalize_device(status.device@), status.source)
}

/// Applying an automated update: a publishable update becomes the latest intent under a fresh
/// id, and is dispatched unless a job for the key is already in flight.
pub open spec fn automated_update_step(
    old: CoordinatorView,
    new: CoordinatorView,
    status: Status,
    job: Option<Job>,
) -> bool {
    let k = status_key(status);
    if spec_should_publish(latest_status(old, k), status) {
        &&& new == CoordinatorView {
            speculative: old.speculative.insert(k, (status, old.next_id)),
            next_id: (old.next_id + 1) as u64,
            ..old
        }
        &&& if old.speculative.contains_key(k) {
            job is None
        } else {
            next_job_for(new, k, job)
        }
    } else {
        new == old && job is None
    }
}

/// A status written on behalf of a user: the key's device and source, the state and wake time
/// the action asks for, the user's name, a timestamp in whole seconds, and defaults elsewhere.
pub open spec fn is_user_status(s: Status, k: KeyView, action: UserAction, user: Seq<char>) -> bool {
    &&& s.device@ == k.0
    &&& s.source == k.1
    &&& s.state == action_state(action)
    &&& s.wake == action_wake(action)
    &&& s.user@ == user
    &&& s.severity == Severity::Unknown
    &&& !s.acknowledgeable
    &&& s.epics_type@ == Seq::<char>::empty()
    &&& s.time matches Some(t) && t.nanos == 0
}

/// The decision on a user update.
pub enum UserDecision {
    /// The action is allowed: its confirmation is owed under `id`, and `job` is to be dispatched.
    Accepted { id: u64, job: Option<Job> },
    /// The action is not allowed from the latest known state.
    Rejected(UpdateError),
}

/// Applying a user update: an allowed action becomes the latest intent under a fresh id whose
/// confirmation is owed; any other action is refused with the transition it asked for.
pub open spec fn user_update_step(
    old: CoordinatorView,
    new: CoordinatorView,
    key: Key,
    action: UserAction,
    user: Seq<char>,
    decision: UserDecision,
) -> bool {
    let k = key@;
    if spec_user_action_allowed(latest_state(old, k), latest_wake(old, k), action) {
        decision matches UserDecision::Accepted { id, job } && id == old.next_id && exists|
            s: Status,
        |
            #![auto]
            is_user_status(s, k, action, user) && new == CoordinatorView {
                speculative: old.speculative.insert(k, (s, id)),
                pending: old.pending.insert(id),
                next_id: (old.next_id + 1) as u64,
                ..old
            } && if old.speculative.contains_key(k) {
                job is None
            } else {
                next_job_for(new, k, job)
            }
    } else {
        &&& new == old
        &&& decision matches UserDecision::Rejected(UpdateError::StateNotAllowed(t))
        &&& t.key@ == k
        &&& t.current == latest_state(old, k)
        &&& t.requested == action_state(action)
    }
}

/// The outcome of reconciling a job outcome.
pub struct Reconciliation {
    /// A user confirmation to resolve: the id it is owed under and the result to send.
    pub confirmation: Option<(u64, Result<(), UpdateError>)>,
    /// The next job to dispatch, or the fault that leaves the coordinator without state for
    /// the key.
    pub dispatch: Result<Option<Job>, CoordinatorError>,
}

/// Faults that stop the coordinator.
#[derive(Debug)]
pub enum CoordinatorError {
    /// An outcome arrived for a key that has no speculative state.
    LostStateForJob,
}

/// The dispatch succeeded and carries what [`next_job_for`] says for the key.
pub open spec fn dispatches_next(v: CoordinatorView, k: KeyView, d: Result<Option<Job>, CoordinatorError>) -> bool {
    match d {
        Ok(j) => next_job_for(v, k, j),
        Err(_) => false,
    }
}

/// Reconciling a committed job: confirmed state advances, the user (if any) is told of the
/// success, and speculative intent is cleared only when the committed id is still the latest.
pub open spec fn success_step(old: CoordinatorView, new: CoordinatorView, job: Job, r: Reconciliation) -> bool {
    let k = job.key@;
    &&& r.confirmation == (if old.pending.contains(job.id) {
        Some((job.id, Ok::<(), UpdateError>(())))
    } else {
        None
    })
    &&& new.confirmed == old.confirmed.insert(k, (job.status, job.id))
    &&& new.pending == old.pending.remove(job.id)
    &&& new.next_id == old.next_id
    &&& if old.speculative.contains_key(k) && old.speculative[k].1 == job.id {
        new.speculative == old.speculative.remove(k) && r.dispatch == Ok::<
            Option<Job>,
            CoordinatorError,
        >(None)
    } else {
        new.speculative == old.speculative && dispatches_next(new, k, r.dispatch)
    }
}

/// The status a key falls back to when nothing was ever confirmed for it: its device and
/// source with every other field at its default.
pub open spec fn is_blank_status(s: Status, k: KeyView) -> bool {
    &&& s.device@ == k.0
    &&& s.source == k.1
    &&& s.severity == Severity::Unknown
    &&& s.state == State::Unknown
    &&& !s.acknowledgeable
    &&& s.time is None
    &&& s.epics_type@ == Seq::<char>::empty()
    &&& s.user@ == Seq::<char>::empty()
    &&& s.wake is None
}

/// The last confirmed entry for a key, or the blank status under the hydration id.
pub open spec fn is_fallback_entry(v: CoordinatorView, k: KeyView, entry: (Status, u64)) -> bool {
    if v.confirmed.contains_key(k) {
        entry == v.confirmed[k]
    } else {
        is_blank_status(entry.0, k) && entry.1 == DEFAULT_HYDRATED_ID
    }
}

/// Reconciling a failed job: the user (if any) is told of an internal error; a failed user job
/// that is still the latest intent rolls back to the last confirmed state; any other failure
/// leaves speculative intent in place; then the key's pending intent is dispatched again.
pub open spec fn failure_step(old: CoordinatorView, new: CoordinatorView, job: Job, r: Reconciliation) -> bool {
    let k = job.key@;
    let pending_after = old.pending.remove(job.id);
    &&& r.confirmation == (if old.pending.contains(job.id) {
        Some((job.id, Err::<(), UpdateError>(UpdateError::Internal(job.key))))
    } else {
        None
    })
    &&& if !old.speculative.contains_key(k) {
        new == CoordinatorView { pending: pending_after, ..old } && r.dispatch is Err
    } else if old.speculative[k].1 == job.id && job.user_initiated {
        exists|entry: (Status, u64)|
            #![auto]
            is_fallback_entry(old, k, entry) && new == CoordinatorView {
                speculative: old.speculative.insert(k, entry),
                pending: pending_after,
                ..old
            } && dispatches_next(new, k, r.dispatch)
    } else {
        new == CoordinatorView { pending: pending_after, ..old } && dispatches_next(new, k, r.dispatch)
    }
}

/// The status synthesized when a snooze timer wakes: the key's device and source, state
/// `Unbypassed`, a timestamp in whole seconds, and defaults elsewhere.
pub open spec fn is_wake_status(s: Status, key: Key) -> bool {
    &&& s.device@ == key.device@
    &&& s.source == key.source
    &&& s.state == State::Unbypassed
    &&& s.severity == Severity::Unknown
    &&& !s.acknowledgeable
    &&& s.epics_type@ == Seq::<char>::empty()
    &&& s.user@ == Seq::<char>::empty()
    &&& s.wake is None
    &&& s.time matches Some(t) && t.nanos == 0
}

/// Handling a snooze wake: an automated `Unbypassed` update for the key.
pub open spec fn wake_step(old: CoordinatorView, new: CoordinatorView, key: Key, job: Option<Job>) -> bool {
    exists|s: Status| #![auto] is_wake_status(s, key) && automated_update_step(old, new, s, job)
}

/// Statuses that appear in a snapshot: everything but `Ok` and `Unbypassed`.
pub open spec fn snapshot_visible(s: Status) -> bool {
    s.state != State::Nominal && s.state != State::Unbypassed
}

/// `ks` lists, once each, exactly the keys whose confirmed status is visible, and `snap` holds
/// their confirmed statuses in the same order.
pub open spec fn snapshot_keys(v: CoordinatorView, snap: Seq<Status>, ks: Seq<KeyView>) -> bool {
    &&& ks.no_duplicates()
    &&& ks.len() == snap.len()
    &&& forall|i: int|
        0 <= i < ks.len() ==> v.confirmed.contains_key(#[trigger] ks[i]) && snap[i]
            == v.confirmed[ks[i]].0 && snapshot_visible(snap[i])
    &&& forall|k: KeyView|
        v.confirmed.contains_key(k) && snapshot_visible(#[trigger] v.confirmed[k].0) ==> ks.contains(k)
}

/// A snapshot lists, in some order and once each, the confirmed status of every key whose
/// confirmed status is visible.
pub open spec fn is_snapshot_of(v: CoordinatorView, snap: Seq<Status>) -> bool {
    exists|ks: Seq<KeyView>| #[trigger] snapshot_keys(v, snap, ks)
}

/// Some entry before position `upto` holds the key `k`.
pub open spec fn key_among<V>(entries: Seq<(Key, V)>, upto: int, k: KeyView) -> bool {
    exists|e: int| 0 <= e < upto && entries[e].0@ == k
}

/// Owns alarm-state decisions and reconciles job outcomes back into domain state.
pub struct AlarmStateCoordinator {
    confirmed_state: KeyMap<(Status, u64)>,
    speculative_state: KeyMap<(Status, u64)>,
    pending_confirmations: Vec<u64>,
    id_counter: u64,
}

impl View for AlarmStateCoordinator {
    type V = CoordinatorView;

    closed spec fn view(&self) -> CoordinatorView {
        CoordinatorView {
            confirmed: self.confirmed_state@,
            speculative: self.speculative_state@,
            pending: self.pending_confirmations@.to_set(),
            next_id: self.id_counter,
        }
    }
}

impl AlarmStateCoordinator {
    /// The coordinator's internal bookkeeping is consistent: pending ids are distinct and all
    /// were handed out already, and live ids start above the hydration id.
    pub closed spec fn wf(&self) -> bool {
        &&& self.pending_confirmations@.no_duplicates()
        &&& forall|i: int|
            0 <= i < self.pending_confirmations@.len() ==> self.pending_confirmations@[i]
                < self.id_counter
        &&& self.id_counter >= INITIAL_PUBLISH_ID
    }

    /// Every pending id was handed out before the next id.
    pub proof fn lemma_pending_below_next(&self)
        requires
            self.wf(),
        ensures
            forall|id: u64| self@.pending.contains(id) ==> id < self@.next_id,
            self@.next_id >= INITIAL_PUBLISH_ID,
    {
        assert forall|id: u64| self@.pending.contains(id) implies id < self@.next_id by {
            let i = choose|i: int|
                0 <= i < self.pending_confirmations@.len() && self.pending_confirmations@[i] == id;
        }
    }

    /// Creates a coordinator whose confirmed state is seeded from hydrated statuses.
    ///
    /// Hydrated statuses carry the reserved baseline id so that the first live id is newer than
    /// any entry restored at startup.
    pub fn new(hydrated_statuses: KeyMap<Status>) -> (c: Self)
        ensures
            c.wf(),
            c@.confirmed == hydrated_statuses@.map_values(|s: Status| (s, DEFAULT_HYDRATED_ID)),
            c@.speculative == Map::<KeyView, (Status, u64)>::empty(),
            c@.pending == Set::<u64>::empty(),
            c@.next_id == INITIAL_PUBLISH_ID,
    {
        let ghost hydrated_view = hydrated_statuses@;
        let entries = hydrated_statuses.into_entries();
        let mut confirmed: KeyMap<(Status, u64)> = KeyMap::new();
        let mut i: usize = 0;
        while i < entries.len()
            invariant
                i <= entries@.len(),
                keys_unique(entries@),
                crate::collections::entries_map(entries@) == hydrated_view,
                forall|k: KeyView|
                    #![auto]
                    confirmed@.dom().contains(k) <==> exists|j: int|
                        0 <= j < i && entries@[j].0@ == k,
                forall|j: int|
                    #![auto]
                    0 <= j < i ==> confirmed@.dom().contains(entries@[j].0@) && confirmed@[entries@[j].0@]
                        == (entries@[j].1, DEFAULT_HYDRATED_ID),
            decreases entries@.len() - i,
        {
            let key = entries[i].0.clone();
            let status = entries[i].1.clone();
            confirmed.insert(key, (status, DEFAULT_HYDRATED_ID));
            proof {
                assert forall|j: int| #![auto] 0 <= j < i + 1 implies confirmed@.dom().contains(
                    entries@[j].0@,
                ) && confirmed@[entries@[j].0@] == (entries@[j].1, DEFAULT_HYDRATED_ID) by {
                    if j < i {
                        assert(entries@[j].0@ != entries@[i as int].0@);
                    }
                }
            }
            i = i + 1;
        }
        proof {
            assert forall|k: KeyView| #![auto] confirmed@.dom().contains(k) == hydrated_view.dom().contains(k) by {}
            assert forall|k: KeyView| #![auto] confirmed@.dom().contains(k) implies confirmed@[k] == (
                hydrated_view[k],
                DEFAULT_HYDRATED_ID,
            ) by {
                let j = choose|j: int| 0 <= j < entries@.len() && entries@[j].0@ == k;
                lemma_entries_map_at(entries@, j);
            }
            assert(confirmed@ =~= hydrated_view.map_values(|s: Status| (s, DEFAULT_HYDRATED_ID)));
        }
        let c = AlarmStateCoordinator {
            confirmed_state: confirmed,
            speculative_state: KeyMap::new(),
            pending_confirmations: Vec::new(),
            id_counter: INITIAL_PUBLISH_ID,
        };
        assert(c@.pending =~= Set::<u64>::empty());
        c
    }
}


/// Builds a user-authored status update from a requested action, stamped `now_secs`.
pub fn user_status_at(key: &Key, action: UserAction, user: String, now_secs: i64) -> (s: Status)
    ensures
        is_user_status(s, key@, action, user@),
        s.time == Some(Timestamp { seconds: now_secs, nanos: 0 }),
{
    Status {
        device: key.device.clone(),
        source: key.source,
        state: action.as_state(),
        wake: action.get_wake(),
        user,
        time: Some(Timestamp { seconds: now_secs, nanos: 0 }),
        severity: Severity::Unknown,
        acknowledgeable: false,
        epics_type: String::new(),
    }
}

/// Builds a user-authored status update from a requested action.
///
/// The timestamp is the current wall-clock time in whole seconds.
pub fn build_user_status(key: &Key, action: UserAction, user: String) -> (s: Status)
    ensures
        is_user_status(s, key@, action, user@),
{
    let now = utc_now();
    user_status_at(key, action, user, now.0)
}

/// The automated `Unbypassed` status synthesized when a snooze timer for `key` wakes,
/// stamped `now_secs`.
pub fn wake_status_at(key: Key, now_secs: i64) -> (s: Status)
    ensures
        is_wake_status(s, key),
        s.time == Some(Timestamp { seconds: now_secs, nanos: 0 }),
{
    Status {
        device: key.device,
        source: key.source,
        state: State::Unbypassed,
        time: Some(Timestamp { seconds: now_secs, nanos: 0 }),
        severity: Severity::Unknown,
        acknowledgeable: false,
        epics_type: String::new(),
        user: String::new(),
        wake: None,
    }
}

/// The automated `Unbypassed` status synthesized when a snooze timer for `key` wakes.
pub fn build_wake_status(key: Key) -> (s: Status)
    ensures
        is_wake_status(s, key),
{
    let now = utc_now();
    wake_status_at(key, now.0)
}

/// The status with only the key's device and source set.
fn blank_status(key: &Key) -> (s: Status)
    ensures
        is_blank_status(s, key@),
{
    Status {
        device: key.device.clone(),
        source: key.source,
        severity: Severity::Unknown,
        state: State::Unknown,
        acknowledgeable: false,
        time: None,
        epics_type: String::new(),
        user: String::new(),
        wake: None,
    }
}

impl AlarmStateCoordinator {
    /// Whether the id space is used up, so that no further job can be given a fresh id.
    pub fn ids_exhausted(&self) -> (r: bool)
        ensures
            r == (self@.next_id == u64::MAX),
    {
        self.id_counter == u64::MAX
    }

    /// Returns the latest known status, preferring speculative state over confirmed state.
    fn get_latest_status(&self, key: &Key) -> (r: Option<&Status>)
        ensures
            opt_status(r) == latest_status(self@, key@),
    {
        match self.speculative_state.get(key) {
            Some(entry) => Some(&entry.0),
            None => match self.confirmed_state.get(key) {
                Some(entry) => Some(&entry.0),
                None => None,
            },
        }
    }

    /// Allocates the next monotonically increasing id.
    fn get_next_id(&mut self) -> (id: u64)
        requires
            old(self).wf(),
            old(self).id_counter < u64::MAX,
        ensures
            final(self).wf(),
            id == old(self)@.next_id,
            final(self)@ == (CoordinatorView { next_id: (id + 1) as u64, ..old(self)@ }),
    {
        let id = self.id_counter;
        self.id_counter = self.id_counter + 1;
        id
    }

    /// The position of `id` among the pending confirmations.
    fn pending_index(&self, id: u64) -> (r: Option<usize>)
        ensures
            r matches Some(i) ==> i < self.pending_confirmations@.len()
                && self.pending_confirmations@[i as int] == id,
            r is None ==> !self@.pending.contains(id),
    {
        let mut i: usize = 0;
        while i < self.pending_confirmations.len()
            invariant
                i <= self.pending_confirmations@.len(),
                forall|j: int| 0 <= j < i ==> self.pending_confirmations@[j] != id,
            decreases self.pending_confirmations@.len() - i,
        {
            if self.pending_confirmations[i] == id {
                return Some(i);
            }
            i = i + 1;
        }
        None
    }

    /// Whether a user waits on a confirmation for `id`.
    fn is_pending(&self, id: u64) -> (r: bool)
        ensures
            r == self@.pending.contains(id),
    {
        match self.pending_index(id) {
            Some(i) => {
                assert(self.pending_confirmations@.contains(id));
                true
            },
            None => false,
        }
    }

    /// Records that a user waits on a confirmation for the fresh id `id`.
    fn add_pending(&mut self, id: u64)
        requires
            old(self).wf(),
            id == old(self).id_counter,
            old(self).id_counter < u64::MAX,
        ensures
            final(self).pending_confirmations@.no_duplicates(),
            forall|i: int|
                0 <= i < final(self).pending_confirmations@.len()
                    ==> final(self).pending_confirmations@[i] <= id,
            final(self)@ == (CoordinatorView { pending: old(self)@.pending.insert(id), ..old(self)@ }),
            final(self).id_counter == old(self).id_counter,
    {
        let ghost before = self.pending_confirmations@;
        self.pending_confirmations.push(id);
        proof {
            let after = self.pending_confirmations@;
            assert forall|a: int, b: int| 0 <= a < after.len() && 0 <= b < after.len() && a != b
                implies after[a] != after[b] by {
                if a < before.len() && b < before.len() {
                    assert(after[a] == before[a] && after[b] == before[b]);
                } else if a == before.len() {
                    assert(after[b] == before[b]);
                } else {
                    assert(after[a] == before[a]);
                }
            }
            assert(after.to_set() =~= before.to_set().insert(id)) by {
                assert forall|x: u64| after.to_set().contains(x) <==> before.to_set().insert(id).contains(x) by {
                    if after.to_set().contains(x) {
                        let j = choose|j: int| 0 <= j < after.len() && after[j] == x;
                        if j < before.len() {
                            assert(before[j] == x);
                        }
                    }
                    if before.to_set().contains(x) {
                        let j = choose|j: int| 0 <= j < before.len() && before[j] == x;
                        assert(after[j] == x);
                    }
                    if x == id {
                        assert(after[before.len() as int] == id);
                    }
                }
            }
        }
    }

    /// Removes `id` from the pending confirmations, returning whether it was there.
    fn remove_pending(&mut self, id: u64) -> (was_pending: bool)
        requires
            old(self).wf(),
        ensures
            final(self).wf(),
            was_pending == old(self)@.pending.contains(id),
            final(self)@ == (CoordinatorView { pending: old(self)@.pending.remove(id), ..old(self)@ }),
    {
        match self.pending_index(id) {
            None => {
                assert(self.pending_confirmations@.to_set() =~= self.pending_confirmations@.to_set().remove(id));
                false
            },
            Some(i) => {
                let ghost before = self.pending_confirmations@;
                assert(before.contains(id));
                self.pending_confirmations.remove(i);
                proof {
                    let after = self.pending_confirmations@;
                    assert(after =~= before.subrange(0, i as int) + before.subrange(i + 1, before.len() as int));
                    assert forall|j: int| 0 <= j < after.len() implies after[j] == before[if j < i { j } else { j + 1 }] by {}
                    assert forall|a: int, b: int| 0 <= a < after.len() && 0 <= b < after.len() && a != b
                        implies after[a] != after[b] by {
                        let oa = if a < i { a } else { a + 1 };
                        let ob = if b < i { b } else { b + 1 };
                        assert(after[a] == before[oa] && after[b] == before[ob]);
                    }
                    assert forall|j: int| 0 <= j < after.len() implies after[j] < self.id_counter by {
                        let oj = if j < i { j } else { j + 1 };
                        assert(after[j] == before[oj]);
                    }
                    assert forall|x: u64| after.to_set().contains(x) <==> before.to_set().remove(id).contains(x) by {
                        if after.to_set().contains(x) {
                            let j = choose|j: int| 0 <= j < after.len() && after[j] == x;
                            let oj = if j < i { j } else { j + 1 };
                            assert(after[j] == before[oj]);
                            assert(oj != i as int);
                        }
                        if before.to_set().contains(x) && x != id {
                            let j = choose|j: int| 0 <= j < before.len() && before[j] == x;
                            if j < i {
                                assert(after[j] == x);
                            } else {
                                assert(j != i as int);
                                assert(after[j - 1] == x);
                            }
                        }
                    }
                    assert(after.to_set() =~= before.to_set().remove(id));
                }
                true
            },
        }
    }

    /// Returns the job for `key`'s speculative intent, if any is pending.
    fn send_next_for(&self, key: &Key) -> (job: Option<Job>)
        ensures
            next_job_for(self@, key@, job),
    {
        match self.speculative_state.get(key) {
            Some(entry) => {
                let id = entry.1;
                Some(
                    Job {
                        id,
                        key: key.clone(),
                        status: entry.0.clone(),
                        user_initiated: self.is_pending(id),
                    },
                )
            },
            None => None,
        }
    }

    /// Returns the current confirmed snapshot: every confirmed status that is neither `Ok`
    /// nor `Unbypassed`. Speculative intent is never exposed.
    pub fn handle_snapshot(&self) -> (snap: Vec<Status>)
        ensures
            is_snapshot_of(self@, snap@),
            forall|i: int| 0 <= i < snap@.len() ==> (#[trigger] snap@[i]).state != State::Nominal
                && snap@[i].state != State::Unbypassed,
            forall|k: KeyView|
                #![trigger self@.confirmed[k]]
                self@.confirmed.contains_key(k) ==> (snap@.contains(self@.confirmed[k].0) <==> (
                self@.confirmed[k].0.state != State::Nominal && self@.confirmed[k].0.state
                    != State::Unbypassed)),
    {
        let n = self.confirmed_state.num_entries();
        let mut snap: Vec<Status> = Vec::new();
        let ghost mut ks: Seq<KeyView> = Seq::empty();
        let ghost entries = self.confirmed_state.entries();
        let mut i: usize = 0;
        while i < n
            invariant
                n == entries.len(),
                entries == self.confirmed_state.entries(),
                keys_unique(entries),
                i <= n,
                ks.len() == snap@.len(),
                ks.no_duplicates(),
                forall|j: int| 0 <= j < ks.len() ==> key_among(entries, i as int, #[trigger] ks[j]),
                forall|j: int|
                    #![auto]
                    0 <= j < ks.len() ==> self@.confirmed.contains_key(ks[j]) && snap@[j]
                        == self@.confirmed[ks[j]].0 && snapshot_visible(snap@[j]),
                forall|e: int|
                    #![auto]
                    0 <= e < i && snapshot_visible(entries[e].1.0) ==> ks.contains(entries[e].0@),
            decreases n - i,
        {
            let entry = self.confirmed_state.entry_at(i);
            proof {
                lemma_entries_map_at(entries, i as int);
            }
            let state = entry.1.0.state;
            if state != State::Nominal && state != State::Unbypassed {
                proof {
                    assert forall|j: int| 0 <= j < ks.len() implies #[trigger] ks[j] != entries[i as int].0@ by {
                        assert(key_among(entries, i as int, ks[j]));
                        let e = choose|e: int| 0 <= e < i && entries[e].0@ == ks[j];
                        assert(e != i as int);
                    }
                }
                snap.push(entry.1.0.clone());
                proof {
                    let old_ks = ks;
                    ks = ks.push(entry.0@);
                    assert forall|j: int| 0 <= j < ks.len() implies key_among(entries, i + 1, #[trigger] ks[j]) by {
                        if j < old_ks.len() {
                            assert(key_among(entries, i as int, old_ks[j]));
                            let e = choose|e: int| 0 <= e < i && entries[e].0@ == old_ks[j];
                            assert(entries[e].0@ == ks[j]);
                        } else {
                            assert(entries[i as int].0@ == ks[j]);
                        }
                    }
                    assert forall|e: int| #![auto] 0 <= e < i + 1 && snapshot_visible(entries[e].1.0)
                        implies ks.contains(entries[e].0@) by {
                        if e < i {
                            assert(old_ks.contains(entries[e].0@));
                            let j = choose|j: int| 0 <= j < old_ks.len() && old_ks[j] == entries[e].0@;
                            assert(ks[j] == entries[e].0@);
                        } else {
                            assert(ks[old_ks.len() as int] == entries[e].0@);
                        }
                    }
                }
            }
            i = i + 1;
        }
        proof {
            assert forall|k: KeyView|
                self@.confirmed.contains_key(k) && snapshot_visible(self@.confirmed[k].0) implies ks.contains(
                k,
            ) by {
                let e = choose|e: int| 0 <= e < entries.len() && entries[e].0@ == k;
                lemma_entries_map_at(entries, e);
            }
            assert(snapshot_keys(self@, snap@, ks));
            crate::engine::coordinator_laws::law_snapshot_lists_all_but_ok_and_unbypassed(self@, snap@);
        }
        snap
    }

    /// Applies an automated status update.
    ///
    /// If the update changes the latest desired state for its key, it becomes the key's
    /// speculative state under a fresh id; a job is dispatched for it unless one is already in
    /// flight for the key, in which case the newer intent is dispatched when that one settles.
    pub fn handle_automated_update(&mut self, status: Status) -> (job: Option<Job>)
        requires
            old(self).wf(),
            spec_should_publish(latest_status(old(self)@, status_key(status)), status)
                ==> old(self)@.next_id < u64::MAX,
        ensures
            final(self).wf(),
            automated_update_step(old(self)@, final(self)@, status, job),
    {
        let key = Key::from(&status);
        let publish = {
            let prev = self.get_latest_status(&key);
            should_publish(prev, &key, &status)
        };
        if publish {
            proof {
                self.lemma_pending_below_next();
            }
            let id = self.get_next_id();
            let in_flight = self.speculative_state.insert(key.clone(), (status, id));
            if in_flight.is_none() {
                return self.send_next_for(&key);
            }
        }
        None
    }

    /// Applies a user-requested state transition.
    ///
    /// An allowed action becomes the key's speculative state under a fresh id, and its
    /// confirmation is owed under that id until the job's outcome is reconciled. Any other
    /// action is refused with the transition it asked for.
    pub fn handle_user_update(&mut self, key: Key, action: UserAction, user: String) -> (decision: UserDecision)
        requires
            old(self).wf(),
            spec_user_action_allowed(latest_state(old(self)@, key@), latest_wake(old(self)@, key@), action)
                ==> old(self)@.next_id < u64::MAX,
        ensures
            final(self).wf(),
            user_update_step(old(self)@, final(self)@, key, action, user@, decision),
    {
        let (latest_state, latest_wake) = match self.get_latest_status(&key) {
            Some(status) => (status.state, status.wake),
            None => (State::Unknown, None),
        };
        if user_action_allowed(latest_state, latest_wake, &action) {
            let ghost user_view = user@;
            let updated_status = build_user_status(&key, action, user);
            proof {
                self.lemma_pending_below_next();
            }
            let id = self.id_counter;
            self.add_pending(id);
            self.id_counter = self.id_counter + 1;
            let ghost mid = self@;
            let in_flight = self.speculative_state.insert(key.clone(), (updated_status, id));
            let job = if in_flight.is_none() {
                self.send_next_for(&key)
            } else {
                None
            };
            assert(is_user_status(updated_status, key@, action, user_view));
            UserDecision::Accepted { id, job }
        } else {
            UserDecision::Rejected(
                UpdateError::StateNotAllowed(
                    StateTransition { key, current: latest_state, requested: action.as_state() },
                ),
            )
        }
    }
}


/// The decision on one domain input.
pub enum MessageOutcome {
    /// The snapshot to hand back to the requester.
    Snapshot(Vec<Status>),
    /// The job to dispatch after an automated update, if any.
    Dispatch(Option<Job>),
    /// The decision on a user update.
    User(UserDecision),
}

/// Whether handling `input` hands out a fresh id: an automated update that is worth
/// publishing, or a user action that is allowed.
pub open spec fn needs_fresh_id(v: CoordinatorView, input: DomainInput) -> bool {
    match input {
        DomainInput::SnapshotRequest => false,
        DomainInput::AutomatedUpdate(status) => spec_should_publish(latest_status(v, status_key(status)), status),
        DomainInput::UserUpdate { key, action, .. } => spec_user_action_allowed(
            latest_state(v, key@),
            latest_wake(v, key@),
            action,
        ),
    }
}

/// Handling a domain input is the step its kind calls for.
pub open spec fn message_step(old: CoordinatorView, new: CoordinatorView, input: DomainInput, out: MessageOutcome) -> bool {
    match input {
        DomainInput::SnapshotRequest => new == old && (out matches MessageOutcome::Snapshot(snap)
            && is_snapshot_of(old, snap@)),
        DomainInput::AutomatedUpdate(status) => out matches MessageOutcome::Dispatch(job)
            && automated_update_step(old, new, status, job),
        DomainInput::UserUpdate { key, action, user } => out matches MessageOutcome::User(d)
            && user_update_step(old, new, key, action, user@, d),
    }
}

/// Reconciling an outcome is the step its kind calls for.
pub open spec fn outcome_step(old: CoordinatorView, new: CoordinatorView, outcome: JobOutcome, r: Reconciliation) -> bool {
    match outcome {
        JobOutcome::Committed(job) => success_step(old, new, job, r),
        JobOutcome::Failed(job) => failure_step(old, new, job, r),
        JobOutcome::Wake(key) => r.confirmation is None && (r.dispatch matches Ok(job) && wake_step(
            old,
            new,
            key,
            job,
        )),
    }
}

impl AlarmStateCoordinator {
    /// Handles one domain input.
    pub fn handle_message(&mut self, message: DomainInput) -> (out: MessageOutcome)
        requires
            old(self).wf(),
            needs_fresh_id(old(self)@, message) ==> old(self)@.next_id < u64::MAX,
        ensures
            final(self).wf(),
            message_step(old(self)@, final(self)@, message, out),
    {
        match message {
            DomainInput::SnapshotRequest => MessageOutcome::Snapshot(self.handle_snapshot()),
            DomainInput::AutomatedUpdate(status) => MessageOutcome::Dispatch(
                self.handle_automated_update(status),
            ),
            DomainInput::UserUpdate { key, action, user } => MessageOutcome::User(
                self.handle_user_update(key, action, user),
            ),
        }
    }

    /// Rolls speculative state for `key` back to its last confirmed state, or to the blank
    /// status under the hydration id when nothing was ever confirmed.
    fn converge_to_last_confirmed(&mut self, key: &Key)
        requires
            old(self).wf(),
        ensures
            final(self).wf(),
            exists|entry: (Status, u64)|
                #![auto]
                is_fallback_entry(old(self)@, key@, entry) && final(self)@ == (CoordinatorView {
                    speculative: old(self)@.speculative.insert(key@, entry),
                    ..old(self)@
                }),
    {
        let confirmed_entry = match self.confirmed_state.get(key) {
            Some(entry) => (entry.0.clone(), entry.1),
            None => (blank_status(key), DEFAULT_HYDRATED_ID),
        };
        let ghost entry = confirmed_entry;
        self.speculative_state.insert(key.clone(), confirmed_entry);
        assert(is_fallback_entry(old(self)@, key@, entry));
    }

    /// Reconciles a committed job.
    ///
    /// Confirmed state always advances for the key. Speculative state is cleared only when the
    /// committed id is still the key's latest intent; otherwise the newer intent is dispatched.
    /// A user waiting on the id is told of the success.
    pub fn reconcile_success(&mut self, success: Job) -> (r: Reconciliation)
        requires
            old(self).wf(),
        ensures
            final(self).wf(),
            success_step(old(self)@, final(self)@, success, r),
    {
        let was_pending = self.remove_pending(success.id);
        let confirmation = if was_pending {
            Some((success.id, Ok(())))
        } else {
            None
        };
        let ghost after_pending = self@;
        let mut dispatch: Option<Job> = None;
        let spec_id = match self.speculative_state.get(&success.key) {
            Some(entry) => Some(entry.1),
            None => None,
        };
        match spec_id {
            Some(id) => {
                if id == success.id {
                    self.speculative_state.remove(&success.key);
                } else {
                    dispatch = self.send_next_for(&success.key);
                }
            },
            None => {
                dispatch = self.send_next_for(&success.key);
            },
        }
        let ghost mid = self@;
        self.confirmed_state.insert(success.key, (success.status, success.id));
        proof {
            if spec_id is Some && spec_id->0 != success.id {
                assert(next_job_for(mid, success.key@, dispatch));
            }
        }
        Reconciliation { confirmation, dispatch: Ok(dispatch) }
    }

    /// Reconciles a failed job.
    ///
    /// A user waiting on the id is told of an internal error. A failed user job that is still
    /// the key's latest intent rolls speculative state back to the last confirmed state;
    /// automated failures and stale failures leave speculative intent in place. The key's
    /// pending intent is then dispatched again. An outcome for a key without speculative state
    /// is a fault.
    pub fn reconcile_failure(&mut self, job: Job) -> (r: Reconciliation)
        requires
            old(self).wf(),
        ensures
            final(self).wf(),
            failure_step(old(self)@, final(self)@, job, r),
    {
        let was_pending = self.remove_pending(job.id);
        let confirmation = if was_pending {
            Some((job.id, Err(UpdateError::Internal(job.key.clone()))))
        } else {
            None
        };
        let spec_id = match self.speculative_state.get(&job.key) {
            Some(entry) => entry.1,
            None => {
                return Reconciliation {
                    confirmation,
                    dispatch: Err(CoordinatorError::LostStateForJob),
                };
            },
        };
        let ghost mid = self@;
        if spec_id == job.id && job.user_initiated {
            self.converge_to_last_confirmed(&job.key);
            proof {
                let entry = choose|entry: (Status, u64)|
                    #![auto]
                    is_fallback_entry(mid, job.key@, entry) && self@ == (CoordinatorView {
                        speculative: mid.speculative.insert(job.key@, entry),
                        ..mid
                    });
                assert(is_fallback_entry(old(self)@, job.key@, entry));
            }
        }
        let dispatch = self.send_next_for(&job.key);
        let r = Reconciliation { confirmation, dispatch: Ok(dispatch) };
        assert(dispatches_next(self@, job.key@, r.dispatch));
        r
    }

    /// Synthesizes an automated `Unbypassed` update for `key` and applies it.
    pub fn dispatch_automated_wake(&mut self, key: Key) -> (job: Option<Job>)
        requires
            old(self).wf(),
            old(self)@.next_id < u64::MAX,
        ensures
            final(self).wf(),
            wake_step(old(self)@, final(self)@, key, job),
    {
        let status = build_wake_status(key);
        self.handle_automated_update(status)
    }

    /// Reconciles one job outcome or timer wake.
    pub fn reconcile_job_outcome(&mut self, outcome: JobOutcome) -> (r: Reconciliation)
        requires
            old(self).wf(),
            outcome is Wake ==> old(self)@.next_id < u64::MAX,
        ensures
            final(self).wf(),
            outcome_step(old(self)@, final(self)@, outcome, r),
    {
        match outcome {
            JobOutcome::Committed(job) => self.reconcile_success(job),
            JobOutcome::Failed(job) => self.reconcile_failure(job),
            JobOutcome::Wake(key) => {
                let job = self.dispatch_automated_wake(key);
                Reconciliation { confirmation: None, dispatch: Ok(job) }
            },
        }
    }

    /// Finds a key whose speculative intent carries `id`.
    fn find_key_for_id(&self, id: u64) -> (r: Option<Key>)
        ensures
            r matches Some(k) ==> self@.speculative.contains_key(k@) && self@.speculative[k@].1 == id,
            r is None ==> forall|k: KeyView| #![auto] self@.speculative.contains_key(k) ==> self@.speculative[k].1 != id,
    {
        let n = self.speculative_state.num_entries();
        let ghost entries = self.speculative_state.entries();
        let mut i: usize = 0;
        while i < n
            invariant
                n == entries.len(),
                entries == self.speculative_state.entries(),
                keys_unique(entries),
                i <= n,
                forall|j: int| 0 <= j < i ==> (#[trigger] entries[j]).1.1 != id,
            decreases n - i,
        {
            let entry = self.speculative_state.entry_at(i);
            if entry.1.1 == id {
                proof {
                    lemma_entries_map_at(entries, i as int);
                }
                return Some(entry.0.clone());
            }
            i = i + 1;
        }
        proof {
            assert forall|k: KeyView| #![auto] self@.speculative.contains_key(k) implies self@.speculative[k].1 != id by {
                let j = choose|j: int| 0 <= j < entries.len() && entries[j].0@ == k;
                lemma_entries_map_at(entries, j);
                assert(entries[j].1.1 != id);
            }
        }
        None
    }

    /// Fails every pending user confirmation, for a coordinator that is shutting down.
    ///
    /// Each pending id whose intent is still speculative for some key yields an internal error
    /// for that key, so that waiting callers get an answer; all pending ids are dropped.
    pub fn fail_all_confirmations(&mut self) -> (failed: Vec<(u64, UpdateError)>)
        requires
            old(self).wf(),
        ensures
            final(self).wf(),
            final(self)@ == (CoordinatorView { pending: Set::<u64>::empty(), ..old(self)@ }),
            forall|i: int|
                0 <= i < failed@.len() ==> old(self)@.pending.contains((#[trigger] failed@[i]).0)
                    && internal_for_intent(old(self)@.speculative, failed@[i]),
            forall|i: int, j: int|
                0 <= i < failed@.len() && 0 <= j < failed@.len() && i != j ==> (#[trigger] failed@[i]).0
                    != (#[trigger] failed@[j]).0,
            forall|id: u64|
                old(self)@.pending.contains(id) && #[trigger] has_intent_with_id(old(self)@.speculative, id)
                    ==> failed_has(failed@, id),
    {
        let mut pending: Vec<u64> = Vec::new();
        std::mem::swap(&mut pending, &mut self.pending_confirmations);
        let ghost old_view = old(self)@;
        let mut failed: Vec<(u64, UpdateError)> = Vec::new();
        let mut i: usize = 0;
        while i < pending.len()
            invariant
                i <= pending@.len(),
                pending@.no_duplicates(),
                pending@.to_set() == old_view.pending,
                self@.speculative == old_view.speculative,
                forall|a: int| 0 <= a < failed@.len() ==> id_among(pending@, i as int, (#[trigger] failed@[a]).0),
                forall|a: int| 0 <= a < failed@.len() ==> internal_for_intent(old_view.speculative, #[trigger] failed@[a]),
                forall|a: int, b: int|
                    0 <= a < failed@.len() && 0 <= b < failed@.len() && a != b ==> (#[trigger] failed@[a]).0
                        != (#[trigger] failed@[b]).0,
                forall|b: int|
                    0 <= b < i && has_intent_with_id(old_view.speculative, #[trigger] pending@[b])
                        ==> failed_has(failed@, pending@[b]),
            decreases pending@.len() - i,
        {
            let id = pending[i];
            match self.find_key_for_id(id) {
                Some(key) => {
                    proof {
                        assert forall|a: int| 0 <= a < failed@.len() implies (#[trigger] failed@[a]).0 != id by {
                            assert(id_among(pending@, i as int, failed@[a].0));
                            let b = choose|b: int| 0 <= b < i && pending@[b] == failed@[a].0;
                            assert(b != i as int);
                        }
                    }
                    let ghost before = failed@;
                    failed.push((id, UpdateError::Internal(key)));
                    proof {
                        assert forall|b: int| 0 <= b < i + 1 && has_intent_with_id(old_view.speculative, #[trigger] pending@[b])
                            implies failed_has(failed@, pending@[b]) by {
                            if b < i {
                                let a = choose|a: int| 0 <= a < before.len() && before[a].0 == pending@[b];
                                assert(failed@[a] == before[a]);
                            } else {
                                assert(failed@[before.len() as int].0 == pending@[b]);
                            }
                        }
                        assert forall|a: int| 0 <= a < failed@.len() implies id_among(pending@, i + 1, (#[trigger] failed@[a]).0) by {
                            if a < before.len() {
                                assert(failed@[a] == before[a]);
                                assert(id_among(pending@, i as int, before[a].0));
                                let b = choose|b: int| 0 <= b < i && pending@[b] == before[a].0;
                            } else {
                                assert(pending@[i as int] == failed@[a].0);
                            }
                        }
                    }
                },
                None => {
                    proof {
                        assert forall|b: int| 0 <= b < i + 1 && has_intent_with_id(old_view.speculative, #[trigger] pending@[b])
                            implies failed_has(failed@, pending@[b]) by {
                            if b == i {
                                let k = choose|k: KeyView| old_view.speculative.contains_key(k) && old_view.speculative[k].1 == id;
                            }
                        }
                        assert forall|a: int| 0 <= a < failed@.len() implies id_among(pending@, i + 1, (#[trigger] failed@[a]).0) by {
                            assert(id_among(pending@, i as int, failed@[a].0));
                            let b = choose|b: int| 0 <= b < i && pending@[b] == failed@[a].0;
                        }
                    }
                },
            }
            i = i + 1;
        }
        proof {
            assert forall|a: int| 0 <= a < failed@.len() implies old_view.pending.contains((#[trigger] failed@[a]).0) by {
                assert(id_among(pending@, pending@.len() as int, failed@[a].0));
                let b = choose|b: int| 0 <= b < pending@.len() && pending@[b] == failed@[a].0;
                assert(pending@.contains(failed@[a].0));
            }
            assert forall|id: u64| old_view.pending.contains(id) && #[trigger] has_intent_with_id(old_view.speculative, id)
                implies failed_has(failed@, id) by {
                assert(pending@.to_set().contains(id));
                let b = choose|b: int| 0 <= b < pending@.len() && pending@[b] == id;
                assert(has_intent_with_id(old_view.speculative, pending@[b]));
            }
            assert(self.pending_confirmations@.to_set() =~= Set::<u64>::empty());
        }
        failed
    }
}

/// Some position before `upto` holds `id`.
pub open spec fn id_among(ids: Seq<u64>, upto: int, id: u64) -> bool {
    exists|b: int| 0 <= b < upto && ids[b] == id
}

/// Some failure is reported for `id`.
pub open spec fn failed_has(failed: Seq<(u64, UpdateError)>, id: u64) -> bool {
    exists|a: int| 0 <= a < failed.len() && failed[a].0 == id
}

/// Some key's speculative intent carries `id`.
pub open spec fn has_intent_with_id(speculative: Map<KeyView, (Status, u64)>, id: u64) -> bool {
    exists|k: KeyView| speculative.contains_key(k) && speculative[k].1 == id
}

/// The failure is an internal error for a key whose speculative intent carries its id.
pub open spec fn internal_for_intent(speculative: Map<KeyView, (Status, u64)>, f: (u64, UpdateError)) -> bool {
    f.1 matches UpdateError::Internal(k) && speculative.contains_key(k@) && speculative[k@].1 == f.0
}

} // verus!
