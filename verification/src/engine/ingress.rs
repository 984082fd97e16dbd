//! Ingress decisions for automated and user-driven coordinator traffic.
//!
//! Automated updates use a two-mode overload policy. In normal mode an update is offered
//! directly to the coordinator queue. When that queue is full, ingress enters overload mode:
//! the latest status per key is retained in an insertion-ordered map, every later automated
//! update is merged into it, and a single drain loop sends the retained statuses oldest first.
//! Overload mode ends once the drain loop finds nothing left. User commands are never
//! coalesced; when their queue is full they are rejected.

use std::time::{Duration, Instant};

use ringmap::RingMap;
use vstd::prelude::*;

use crate::metrics::{bump, observed, saturated_millis, Metrics, MetricsView};
use crate::model::key::{normalize_device, Key};
use crate::model::status::Status;

verus! {

/// Why a user command could not be queued.
#[derive(Debug, Clone, Copy, PartialEq, Eq, Structural)]
pub enum ChannelSendError {
    /// The coordinator has stopped.
    Closed,
    /// The user queue is full.
    Full,
}

#[verifier::external_type_specification]
#[verifier::external_body]
#[verifier::reject_recursive_types(K)]
#[verifier::reject_recursive_types(V)]
#[verifier::reject_recursive_types(S)]
pub struct ExRingMap<K, V, S>(RingMap<K, V, S>);

#[verifier::external_type_specification]
#[verifier::external_body]
pub struct ExInstant(Instant);

/// The entries of a retained-status map, in order (oldest first).
pub uninterp spec fn retained_entries(m: RingMap<Key, Status>) -> Seq<(Key, Status)>;

/// No two entries share a key.
pub open spec fn retained_keys_unique(s: Seq<(Key, Status)>) -> bool {
    forall|i: int, j: int| 0 <= i < s.len() && 0 <= j < s.len() && i != j ==> s[i].0@ != s[j].0@
}

/// Inserting into an ordered map: an existing key keeps its key and its place and takes the
/// new value, and the old value is returned; a new key goes last.
pub open spec fn retained_insert(
    old: Seq<(Key, Status)>,
    new: Seq<(Key, Status)>,
    key: Key,
    value: Status,
    r: Option<Status>,
) -> bool {
    if exists|i: int| 0 <= i < old.len() && old[i].0@ == key@ {
        exists|i: int|
            0 <= i < old.len() && old[i].0@ == key@ && new == old.update(i, (old[i].0, value))
                && r == Some(old[i].1)
    } else {
        new == old.push((key, value)) && r is None
    }
}

/// Calls `RingMap::new`; the map is empty.
#[verifier::external_body]
fn retained_new() -> (m: RingMap<Key, Status>)
    ensures
        retained_entries(m) == Seq::<(Key, Status)>::empty(),
{
    RingMap::new()
}

/// Calls `RingMap::insert`: an equivalent key (equal device and source) keeps its place and
/// takes the new value, returning the old one; otherwise the pair is appended last. Keys stay
/// unique.
#[verifier::external_body]
fn retained_insert_call(m: &mut RingMap<Key, Status>, key: Key, value: Status) -> (r: Option<Status>)
    ensures
        retained_insert(retained_entries(*old(m)), retained_entries(*final(m)), key, value, r),
        retained_keys_unique(retained_entries(*old(m))) ==> retained_keys_unique(retained_entries(*final(m))),
{
    m.insert(key, value)
}

/// Calls `RingMap::pop_front`: removes and returns the first pair, keeping the order of the
/// rest; `None` when the map is empty.
#[verifier::external_body]
fn retained_pop_front(m: &mut RingMap<Key, Status>) -> (r: Option<(Key, Status)>)
    ensures
        retained_entries(*old(m)).len() == 0 ==> r is None && retained_entries(*final(m)) == retained_entries(*old(m)),
        retained_entries(*old(m)).len() > 0 ==> r == Some(retained_entries(*old(m))[0])
            && retained_entries(*final(m)) == retained_entries(*old(m)).drop_first(),
{
    m.pop_front()
}

/// Calls `RingMap::len`; the number of pairs.
#[verifier::external_body]
fn retained_len(m: &RingMap<Key, Status>) -> (n: usize)
    ensures
        n == retained_entries(*m).len(),
{
    m.len()
}

/// Calls `Instant::now`; the current monotonic time.
#[verifier::external_body]
fn instant_now() -> (i: Instant) {
    Instant::now()
}

/// Calls `Instant::elapsed`; the time passed since `i`.
#[verifier::external_body]
fn instant_elapsed(i: &Instant) -> (d: Duration) {
    i.elapsed()
}

/// Leaving overload mode after `d` is recorded: the exit is counted, the retained-key gauge is
/// cleared, and `d` is observed.
pub open spec fn exit_recorded(old: MetricsView, new: MetricsView, d: Duration) -> bool {
    new == (MetricsView {
        overload_exits: bump(old.overload_exits),
        retained_automated_keys: 0,
        overload_duration_ms: observed(old.overload_duration_ms, saturated_millis(d)),
        ..old
    })
}

/// The abstract overload state: whether overload mode is on, whether its start time is held,
/// and the retained statuses in order.
pub struct OverloadView {
    pub overload_mode: bool,
    pub entered: bool,
    pub pending: Seq<(Key, Status)>,
}

/// The overload state shared by automated ingress and its drain loop.
pub struct OverloadState {
    overload_mode: bool,
    entered_at: Option<Instant>,
    pending: RingMap<Key, Status>,
}

/// Retaining `status` under its key, as [`retained_insert`] describes.
pub open spec fn retains(old: Seq<(Key, Status)>, new: Seq<(Key, Status)>, status: Status) -> bool {
    exists|key: Key, r: Option<Status>|
        key@ == (normalize_device(status.device@), status.source) && #[trigger] retained_insert(
            old,
            new,
            key,
            status,
            r,
        )
}

impl OverloadState {
    /// The abstract state.
    pub closed spec fn view(&self) -> OverloadView {
        OverloadView {
            overload_mode: self.overload_mode,
            entered: self.entered_at is Some,
            pending: retained_entries(self.pending),
        }
    }

    /// Retained keys are unique.
    pub closed spec fn wf(&self) -> bool {
        retained_keys_unique(retained_entries(self.pending))
    }

    /// Normal mode with nothing retained.
    pub fn new() -> (s: Self)
        ensures
            s.wf(),
            s@ == (OverloadView { overload_mode: false, entered: false, pending: Seq::empty() }),
    {
        OverloadState { overload_mode: false, entered_at: None, pending: retained_new() }
    }

    /// In overload mode, merges `status` into the retained map (latest per key) and records how
    /// many keys are retained; the status is then owned by the drain loop. In normal mode the
    /// status is handed back for a direct send.
    pub fn retain_if_overloaded(&mut self, status: Status, metrics: &mut Metrics) -> (r: Option<Status>)
        requires
            old(self).wf(),
            old(metrics).wf(),
        ensures
            final(self).wf(),
            final(metrics).wf(),
            !old(self)@.overload_mode ==> r == Some(status) && final(self)@ == old(self)@ && final(metrics)@ == old(metrics)@,
            old(self)@.overload_mode ==> {
                &&& r is None
                &&& final(self)@.overload_mode == old(self)@.overload_mode
                &&& final(self)@.entered == old(self)@.entered
                &&& retains(old(self)@.pending, final(self)@.pending, status)
                &&& final(metrics)@ == (MetricsView { retained_automated_keys: final(self)@.pending.len() as usize, ..old(metrics)@ })
            },
    {
        if self.overload_mode {
            let key = Key::from(&status);
            let ghost k = key;
            let ghost st = status;
            let r = retained_insert_call(&mut self.pending, key, status);
            assert(retained_insert(old(self)@.pending, self@.pending, k, st, r));
            let n = retained_len(&self.pending);
            metrics.record_retained_automated_keys(n);
            None
        } else {
            Some(status)
        }
    }

    /// A direct send found the queue full: the fullness is counted, `status` is retained,
    /// overload mode starts now, and the entry is counted with the number of retained keys. The
    /// caller then wakes the drain loop.
    pub fn enter_overload(&mut self, status: Status, metrics: &mut Metrics)
        requires
            old(self).wf(),
            old(metrics).wf(),
        ensures
            final(self).wf(),
            final(metrics).wf(),
            final(self)@.overload_mode,
            final(self)@.entered,
            retains(old(self)@.pending, final(self)@.pending, status),
            final(metrics)@ == (MetricsView {
                automated_queue_full: bump(old(metrics)@.automated_queue_full),
                overload_entries: bump(old(metrics)@.overload_entries),
                retained_automated_keys: final(self)@.pending.len() as usize,
                ..old(metrics)@
            }),
    {
        metrics.record_automated_queue_full();
        let key = Key::from(&status);
        let ghost k = key;
        let ghost st = status;
        let r = retained_insert_call(&mut self.pending, key, status);
        assert(retained_insert(old(self)@.pending, self@.pending, k, st, r));
        self.overload_mode = true;
        self.entered_at = Some(instant_now());
        let n = retained_len(&self.pending);
        metrics.record_overload_entry(n);
    }

    /// One pass of the drain loop: the oldest retained status is taken out to be sent, and the
    /// number of retained keys is recorded. When nothing is left, overload mode ends, and if its
    /// start time was held, the exit and how long the overload lasted are recorded.
    pub fn next_to_drain(&mut self, metrics: &mut Metrics) -> (r: Option<Status>)
        requires
            old(self).wf(),
            old(metrics).wf(),
            old(metrics)@.overload_duration_ms.samples < u64::MAX,
        ensures
            final(self).wf(),
            final(metrics).wf(),
            old(self)@.pending.len() > 0 ==> {
                &&& r == Some(old(self)@.pending[0].1)
                &&& final(self)@ == (OverloadView { pending: old(self)@.pending.drop_first(), ..old(self)@ })
                &&& final(metrics)@ == (MetricsView { retained_automated_keys: (old(self)@.pending.len() - 1) as usize, ..old(metrics)@ })
            },
            old(self)@.pending.len() == 0 ==> {
                &&& r is None
                &&& final(self)@ == (OverloadView { overload_mode: false, entered: false, ..old(self)@ })
                &&& if old(self)@.entered {
                    exists|d: Duration| #[trigger] exit_recorded(old(metrics)@, final(metrics)@, d)
                } else {
                    final(metrics)@ == (MetricsView { retained_automated_keys: 0, ..old(metrics)@ })
                }
            },
    {
        let next = retained_pop_front(&mut self.pending);
        let n = retained_len(&self.pending);
        metrics.record_retained_automated_keys(n);
        match next {
            Some(entry) => {
                proof {
                    let s = old(self)@.pending;
                    assert forall|i: int, j: int| 0 <= i < s.len() - 1 && 0 <= j < s.len() - 1 && i != j
                        implies s.drop_first()[i].0@ != s.drop_first()[j].0@ by {
                        assert(s.drop_first()[i] == s[i + 1] && s.drop_first()[j] == s[j + 1]);
                    }
                }
                Some(entry.1)
            },
            None => {
                self.overload_mode = false;
                let entered = self.entered_at.take();
                match entered {
                    Some(entered_at) => {
                        let elapsed = instant_elapsed(&entered_at);
                        let ghost before = metrics@;
                        metrics.record_overload_exit(elapsed);
                        assert(exit_recorded(old(metrics)@, metrics@, elapsed));
                    },
                    None => {},
                }
                None
            },
        }
    }
}

/// A user command was refused by its queue: a full queue is counted and reported as `Full`; a
/// closed queue is reported as `Closed`.
pub fn user_send_rejected(full: bool, metrics: &mut Metrics) -> (e: ChannelSendError)
    requires
        old(metrics).wf(),
    ensures
        final(metrics).wf(),
        full ==> e == ChannelSendError::Full && final(metrics)@ == (MetricsView {
            user_queue_full_rejections: bump(old(metrics)@.user_queue_full_rejections),
            ..old(metrics)@
        }),
        !full ==> e == ChannelSendError::Closed && final(metrics)@ == old(metrics)@,
{
    if full {
        metrics.record_user_queue_full_rejection();
        ChannelSendError::Full
    } else {
        ChannelSendError::Closed
    }
}

} // verus!
