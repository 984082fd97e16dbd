//! Low-cardinality in-process metrics for overload, queue pressure, retries, latency, workflow
//! throughput, and snooze timer activity.
//!
//! Counters behave like relaxed atomic counters: they wrap around at their maximum. Histograms
//! sort millisecond samples into fixed buckets with an overflow count.

use std::time::Duration;

use vstd::prelude::*;

use crate::clock::{duration_as_millis, duration_millis};

verus! {

/// Capacities of the runtime's queues, fixed at startup.
#[derive(Clone, Copy, Debug)]
pub struct QueueCapacityConfig {
    pub automated: usize,
    pub user: usize,
    pub job: usize,
    pub publish: usize,
    pub snooze: usize,
}

/// Outcome kind for a single publish attempt, used with [`Metrics::record_publish_completion`].
#[derive(Clone, Copy, Debug, Eq, PartialEq, Structural)]
pub enum PublishOutcomeKind {
    Success,
    Failure,
}

/// A counter after one more event: it wraps around at its maximum, like a relaxed atomic add.
pub open spec fn bump(x: u64) -> u64 {
    if x == u64::MAX {
        0
    } else {
        (x + 1) as u64
    }
}

/// A gauge after one event ends: it wraps around below zero, like a relaxed atomic subtract.
pub open spec fn drop_one(x: usize) -> usize {
    if x == 0 {
        usize::MAX
    } else {
        (x - 1) as usize
    }
}

/// A gauge after one more event starts.
pub open spec fn add_one(x: usize) -> usize {
    if x == usize::MAX {
        0
    } else {
        (x + 1) as usize
    }
}

fn bump_u64(x: u64) -> (r: u64)
    ensures
        r == bump(x),
{
    if x == u64::MAX {
        0
    } else {
        x + 1
    }
}

fn drop_one_usize(x: usize) -> (r: usize)
    ensures
        r == drop_one(x),
{
    if x == 0 {
        usize::MAX
    } else {
        x - 1
    }
}

fn add_one_usize(x: usize) -> (r: usize)
    ensures
        r == add_one(x),
{
    if x == usize::MAX {
        0
    } else {
        x + 1
    }
}

/// A duration in whole milliseconds, saturated to the range of `u64`.
pub open spec fn saturated_millis(d: Duration) -> u64 {
    if duration_millis(d) > u64::MAX as u128 {
        u64::MAX
    } else {
        duration_millis(d) as u64
    }
}

/// The abstract contents of a histogram.
pub struct HistogramView {
    pub buckets_ms: Seq<u64>,
    pub counts: Seq<u64>,
    pub overflow: u64,
    pub samples: u64,
    pub total_ms: u64,
}

/// The position of the first bucket bound that `millis` does not exceed, if any.
pub open spec fn bucket_for(buckets: Seq<u64>, millis: u64) -> Option<int> {
    if exists|i: int| 0 <= i < buckets.len() && millis <= buckets[i] {
        Some(
            choose|i: int|
                0 <= i < buckets.len() && millis <= buckets[i] && forall|j: int|
                    0 <= j < i ==> millis > buckets[j],
        )
    } else {
        None
    }
}

/// A histogram after observing a sample of `millis` milliseconds: one more sample, the total
/// grows (saturating), and either the first bucket whose bound is at least the sample or the
/// overflow count grows by one.
pub open spec fn observed(h: HistogramView, millis: u64) -> HistogramView {
    let total = if h.total_ms + millis > u64::MAX { u64::MAX } else { (h.total_ms + millis) as u64 };
    match bucket_for(h.buckets_ms, millis) {
        Some(i) => HistogramView {
            counts: h.counts.update(i, (h.counts[i] + 1) as u64),
            samples: (h.samples + 1) as u64,
            total_ms: total,
            ..h
        },
        None => HistogramView {
            overflow: (h.overflow + 1) as u64,
            samples: (h.samples + 1) as u64,
            total_ms: total,
            ..h
        },
    }
}

/// Point-in-time copy of one histogram.
#[derive(Clone, Debug, Eq, PartialEq)]
pub struct HistogramSnapshot {
    pub buckets_ms: Vec<u64>,
    pub counts: Vec<u64>,
    pub overflow: u64,
    pub samples: u64,
    pub total_ms: u64,
}

/// A snapshot holds exactly the contents of the histogram.
pub open spec fn histogram_snapshot_of(s: HistogramSnapshot, h: HistogramView) -> bool {
    &&& s.buckets_ms@ == h.buckets_ms
    &&& s.counts@ == h.counts
    &&& s.overflow == h.overflow
    &&& s.samples == h.samples
    &&& s.total_ms == h.total_ms
}

/// Finds the first bucket bound that `millis` does not exceed.
fn first_bucket_at_least(buckets: &Vec<u64>, millis: u64) -> (r: Option<usize>)
    ensures
        r matches Some(i) ==> i < buckets@.len() && bucket_for(buckets@, millis) == Some(i as int),
        r is None ==> bucket_for(buckets@, millis) is None,
{
    let mut i: usize = 0;
    while i < buckets.len()
        invariant
            i <= buckets@.len(),
            forall|j: int| 0 <= j < i ==> millis > buckets@[j],
        decreases buckets@.len() - i,
    {
        if millis <= buckets[i] {
            proof {
                let bs = buckets@;
                assert(exists|k: int| 0 <= k < bs.len() && millis <= bs[k]);
                let c = choose|k: int|
                    0 <= k < bs.len() && millis <= bs[k] && forall|j: int| 0 <= j < k ==> millis > bs[j];
                if c > i {
                    assert(millis > bs[i as int]);
                }
                assert(c == i);
            }
            return Some(i);
        }
        i = i + 1;
    }
    None
}

/// One count per bucket, and neither a bucket count nor the overflow count exceeds the number
/// of samples.
pub open spec fn histogram_bounded(h: HistogramView) -> bool {
    &&& h.counts.len() == h.buckets_ms.len()
    &&& forall|i: int| 0 <= i < h.counts.len() ==> h.counts[i] <= h.samples
    &&& h.overflow <= h.samples
}

/// Millisecond samples sorted into fixed buckets, with an overflow count for larger samples.
pub struct Histogram {
    buckets_ms: Vec<u64>,
    counts: Vec<u64>,
    overflow: u64,
    samples: u64,
    total_ms: u64,
}

impl Histogram {
    /// The abstract contents.
    pub closed spec fn view(&self) -> HistogramView {
        HistogramView {
            buckets_ms: self.buckets_ms@,
            counts: self.counts@,
            overflow: self.overflow,
            samples: self.samples,
            total_ms: self.total_ms,
        }
    }

    /// One count per bucket, and no count exceeds the number of samples.
    pub closed spec fn wf(&self) -> bool {
        &&& self.counts@.len() == self.buckets_ms@.len()
        &&& forall|i: int| 0 <= i < self.counts@.len() ==> self.counts@[i] <= self.samples
        &&& self.overflow <= self.samples
    }

    /// A well-formed histogram has one count per bucket, and no count exceeds the number of
    /// samples.
    pub proof fn lemma_wf_bounds(&self)
        requires
            self.wf(),
        ensures
            histogram_bounded(self@),
    {
    }

    /// Creates an empty histogram with the given bucket bounds.
    pub fn new(buckets_ms: &[u64]) -> (h: Self)
        ensures
            h.wf(),
            h@.buckets_ms == buckets_ms@,
            h@.counts == Seq::new(buckets_ms@.len(), |i: int| 0u64),
            h@.overflow == 0,
            h@.samples == 0,
            h@.total_ms == 0,
    {
        let mut buckets: Vec<u64> = Vec::new();
        let mut counts: Vec<u64> = Vec::new();
        let mut i: usize = 0;
        while i < buckets_ms.len()
            invariant
                i <= buckets_ms@.len(),
                buckets@ == buckets_ms@.subrange(0, i as int),
                counts@ == Seq::new(i as nat, |j: int| 0u64),
            decreases buckets_ms@.len() - i,
        {
            buckets.push(buckets_ms[i]);
            counts.push(0);
            proof {
                assert(buckets@ =~= buckets_ms@.subrange(0, i + 1));
                assert(counts@ =~= Seq::new((i + 1) as nat, |j: int| 0u64));
            }
            i = i + 1;
        }
        assert(buckets@ =~= buckets_ms@);
        Histogram { buckets_ms: buckets, counts, overflow: 0, samples: 0, total_ms: 0 }
    }

    /// Records one sample.
    pub fn observe(&mut self, duration: Duration)
        requires
            old(self).wf(),
            old(self)@.samples < u64::MAX,
        ensures
            final(self).wf(),
            final(self)@ == observed(old(self)@, saturated_millis(duration)),
    {
        let raw = duration_as_millis(&duration);
        let millis: u64 = if raw > u64::MAX as u128 {
            u64::MAX
        } else {
            raw as u64
        };
        let index = first_bucket_at_least(&self.buckets_ms, millis);
        self.samples = self.samples + 1;
        self.total_ms = self.total_ms.saturating_add(millis);
        match index {
            Some(i) => {
                let current = self.counts[i];
                self.counts.set(i, current + 1);
            },
            None => {
                self.overflow = self.overflow + 1;
            },
        }
    }

    /// Returns a copy of the histogram's contents.
    pub fn snapshot(&self) -> (s: HistogramSnapshot)
        ensures
            histogram_snapshot_of(s, self@),
    {
        HistogramSnapshot {
            buckets_ms: self.buckets_ms.clone(),
            counts: self.counts.clone(),
            overflow: self.overflow,
            samples: self.samples,
            total_ms: self.total_ms,
        }
    }
}


/// The bounds of the confirmation-latency buckets, in milliseconds.
pub open spec fn confirmation_latency_bounds() -> Seq<u64> {
    seq![10u64, 50, 100, 250, 500, 1_000, 2_000]
}

/// The bounds of the publish-latency buckets, in milliseconds.
pub open spec fn publish_latency_bounds() -> Seq<u64> {
    seq![5u64, 10, 25, 50, 100, 250, 500, 1_000]
}

/// The bounds of the overload-duration buckets, in milliseconds.
pub open spec fn overload_duration_bounds() -> Seq<u64> {
    seq![10u64, 50, 100, 250, 500, 1_000, 5_000]
}

/// The abstract contents of the metrics: every counter, capacity, gauge and histogram.
pub struct MetricsView {
    pub overload_entries: u64,
    pub overload_exits: u64,
    pub automated_queue_full: u64,
    pub user_queue_full_rejections: u64,
    pub publish_attempts: u64,
    pub publish_retries: u64,
    pub publish_failures: u64,
    pub jobs_dispatched: u64,
    pub jobs_committed: u64,
    pub jobs_failed: u64,
    pub snooze_wakes: u64,
    pub snooze_sets: u64,
    pub snooze_cancels: u64,
    pub snooze_invalid_wakes: u64,
    pub snooze_expirations: u64,
    pub automated_queue_capacity: usize,
    pub user_queue_capacity: usize,
    pub job_queue_capacity: usize,
    pub publish_queue_capacity: usize,
    pub snooze_queue_capacity: usize,
    pub retained_automated_keys: usize,
    pub in_flight_publish_attempts: usize,
    pub in_flight_snooze_timers: usize,
    pub confirmation_latency_ms: HistogramView,
    pub publish_latency_ms: HistogramView,
    pub overload_duration_ms: HistogramView,
}

/// Point-in-time snapshot of all metrics.
#[derive(Clone, Debug, Eq, PartialEq)]
pub struct MetricsSnapshot {
    pub overload_entries: u64,
    pub overload_exits: u64,
    pub automated_queue_full: u64,
    pub user_queue_full_rejections: u64,
    pub publish_attempts: u64,
    pub publish_retries: u64,
    pub publish_failures: u64,
    pub jobs_dispatched: u64,
    pub jobs_committed: u64,
    pub jobs_failed: u64,
    pub snooze_wakes: u64,
    pub snooze_sets: u64,
    pub snooze_cancels: u64,
    pub snooze_invalid_wakes: u64,
    pub snooze_expirations: u64,
    pub automated_queue_capacity: usize,
    pub user_queue_capacity: usize,
    pub job_queue_capacity: usize,
    pub publish_queue_capacity: usize,
    pub snooze_queue_capacity: usize,
    pub retained_automated_keys: usize,
    pub in_flight_publish_attempts: usize,
    pub in_flight_snooze_timers: usize,
    pub confirmation_latency_ms: HistogramSnapshot,
    pub publish_latency_ms: HistogramSnapshot,
    pub overload_duration_ms: HistogramSnapshot,
}

/// A snapshot holds exactly the current metrics.
pub open spec fn snapshot_of(s: MetricsSnapshot, v: MetricsView) -> bool {
    &&& s.overload_entries == v.overload_entries
    &&& s.overload_exits == v.overload_exits
    &&& s.automated_queue_full == v.automated_queue_full
    &&& s.user_queue_full_rejections == v.user_queue_full_rejections
    &&& s.publish_attempts == v.publish_attempts
    &&& s.publish_retries == v.publish_retries
    &&& s.publish_failures == v.publish_failures
    &&& s.jobs_dispatched == v.jobs_dispatched
    &&& s.jobs_committed == v.jobs_committed
    &&& s.jobs_failed == v.jobs_failed
    &&& s.snooze_wakes == v.snooze_wakes
    &&& s.snooze_sets == v.snooze_sets
    &&& s.snooze_cancels == v.snooze_cancels
    &&& s.snooze_invalid_wakes == v.snooze_invalid_wakes
    &&& s.snooze_expirations == v.snooze_expirations
    &&& s.automated_queue_capacity == v.automated_queue_capacity
    &&& s.user_queue_capacity == v.user_queue_capacity
    &&& s.job_queue_capacity == v.job_queue_capacity
    &&& s.publish_queue_capacity == v.publish_queue_capacity
    &&& s.snooze_queue_capacity == v.snooze_queue_capacity
    &&& s.retained_automated_keys == v.retained_automated_keys
    &&& s.in_flight_publish_attempts == v.in_flight_publish_attempts
    &&& s.in_flight_snooze_timers == v.in_flight_snooze_timers
    &&& histogram_snapshot_of(s.confirmation_latency_ms, v.confirmation_latency_ms)
    &&& histogram_snapshot_of(s.publish_latency_ms, v.publish_latency_ms)
    &&& histogram_snapshot_of(s.overload_duration_ms, v.overload_duration_ms)
}

/// An empty histogram with the given bounds.
pub open spec fn empty_histogram(bounds: Seq<u64>) -> HistogramView {
    HistogramView {
        buckets_ms: bounds,
        counts: Seq::new(bounds.len(), |i: int| 0u64),
        overflow: 0,
        samples: 0,
        total_ms: 0,
    }
}

/// The metrics after a publish attempt starts: one more attempt, one more in flight.
pub open spec fn attempt_started(v: MetricsView) -> MetricsView {
    MetricsView {
        publish_attempts: bump(v.publish_attempts),
        in_flight_publish_attempts: add_one(v.in_flight_publish_attempts),
        ..v
    }
}

/// The metrics after a publish attempt completes: one fewer in flight, its latency observed,
/// and a failure counted.
pub open spec fn attempt_completed(v: MetricsView, outcome: PublishOutcomeKind, latency: Duration) -> MetricsView {
    MetricsView {
        in_flight_publish_attempts: drop_one(v.in_flight_publish_attempts),
        publish_latency_ms: observed(v.publish_latency_ms, saturated_millis(latency)),
        publish_failures: if outcome == PublishOutcomeKind::Failure {
            bump(v.publish_failures)
        } else {
            v.publish_failures
        },
        ..v
    }
}

/// An attempt that starts and then completes leaves the in-flight gauge where it was, counts
/// one attempt, and leaves the configured queue capacities alone.
pub proof fn law_attempt_pair_keeps_in_flight(v: MetricsView, outcome: PublishOutcomeKind, latency: Duration)
    ensures
        attempt_completed(attempt_started(v), outcome, latency).in_flight_publish_attempts
            == v.in_flight_publish_attempts,
        attempt_completed(attempt_started(v), outcome, latency).publish_attempts == bump(
            v.publish_attempts,
        ),
        attempt_completed(attempt_started(v), outcome, latency).automated_queue_capacity
            == v.automated_queue_capacity,
        attempt_completed(attempt_started(v), outcome, latency).user_queue_capacity
            == v.user_queue_capacity,
        attempt_completed(attempt_started(v), outcome, latency).job_queue_capacity
            == v.job_queue_capacity,
        attempt_completed(attempt_started(v), outcome, latency).publish_queue_capacity
            == v.publish_queue_capacity,
        attempt_completed(attempt_started(v), outcome, latency).snooze_queue_capacity
            == v.snooze_queue_capacity,
{
}

/// In-process metrics: counters, queue capacities, in-flight gauges and latency histograms.
///
/// The runtime shares one instance between its tasks behind a lock.
pub struct Metrics {
    overload_entries: u64,
    overload_exits: u64,
    automated_queue_full: u64,
    user_queue_full_rejections: u64,
    publish_attempts: u64,
    publish_retries: u64,
    publish_failures: u64,
    jobs_dispatched: u64,
    jobs_committed: u64,
    jobs_failed: u64,
    snooze_wakes: u64,
    snooze_sets: u64,
    snooze_cancels: u64,
    snooze_invalid_wakes: u64,
    snooze_expirations: u64,
    queue_configured_capacity: QueueCapacityMetrics,
    retained_automated_keys: usize,
    in_flight_publish_attempts: usize,
    in_flight_snooze_timers: usize,
    confirmation_latency_ms: Histogram,
    publish_latency_ms: Histogram,
    overload_duration_ms: Histogram,
}

impl Metrics {
    /// The abstract contents.
    pub closed spec fn view(&self) -> MetricsView {
        MetricsView {
            overload_entries: self.overload_entries,
            overload_exits: self.overload_exits,
            automated_queue_full: self.automated_queue_full,
            user_queue_full_rejections: self.user_queue_full_rejections,
            publish_attempts: self.publish_attempts,
            publish_retries: self.publish_retries,
            publish_failures: self.publish_failures,
            jobs_dispatched: self.jobs_dispatched,
            jobs_committed: self.jobs_committed,
            jobs_failed: self.jobs_failed,
            snooze_wakes: self.snooze_wakes,
            snooze_sets: self.snooze_sets,
            snooze_cancels: self.snooze_cancels,
            snooze_invalid_wakes: self.snooze_invalid_wakes,
            snooze_expirations: self.snooze_expirations,
            automated_queue_capacity: self.queue_configured_capacity.automated,
            user_queue_capacity: self.queue_configured_capacity.user,
            job_queue_capacity: self.queue_configured_capacity.job,
            publish_queue_capacity: self.queue_configured_capacity.publish,
            snooze_queue_capacity: self.queue_configured_capacity.snooze,
            retained_automated_keys: self.retained_automated_keys,
            in_flight_publish_attempts: self.in_flight_publish_attempts,
            in_flight_snooze_timers: self.in_flight_snooze_timers,
            confirmation_latency_ms: self.confirmation_latency_ms@,
            publish_latency_ms: self.publish_latency_ms@,
            overload_duration_ms: self.overload_duration_ms@,
        }
    }

    /// The histograms are consistent.
    pub closed spec fn wf(&self) -> bool {
        &&& self.confirmation_latency_ms.wf()
        &&& self.publish_latency_ms.wf()
        &&& self.overload_duration_ms.wf()
    }

    /// Every histogram of well-formed metrics is bounded.
    pub proof fn lemma_wf_bounds(&self)
        requires
            self.wf(),
        ensures
            histogram_bounded(self@.confirmation_latency_ms),
            histogram_bounded(self@.publish_latency_ms),
            histogram_bounded(self@.overload_duration_ms),
    {
        self.confirmation_latency_ms.lemma_wf_bounds();
        self.publish_latency_ms.lemma_wf_bounds();
        self.overload_duration_ms.lemma_wf_bounds();
    }

    /// Creates metrics with every counter and gauge at zero, empty histograms, and the queue
    /// capacities of `queue_config`.
    pub fn new(queue_config: &QueueCapacityConfig) -> (m: Self)
        ensures
            m.wf(),
            m@.overload_entries == 0,
            m@.overload_exits == 0,
            m@.automated_queue_full == 0,
            m@.user_queue_full_rejections == 0,
            m@.publish_attempts == 0,
            m@.publish_retries == 0,
            m@.publish_failures == 0,
            m@.jobs_dispatched == 0,
            m@.jobs_committed == 0,
            m@.jobs_failed == 0,
            m@.snooze_wakes == 0,
            m@.snooze_sets == 0,
            m@.snooze_cancels == 0,
            m@.snooze_invalid_wakes == 0,
            m@.snooze_expirations == 0,
            m@.automated_queue_capacity == queue_config.automated,
            m@.user_queue_capacity == queue_config.user,
            m@.job_queue_capacity == queue_config.job,
            m@.publish_queue_capacity == queue_config.publish,
            m@.snooze_queue_capacity == queue_config.snooze,
            m@.retained_automated_keys == 0,
            m@.in_flight_publish_attempts == 0,
            m@.in_flight_snooze_timers == 0,
            m@.confirmation_latency_ms == empty_histogram(confirmation_latency_bounds()),
            m@.publish_latency_ms == empty_histogram(publish_latency_bounds()),
            m@.overload_duration_ms == empty_histogram(overload_duration_bounds()),
    {
        let confirmation_buckets: Vec<u64> = vec![10, 50, 100, 250, 500, 1_000, 2_000];
        let publish_buckets: Vec<u64> = vec![5, 10, 25, 50, 100, 250, 500, 1_000];
        let overload_buckets: Vec<u64> = vec![10, 50, 100, 250, 500, 1_000, 5_000];
        assert(confirmation_buckets@ =~= confirmation_latency_bounds());
        assert(publish_buckets@ =~= publish_latency_bounds());
        assert(overload_buckets@ =~= overload_duration_bounds());
        let confirmation_latency_ms = Histogram::new(confirmation_buckets.as_slice());
        let publish_latency_ms = Histogram::new(publish_buckets.as_slice());
        let overload_duration_ms = Histogram::new(overload_buckets.as_slice());
        Metrics {
            overload_entries: 0,
            overload_exits: 0,
            automated_queue_full: 0,
            user_queue_full_rejections: 0,
            publish_attempts: 0,
            publish_retries: 0,
            publish_failures: 0,
            jobs_dispatched: 0,
            jobs_committed: 0,
            jobs_failed: 0,
            snooze_wakes: 0,
            snooze_sets: 0,
            snooze_cancels: 0,
            snooze_invalid_wakes: 0,
            snooze_expirations: 0,
            queue_configured_capacity: QueueCapacityMetrics::from(queue_config),
            retained_automated_keys: 0,
            in_flight_publish_attempts: 0,
            in_flight_snooze_timers: 0,
            confirmation_latency_ms,
            publish_latency_ms,
            overload_duration_ms,
        }
    }

    /// Counts a direct automated send that found the queue full.
    pub fn record_automated_queue_full(&mut self)
        requires
            old(self).wf(),
        ensures
            final(self).wf(),
            final(self)@ == (MetricsView { automated_queue_full: bump(old(self)@.automated_queue_full), ..old(self)@ }),
    {
        self.automated_queue_full = bump_u64(self.automated_queue_full);
    }

    /// Counts a user command rejected because the queue was full.
    pub fn record_user_queue_full_rejection(&mut self)
        requires
            old(self).wf(),
        ensures
            final(self).wf(),
            final(self)@ == (MetricsView { user_queue_full_rejections: bump(old(self)@.user_queue_full_rejections), ..old(self)@ }),
    {
        self.user_queue_full_rejections = bump_u64(self.user_queue_full_rejections);
    }

    /// Counts an entry into overload mode and records how many keys are retained.
    pub fn record_overload_entry(&mut self, retained_keys: usize)
        requires
            old(self).wf(),
        ensures
            final(self).wf(),
            final(self)@ == (MetricsView { overload_entries: bump(old(self)@.overload_entries), retained_automated_keys: retained_keys, ..old(self)@ }),
    {
        self.overload_entries = bump_u64(self.overload_entries);
        self.retained_automated_keys = retained_keys;
    }

    /// Records how many automated keys are retained.
    pub fn record_retained_automated_keys(&mut self, retained_keys: usize)
        requires
            old(self).wf(),
        ensures
            final(self).wf(),
            final(self)@ == (MetricsView { retained_automated_keys: retained_keys, ..old(self)@ }),
    {
        self.retained_automated_keys = retained_keys;
    }

    /// Counts an exit from overload mode, clears the retained-key gauge and observes how long the overload lasted.
    pub fn record_overload_exit(&mut self, duration: Duration)
        requires
            old(self).wf(),
            old(self)@.overload_duration_ms.samples < u64::MAX,
        ensures
            final(self).wf(),
            final(self)@ == (MetricsView { overload_exits: bump(old(self)@.overload_exits), retained_automated_keys: 0, overload_duration_ms: observed(old(self)@.overload_duration_ms, saturated_millis(duration)), ..old(self)@ }),
    {
        self.overload_exits = bump_u64(self.overload_exits);
        self.retained_automated_keys = 0;
        self.overload_duration_ms.observe(duration);
    }

    /// Counts a publish attempt and marks it in flight.
    pub fn record_publish_attempt_started(&mut self)
        requires
            old(self).wf(),
        ensures
            final(self).wf(),
            final(self)@ == attempt_started(old(self)@),
    {
        self.publish_attempts = bump_u64(self.publish_attempts);
        self.in_flight_publish_attempts = add_one_usize(self.in_flight_publish_attempts);
    }

    /// Counts a publish retry.
    pub fn record_publish_retry(&mut self)
        requires
            old(self).wf(),
        ensures
            final(self).wf(),
            final(self)@ == (MetricsView { publish_retries: bump(old(self)@.publish_retries), ..old(self)@ }),
    {
        self.publish_retries = bump_u64(self.publish_retries);
    }

    /// Records the completion of one publish attempt: it is no longer in flight, its latency
    /// is observed, and a failure is counted (a success needs no counter).
    pub fn record_publish_completion(&mut self, outcome: PublishOutcomeKind, latency: Duration)
        requires
            old(self).wf(),
            old(self)@.publish_latency_ms.samples < u64::MAX,
        ensures
            final(self).wf(),
            final(self)@ == attempt_completed(old(self)@, outcome, latency),
    {
        self.in_flight_publish_attempts = drop_one_usize(self.in_flight_publish_attempts);
        self.publish_latency_ms.observe(latency);
        match outcome {
            PublishOutcomeKind::Success => {},
            PublishOutcomeKind::Failure => {
                self.publish_failures = bump_u64(self.publish_failures);
            },
        }
    }

    /// Observes how long a user command took to be confirmed.
    pub fn record_confirmation_latency(&mut self, latency: Duration)
        requires
            old(self).wf(),
            old(self)@.confirmation_latency_ms.samples < u64::MAX,
        ensures
            final(self).wf(),
            final(self)@ == (MetricsView { confirmation_latency_ms: observed(old(self)@.confirmation_latency_ms, saturated_millis(latency)), ..old(self)@ }),
    {
        self.confirmation_latency_ms.observe(latency);
    }

    /// Counts a job received by the workflow handler.
    pub fn record_job_dispatched(&mut self)
        requires
            old(self).wf(),
        ensures
            final(self).wf(),
            final(self)@ == (MetricsView { jobs_dispatched: bump(old(self)@.jobs_dispatched), ..old(self)@ }),
    {
        self.jobs_dispatched = bump_u64(self.jobs_dispatched);
    }

    /// Counts a job that completed as committed.
    pub fn record_job_committed(&mut self)
        requires
            old(self).wf(),
        ensures
            final(self).wf(),
            final(self)@ == (MetricsView { jobs_committed: bump(old(self)@.jobs_committed), ..old(self)@ }),
    {
        self.jobs_committed = bump_u64(self.jobs_committed);
    }

    /// Counts a job that completed as failed.
    pub fn record_job_failed(&mut self)
        requires
            old(self).wf(),
        ensures
            final(self).wf(),
            final(self)@ == (MetricsView { jobs_failed: bump(old(self)@.jobs_failed), ..old(self)@ }),
    {
        self.jobs_failed = bump_u64(self.jobs_failed);
    }

    /// Counts a snooze expiration turned into a wake for the coordinator.
    pub fn record_snooze_wake(&mut self)
        requires
            old(self).wf(),
        ensures
            final(self).wf(),
            final(self)@ == (MetricsView { snooze_wakes: bump(old(self)@.snooze_wakes), ..old(self)@ }),
    {
        self.snooze_wakes = bump_u64(self.snooze_wakes);
    }

    /// Counts a snooze timer accepted with a valid future wake time; one more timer is live.
    pub fn record_snooze_set(&mut self)
        requires
            old(self).wf(),
        ensures
            final(self).wf(),
            final(self)@ == (MetricsView { snooze_sets: bump(old(self)@.snooze_sets), in_flight_snooze_timers: add_one(old(self)@.in_flight_snooze_timers), ..old(self)@ }),
    {
        self.snooze_sets = bump_u64(self.snooze_sets);
        self.in_flight_snooze_timers = add_one_usize(self.in_flight_snooze_timers);
    }

    /// Counts a cancel that removed a live timer; one timer fewer is live.
    pub fn record_snooze_cancel(&mut self)
        requires
            old(self).wf(),
        ensures
            final(self).wf(),
            final(self)@ == (MetricsView { snooze_cancels: bump(old(self)@.snooze_cancels), in_flight_snooze_timers: drop_one(old(self)@.in_flight_snooze_timers), ..old(self)@ }),
    {
        self.snooze_cancels = bump_u64(self.snooze_cancels);
        self.in_flight_snooze_timers = drop_one_usize(self.in_flight_snooze_timers);
    }

    /// Counts a snooze rejected for an invalid wake time.
    pub fn record_snooze_invalid_wake(&mut self)
        requires
            old(self).wf(),
        ensures
            final(self).wf(),
            final(self)@ == (MetricsView { snooze_invalid_wakes: bump(old(self)@.snooze_invalid_wakes), ..old(self)@ }),
    {
        self.snooze_invalid_wakes = bump_u64(self.snooze_invalid_wakes);
    }

    /// Counts a snooze timer that fired; one timer fewer is live.
    pub fn record_snooze_expiration(&mut self)
        requires
            old(self).wf(),
        ensures
            final(self).wf(),
            final(self)@ == (MetricsView { snooze_expirations: bump(old(self)@.snooze_expirations), in_flight_snooze_timers: drop_one(old(self)@.in_flight_snooze_timers), ..old(self)@ }),
    {
        self.snooze_expirations = bump_u64(self.snooze_expirations);
        self.in_flight_snooze_timers = drop_one_usize(self.in_flight_snooze_timers);
    }

    /// Whether another overload duration can be observed without overflowing its sample count.
    pub fn can_record_overload_exit(&self) -> (r: bool)
        ensures
            r == (self@.overload_duration_ms.samples < u64::MAX),
    {
        self.overload_duration_ms.samples < u64::MAX
    }

    /// Whether another publish latency can be observed without overflowing its sample count.
    pub fn can_record_publish_completion(&self) -> (r: bool)
        ensures
            r == (self@.publish_latency_ms.samples < u64::MAX),
    {
        self.publish_latency_ms.samples < u64::MAX
    }

    /// Whether another confirmation latency can be observed without overflowing its sample
    /// count.
    pub fn can_record_confirmation_latency(&self) -> (r: bool)
        ensures
            r == (self@.confirmation_latency_ms.samples < u64::MAX),
    {
        self.confirmation_latency_ms.samples < u64::MAX
    }

    /// Returns a copy of all metrics.
    pub fn snapshot(&self) -> (s: MetricsSnapshot)
        ensures
            snapshot_of(s, self@),
    {
        MetricsSnapshot {
            overload_entries: self.overload_entries,
            overload_exits: self.overload_exits,
            automated_queue_full: self.automated_queue_full,
            user_queue_full_rejections: self.user_queue_full_rejections,
            publish_attempts: self.publish_attempts,
            publish_retries: self.publish_retries,
            publish_failures: self.publish_failures,
            jobs_dispatched: self.jobs_dispatched,
            jobs_committed: self.jobs_committed,
            jobs_failed: self.jobs_failed,
            snooze_wakes: self.snooze_wakes,
            snooze_sets: self.snooze_sets,
            snooze_cancels: self.snooze_cancels,
            snooze_invalid_wakes: self.snooze_invalid_wakes,
            snooze_expirations: self.snooze_expirations,
            automated_queue_capacity: self.queue_configured_capacity.automated,
            user_queue_capacity: self.queue_configured_capacity.user,
            job_queue_capacity: self.queue_configured_capacity.job,
            publish_queue_capacity: self.queue_configured_capacity.publish,
            snooze_queue_capacity: self.queue_configured_capacity.snooze,
            retained_automated_keys: self.retained_automated_keys,
            in_flight_publish_attempts: self.in_flight_publish_attempts,
            in_flight_snooze_timers: self.in_flight_snooze_timers,
            confirmation_latency_ms: self.confirmation_latency_ms.snapshot(),
            publish_latency_ms: self.publish_latency_ms.snapshot(),
            overload_duration_ms: self.overload_duration_ms.snapshot(),
        }
    }
}

/// The queue capacities reflected in every snapshot, fixed at construction.
#[derive(Debug)]
pub struct QueueCapacityMetrics {
    pub automated: usize,
    pub user: usize,
    pub job: usize,
    pub publish: usize,
    pub snooze: usize,
}

impl QueueCapacityMetrics {
    /// Copies the configured capacities.
    pub fn from(value: &QueueCapacityConfig) -> (r: Self)
        ensures
            r.automated == value.automated,
            r.user == value.user,
            r.job == value.job,
            r.publish == value.publish,
            r.snooze == value.snooze,
    {
        QueueCapacityMetrics {
            automated: value.automated,
            user: value.user,
            job: value.job,
            publish: value.publish,
            snooze: value.snooze,
        }
    }
}

} // verus!
