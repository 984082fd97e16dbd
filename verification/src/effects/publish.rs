//! Publish engine decisions: retries, and how completed work is reported back.
//!
//! Every publish request becomes a delivery attempt. A failed attempt is tried again until it
//! has been made `MAX_DELIVERY_ATTEMPTS` times. User-initiated completions are reported at once
//! as a single outcome; automated completions are buffered and reported as a batch when the
//! buffer reaches `BATCH_SIZE` or when the flush timer ticks.

use std::time::Duration;

use vstd::prelude::*;

use crate::metrics::{bump, drop_one, observed, saturated_millis, Metrics, MetricsView, PublishOutcomeKind};
use crate::model::errors::SymmetricalResult;
use crate::model::key::Key;
use crate::model::publish::{PublishAttempt, PublishOutcome, PublishResult};

verus! {

/// Automated results are reported once this many are buffered.
pub const BATCH_SIZE: usize = 50;

/// Initial room reserved for buffered automated results.
pub const BUFFER_CAPACITY: usize = 100;

/// How often, in milliseconds, buffered automated results are flushed.
pub const FLUSH_INTERVAL_MS: u64 = 10;

/// How many delivery attempts a publish request gets in all.
pub const MAX_DELIVERY_ATTEMPTS: u8 = 2;

/// The result for an attempt's key, with the attempt's outcome.
pub open spec fn key_result(work: SymmetricalResult<PublishAttempt>) -> PublishResult {
    match work {
        SymmetricalResult::Succeeded(a) => SymmetricalResult::Succeeded(a.request.details().key),
        SymmetricalResult::Failed(a) => SymmetricalResult::Failed(a.request.details().key),
    }
}

/// The key of an attempt's request.
fn request_key(inner: PublishAttempt) -> (k: Key)
    ensures
        k == inner.request.details().key,
{
    inner.request.into_details().key
}

/// Reporting settled work: a user-initiated result goes out at once; an automated result is
/// buffered, and the buffer goes out as a batch once it holds `BATCH_SIZE` results.
pub open spec fn reports(
    work: SymmetricalResult<PublishAttempt>,
    old_batch: Seq<PublishResult>,
    new_batch: Seq<PublishResult>,
    outcome: Option<PublishOutcome>,
) -> bool {
    let r = key_result(work);
    if work.inner().request is User {
        &&& new_batch == old_batch
        &&& outcome matches Some(PublishOutcome::Single(s))
        &&& s == r
    } else if old_batch.len() + 1 >= BATCH_SIZE {
        &&& new_batch == Seq::<PublishResult>::empty()
        &&& outcome matches Some(PublishOutcome::Batch(b))
        &&& b@ == old_batch.push(r)
    } else {
        &&& new_batch == old_batch.push(r)
        &&& outcome is None
    }
}

/// The flush hands over the whole buffer as a batch.
pub open spec fn flushes(old_batch: Seq<PublishResult>, outcome: Option<PublishOutcome>) -> bool {
    if old_batch.len() == 0 {
        outcome is None
    } else {
        &&& outcome matches Some(PublishOutcome::Batch(b))
        &&& b@ == old_batch
    }
}

/// What to do with a finished delivery attempt.
pub enum AttemptDecision {
    /// Deliver this attempt again.
    Retry(PublishAttempt),
    /// The request is settled; report this outcome now, if any is due.
    Completed(Option<PublishOutcome>),
}

/// The state the publish engine keeps between events: buffered automated results.
pub struct PublishEngine {
    completed_batch: Vec<PublishResult>,
}

impl PublishEngine {
    /// The buffered automated results, oldest first.
    pub closed spec fn batch(&self) -> Seq<PublishResult> {
        self.completed_batch@
    }

    /// An engine with nothing buffered.
    pub fn new() -> (e: Self)
        ensures
            e.batch() == Seq::<PublishResult>::empty(),
    {
        PublishEngine { completed_batch: Vec::with_capacity(BUFFER_CAPACITY) }
    }

    /// Hands over every buffered result as one batch and empties the buffer.
    pub fn flush_completed_batch(&mut self) -> (outcome: PublishOutcome)
        ensures
            final(self).batch() == Seq::<PublishResult>::empty(),
            outcome matches PublishOutcome::Batch(b) && b@ == old(self).batch(),
    {
        let mut batch: Vec<PublishResult> = Vec::new();
        std::mem::swap(&mut batch, &mut self.completed_batch);
        PublishOutcome::Batch(batch)
    }

    /// Reports settled work: a user-initiated result goes out at once; an automated result is
    /// buffered, and the buffer goes out as a batch once it holds `BATCH_SIZE` results.
    pub fn handle_completed_work(&mut self, completed_work: SymmetricalResult<PublishAttempt>) -> (outcome: Option<PublishOutcome>)
        ensures
            reports(completed_work, old(self).batch(), final(self).batch(), outcome),
    {
        let is_user_initiated = completed_work.inner_ref().request.is_user_initiated();
        let response = completed_work.map(request_key);
        if is_user_initiated {
            Some(PublishOutcome::Single(response))
        } else {
            self.completed_batch.push(response);
            if self.completed_batch.len() >= BATCH_SIZE {
                Some(self.flush_completed_batch())
            } else {
                None
            }
        }
    }

    /// On a flush tick, reports buffered automated results as a batch if there are any.
    pub fn on_flush_tick(&mut self) -> (outcome: Option<PublishOutcome>)
        ensures
            final(self).batch() == Seq::<PublishResult>::empty(),
            flushes(old(self).batch(), outcome),
    {
        if self.completed_batch.len() > 0 {
            Some(self.flush_completed_batch())
        } else {
            None
        }
    }

    /// Decides on a finished delivery attempt: its completion and latency are recorded; a
    /// failed attempt that has not used up its attempts is tried again (counted as a retry);
    /// anything else is settled and reported as [`handle_completed_work`](Self::handle_completed_work) says.
    pub fn on_attempt_finished(
        &mut self,
        result: SymmetricalResult<PublishAttempt>,
        latency: Duration,
        metrics: &mut Metrics,
    ) -> (decision: AttemptDecision)
        requires
            old(metrics).wf(),
            old(metrics)@.publish_latency_ms.samples < u64::MAX,
        ensures
            final(metrics).wf(),
            ({
                let m = old(metrics)@;
                let completed = MetricsView {
                    in_flight_publish_attempts: drop_one(m.in_flight_publish_attempts),
                    publish_latency_ms: observed(m.publish_latency_ms, saturated_millis(latency)),
                    publish_failures: if result.succeeded() { m.publish_failures } else { bump(m.publish_failures) },
                    ..m
                };
                if !result.succeeded() && result.inner().attempt_count < MAX_DELIVERY_ATTEMPTS {
                    &&& final(self).batch() == old(self).batch()
                    &&& final(metrics)@ == (MetricsView { publish_retries: bump(m.publish_retries), ..completed })
                    &&& decision matches AttemptDecision::Retry(a) && a.request == result.inner().request
                        && a.attempt_count == result.inner().attempt_count + 1
                } else {
                    &&& final(metrics)@ == completed
                    &&& decision matches AttemptDecision::Completed(outcome)
                    &&& reports(result, old(self).batch(), final(self).batch(), outcome)
                }
            }),
    {
        match result {
            SymmetricalResult::Succeeded(attempt) => {
                metrics.record_publish_completion(PublishOutcomeKind::Success, latency);
                AttemptDecision::Completed(self.handle_completed_work(SymmetricalResult::Succeeded(attempt)))
            },
            SymmetricalResult::Failed(mut attempt) => {
                if attempt.attempt_count < MAX_DELIVERY_ATTEMPTS {
                    metrics.record_publish_completion(PublishOutcomeKind::Failure, latency);
                    metrics.record_publish_retry();
                    attempt.increment_attempt();
                    AttemptDecision::Retry(attempt)
                } else {
                    metrics.record_publish_completion(PublishOutcomeKind::Failure, latency);
                    AttemptDecision::Completed(self.handle_completed_work(SymmetricalResult::Failed(attempt)))
                }
            },
        }
    }
}

} // verus!
