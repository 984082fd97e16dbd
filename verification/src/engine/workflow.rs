//! Workflow handler: per-key effect sequencing between the coordinator and the effect workers.

use vstd::prelude::*;

use crate::collections::KeyMap;
use crate::metrics::{bump, Metrics, MetricsView};
use crate::model::errors::SymmetricalResult;
use crate::model::key::{Key, KeyView};
use crate::model::publish::{Publish, PublishDetails, PublishOutcome, PublishResult};
use crate::model::snooze::{SnoozeInput, SnoozeOutcome};
use crate::model::status::Status;

verus! {

/// A unit of work: the new status to persist for a key, and whether a user asked for it.
pub struct Job {
    pub id: u64,
    pub key: Key,
    pub status: Status,
    pub user_initiated: bool,
}

/// The result of a completed [`Job`], or a timer wake for a key.
pub enum JobOutcome {
    /// All workflow steps completed successfully.
    Committed(Job),
    /// The job failed at one of its workflow steps.
    Failed(Job),
    /// A snooze timer for the key has elapsed.
    Wake(Key),
}


impl PublishDetails {
    /// The key and status of a job.
    pub fn from(job: &Job) -> (d: PublishDetails)
        ensures
            d.key == job.key,
            d.status == job.status,
    {
        PublishDetails { key: job.key.clone(), status: job.status.clone() }
    }
}

/// The kinds of effect a job goes through.
#[derive(Clone, Copy, Debug, PartialEq, Eq, Structural)]
pub enum Effect {
    Publish,
    Snooze,
}

/// The fixed order in which effects are executed for every job: snooze first, then publish.
pub open spec fn workflow_order() -> Seq<Effect> {
    seq![Effect::Snooze, Effect::Publish]
}

/// The effect at position `step` of the workflow, if the workflow has that many steps.
pub fn workflow_effect(step: usize) -> (e: Option<Effect>)
    ensures
        step < workflow_order().len() ==> e == Some(workflow_order()[step as int]),
        step >= workflow_order().len() ==> e is None,
{
    if step == 0 {
        Some(Effect::Snooze)
    } else if step == 1 {
        Some(Effect::Publish)
    } else {
        None
    }
}

/// A job together with the position of the next effect to run for it.
pub struct TrackedJob {
    pub job: Job,
    pub step: usize,
}

impl TrackedJob {
    /// A job at the start of its workflow.
    pub fn from(value: Job) -> (t: TrackedJob)
        ensures
            t.job == value,
            t.step == 0,
    {
        TrackedJob { job: value, step: 0 }
    }
}

/// What the workflow handler asks the runtime to do next.
pub enum WorkflowCommand {
    /// Send this command to the snooze scheduler.
    Snooze(SnoozeInput),
    /// Send this request to the publish engine.
    Publish(Publish),
    /// Report this outcome to the coordinator.
    Report(JobOutcome),
}

/// The publish request for a job: tagged user or automated, carrying the job's key and status.
pub open spec fn publish_for(job: Job, p: Publish) -> bool {
    &&& (p is User) == job.user_initiated
    &&& p.details().key == job.key
    &&& p.details().status == job.status
}

/// Advancing the workflow for key `k`: the entry job moves one step on; the effect at its
/// previous step is dispatched, and a job that has run out of steps is removed and reported as
/// failed.
pub open spec fn advance_step(
    old: Map<KeyView, TrackedJob>,
    new: Map<KeyView, TrackedJob>,
    old_metrics: MetricsView,
    new_metrics: MetricsView,
    k: KeyView,
    cmd: WorkflowCommand,
) -> bool {
    let t = old[k];
    if t.step == 0 {
        &&& new == old.insert(k, TrackedJob { step: 1, ..t })
        &&& new_metrics == old_metrics
        &&& cmd matches WorkflowCommand::Snooze(input) && input.key@ == k && input.wake == t.job.status.wake
    } else if t.step == 1 {
        &&& new == old.insert(k, TrackedJob { step: 2, ..t })
        &&& new_metrics == old_metrics
        &&& cmd matches WorkflowCommand::Publish(p) && publish_for(t.job, p)
    } else {
        failed_step(old, new, old_metrics, new_metrics, k, cmd)
    }
}

/// Failing the job for key `k`: it is removed, counted as failed, and reported as failed.
pub open spec fn failed_step(
    old: Map<KeyView, TrackedJob>,
    new: Map<KeyView, TrackedJob>,
    old_metrics: MetricsView,
    new_metrics: MetricsView,
    k: KeyView,
    cmd: WorkflowCommand,
) -> bool {
    &&& new == old.remove(k)
    &&& new_metrics == (MetricsView { jobs_failed: bump(old_metrics.jobs_failed), ..old_metrics })
    &&& cmd matches WorkflowCommand::Report(JobOutcome::Failed(j)) && j == old[k].job
}

/// Settling the job for a publish result: it is removed and reported as committed or failed,
/// and the matching counter grows.
pub open spec fn publish_result_step(
    old: Map<KeyView, TrackedJob>,
    new: Map<KeyView, TrackedJob>,
    old_metrics: MetricsView,
    new_metrics: MetricsView,
    result: PublishResult,
    outcome: JobOutcome,
) -> bool {
    let k = result.inner()@;
    &&& new == old.remove(k)
    &&& if result.succeeded() {
        &&& new_metrics == (MetricsView { jobs_committed: bump(old_metrics.jobs_committed), ..old_metrics })
        &&& outcome matches JobOutcome::Committed(j) && j == old[k].job
    } else {
        &&& new_metrics == (MetricsView { jobs_failed: bump(old_metrics.jobs_failed), ..old_metrics })
        &&& outcome matches JobOutcome::Failed(j) && j == old[k].job
    }
}

/// The keys of a batch of results are distinct and all have entry jobs.
pub open spec fn batch_settles(jobs: Map<KeyView, TrackedJob>, batch: Seq<PublishResult>) -> bool {
    &&& forall|i: int| 0 <= i < batch.len() ==> jobs.contains_key((#[trigger] batch[i]).inner()@)
    &&& forall|i: int, j: int|
        0 <= i < batch.len() && 0 <= j < batch.len() && i != j ==> (#[trigger] batch[i]).inner()@
            != (#[trigger] batch[j]).inner()@
}

/// The keys of the first `n` results of a batch.
pub open spec fn keys_of_prefix(b: Seq<PublishResult>, n: int) -> Set<KeyView> {
    Set::new(|k: KeyView| exists|i: int| 0 <= i < n && (#[trigger] b[i]).inner()@ == k)
}

/// Sequences per-key effect pipelines between the coordinator and the effect workers.
///
/// One job is entry per key; a new job for a key replaces the entry one.
pub struct WorkflowHandler {
    jobs: KeyMap<TrackedJob>,
}

impl WorkflowHandler {
    /// The entry jobs by key.
    pub closed spec fn view(&self) -> Map<KeyView, TrackedJob> {
        self.jobs@
    }

    /// No entry job has run past the end of the workflow.
    pub closed spec fn wf(&self) -> bool {
        forall|k: KeyView| #[trigger] self.jobs@.contains_key(k) ==> self.jobs@[k].step <= workflow_order().len()
    }

    /// A handler with no entry jobs.
    pub fn new() -> (h: Self)
        ensures
            h.wf(),
            h@ == Map::<KeyView, TrackedJob>::empty(),
    {
        WorkflowHandler { jobs: KeyMap::new() }
    }

    /// Whether a job is entry for `key`.
    pub fn has_job(&self, key: &Key) -> (r: bool)
        ensures
            r == self@.contains_key(key@),
    {
        self.jobs.contains_key(key)
    }

    /// Accepts a job from the coordinator: it is counted, replaces any entry job for its
    /// key, and its first effect (the snooze update for its wake time) is dispatched.
    pub fn handle_new_job(&mut self, job: Job, metrics: &mut Metrics) -> (cmd: WorkflowCommand)
        requires
            old(self).wf(),
            old(metrics).wf(),
        ensures
            final(self).wf(),
            final(metrics).wf(),
            final(self)@ == old(self)@.insert(job.key@, TrackedJob { job, step: 1 }),
            final(metrics)@ == (MetricsView { jobs_dispatched: bump(old(metrics)@.jobs_dispatched), ..old(metrics)@ }),
            cmd matches WorkflowCommand::Snooze(input) && input.key@ == job.key@ && input.wake == job.status.wake,
    {
        metrics.record_job_dispatched();
        let key = job.key.clone();
        let ghost entry = TrackedJob { job, step: 0 };
        self.add_work(&key, job);
        assert(self@[key@] == entry);
        let cmd = self.advance_workflow(key, metrics);
        assert(self@ =~= old(self)@.insert(key@, TrackedJob { job: entry.job, step: 1 }));
        cmd
    }

    fn add_work(&mut self, key: &Key, job: Job)
        requires
            old(self).wf(),
            job.key@ == key@,
        ensures
            final(self).wf(),
            final(self)@ == old(self)@.insert(key@, TrackedJob { job, step: 0 }),
    {
        self.jobs.insert(key.clone(), TrackedJob::from(job));
    }

    fn remove_work(&mut self, key: &Key) -> (job: Job)
        requires
            old(self).wf(),
            old(self)@.contains_key(key@),
        ensures
            final(self).wf(),
            final(self)@ == old(self)@.remove(key@),
            job == old(self)@[key@].job,
    {
        match self.jobs.remove(key) {
            Some(entry) => entry.job,
            None => {
                assert(false);
                unreached()
            },
        }
    }

    /// Dispatches the next effect of the job entry for `key`, moving it one step on; a job
    /// that has run out of steps is failed.
    pub fn advance_workflow(&mut self, key: Key, metrics: &mut Metrics) -> (cmd: WorkflowCommand)
        requires
            old(self).wf(),
            old(metrics).wf(),
            old(self)@.contains_key(key@),
        ensures
            final(self).wf(),
            final(metrics).wf(),
            advance_step(old(self)@, final(self)@, old(metrics)@, final(metrics)@, key@, cmd),
    {
        let (step, wake, details, user_initiated) = match self.jobs.get(&key) {
            Some(entry) => (
                entry.step,
                entry.job.status.wake,
                PublishDetails::from(&entry.job),
                entry.job.user_initiated,
            ),
            None => {
                assert(false);
                unreached()
            },
        };
        match workflow_effect(step) {
            Some(effect) => {
                match self.jobs.remove(&key) {
                    Some(entry) => {
                        let ghost t = entry;
                        self.jobs.insert(key.clone(), TrackedJob { job: entry.job, step: step + 1 });
                        assert(self@ =~= old(self)@.insert(key@, TrackedJob { step: (t.step + 1) as usize, ..t }));
                    },
                    None => {},
                }
                match effect {
                    Effect::Snooze => WorkflowCommand::Snooze(SnoozeInput { key, wake }),
                    Effect::Publish => {
                        let publish = if user_initiated {
                            Publish::User(details)
                        } else {
                            Publish::Automated(details)
                        };
                        WorkflowCommand::Publish(publish)
                    },
                }
            },
            None => self.send_failed(key, metrics),
        }
    }

    /// Fails the job entry for `key`: it is removed, counted, and reported as failed. Used when
    /// the workflow runs out of steps and when an effect cannot be dispatched.
    pub fn send_failed(&mut self, key: Key, metrics: &mut Metrics) -> (cmd: WorkflowCommand)
        requires
            old(self).wf(),
            old(metrics).wf(),
            old(self)@.contains_key(key@),
        ensures
            final(self).wf(),
            final(metrics).wf(),
            failed_step(old(self)@, final(self)@, old(metrics)@, final(metrics)@, key@, cmd),
    {
        metrics.record_job_failed();
        let job = self.remove_work(&key);
        WorkflowCommand::Report(JobOutcome::Failed(job))
    }

    /// Reacts to the snooze scheduler: an accepted command moves the job to its next effect, an
    /// invalid wake time fails the job, and an expired timer becomes a wake for the coordinator.
    pub fn handle_snooze_result(&mut self, result: SnoozeOutcome, metrics: &mut Metrics) -> (cmd: WorkflowCommand)
        requires
            old(self).wf(),
            old(metrics).wf(),
            result matches SnoozeOutcome::Accepted { key } ==> old(self)@.contains_key(key@),
            result matches SnoozeOutcome::InvalidWake { key } ==> old(self)@.contains_key(key@),
        ensures
            final(self).wf(),
            final(metrics).wf(),
            match result {
                SnoozeOutcome::Accepted { key } => advance_step(
                    old(self)@,
                    final(self)@,
                    old(metrics)@,
                    final(metrics)@,
                    key@,
                    cmd,
                ),
                SnoozeOutcome::InvalidWake { key } => failed_step(
                    old(self)@,
                    final(self)@,
                    old(metrics)@,
                    final(metrics)@,
                    key@,
                    cmd,
                ),
                SnoozeOutcome::Expired { key } => {
                    &&& final(self)@ == old(self)@
                    &&& final(metrics)@ == (MetricsView { snooze_wakes: bump(old(metrics)@.snooze_wakes), ..old(metrics)@ })
                    &&& cmd matches WorkflowCommand::Report(JobOutcome::Wake(k)) && k == key
                },
            },
    {
        match result {
            SnoozeOutcome::Accepted { key } => self.advance_workflow(key, metrics),
            SnoozeOutcome::Expired { key } => {
                metrics.record_snooze_wake();
                WorkflowCommand::Report(JobOutcome::Wake(key))
            },
            SnoozeOutcome::InvalidWake { key } => self.send_failed(key, metrics),
        }
    }

    /// Settles the job for one publish result: committed on success, failed otherwise.
    pub fn dispatch_publish_result(&mut self, result: PublishResult, metrics: &mut Metrics) -> (outcome: JobOutcome)
        requires
            old(self).wf(),
            old(metrics).wf(),
            old(self)@.contains_key(result.inner()@),
        ensures
            final(self).wf(),
            final(metrics).wf(),
            publish_result_step(old(self)@, final(self)@, old(metrics)@, final(metrics)@, result, outcome),
    {
        let succeeded = result.is_ok();
        let ghost r = result;
        let key = result.into_inner();
        let job = self.remove_work(&key);
        if succeeded {
            metrics.record_job_committed();
            JobOutcome::Committed(job)
        } else {
            metrics.record_job_failed();
            JobOutcome::Failed(job)
        }
    }

    /// Settles the jobs for a single publish result or a batch of them, in order.
    pub fn handle_publish_outcome(&mut self, outcome: PublishOutcome, metrics: &mut Metrics) -> (outcomes: Vec<JobOutcome>)
        requires
            old(self).wf(),
            old(metrics).wf(),
            match outcome {
                PublishOutcome::Single(r) => old(self)@.contains_key(r.inner()@),
                PublishOutcome::Batch(b) => batch_settles(old(self)@, b@),
            },
        ensures
            final(self).wf(),
            final(metrics).wf(),
            match outcome {
                PublishOutcome::Single(r) => outcomes@.len() == 1 && publish_result_step(
                    old(self)@,
                    final(self)@,
                    old(metrics)@,
                    final(metrics)@,
                    r,
                    outcomes@[0],
                ),
                PublishOutcome::Batch(b) => outcomes@.len() == b@.len() && (forall|i: int|
                    0 <= i < b@.len() ==> (#[trigger] outcomes@[i] matches JobOutcome::Committed(j)
                        && b@[i].succeeded() && j == old(self)@[b@[i].inner()@].job) || (
                    outcomes@[i] matches JobOutcome::Failed(j) && !b@[i].succeeded() && j == old(
                        self,
                    )@[b@[i].inner()@].job)) && final(self)@ == old(self)@.remove_keys(keys_of_prefix(b@, b@.len() as int)),
            },
    {
        match outcome {
            PublishOutcome::Single(single) => {
                let o = self.dispatch_publish_result(single, metrics);
                let mut outcomes = Vec::new();
                outcomes.push(o);
                outcomes
            },
            PublishOutcome::Batch(batch) => {
                let ghost b = batch@;
                let mut outcomes: Vec<JobOutcome> = Vec::new();
                let mut rest = batch;
                let ghost removed: Set<KeyView> = Set::empty();
                assert(removed =~= keys_of_prefix(b, 0));
                assert(self@ =~= old(self)@.remove_keys(removed));
                while rest.len() > 0
                    invariant
                        self.wf(),
                        metrics.wf(),
                        outcomes@.len() + rest@.len() == b.len(),
                        rest@ == b.subrange(outcomes@.len() as int, b.len() as int),
                        removed == keys_of_prefix(b, outcomes@.len() as int),
                        self@ == old(self)@.remove_keys(removed),
                        batch_settles(old(self)@, b),
                        forall|i: int|
                            0 <= i < outcomes@.len() ==> (#[trigger] outcomes@[i] matches JobOutcome::Committed(j)
                                && b[i].succeeded() && j == old(self)@[b[i].inner()@].job) || (
                            outcomes@[i] matches JobOutcome::Failed(j) && !b[i].succeeded() && j == old(
                                self,
                            )@[b[i].inner()@].job),
                    decreases rest@.len(),
                {
                    let n = outcomes.len();
                    let result = rest.remove(0);
                    proof {
                        assert(result == b[n as int]);
                        assert(!removed.contains(b[n as int].inner()@)) by {
                            if removed.contains(b[n as int].inner()@) {
                                let j = choose|j: int| 0 <= j < n && (#[trigger] b[j]).inner()@ == b[n as int].inner()@;
                            }
                        }
                    }
                    let o = self.dispatch_publish_result(result, metrics);
                    outcomes.push(o);
                    proof {
                        let next = keys_of_prefix(b, n + 1);
                        assert(next =~= removed.insert(b[n as int].inner()@)) by {
                            assert forall|x: KeyView| next.contains(x) <==> removed.insert(b[n as int].inner()@).contains(x) by {
                                if next.contains(x) {
                                    let j = choose|j: int| 0 <= j < n + 1 && (#[trigger] b[j]).inner()@ == x;
                                    if j < n {
                                        assert(removed.contains(x));
                                    }
                                }
                                if removed.contains(x) {
                                    let j = choose|j: int| 0 <= j < n && (#[trigger] b[j]).inner()@ == x;
                                    assert(next.contains(x));
                                }
                                if x == b[n as int].inner()@ {
                                    assert(next.contains(x));
                                }
                            }
                        }
                        removed = next;
                        assert(self@ =~= old(self)@.remove_keys(removed));
                    }
                }
                assert(b.subrange(0, b.len() as int) =~= b);
                outcomes
            },
        }
    }
}
} // verus!
