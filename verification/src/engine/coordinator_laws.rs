//! Properties that relate several coordinator decisions.

use vstd::prelude::*;

use crate::engine::coordinator::{
    message_step, outcome_step, MessageOutcome, snapshot_keys,
    automated_update_step, failure_step, is_blank_status, is_snapshot_of, is_user_status,
    latest_state, next_job_for, status_key, success_step, user_update_step, CoordinatorView,
    Reconciliation, UserDecision,
};
use crate::engine::policy::spec_should_publish;
use crate::engine::messages::DomainInput;
use crate::engine::workflow::{Job, JobOutcome};
use crate::model::errors::UpdateError;
use crate::model::key::{Key, KeyView};
use crate::model::status::{Source, State, Status};
use crate::model::user_action::UserAction;

verus! {

/// A stale success never clears newer intent: when a job commits after newer intent was recorded
/// for its key, that intent stays, and the committed status still becomes confirmed state.
pub proof fn law_stale_success_keeps_newer_intent(
    old: CoordinatorView,
    new: CoordinatorView,
    job: Job,
    r: Reconciliation,
)
    requires
        success_step(old, new, job, r),
        old.speculative.contains_key(job.key@),
        old.speculative[job.key@].1 != job.id,
    ensures
        new.speculative.contains_key(job.key@),
        new.speculative[job.key@] == old.speculative[job.key@],
        new.confirmed[job.key@] == (job.status, job.id),
{
}

/// A stale failure never removes newer intent: when a job fails after newer intent was recorded
/// for its key, speculative state is unchanged and the newer intent is dispatched.
pub proof fn law_stale_failure_keeps_newer_intent(
    old: CoordinatorView,
    new: CoordinatorView,
    job: Job,
    r: Reconciliation,
)
    requires
        failure_step(old, new, job, r),
        old.speculative.contains_key(job.key@),
        old.speculative[job.key@].1 != job.id,
    ensures
        new.speculative == old.speculative,
        new.confirmed == old.confirmed,
        r.dispatch matches Ok(Some(j)) && j.id == old.speculative[job.key@].1,
{
}

/// A failed automated job never rolls back intent: speculative state is left in place so the
/// next dispatch picks up the latest intent.
pub proof fn law_automated_failure_keeps_intent(
    old: CoordinatorView,
    new: CoordinatorView,
    job: Job,
    r: Reconciliation,
)
    requires
        failure_step(old, new, job, r),
        !job.user_initiated,
        old.speculative.contains_key(job.key@),
    ensures
        new.speculative == old.speculative,
{
}

/// Confirmations are keyed by id: reconciling an outcome resolves at most the confirmation owed
/// under that outcome's id, and no other pending confirmation changes.
pub proof fn law_confirmation_matches_outcome_id(
    old: CoordinatorView,
    new: CoordinatorView,
    job: Job,
    r: Reconciliation,
    committed: bool,
)
    requires
        if committed {
            success_step(old, new, job, r)
        } else {
            failure_step(old, new, job, r)
        },
    ensures
        r.confirmation matches Some(c) ==> c.0 == job.id && old.pending.contains(job.id),
        new.pending == old.pending.remove(job.id),
{
}

/// Snapshots show confirmed state only: two coordinators with the same confirmed state accept
/// the same snapshots, whatever their speculative intent.
pub proof fn law_snapshot_ignores_speculative(v1: CoordinatorView, v2: CoordinatorView, snap: Seq<Status>)
    requires
        v1.confirmed == v2.confirmed,
    ensures
        is_snapshot_of(v1, snap) == is_snapshot_of(v2, snap),
{
    if is_snapshot_of(v1, snap) {
        lemma_snapshot_transfers(v1, v2, snap);
    }
    if is_snapshot_of(v2, snap) {
        lemma_snapshot_transfers(v2, v1, snap);
    }
}

proof fn lemma_snapshot_transfers(v1: CoordinatorView, v2: CoordinatorView, snap: Seq<Status>)
    requires
        v1.confirmed == v2.confirmed,
        is_snapshot_of(v1, snap),
    ensures
        is_snapshot_of(v2, snap),
{
    let ks = choose|ks: Seq<KeyView>| #[trigger] snapshot_keys(v1, snap, ks);
    assert(snapshot_keys(v2, snap, ks));
}

/// A snapshot lists exactly the confirmed statuses that are not `Ok` (nominal) or
/// `Unbypassed`: every listed status is in another state, and every confirmed status that is
/// alarmed, latched, acknowledged, bypassed or unknown is listed.
pub proof fn law_snapshot_lists_all_but_ok_and_unbypassed(v: CoordinatorView, snap: Seq<Status>)
    requires
        is_snapshot_of(v, snap),
    ensures
        forall|i: int| 0 <= i < snap.len() ==> (#[trigger] snap[i]).state != State::Nominal
            && snap[i].state != State::Unbypassed,
        forall|k: KeyView|
            #![trigger v.confirmed[k]]
            v.confirmed.contains_key(k) ==> (snap.contains(v.confirmed[k].0) <==> (
            v.confirmed[k].0.state != State::Nominal && v.confirmed[k].0.state
                != State::Unbypassed)),
        forall|k: KeyView|
            #![trigger v.confirmed[k]]
            v.confirmed.contains_key(k) && (v.confirmed[k].0.state == State::Alarmed
                || v.confirmed[k].0.state == State::Latched || v.confirmed[k].0.state
                == State::Acknowledged || v.confirmed[k].0.state == State::Bypassed
                || v.confirmed[k].0.state == State::Unknown) ==> snap.contains(v.confirmed[k].0),
{
    let ks = choose|ks: Seq<KeyView>| #[trigger] snapshot_keys(v, snap, ks);
    assert forall|i: int| 0 <= i < snap.len() implies (#[trigger] snap[i]).state != State::Nominal
        && snap[i].state != State::Unbypassed by {
        assert(v.confirmed.contains_key(ks[i]));
    }
    assert forall|k: KeyView| #![trigger v.confirmed[k]] v.confirmed.contains_key(k) implies (snap.contains(
        v.confirmed[k].0,
    ) <==> (v.confirmed[k].0.state != State::Nominal && v.confirmed[k].0.state != State::Unbypassed)) by {
        if v.confirmed[k].0.state != State::Nominal && v.confirmed[k].0.state != State::Unbypassed {
            assert(ks.contains(k));
            let j = choose|j: int| 0 <= j < ks.len() && ks[j] == k;
            assert(snap[j] == v.confirmed[k].0);
        }
        if snap.contains(v.confirmed[k].0) {
            let i = choose|i: int| 0 <= i < snap.len() && snap[i] == v.confirmed[k].0;
            assert(snap[i].state != State::Nominal);
        }
    }
}

/// Ids only grow: no decision on a domain input or outcome lowers the next id, and an automated
/// update that records new intent hands out the next id and moves past it.
pub proof fn law_ids_are_monotonic(
    old: CoordinatorView,
    new: CoordinatorView,
    input: DomainInput,
    out: MessageOutcome,
    outcome: JobOutcome,
    r: Reconciliation,
)
    requires
        old.next_id < u64::MAX,
        message_step(old, new, input, out) || outcome_step(old, new, outcome, r),
    ensures
        new.next_id >= old.next_id,
        message_step(old, new, input, out) ==> (input matches DomainInput::AutomatedUpdate(status)
            ==> (new.next_id > old.next_id ==> new.speculative[status_key(status)].1 == old.next_id)),
{
}

/// Confirmed state moves only when a publish commits: no domain input changes it, nor does a
/// failure or a wake; a commit records the committed status under its id.
pub proof fn law_confirmed_changes_only_on_commit(
    old: CoordinatorView,
    new: CoordinatorView,
    input: DomainInput,
    out: MessageOutcome,
    outcome: JobOutcome,
    r: Reconciliation,
)
    requires
        message_step(old, new, input, out) || outcome_step(old, new, outcome, r),
    ensures
        message_step(old, new, input, out) ==> new.confirmed == old.confirmed,
        outcome_step(old, new, outcome, r) && !(outcome is Committed) ==> new.confirmed
            == old.confirmed,
        outcome_step(old, new, outcome, r) ==> (outcome matches JobOutcome::Committed(job)
            ==> new.confirmed == old.confirmed.insert(job.key@, (job.status, job.id))),
{
}

/// Bypass is source-specific and suppresses EPICS traffic: while the latest known status of an
/// EPICS key is bypassed, an automated EPICS update other than `Unbypassed` changes nothing and
/// dispatches nothing.
pub proof fn law_bypass_suppresses_epics_updates(
    old: CoordinatorView,
    new: CoordinatorView,
    status: Status,
    job: Option<Job>,
)
    requires
        automated_update_step(old, new, status, job),
        latest_state(old, status_key(status)) == State::Bypassed,
        status.source == Source::Epics,
        status.state != State::Unbypassed,
    ensures
        new == old,
        job is None,
{
}

/// Updates are local to their key: bypassing or updating one device-source leaves the intent
/// and the confirmed state of every other key as they were.
pub proof fn law_updates_are_key_local(
    old: CoordinatorView,
    new: CoordinatorView,
    status: Status,
    job: Option<Job>,
    key: Key,
    action: UserAction,
    user: Seq<char>,
    decision: UserDecision,
    other: KeyView,
)
    requires
        automated_update_step(old, new, status, job) && other != status_key(status)
            || user_update_step(old, new, key, action, user, decision) && other != key@,
    ensures
        new.speculative.contains_key(other) == old.speculative.contains_key(other),
        old.speculative.contains_key(other) ==> new.speculative[other] == old.speculative[other],
        new.confirmed == old.confirmed,
{
}

/// A write is read back: an accepted user action dispatched at once and then committed leaves
/// the user's status as the key's confirmed state, clears the key's intent, and resolves the
/// user's confirmation with success.
pub proof fn law_accepted_action_committed(
    v0: CoordinatorView,
    v1: CoordinatorView,
    v2: CoordinatorView,
    key: Key,
    action: UserAction,
    user: Seq<char>,
    decision: UserDecision,
    job: Job,
    r: Reconciliation,
)
    requires
        forall|p: u64| v0.pending.contains(p) ==> p < v0.next_id,
        user_update_step(v0, v1, key, action, user, decision),
        decision matches UserDecision::Accepted { job: Some(j), .. } && j == job,
        success_step(v1, v2, job, r),
    ensures
        decision matches UserDecision::Accepted { id, .. } && r.confirmation == Some(
            (id, Ok::<(), UpdateError>(())),
        ),
        v2.confirmed.contains_key(key@),
        is_user_status(v2.confirmed[key@].0, key@, action, user),
        !v2.speculative.contains_key(key@),
        v2.pending == v0.pending,
{
    let id = v0.next_id;
    let s = choose|s: Status|
        #![auto]
        is_user_status(s, key@, action, user) && v1 == CoordinatorView {
            speculative: v0.speculative.insert(key@, (s, id)),
            pending: v0.pending.insert(id),
            next_id: (v0.next_id + 1) as u64,
            ..v0
        } && if v0.speculative.contains_key(key@) {
            decision->job is None
        } else {
            next_job_for(v1, key@, decision->job)
        };
    assert(!v0.pending.contains(id));
    assert(v2.pending =~= v0.pending);
}

/// A failed user action rolls back: an accepted user action dispatched at once and then failed
/// tells the user of an internal error and restores the key's last confirmed state as intent.
pub proof fn law_accepted_action_failed(
    v0: CoordinatorView,
    v1: CoordinatorView,
    v2: CoordinatorView,
    key: Key,
    action: UserAction,
    user: Seq<char>,
    decision: UserDecision,
    job: Job,
    r: Reconciliation,
)
    requires
        user_update_step(v0, v1, key, action, user, decision),
        decision matches UserDecision::Accepted { job: Some(j), .. } && j == job,
        failure_step(v1, v2, job, r),
    ensures
        decision matches UserDecision::Accepted { id, .. } && r.confirmation == Some(
            (id, Err::<(), UpdateError>(UpdateError::Internal(job.key))),
        ),
        v2.confirmed == v0.confirmed,
        v2.speculative.contains_key(key@),
        v0.confirmed.contains_key(key@) ==> v2.speculative[key@] == v0.confirmed[key@],
        !v0.confirmed.contains_key(key@) ==> is_blank_status(v2.speculative[key@].0, key@),
{
}

/// Refusal leaves no trace: a user action that is not allowed changes nothing and reports the
/// latest known state and the requested state.
pub proof fn law_refused_action_changes_nothing(
    old: CoordinatorView,
    new: CoordinatorView,
    key: Key,
    action: UserAction,
    user: Seq<char>,
    decision: UserDecision,
)
    requires
        user_update_step(old, new, key, action, user, decision),
        decision is Rejected,
    ensures
        new == old,
{
}

} // verus!
