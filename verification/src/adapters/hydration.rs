//! Startup hydration: the alarm states that the coordinator starts from.
//!
//! The EPICS snapshot topic is a compacted log of service-managed bypass state. Replaying it
//! in order, only well-keyed EPICS records count; an empty or `null` payload is a tombstone
//! that clears the key, a bypassed EPICS status sets it, and any other EPICS status clears it.
//! Records whose payload is not a status leave the earlier state in place.

use vstd::prelude::*;

use crate::collections::KeyMap;
use crate::model::key::{normalize_device, parse_key_spec, Key, KeyView};
use crate::model::status::{Source, State, Status};
use crate::text::{eq_ignore_ascii_case, eq_ignore_ascii_case_spec, trim, trim_spec};

verus! {

/// One record of the EPICS snapshot topic: its message key, its text payload, and the status
/// that the payload decodes to when it is a valid status document.
#[derive(Debug)]
pub struct SnapshotRecord {
    pub key: Option<String>,
    pub value: String,
    pub status: Option<Status>,
}

/// Whether a payload is a tombstone: blank, or `null` in any ASCII case, around whitespace.
pub open spec fn is_tombstone(value: Seq<char>) -> bool {
    trim_spec(value).len() == 0 || eq_ignore_ascii_case_spec(trim_spec(value), "null"@)
}

/// The hydrated states after replaying one more record.
pub open spec fn snapshot_step(m: Map<KeyView, Status>, r: SnapshotRecord) -> Map<
    KeyView,
    Status,
> {
    match r.key {
        None => m,
        Some(text) => match parse_key_spec(text@) {
            Err(_) => m,
            Ok(key) => if key.1 != Source::Epics {
                m
            } else if is_tombstone(r.value@) {
                m.remove(key)
            } else {
                match r.status {
                    None => m,
                    Some(s) => if s.source != Source::Epics {
                        m
                    } else if s.state == State::Bypassed {
                        m.insert(key, s)
                    } else {
                        m.remove(key)
                    },
                }
            },
        },
    }
}

/// The hydrated states after replaying `records` in order from nothing.
pub open spec fn reduce_snapshot_spec(records: Seq<SnapshotRecord>) -> Map<KeyView, Status>
    decreases records.len(),
{
    if records.len() == 0 {
        Map::empty()
    } else {
        snapshot_step(reduce_snapshot_spec(records.drop_last()), records.last())
    }
}

/// Hydration from the EPICS snapshot only ever yields bypassed EPICS statuses, each under an
/// EPICS key.
pub proof fn law_snapshot_holds_only_epics_bypasses(records: Seq<SnapshotRecord>)
    ensures
        forall|k: KeyView| #[trigger]
            reduce_snapshot_spec(records).dom().contains(k) ==> {
                &&& k.1 == Source::Epics
                &&& reduce_snapshot_spec(records)[k].source == Source::Epics
                &&& reduce_snapshot_spec(records)[k].state == State::Bypassed
            },
    decreases records.len(),
{
    if records.len() > 0 {
        law_snapshot_holds_only_epics_bypasses(records.drop_last());
    }
}

fn tombstone(value: &str) -> (r: bool)
    ensures
        r == is_tombstone(value@),
{
    let t = trim(value);
    t.unicode_len() == 0 || eq_ignore_ascii_case(t, "null")
}

/// Replays the EPICS snapshot records into the bypass states that hydrate the coordinator.
pub fn reduce_snapshot(records: Vec<SnapshotRecord>) -> (m: KeyMap<Status>)
    ensures
        m@ == reduce_snapshot_spec(records@),
{
    let mut hydrated: KeyMap<Status> = KeyMap::new();
    let n = records.len();
    let mut i: usize = 0;
    while i < n
        invariant
            n == records@.len(),
            i <= n,
            hydrated@ == reduce_snapshot_spec(records@.subrange(0, i as int)),
        decreases n - i,
    {
        let ghost before = hydrated@;
        let record = &records[i];
        proof {
            assert(records@.subrange(0, i + 1).drop_last() =~= records@.subrange(0, i as int));
            assert(records@.subrange(0, i + 1).last() == records@[i as int]);
        }
        match &record.key {
            None => {},
            Some(text) => {
                match Key::try_from(text.as_str()) {
                    Err(_) => {},
                    Ok(key) => {
                        if key.source == Source::Epics {
                            if tombstone(record.value.as_str()) {
                                hydrated.remove(&key);
                            } else {
                                match &record.status {
                                    None => {},
                                    Some(status) => {
                                        if status.source != Source::Epics {
                                        } else if status.state == State::Bypassed {
                                            hydrated.insert(key, status.clone());
                                        } else {
                                            hydrated.remove(&key);
                                        }
                                    },
                                }
                            }
                        }
                    },
                }
            },
        }
        assert(hydrated@ == snapshot_step(before, records@[i as int]));
        i = i + 1;
    }
    assert(records@.subrange(0, n as int) =~= records@);
    hydrated
}

/// The states held by a list of statuses, each under its own key; a later status for the
/// same key replaces an earlier one.
pub open spec fn statuses_by_key_spec(statuses: Seq<Status>) -> Map<KeyView, Status>
    decreases statuses.len(),
{
    if statuses.len() == 0 {
        Map::empty()
    } else {
        let s = statuses.last();
        statuses_by_key_spec(statuses.drop_last()).insert(
            (normalize_device(s.device@), s.source),
            s,
        )
    }
}

/// Keys a snapshot of alarm statuses, as ACNET hydration does with the proxy's snapshot.
pub fn statuses_by_key(statuses: Vec<Status>) -> (m: KeyMap<Status>)
    ensures
        m@ == statuses_by_key_spec(statuses@),
{
    let mut hydrated: KeyMap<Status> = KeyMap::new();
    let n = statuses.len();
    let mut i: usize = 0;
    while i < n
        invariant
            n == statuses@.len(),
            i <= n,
            hydrated@ == statuses_by_key_spec(statuses@.subrange(0, i as int)),
        decreases n - i,
    {
        proof {
            assert(statuses@.subrange(0, i + 1).drop_last() =~= statuses@.subrange(0, i as int));
            assert(statuses@.subrange(0, i + 1).last() == statuses@[i as int]);
        }
        let status = statuses[i].clone();
        let key = Key::from(&status);
        hydrated.insert(key, status);
        i = i + 1;
    }
    assert(statuses@.subrange(0, n as int) =~= statuses@);
    hydrated
}

} // verus!
