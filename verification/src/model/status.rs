//! Alarm status records and their enumerations.

use vstd::prelude::*;

verus! {

/// Where an alarm comes from.
#[derive(Clone, Copy, Debug, PartialEq, Eq, Structural, Hash)]
pub enum Source {
    Unknown,
    Analog,
    Digital,
    Epics,
}

/// How severe an alarm currently is.
#[derive(Clone, Copy, Debug, PartialEq, Eq, Structural, Hash)]
pub enum Severity {
    Unknown,
    Low,
    High,
}

/// The lifecycle state of an alarm.
#[derive(Clone, Copy, Debug, PartialEq, Eq, Structural, Hash)]
pub enum State {
    Unknown,
    Nominal,
    Alarmed,
    Latched,
    Acknowledged,
    Bypassed,
    Unbypassed,
}

/// Seconds and nanoseconds since the Unix epoch.
#[derive(Clone, Copy, Debug, PartialEq, Eq, Structural, Hash)]
pub struct Timestamp {
    pub seconds: i64,
    pub nanos: i32,
}

/// One alarm status record, as published to downstream consumers.
#[derive(Debug)]
pub struct Status {
    pub device: String,
    pub severity: Severity,
    pub state: State,
    pub source: Source,
    pub acknowledgeable: bool,
    pub time: Option<Timestamp>,
    pub epics_type: String,
    pub user: String,
    pub wake: Option<Timestamp>,
}

impl Clone for Status {
    fn clone(&self) -> (res: Self)
        ensures
            res == *self,
    {
        Status {
            device: self.device.clone(),
            severity: self.severity,
            state: self.state,
            source: self.source,
            acknowledgeable: self.acknowledgeable,
            time: self.time,
            epics_type: self.epics_type.clone(),
            user: self.user.clone(),
            wake: self.wake,
        }
    }
}

/// The status that every field left at its default value describes.
pub open spec fn is_default_status(s: Status) -> bool {
    &&& s.device@ == Seq::<char>::empty()
    &&& s.severity == Severity::Unknown
    &&& s.state == State::Unknown
    &&& s.source == Source::Unknown
    &&& !s.acknowledgeable
    &&& s.time is None
    &&& s.epics_type@ == Seq::<char>::empty()
    &&& s.user@ == Seq::<char>::empty()
    &&& s.wake is None
}

impl Default for Status {
    fn default() -> (res: Self)
        ensures
            is_default_status(res),
    {
        Status {
            device: String::new(),
            severity: Severity::Unknown,
            state: State::Unknown,
            source: Source::Unknown,
            acknowledgeable: false,
            time: None,
            epics_type: String::new(),
            user: String::new(),
            wake: None,
        }
    }
}

} // verus!

verus! {

/// The variant name of a state, as it appears in messages ("Ok" for the nominal state).
pub open spec fn state_name(state: State) -> Seq<char> {
    match state {
        State::Unknown => "Unknown"@,
        State::Nominal => "Ok"@,
        State::Alarmed => "Alarmed"@,
        State::Latched => "Latched"@,
        State::Acknowledged => "Acknowledged"@,
        State::Bypassed => "Bypassed"@,
        State::Unbypassed => "Unbypassed"@,
    }
}

/// Returns the variant name of a state, as it appears in messages.
pub fn state_to_str(state: State) -> (r: &'static str)
    ensures
        r@ == state_name(state),
{
    match state {
        State::Unknown => "Unknown",
        State::Nominal => "Ok",
        State::Alarmed => "Alarmed",
        State::Latched => "Latched",
        State::Acknowledged => "Acknowledged",
        State::Bypassed => "Bypassed",
        State::Unbypassed => "Unbypassed",
    }
}

} // verus!
