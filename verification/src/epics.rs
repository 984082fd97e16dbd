//! Alarm state messages in the Phoebus alarm-server format.
//!
//! A state message is keyed `state:DEVICE` and its value is a flat JSON-like object that
//! always holds the severity and holds each other field only when it is set.

use vstd::prelude::*;

use crate::clock::{chrono_timestamp_valid, format_utc, utc_display_text};
use crate::model::status::Timestamp;
use crate::text::{concat2, concat3};

verus! {

/// The severity of an alarm as Phoebus names it.
#[derive(Debug, Clone, Copy, PartialEq, Eq, Structural)]
pub enum PhoebusSeverity {
    Unknown,
    /// The severity Phoebus calls `Ok`.
    Nominal,
    Minor,
    Major,
}

/// The name of a severity as it appears in messages.
pub open spec fn phoebus_severity_name(s: PhoebusSeverity) -> Seq<char> {
    match s {
        PhoebusSeverity::Unknown => "Unknown"@,
        PhoebusSeverity::Nominal => "Ok"@,
        PhoebusSeverity::Minor => "Minor"@,
        PhoebusSeverity::Major => "Major"@,
    }
}

impl PhoebusSeverity {
    /// The severity's name, as displayed.
    pub fn to_message(&self) -> (r: &'static str)
        ensures
            r@ == phoebus_severity_name(*self),
    {
        match self {
            PhoebusSeverity::Unknown => "Unknown",
            PhoebusSeverity::Nominal => "Ok",
            PhoebusSeverity::Minor => "Minor",
            PhoebusSeverity::Major => "Major",
        }
    }
}

/// A message with an optional key and a text value.
#[derive(Debug)]
pub struct KeyedMessage {
    pub key: Option<String>,
    pub value: String,
}

/// The alarm state of one device, to be published to Phoebus.
#[derive(Debug)]
pub struct PhoebusAlarmState {
    pub device: String,
    pub severity: PhoebusSeverity,
    pub latch: Option<bool>,
    pub message: Option<String>,
    pub value: Option<String>,
    pub time: Option<Timestamp>,
    pub current_severity: Option<PhoebusSeverity>,
    pub current_message: Option<String>,
}

/// The text of a boolean, as displayed.
pub open spec fn bool_text(b: bool) -> Seq<char> {
    if b {
        "true"@
    } else {
        "false"@
    }
}

/// The entry of a set field: `, "FIELD": "CONTENT"`; an unset field gives nothing.
pub open spec fn field_entry(field: Seq<char>, content: Option<Seq<char>>) -> Seq<char> {
    match content {
        Some(c) => ", \""@ + field + "\": \""@ + c + "\""@,
        None => Seq::empty(),
    }
}

/// Whether the time of a state, when set, is one chrono can represent.
pub open spec fn time_representable(t: Option<Timestamp>) -> bool {
    t matches Some(ts) ==> ts.nanos >= 0 && chrono_timestamp_valid(ts.seconds, ts.nanos as u32)
}

/// The fields of a state message, inside the braces.
pub open spec fn phoebus_contents(st: PhoebusAlarmState) -> Seq<char> {
    "\"severity\": \""@ + phoebus_severity_name(st.severity) + "\""@
        + field_entry("latch"@, match st.latch {
            Some(b) => Some(bool_text(b)),
            None => None,
        })
        + field_entry("message"@, match st.message {
            Some(m) => Some(m@),
            None => None,
        })
        + field_entry("value"@, match st.value {
            Some(v) => Some(v@),
            None => None,
        })
        + field_entry("time"@, match st.time {
            Some(t) => Some(utc_display_text(t.seconds, t.nanos as u32)),
            None => None,
        })
        + field_entry("current_severity"@, match st.current_severity {
            Some(s) => Some(phoebus_severity_name(s)),
            None => None,
        })
        + field_entry("current_message"@, match st.current_message {
            Some(m) => Some(m@),
            None => None,
        })
}

/// Writes the entry of a field that may be unset.
pub fn check_and_set(field: &str, val: Option<&str>) -> (r: String)
    ensures
        r@ == field_entry(field@, match val {
            Some(v) => Some(v@),
            None => None,
        }),
{
    match val {
        Some(content) => {
            let head = concat3(", \"", field, "\": \"");
            concat3(head.as_str(), content, "\"")
        },
        None => String::new(),
    }
}

fn bool_str(b: bool) -> (r: &'static str)
    ensures
        r@ == bool_text(b),
{
    if b {
        "true"
    } else {
        "false"
    }
}

impl PhoebusAlarmState {
    /// The state message: keyed `state:DEVICE`, with value `{ FIELDS }`.
    pub fn into_message(self) -> (r: KeyedMessage)
        requires
            time_representable(self.time),
        ensures
            r.key matches Some(k) && k@ == "state:"@ + self.device@,
            r.value@ == "{ "@ + phoebus_contents(self) + " }"@,
    {
        let ghost st = self;
        let mut contents = concat3("\"severity\": \"", self.severity.to_message(), "\"");
        let latch = match self.latch {
            Some(b) => Some(bool_str(b)),
            None => None,
        };
        let part = check_and_set("latch", latch);
        contents = concat2(contents.as_str(), part.as_str());
        let message = match &self.message {
            Some(m) => Some(m.as_str()),
            None => None,
        };
        let part = check_and_set("message", message);
        contents = concat2(contents.as_str(), part.as_str());
        let value = match &self.value {
            Some(v) => Some(v.as_str()),
            None => None,
        };
        let part = check_and_set("value", value);
        contents = concat2(contents.as_str(), part.as_str());
        let time_text = match self.time {
            Some(t) => Some(format_utc(t.seconds, t.nanos as u32)),
            None => None,
        };
        let time = match &time_text {
            Some(t) => Some(t.as_str()),
            None => None,
        };
        let part = check_and_set("time", time);
        contents = concat2(contents.as_str(), part.as_str());
        let current_severity = match self.current_severity {
            Some(s) => Some(s.to_message()),
            None => None,
        };
        let part = check_and_set("current_severity", current_severity);
        contents = concat2(contents.as_str(), part.as_str());
        let current_message = match &self.current_message {
            Some(m) => Some(m.as_str()),
            None => None,
        };
        let part = check_and_set("current_message", current_message);
        contents = concat2(contents.as_str(), part.as_str());
        assert(contents@ =~= phoebus_contents(st));
        KeyedMessage {
            key: Some(concat2("state:", self.device.as_str())),
            value: concat3("{ ", contents.as_str(), " }"),
        }
    }
}

} // verus!
