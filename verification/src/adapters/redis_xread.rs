//! Alarm entries read with `XREAD` from the Redis stream, where each entry names its device,
//! severity, state and source explicitly.
//!
//! Field values arrive as Redis values: bulk strings (decoded as UTF-8, with invalid sequences
//! replaced), simple strings and integers have a text form; other values have none. An entry
//! without a device is skipped; the device is trimmed and uppercased.

use vstd::prelude::*;

use crate::adapters::redis::redis_source;
use crate::clock::utc_now;
use crate::model::key::{normalize, normalize_device, source_from_upper};
use crate::model::status::{Severity, Source, State, Status, Timestamp};
use crate::text::{concat2, str_eq, to_uppercase, unicode_uppercase};

verus! {

/// What `String::from_utf8_lossy` yields for some bytes: their UTF-8 decoding, with each invalid
/// sequence replaced by U+FFFD.
pub uninterp spec fn utf8_lossy_text(bytes: Seq<u8>) -> Seq<char>;

/// Calls `String::from_utf8_lossy`; the result is the lossy UTF-8 decoding of `bytes`.
#[verifier::external_body]
fn utf8_lossy(bytes: &[u8]) -> (r: String)
    ensures
        r@ == utf8_lossy_text(bytes@),
{
    String::from_utf8_lossy(bytes).to_string()
}

/// A field value of a stream entry.
#[derive(Debug)]
pub enum FieldValue {
    BulkString(Vec<u8>),
    SimpleString(String),
    Int(i64),
    Other,
}

/// The decimal digit character for a value below ten.
pub open spec fn digit_char(d: int) -> char {
    (('0' as int) + d) as char
}

/// The decimal text of a natural number, without leading zeros.
pub open spec fn natural_text(n: nat) -> Seq<char>
    decreases n,
{
    if n < 10 {
        seq![digit_char(n as int)]
    } else {
        natural_text(n / 10).push(digit_char((n % 10) as int))
    }
}

/// The decimal text of an integer, as `i64::to_string` writes it: a minus sign before the
/// digits of a negative number.
pub open spec fn integer_text(n: int) -> Seq<char> {
    if n < 0 {
        seq!['-'] + natural_text((-n) as nat)
    } else {
        natural_text(n as nat)
    }
}

fn digit_str(d: u64) -> (s: &'static str)
    requires
        d < 10,
    ensures
        s@ == seq![digit_char(d as int)],
{
    let s = match d {
        0 => {
            proof {
                reveal_strlit("0");
            }
            "0"
        },
        1 => {
            proof {
                reveal_strlit("1");
            }
            "1"
        },
        2 => {
            proof {
                reveal_strlit("2");
            }
            "2"
        },
        3 => {
            proof {
                reveal_strlit("3");
            }
            "3"
        },
        4 => {
            proof {
                reveal_strlit("4");
            }
            "4"
        },
        5 => {
            proof {
                reveal_strlit("5");
            }
            "5"
        },
        6 => {
            proof {
                reveal_strlit("6");
            }
            "6"
        },
        7 => {
            proof {
                reveal_strlit("7");
            }
            "7"
        },
        8 => {
            proof {
                reveal_strlit("8");
            }
            "8"
        },
        _ => {
            proof {
                reveal_strlit("9");
            }
            "9"
        },
    };
    assert(s@ =~= seq![digit_char(d as int)]);
    s
}

/// Writes a natural number in decimal.
fn natural_to_text(n: u64) -> (r: String)
    ensures
        r@ == natural_text(n as nat),
    decreases n,
{
    if n < 10 {
        String::from_str(digit_str(n))
    } else {
        let head = natural_to_text(n / 10);
        concat2(head.as_str(), digit_str(n % 10))
    }
}

/// Writes an integer in decimal, as `i64::to_string` does.
pub fn integer_to_text(n: i64) -> (r: String)
    ensures
        r@ == integer_text(n as int),
{
    if n < 0 {
        let magnitude: u64 = if n == i64::MIN {
            0x8000_0000_0000_0000u64
        } else {
            (-n) as u64
        };
        let digits = natural_to_text(magnitude);
        proof {
            reveal_strlit("-");
        }
        let r = concat2("-", digits.as_str());
        assert(r@ =~= integer_text(n as int));
        r
    } else {
        natural_to_text(n as u64)
    }
}

/// The text form of a field value, if it has one.
pub open spec fn field_value_text(v: FieldValue) -> Option<Seq<char>> {
    match v {
        FieldValue::BulkString(bytes) => Some(utf8_lossy_text(bytes@)),
        FieldValue::SimpleString(s) => Some(s@),
        FieldValue::Int(i) => Some(integer_text(i as int)),
        FieldValue::Other => None,
    }
}

/// The text of the first field named `key` that has a text form: `None` when the field is
/// missing or its value has no text form.
pub open spec fn xread_field(entries: Seq<(String, FieldValue)>, key: Seq<char>) -> Option<Seq<char>>
    decreases entries.len(),
{
    if entries.len() == 0 {
        None
    } else if entries[0].0@ == key {
        field_value_text(entries[0].1)
    } else {
        xread_field(entries.subrange(1, entries.len() as int), key)
    }
}

/// Reads the text form of a field value.
pub fn map_to_string(value: &FieldValue) -> (r: Option<String>)
    ensures
        match field_value_text(*value) {
            Some(t) => r matches Some(s) && s@ == t,
            None => r is None,
        },
{
    match value {
        FieldValue::BulkString(bytes) => Some(utf8_lossy(bytes.as_slice())),
        FieldValue::SimpleString(s) => Some(s.clone()),
        FieldValue::Int(i) => Some(integer_to_text(*i)),
        FieldValue::Other => None,
    }
}

/// Finds the text of the first field named `key`.
pub fn lookup_xread_field(entries: &Vec<(String, FieldValue)>, key: &str) -> (r: Option<String>)
    ensures
        match xread_field(entries@, key@) {
            Some(t) => r matches Some(s) && s@ == t,
            None => r is None,
        },
{
    let n = entries.len();
    let mut i: usize = 0;
    assert(entries@.subrange(0, n as int) =~= entries@);
    while i < n
        invariant
            n == entries@.len(),
            i <= n,
            xread_field(entries@, key@) == xread_field(entries@.subrange(i as int, n as int), key@),
        decreases n - i,
    {
        let ghost rest = entries@.subrange(i as int, n as int);
        assert(rest[0] == entries@[i as int]);
        if str_eq(entries[i].0.as_str(), key) {
            return map_to_string(&entries[i].1);
        }
        assert(rest.subrange(1, rest.len() as int) =~= entries@.subrange(i + 1, n as int));
        i = i + 1;
    }
    None
}

/// The severity that an uppercased severity name stands for.
pub open spec fn xread_severity(upper: Seq<char>) -> Severity {
    if upper == "LOW"@ || upper == "MINOR"@ {
        Severity::Low
    } else if upper == "HIGH"@ || upper == "MAJOR"@ {
        Severity::High
    } else {
        Severity::Unknown
    }
}

/// The state that an uppercased state name stands for.
pub open spec fn xread_state(upper: Seq<char>) -> State {
    if upper == "OK"@ || upper == "NORMAL"@ {
        State::Nominal
    } else if upper == "ALARMED"@ || upper == "ALARM"@ {
        State::Alarmed
    } else if upper == "BYPASSED"@ {
        State::Bypassed
    } else if upper == "LATCHED"@ {
        State::Latched
    } else if upper == "ACKNOWLEDGED"@ || upper == "ACK"@ {
        State::Acknowledged
    } else {
        State::Unknown
    }
}

/// The XREAD severity names, matched after uppercasing: `HIGH` or `MAJOR` is high, `LOW` or
/// `MINOR` is low, and any other text is unknown.
pub proof fn law_xread_severity_names(upper: Seq<char>)
    ensures
        xread_severity(upper) == Severity::High <==> (upper == "HIGH"@ || upper == "MAJOR"@),
        xread_severity(upper) == Severity::Low <==> (upper == "LOW"@ || upper == "MINOR"@),
        xread_severity(upper) == Severity::Unknown <==> !(upper == "HIGH"@ || upper == "MAJOR"@
            || upper == "LOW"@ || upper == "MINOR"@),
{
    reveal_strlit("HIGH");
    reveal_strlit("MAJOR");
    reveal_strlit("LOW");
    reveal_strlit("MINOR");
    assert("HIGH"@.len() != "MAJOR"@.len());
    assert("HIGH"@.len() != "LOW"@.len());
    assert("HIGH"@.len() != "MINOR"@.len());
    assert("MAJOR"@.len() != "LOW"@.len());
    assert("MAJOR"@[1] != "MINOR"@[1]);
    assert("LOW"@.len() != "MINOR"@.len());
}

/// The XREAD state names, matched after uppercasing: `OK` or `NORMAL` is nominal, `ALARMED` or
/// `ALARM` is alarmed, `BYPASSED`, `LATCHED`, and `ACKNOWLEDGED` or `ACK` name their states,
/// and any other text is unknown.
pub proof fn law_xread_state_names(upper: Seq<char>)
    ensures
        xread_state(upper) == State::Nominal <==> (upper == "OK"@ || upper == "NORMAL"@),
        xread_state(upper) == State::Alarmed <==> (upper == "ALARMED"@ || upper == "ALARM"@),
        xread_state(upper) == State::Bypassed <==> upper == "BYPASSED"@,
        xread_state(upper) == State::Latched <==> upper == "LATCHED"@,
        xread_state(upper) == State::Acknowledged <==> (upper == "ACKNOWLEDGED"@ || upper
            == "ACK"@),
        xread_state(upper) != State::Unbypassed,
        xread_state(upper) == State::Unknown <==> !(upper == "OK"@ || upper == "NORMAL"@ || upper
            == "ALARMED"@ || upper == "ALARM"@ || upper == "BYPASSED"@ || upper == "LATCHED"@
            || upper == "ACKNOWLEDGED"@ || upper == "ACK"@),
{
    reveal_strlit("OK");
    reveal_strlit("NORMAL");
    reveal_strlit("ALARMED");
    reveal_strlit("ALARM");
    reveal_strlit("BYPASSED");
    reveal_strlit("LATCHED");
    reveal_strlit("ACKNOWLEDGED");
    reveal_strlit("ACK");
    assert("OK"@.len() != "NORMAL"@.len());
    assert("OK"@.len() != "ALARMED"@.len());
    assert("OK"@.len() != "ALARM"@.len());
    assert("OK"@.len() != "BYPASSED"@.len());
    assert("OK"@.len() != "LATCHED"@.len());
    assert("OK"@.len() != "ACKNOWLEDGED"@.len());
    assert("OK"@.len() != "ACK"@.len());
    assert("NORMAL"@.len() != "ALARMED"@.len());
    assert("NORMAL"@.len() != "ALARM"@.len());
    assert("NORMAL"@.len() != "BYPASSED"@.len());
    assert("NORMAL"@.len() != "LATCHED"@.len());
    assert("NORMAL"@.len() != "ACKNOWLEDGED"@.len());
    assert("NORMAL"@.len() != "ACK"@.len());
    assert("ALARMED"@.len() != "ALARM"@.len());
    assert("ALARMED"@.len() != "BYPASSED"@.len());
    assert("ALARMED"@[0] != "LATCHED"@[0]);
    assert("ALARMED"@.len() != "ACKNOWLEDGED"@.len());
    assert("ALARMED"@.len() != "ACK"@.len());
    assert("ALARM"@.len() != "BYPASSED"@.len());
    assert("ALARM"@.len() != "LATCHED"@.len());
    assert("ALARM"@.len() != "ACKNOWLEDGED"@.len());
    assert("ALARM"@.len() != "ACK"@.len());
    assert("BYPASSED"@.len() != "LATCHED"@.len());
    assert("BYPASSED"@.len() != "ACKNOWLEDGED"@.len());
    assert("BYPASSED"@.len() != "ACK"@.len());
    assert("LATCHED"@.len() != "ACKNOWLEDGED"@.len());
    assert("LATCHED"@.len() != "ACK"@.len());
    assert("ACKNOWLEDGED"@.len() != "ACK"@.len());
}

/// The text of an optional field, or the empty text.
pub open spec fn text_or_empty(t: Option<Seq<char>>) -> Seq<char> {
    match t {
        Some(s) => s,
        None => Seq::empty(),
    }
}

/// The text of an optional string.
pub open spec fn opt_text(t: Option<String>) -> Option<Seq<char>> {
    match t {
        Some(s) => Some(s@),
        None => None,
    }
}

/// Whether `s` is the status built from a device and optional severity, state and source
/// texts, at the current time `now_secs`.
pub open spec fn is_xread_status(
    s: Status,
    device: Seq<char>,
    severity: Option<Seq<char>>,
    state: Option<Seq<char>>,
    source: Option<Seq<char>>,
    now_secs: i64,
) -> bool {
    &&& s.device@ == device
    &&& s.severity == xread_severity(unicode_uppercase(text_or_empty(severity)))
    &&& s.state == xread_state(unicode_uppercase(text_or_empty(state)))
    &&& s.source == redis_source(unicode_uppercase(text_or_empty(source)))
    &&& !s.acknowledgeable
    &&& s.time == Some(Timestamp { seconds: now_secs, nanos: 0 })
    &&& s.epics_type@ == Seq::<char>::empty()
    &&& s.user@ == Seq::<char>::empty()
    &&& s.wake is None
}

fn upper_or_empty(t: &Option<String>) -> (r: String)
    ensures
        r@ == unicode_uppercase(text_or_empty(opt_text(*t))),
{
    match t {
        Some(s) => to_uppercase(s.as_str()),
        None => {
            proof {
                reveal_strlit("");
            }
            let e = "";
            assert(e@ =~= Seq::<char>::empty());
            to_uppercase(e)
        },
    }
}

/// Builds a status from a device and optional severity, state and source texts, stamped with
/// `now_secs`.
pub fn xread_status_at(
    device: String,
    severity: Option<String>,
    state: Option<String>,
    source: Option<String>,
    now_secs: i64,
) -> (s: Status)
    ensures
        is_xread_status(s, device@, opt_text(severity), opt_text(state), opt_text(source), now_secs),
        s.severity == Severity::High <==> (unicode_uppercase(text_or_empty(opt_text(severity)))
            == "HIGH"@ || unicode_uppercase(text_or_empty(opt_text(severity))) == "MAJOR"@),
        s.severity == Severity::Low <==> (unicode_uppercase(text_or_empty(opt_text(severity)))
            == "LOW"@ || unicode_uppercase(text_or_empty(opt_text(severity))) == "MINOR"@),
        s.state == State::Nominal <==> (unicode_uppercase(text_or_empty(opt_text(state))) == "OK"@
            || unicode_uppercase(text_or_empty(opt_text(state))) == "NORMAL"@),
        s.state == State::Alarmed <==> (unicode_uppercase(text_or_empty(opt_text(state)))
            == "ALARMED"@ || unicode_uppercase(text_or_empty(opt_text(state))) == "ALARM"@),
{
    proof {
        law_xread_severity_names(unicode_uppercase(text_or_empty(opt_text(severity))));
        law_xread_state_names(unicode_uppercase(text_or_empty(opt_text(state))));
    }
    let severity_name = upper_or_empty(&severity);
    let sev = if str_eq(severity_name.as_str(), "LOW") || str_eq(severity_name.as_str(), "MINOR") {
        Severity::Low
    } else if str_eq(severity_name.as_str(), "HIGH") || str_eq(severity_name.as_str(), "MAJOR") {
        Severity::High
    } else {
        Severity::Unknown
    };
    let state_name = upper_or_empty(&state);
    let st = if str_eq(state_name.as_str(), "OK") || str_eq(state_name.as_str(), "NORMAL") {
        State::Nominal
    } else if str_eq(state_name.as_str(), "ALARMED") || str_eq(state_name.as_str(), "ALARM") {
        State::Alarmed
    } else if str_eq(state_name.as_str(), "BYPASSED") {
        State::Bypassed
    } else if str_eq(state_name.as_str(), "LATCHED") {
        State::Latched
    } else if str_eq(state_name.as_str(), "ACKNOWLEDGED") || str_eq(state_name.as_str(), "ACK") {
        State::Acknowledged
    } else {
        State::Unknown
    };
    let source_name = upper_or_empty(&source);
    let src = match source_from_upper(source_name.as_str()) {
        Some(s) => s,
        None => Source::Unknown,
    };
    Status {
        device,
        severity: sev,
        state: st,
        source: src,
        acknowledgeable: false,
        time: Some(Timestamp { seconds: now_secs, nanos: 0 }),
        epics_type: String::new(),
        user: String::new(),
        wake: None,
    }
}

/// Builds a status from a device and optional severity, state and source texts, stamped with
/// the current time.
pub fn build_status_from_redis(
    device: String,
    severity: Option<String>,
    state: Option<String>,
    source: Option<String>,
) -> (s: Status)
    ensures
        exists|now_secs: i64|
            is_xread_status(s, device@, opt_text(severity), opt_text(state), opt_text(source), now_secs),
{
    let (now_secs, _) = utc_now();
    xread_status_at(device, severity, state, source, now_secs)
}

/// The status an `XREAD` entry carries, or `None` when it has no device; the device is
/// trimmed and uppercased.
pub fn xread_entry_status(entries: &Vec<(String, FieldValue)>) -> (r: Option<Status>)
    ensures
        r is None <==> xread_field(entries@, "device"@) is None,
        r matches Some(s) ==> exists|now_secs: i64|
            #![auto]
            is_xread_status(
                s,
                normalize_device(xread_field(entries@, "device"@)->0),
                xread_field(entries@, "severity"@),
                xread_field(entries@, "state"@),
                xread_field(entries@, "source"@),
                now_secs,
            ),
{
    let device = lookup_xread_field(entries, "device");
    let severity = lookup_xread_field(entries, "severity");
    let state = lookup_xread_field(entries, "state");
    let source = lookup_xread_field(entries, "source");
    match device {
        None => None,
        Some(d) => {
            let device = normalize(d.as_str());
            let s = build_status_from_redis(device, severity, state, source);
            Some(s)
        },
    }
}

} // verus!
