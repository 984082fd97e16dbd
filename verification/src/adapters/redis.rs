//! Alarm entries of the EPICS Redis stream, and the settings of the stream connection.
//!
//! A stream entry is a set of named text fields. `device`, `severity` and `source` are read
//! case-insensitively (uppercased before matching); `timestamp` is a whole number of seconds,
//! and the current time stands in when it is absent or malformed. Entries without a device
//! are dropped.

use vstd::prelude::*;

use crate::clock::utc_now;
use crate::model::key::{source_from_upper, source_from_upper_name};
use crate::model::status::{Severity, Source, State, Status, Timestamp};
use crate::text::{
    concat2, parse_i64, parse_i64_spec, str_eq, string_views, to_uppercase, trim, trim_spec,
    unicode_uppercase,
};

verus! {

/// The value of the first field named `name`, if any.
pub open spec fn first_field(entries: Seq<(String, String)>, name: Seq<char>) -> Option<
    Seq<char>,
>
    decreases entries.len(),
{
    if entries.len() == 0 {
        None
    } else if entries[0].0@ == name {
        Some(entries[0].1@)
    } else {
        first_field(entries.subrange(1, entries.len() as int), name)
    }
}

/// The value of the field named `name`, or the empty text when there is none.
pub open spec fn field_or_empty(entries: Seq<(String, String)>, name: Seq<char>) -> Seq<char> {
    match first_field(entries, name) {
        Some(v) => v,
        None => Seq::empty(),
    }
}

/// The severity and state that an uppercased severity name stands for.
pub open spec fn redis_severity_state(upper: Seq<char>) -> (Severity, State) {
    if upper == "NO_ALARM"@ {
        (Severity::Unknown, State::Nominal)
    } else if upper == "LOW"@ || upper == "MINOR"@ {
        (Severity::Low, State::Alarmed)
    } else if upper == "HIGH"@ || upper == "MAJOR"@ {
        (Severity::High, State::Alarmed)
    } else {
        (Severity::Unknown, State::Unknown)
    }
}

/// The source that an uppercased source name stands for; unknown names give `Unknown`.
pub open spec fn redis_source(upper: Seq<char>) -> Source {
    match source_from_upper_name(upper) {
        Some(source) => source,
        None => Source::Unknown,
    }
}

/// The stream's severity names, matched after uppercasing: `NO_ALARM` is a nominal alarm of
/// unknown severity, `LOW` or `MINOR` a low alarm, `HIGH` or `MAJOR` a high alarm, and any
/// other text leaves both severity and state unknown.
pub proof fn law_redis_severity_names(upper: Seq<char>)
    ensures
        redis_severity_state(upper) == (Severity::Unknown, State::Nominal) <==> upper == "NO_ALARM"@,
        redis_severity_state(upper) == (Severity::Low, State::Alarmed) <==> (upper == "LOW"@
            || upper == "MINOR"@),
        redis_severity_state(upper) == (Severity::High, State::Alarmed) <==> (upper == "HIGH"@
            || upper == "MAJOR"@),
        redis_severity_state(upper) == (Severity::Unknown, State::Unknown) <==> !(upper
            == "NO_ALARM"@ || upper == "LOW"@ || upper == "MINOR"@ || upper == "HIGH"@ || upper
            == "MAJOR"@),
{
    reveal_strlit("NO_ALARM");
    reveal_strlit("LOW");
    reveal_strlit("MINOR");
    reveal_strlit("HIGH");
    reveal_strlit("MAJOR");
    assert("NO_ALARM"@.len() != "LOW"@.len());
    assert("NO_ALARM"@.len() != "MINOR"@.len());
    assert("NO_ALARM"@.len() != "HIGH"@.len());
    assert("NO_ALARM"@.len() != "MAJOR"@.len());
    assert("LOW"@.len() != "MINOR"@.len());
    assert("LOW"@.len() != "HIGH"@.len());
    assert("LOW"@.len() != "MAJOR"@.len());
    assert("MINOR"@.len() != "HIGH"@.len());
    assert("MINOR"@[1] != "MAJOR"@[1]);
    assert("HIGH"@.len() != "MAJOR"@.len());
}

/// The stream's source names, matched after uppercasing: `ANALOG`, `DIGITAL` and `EPICS` name
/// their sources, and any other text is an unknown source.
pub proof fn law_redis_source_names(upper: Seq<char>)
    ensures
        redis_source(upper) == Source::Analog <==> upper == "ANALOG"@,
        redis_source(upper) == Source::Digital <==> upper == "DIGITAL"@,
        redis_source(upper) == Source::Epics <==> upper == "EPICS"@,
        redis_source(upper) == Source::Unknown <==> !(upper == "ANALOG"@ || upper == "DIGITAL"@
            || upper == "EPICS"@),
{
    reveal_strlit("ANALOG");
    reveal_strlit("DIGITAL");
    reveal_strlit("EPICS");
    assert("ANALOG"@.len() != "DIGITAL"@.len());
    assert("ANALOG"@.len() != "EPICS"@.len());
    assert("DIGITAL"@.len() != "EPICS"@.len());
}

/// The seconds of an entry's time: its `timestamp` field when that parses as a whole number
/// after trimming, else `now_secs`.
pub open spec fn redis_time_secs(entries: Seq<(String, String)>, now_secs: i64) -> i64 {
    match first_field(entries, "timestamp"@) {
        Some(text) => match parse_i64_spec(trim_spec(text)) {
            Some(secs) => secs,
            None => now_secs,
        },
        None => now_secs,
    }
}

/// Whether `s` is the status that the stream entry `entries` describes when the current
/// time is `now_secs`.
pub open spec fn is_status_from_redis(
    s: Status,
    entries: Seq<(String, String)>,
    now_secs: i64,
) -> bool {
    let (severity, state) = redis_severity_state(
        unicode_uppercase(field_or_empty(entries, "severity"@)),
    );
    &&& s.device@ == unicode_uppercase(field_or_empty(entries, "device"@))
    &&& s.severity == severity
    &&& s.state == state
    &&& s.source == redis_source(unicode_uppercase(field_or_empty(entries, "source"@)))
    &&& !s.acknowledgeable
    &&& s.time == Some(Timestamp { seconds: redis_time_secs(entries, now_secs), nanos: 0 })
    &&& s.epics_type@ == Seq::<char>::empty()
    &&& s.user@ == Seq::<char>::empty()
    &&& s.wake is None
}

/// Finds the first field named `name`.
fn lookup_field<'a>(entries: &'a Vec<(String, String)>, name: &str) -> (r: Option<&'a String>)
    ensures
        r matches Some(v) ==> first_field(entries@, name@) == Some(v@),
        r is None ==> first_field(entries@, name@) is None,
{
    let n = entries.len();
    let mut i: usize = 0;
    assert(entries@.subrange(0, n as int) =~= entries@);
    while i < n
        invariant
            n == entries@.len(),
            i <= n,
            first_field(entries@, name@) == first_field(
                entries@.subrange(i as int, n as int),
                name@,
            ),
        decreases n - i,
    {
        let ghost rest = entries@.subrange(i as int, n as int);
        assert(rest[0] == entries@[i as int]);
        if str_eq(entries[i].0.as_str(), name) {
            return Some(&entries[i].1);
        }
        assert(rest.subrange(1, rest.len() as int) =~= entries@.subrange(i + 1, n as int));
        i = i + 1;
    }
    None
}

/// The uppercased value of the field named `name`, empty when there is none.
fn upper_field(entries: &Vec<(String, String)>, name: &str) -> (r: String)
    ensures
        r@ == unicode_uppercase(field_or_empty(entries@, name@)),
{
    match lookup_field(entries, name) {
        Some(v) => to_uppercase(v.as_str()),
        None => {
            proof {
                reveal_strlit("");
            }
            let e = "";
            assert(e@ =~= Seq::<char>::empty());
            to_uppercase(e)
        },
    }
}

/// Maps an uppercased severity name to a severity and a state.
fn severity_state_of(upper: &str) -> (r: (Severity, State))
    ensures
        r == redis_severity_state(upper@),
{
    if str_eq(upper, "NO_ALARM") {
        (Severity::Unknown, State::Nominal)
    } else if str_eq(upper, "LOW") || str_eq(upper, "MINOR") {
        (Severity::Low, State::Alarmed)
    } else if str_eq(upper, "HIGH") || str_eq(upper, "MAJOR") {
        (Severity::High, State::Alarmed)
    } else {
        (Severity::Unknown, State::Unknown)
    }
}

/// Builds the status that a stream entry describes, with `now_secs` as the current time.
pub fn status_from_redis_fields(entries: &Vec<(String, String)>, now_secs: i64) -> (s: Status)
    ensures
        is_status_from_redis(s, entries@, now_secs),
        s.severity == Severity::High <==> (unicode_uppercase(field_or_empty(entries@, "severity"@))
            == "HIGH"@ || unicode_uppercase(field_or_empty(entries@, "severity"@)) == "MAJOR"@),
        s.severity == Severity::Low <==> (unicode_uppercase(field_or_empty(entries@, "severity"@))
            == "LOW"@ || unicode_uppercase(field_or_empty(entries@, "severity"@)) == "MINOR"@),
        s.state == State::Alarmed <==> (unicode_uppercase(field_or_empty(entries@, "severity"@))
            == "LOW"@ || unicode_uppercase(field_or_empty(entries@, "severity"@)) == "MINOR"@
            || unicode_uppercase(field_or_empty(entries@, "severity"@)) == "HIGH"@
            || unicode_uppercase(field_or_empty(entries@, "severity"@)) == "MAJOR"@),
        s.state == State::Nominal <==> unicode_uppercase(field_or_empty(entries@, "severity"@))
            == "NO_ALARM"@,
        s.source == Source::Epics <==> unicode_uppercase(field_or_empty(entries@, "source"@))
            == "EPICS"@,
{
    proof {
        law_redis_severity_names(unicode_uppercase(field_or_empty(entries@, "severity"@)));
        law_redis_source_names(unicode_uppercase(field_or_empty(entries@, "source"@)));
    }
    let device = upper_field(entries, "device");
    let severity_name = upper_field(entries, "severity");
    let (severity, state) = severity_state_of(severity_name.as_str());
    let source_name = upper_field(entries, "source");
    let source = match source_from_upper(source_name.as_str()) {
        Some(source) => source,
        None => Source::Unknown,
    };
    let seconds = match lookup_field(entries, "timestamp") {
        Some(text) => match parse_i64(trim(text.as_str())) {
            Some(secs) => secs,
            None => now_secs,
        },
        None => now_secs,
    };
    Status {
        device,
        severity,
        state,
        source,
        acknowledgeable: false,
        time: Some(Timestamp { seconds, nanos: 0 }),
        epics_type: String::new(),
        user: String::new(),
        wake: None,
    }
}

/// Builds the status that a stream entry describes, reading the clock for the current time.
pub fn build_status_from_redis(entries: Vec<(String, String)>) -> (s: Status)
    ensures
        exists|now_secs: i64| is_status_from_redis(s, entries@, now_secs),
{
    let (now_secs, _) = utc_now();
    status_from_redis_fields(&entries, now_secs)
}

/// The automated update that a stream entry carries: its status, or `None` when the entry
/// names no device.
pub fn redis_update(entries: Vec<(String, String)>) -> (r: Option<Status>)
    ensures
        r is None <==> unicode_uppercase(field_or_empty(entries@, "device"@)).len() == 0,
        r matches Some(s) ==> exists|now_secs: i64| is_status_from_redis(s, entries@, now_secs),
{
    let status = build_status_from_redis(entries);
    if status.device.as_str().unicode_len() == 0 {
        None
    } else {
        Some(status)
    }
}

/// A configuration value: the value found when there is a non-empty one, else the default.
pub fn setting_or_default(found: Option<String>, default: &str) -> (r: String)
    ensures
        r@ == (match found {
            Some(v) => if v@.len() > 0 {
                v@
            } else {
                default@
            },
            None => default@,
        }),
{
    match found {
        Some(v) => {
            if v.as_str().unicode_len() > 0 {
                v
            } else {
                String::from_str(default)
            }
        },
        None => String::from_str(default),
    }
}

/// The connection URL of a Redis server.
pub fn redis_url(host: &str, port: &str) -> (r: String)
    ensures
        r@ == "redis://"@ + host@ + ":"@ + port@ + "/"@,
{
    let with_host = concat2("redis://", host);
    let with_port = concat2(with_host.as_str(), ":");
    let with_port = concat2(with_port.as_str(), port);
    concat2(with_port.as_str(), "/")
}

/// The arguments of the `XADD` command that appends an alarm to the stream: the stream key,
/// `*` for a server-chosen entry id, then the field names and values.
pub fn alarm_entry_arguments(
    stream_key: &str,
    device: &str,
    alarm_type: &str,
    severity: &str,
    message: &str,
) -> (r: Vec<String>)
    ensures
        string_views(r@) == seq![
            stream_key@,
            "*"@,
            "device"@,
            device@,
            "type"@,
            alarm_type@,
            "severity"@,
            severity@,
            "message"@,
            message@,
        ],
{
    let mut r: Vec<String> = Vec::new();
    r.push(String::from_str(stream_key));
    r.push(String::from_str("*"));
    r.push(String::from_str("device"));
    r.push(String::from_str(device));
    r.push(String::from_str("type"));
    r.push(String::from_str(alarm_type));
    r.push(String::from_str("severity"));
    r.push(String::from_str(severity));
    r.push(String::from_str("message"));
    r.push(String::from_str(message));
    assert(string_views(r@) =~= seq![
        stream_key@,
        "*"@,
        "device"@,
        device@,
        "type"@,
        alarm_type@,
        "severity"@,
        severity@,
        "message"@,
        message@,
    ]);
    r
}

} // verus!
