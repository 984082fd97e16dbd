//! Alarm entries read with XREAD, whose fields name device, severity, state and source.

use grpc_alarms::adapters::redis_xread::{
    build_status_from_redis, integer_to_text, map_to_string, xread_entry_status, xread_status_at,
    FieldValue,
};
use grpc_alarms::model::status::{Severity, Source, State};

fn fields(pairs: Vec<(&str, FieldValue)>) -> Vec<(String, FieldValue)> {
    pairs.into_iter().map(|(k, v)| (k.to_string(), v)).collect()
}

#[test]
fn field_values_have_text_forms() {
    assert_eq!(map_to_string(&FieldValue::BulkString(b"m:beam".to_vec())), Some("m:beam".to_string()));
    assert_eq!(map_to_string(&FieldValue::BulkString(vec![0x61, 0xff])), Some("a\u{fffd}".to_string()));
    assert_eq!(map_to_string(&FieldValue::SimpleString("HIGH".to_string())), Some("HIGH".to_string()));
    assert_eq!(map_to_string(&FieldValue::Int(-42)), Some("-42".to_string()));
    assert_eq!(map_to_string(&FieldValue::Other), None);
}

#[test]
fn integers_are_written_in_decimal() {
    assert_eq!(integer_to_text(0), "0");
    assert_eq!(integer_to_text(1234567890), "1234567890");
    assert_eq!(integer_to_text(i64::MAX), i64::MAX.to_string());
    assert_eq!(integer_to_text(i64::MIN), i64::MIN.to_string());
}

#[test]
fn states_and_severities_are_matched_case_insensitively() {
    let s = xread_status_at(
        "M:BEAM".to_string(),
        Some("major".to_string()),
        Some("ack".to_string()),
        Some("digital".to_string()),
        77,
    );
    assert_eq!(s.severity, Severity::High);
    assert_eq!(s.state, State::Acknowledged);
    assert_eq!(s.source, Source::Digital);
    assert_eq!(s.time.unwrap().seconds, 77);
    let s = xread_status_at("D".to_string(), None, Some("normal".to_string()), None, 0);
    assert_eq!(s.severity, Severity::Unknown);
    assert_eq!(s.state, State::Nominal);
    assert_eq!(s.source, Source::Unknown);
}

#[test]
fn every_state_name_is_recognized() {
    for (name, state) in [
        ("OK", State::Nominal),
        ("ALARMED", State::Alarmed),
        ("ALARM", State::Alarmed),
        ("BYPASSED", State::Bypassed),
        ("LATCHED", State::Latched),
        ("ACKNOWLEDGED", State::Acknowledged),
        ("UNBYPASSED", State::Unknown),
    ] {
        let s = build_status_from_redis("D".to_string(), None, Some(name.to_string()), None);
        assert_eq!(s.state, state, "{name}");
    }
}

#[test]
fn entry_without_device_is_skipped_and_device_is_normalized() {
    assert!(xread_entry_status(&fields(vec![("severity", FieldValue::Int(1))])).is_none());
    let status = xread_entry_status(&fields(vec![
        ("device", FieldValue::BulkString(b"  m:beam ".to_vec())),
        ("severity", FieldValue::SimpleString("minor".to_string())),
        ("state", FieldValue::SimpleString("alarm".to_string())),
        ("source", FieldValue::SimpleString("EPICS".to_string())),
    ]))
    .unwrap();
    assert_eq!(status.device, "M:BEAM");
    assert_eq!(status.severity, Severity::Low);
    assert_eq!(status.state, State::Alarmed);
    assert_eq!(status.source, Source::Epics);
}
