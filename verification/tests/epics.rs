//! Phoebus alarm-state messages.

use grpc_alarms::epics::{check_and_set, PhoebusAlarmState, PhoebusSeverity};
use grpc_alarms::model::status::Timestamp;

#[test]
fn check_full_print() {
    let time = chrono::Utc::now();
    let str_time = format!("{}", time.clone());
    let state = PhoebusAlarmState {
        device: String::from("test"),
        severity: PhoebusSeverity::Major,
        latch: Some(true),
        message: Some(String::from("message")),
        value: Some(String::from("123")),
        time: Some(Timestamp {
            seconds: time.timestamp(),
            nanos: time.timestamp_subsec_nanos() as i32,
        }),
        current_message: Some(String::from("cur msg")),
        current_severity: Some(PhoebusSeverity::Minor),
    };
    let message = state.into_message();
    assert_eq!(message.key, Some(String::from("state:test")));
    assert_eq!(
        message.value,
        String::from(
            "{ \"severity\": \"Major\", \"latch\": \"true\", \"message\": \"message\", \"value\": \"123\", \"time\": \""
        ) + str_time.as_str()
            + "\", \"current_severity\": \"Minor\", \"current_message\": \"cur msg\" }"
    );
}

#[test]
fn check_partial_print() {
    let state = PhoebusAlarmState {
        device: String::from("test"),
        severity: PhoebusSeverity::Unknown,
        latch: None,
        message: None,
        value: None,
        time: None,
        current_message: None,
        current_severity: None,
    };
    let message = state.into_message();
    assert_eq!(message.key, Some(String::from("state:test")));
    assert_eq!(message.value, String::from("{ \"severity\": \"Unknown\" }"));
}

#[test]
fn nominal_severity_is_written_ok_and_false_latch_is_kept() {
    let state = PhoebusAlarmState {
        device: String::from("dev"),
        severity: PhoebusSeverity::Nominal,
        latch: Some(false),
        message: None,
        value: None,
        time: None,
        current_message: None,
        current_severity: None,
    };
    let message = state.into_message();
    assert_eq!(message.key, Some(String::from("state:dev")));
    assert_eq!(message.value, "{ \"severity\": \"Ok\", \"latch\": \"false\" }");
}

#[test]
fn unset_field_writes_nothing() {
    assert_eq!(check_and_set("value", None), "");
    assert_eq!(check_and_set("value", Some("5")), ", \"value\": \"5\"");
}
