//! Device database records and alarm requests.

use grpc_alarms::devdb::{
    alarm_requests_from_info, build_alarm_request, dedupe_alarm_requests, to_hex_upper, AlarmBlock,
    AlarmInfo, AlarmInfoExpanded, DeviceInfo, DeviceSummary, InfoEntry, InfoResult,
};
use grpc_alarms::dpm::{AlarmRequest, AlarmType};
use grpc_alarms::ioc::{
    epics_alarm_requests, AlarmInfo as IocAlarmInfo, AlarmSeverity, DisplayDescription, IocAlarm,
    IocAlarmsResponse, TimeStamp, ValueAlarm,
};

fn block(pi: u32, status: Vec<u8>) -> AlarmBlock {
    AlarmBlock { di: 27235, pi, status, tries_needed: 2, tries_now: 1 }
}

fn info(device: &str, pi: u32) -> AlarmInfo<String, u32> {
    AlarmInfo {
        device_name: device.to_string(),
        alarm_block: Some(block(pi, vec![])),
        device_analog_alarm: None,
        device_digital_alarm: None,
    }
}

#[test]
fn device_summary_counts_controls_and_status_bits() {
    let entry = InfoEntry {
        name: "M:OUTTMP".to_string(),
        result: Some(InfoResult::Device(DeviceInfo {
            description: "outdoor temperature".to_string(),
            reading: true,
            setting: false,
            control_cmds: Some(3),
            status_bits: None,
        })),
    };
    let summary = DeviceSummary::from_proto(&entry).unwrap();
    assert_eq!(summary.name, "M:OUTTMP");
    assert_eq!(summary.description, "outdoor temperature");
    assert!(summary.has_reading);
    assert!(!summary.has_setting);
    assert_eq!(summary.control_cmd_count, 3);
    assert_eq!(summary.status_bit_count, 0);
}

#[test]
fn device_summary_needs_a_device_result() {
    let err = InfoEntry { name: "X".to_string(), result: Some(InfoResult::ErrMsg("no".to_string())) };
    assert!(DeviceSummary::from_proto(&err).is_none());
    let none = InfoEntry { name: "X".to_string(), result: None };
    assert!(DeviceSummary::from_proto(&none).is_none());
}

#[test]
fn expanded_alarm_info_writes_status_word_in_uppercase_hex() {
    let info: AlarmInfo<String, u32> = AlarmInfo {
        device_name: "M:OUTTMP".to_string(),
        alarm_block: Some(block(1, vec![0x0a, 0xff, 0x00])),
        device_analog_alarm: Some("analog".to_string()),
        device_digital_alarm: None,
    };
    let expanded = AlarmInfoExpanded::from_proto(&info);
    assert_eq!(expanded.device_index, 27235);
    assert_eq!(expanded.property_index, 1);
    assert_eq!(expanded.status_word_hex, Some("0AFF00".to_string()));
    assert_eq!(expanded.tries_needed, 2);
    assert_eq!(expanded.tries_now, 1);
    assert_eq!(expanded.analog, Some("analog".to_string()));
    assert_eq!(expanded.digital, None);
}

#[test]
fn expanded_alarm_info_without_block_is_zeroed() {
    let info: AlarmInfo<String, u32> = AlarmInfo {
        device_name: "M:OUTTMP".to_string(),
        alarm_block: None,
        device_analog_alarm: None,
        device_digital_alarm: Some(5),
    };
    let expanded = AlarmInfoExpanded::from_proto(&info);
    assert_eq!(expanded.device_index, 0);
    assert_eq!(expanded.property_index, 0);
    assert_eq!(expanded.status_word_hex, None);
    assert_eq!(expanded.digital, Some(5));
}

#[test]
fn hex_of_no_bytes_is_empty() {
    assert_eq!(to_hex_upper(&vec![]), "");
    assert_eq!(to_hex_upper(&vec![0x9b]), "9B");
}

#[test]
fn alarm_block_property_index_selects_type() {
    assert_eq!(build_alarm_request(&info("A", 1)).alarm_type, AlarmType::Analog);
    assert_eq!(build_alarm_request(&info("A", 5)).alarm_type, AlarmType::Digital);
    assert_eq!(build_alarm_request(&info("A", 5)).device, "A");
}

#[test]
fn duplicate_requests_keep_the_first() {
    let requests = vec![
        AlarmRequest { device: "A".to_string(), alarm_type: AlarmType::Analog },
        AlarmRequest { device: "B".to_string(), alarm_type: AlarmType::Analog },
        AlarmRequest { device: "A".to_string(), alarm_type: AlarmType::Analog },
        AlarmRequest { device: "A".to_string(), alarm_type: AlarmType::Digital },
    ];
    let deduped = dedupe_alarm_requests(requests);
    let ids: Vec<(String, AlarmType)> =
        deduped.iter().map(|r| (r.device.clone(), r.alarm_type)).collect();
    assert_eq!(
        ids,
        vec![
            ("A".to_string(), AlarmType::Analog),
            ("B".to_string(), AlarmType::Analog),
            ("A".to_string(), AlarmType::Digital),
        ]
    );
}

#[test]
fn alarm_requests_from_info_builds_then_dedupes() {
    let infos = vec![info("A", 1), info("A", 1), info("A", 5)];
    let requests = alarm_requests_from_info(&infos);
    assert_eq!(requests.len(), 2);
    assert_eq!(requests[0].alarm_type, AlarmType::Analog);
    assert_eq!(requests[1].alarm_type, AlarmType::Digital);
}

fn ioc_info(pv: &str) -> IocAlarmInfo {
    IocAlarmInfo {
        pv_name: pv.to_string(),
        value: 12,
        alarm: Some(AlarmSeverity { severity: 2, status: 3 }),
        time_stamp: Some(TimeStamp { seconds_past_epoch: 1_700_000_000, nanoseconds: 5 }),
        display: Some(DisplayDescription { description: "vacuum".to_string() }),
        value_alarm: Some(ValueAlarm {
            low_alarm_limit: 1,
            low_warning_limit: 2,
            high_warning_limit: 20,
            high_alarm_limit: 30,
        }),
    }
}

#[test]
fn ioc_alarm_takes_the_first_entry() {
    let resp = IocAlarmsResponse { alarm_info: vec![ioc_info("PV:A"), ioc_info("PV:B")] };
    let alarm = IocAlarm::from_proto(resp).unwrap();
    assert_eq!(alarm.value, 12);
    assert_eq!(alarm.severity, 2);
    assert_eq!(alarm.status, 3);
    assert_eq!(alarm.timestamp_sec, 1_700_000_000);
    assert_eq!(alarm.timestamp_ns, 5);
    assert_eq!(alarm.description, "vacuum");
    assert_eq!(alarm.low_alarm, 1);
    assert_eq!(alarm.low_warning, 2);
    assert_eq!(alarm.high_warning, 20);
    assert_eq!(alarm.high_alarm, 30);
}

#[test]
fn ioc_alarm_missing_parts_read_as_zero() {
    let bare = IocAlarmInfo {
        pv_name: "PV".to_string(),
        value: -1,
        alarm: None,
        time_stamp: None,
        display: None,
        value_alarm: None,
    };
    let alarm = IocAlarm::from_proto(IocAlarmsResponse { alarm_info: vec![bare] }).unwrap();
    assert_eq!(alarm.value, -1);
    assert_eq!(alarm.severity, 0);
    assert_eq!(alarm.timestamp_sec, 0);
    assert_eq!(alarm.description, "");
    assert_eq!(alarm.high_alarm, 0);
    assert!(IocAlarm::from_proto(IocAlarmsResponse { alarm_info: vec![] }).is_none());
}

#[test]
fn epics_requests_follow_severity_of_each_pv() {
    let requests = epics_alarm_requests(&vec![ioc_info("PV:A"), ioc_info("PV:B")]);
    assert_eq!(requests.len(), 2);
    assert_eq!(requests[1].device, "PV:B");
    assert_eq!(requests[1].alarm_type, AlarmType::Value);
}
