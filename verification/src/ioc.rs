//! Alarm information from the EPICS IOC alarms service: the alarm state of one process
//! variable, and the alarm requests for the EPICS device database.

use vstd::prelude::*;

use crate::dpm::{AlarmRequest, AlarmType};

verus! {

/// The alarm severity and status of a process variable.
#[derive(Debug, Clone, Copy, PartialEq, Eq, Structural)]
pub struct AlarmSeverity {
    pub severity: i32,
    pub status: i32,
}

/// The time of a process variable's value.
#[derive(Debug, Clone, Copy, PartialEq, Eq, Structural)]
pub struct TimeStamp {
    pub seconds_past_epoch: i64,
    pub nanoseconds: i32,
}

/// The display description of a process variable.
#[derive(Debug)]
pub struct DisplayDescription {
    pub description: String,
}

/// The alarm and warning limits of a process variable.
#[derive(Debug, Clone, Copy, PartialEq, Eq, Structural)]
pub struct ValueAlarm {
    pub low_alarm_limit: i32,
    pub low_warning_limit: i32,
    pub high_warning_limit: i32,
    pub high_alarm_limit: i32,
}

/// The alarm information of one process variable, each part optional.
#[derive(Debug)]
pub struct AlarmInfo {
    pub pv_name: String,
    pub value: i32,
    pub alarm: Option<AlarmSeverity>,
    pub time_stamp: Option<TimeStamp>,
    pub display: Option<DisplayDescription>,
    pub value_alarm: Option<ValueAlarm>,
}

/// A reply of the IOC alarms service.
#[derive(Debug)]
pub struct IocAlarmsResponse {
    pub alarm_info: Vec<AlarmInfo>,
}

/// The alarm state of one process variable, with absent parts read as zero or empty.
#[derive(Debug, Clone)]
pub struct IocAlarm {
    pub value: i32,
    pub severity: i32,
    pub status: i32,
    pub timestamp_sec: i64,
    pub timestamp_ns: i32,
    pub description: String,
    pub low_alarm: i32,
    pub low_warning: i32,
    pub high_warning: i32,
    pub high_alarm: i32,
}

/// Whether `a` is the alarm state that `info` describes.
pub open spec fn describes(a: IocAlarm, info: AlarmInfo) -> bool {
    let sev = match info.alarm {
        Some(s) => s,
        None => AlarmSeverity { severity: 0, status: 0 },
    };
    let ts = match info.time_stamp {
        Some(t) => t,
        None => TimeStamp { seconds_past_epoch: 0, nanoseconds: 0 },
    };
    let limits = match info.value_alarm {
        Some(v) => v,
        None => ValueAlarm {
            low_alarm_limit: 0,
            low_warning_limit: 0,
            high_warning_limit: 0,
            high_alarm_limit: 0,
        },
    };
    &&& a.value == info.value
    &&& a.severity == sev.severity
    &&& a.status == sev.status
    &&& a.timestamp_sec == ts.seconds_past_epoch
    &&& a.timestamp_ns == ts.nanoseconds
    &&& a.description@ == (match info.display {
        Some(d) => d.description@,
        None => Seq::<char>::empty(),
    })
    &&& a.low_alarm == limits.low_alarm_limit
    &&& a.low_warning == limits.low_warning_limit
    &&& a.high_warning == limits.high_warning_limit
    &&& a.high_alarm == limits.high_alarm_limit
}

impl IocAlarm {
    /// The alarm state of the first process variable in a reply; `None` for an empty reply.
    pub fn from_proto(resp: IocAlarmsResponse) -> (r: Option<Self>)
        ensures
            r is None <==> resp.alarm_info@.len() == 0,
            r matches Some(a) ==> describes(a, resp.alarm_info@[0]),
    {
        if resp.alarm_info.len() == 0 {
            return None;
        }
        let info = &resp.alarm_info[0];
        let sev = match info.alarm {
            Some(s) => s,
            None => AlarmSeverity { severity: 0, status: 0 },
        };
        let ts = match info.time_stamp {
            Some(t) => t,
            None => TimeStamp { seconds_past_epoch: 0, nanoseconds: 0 },
        };
        let description = match &info.display {
            Some(d) => d.description.clone(),
            None => String::new(),
        };
        let limits = match info.value_alarm {
            Some(v) => v,
            None => ValueAlarm {
                low_alarm_limit: 0,
                low_warning_limit: 0,
                high_warning_limit: 0,
                high_alarm_limit: 0,
            },
        };
        let a = IocAlarm {
            value: info.value,
            severity: sev.severity,
            status: sev.status,
            timestamp_sec: ts.seconds_past_epoch,
            timestamp_ns: ts.nanoseconds,
            description,
            low_alarm: limits.low_alarm_limit,
            low_warning: limits.low_warning_limit,
            high_warning: limits.high_warning_limit,
            high_alarm: limits.high_alarm_limit,
        };
        proof {
            if info.display is None {
                assert(a.description@ =~= Seq::<char>::empty());
            }
        }
        Some(a)
    }
}

/// The alarm requests of the EPICS device database: one severity request per process
/// variable, in order.
pub fn epics_alarm_requests(infos: &Vec<AlarmInfo>) -> (r: Vec<AlarmRequest>)
    ensures
        r@.len() == infos@.len(),
        forall|i: int|
            0 <= i < infos@.len() ==> (#[trigger] r@[i]).device@ == infos@[i].pv_name@
                && r@[i].alarm_type == AlarmType::Value,
{
    let mut r: Vec<AlarmRequest> = Vec::new();
    let mut i: usize = 0;
    while i < infos.len()
        invariant
            i <= infos@.len(),
            r@.len() == i,
            forall|j: int|
                0 <= j < i ==> (#[trigger] r@[j]).device@ == infos@[j].pv_name@ && r@[j].alarm_type
                    == AlarmType::Value,
        decreases infos@.len() - i,
    {
        r.push(AlarmRequest { device: infos[i].pv_name.clone(), alarm_type: AlarmType::Value });
        i = i + 1;
    }
    r
}

} // verus!
