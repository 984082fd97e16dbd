//! Alarm-block reads from the data acquisition service (DPM).
//!
//! Each alarm request becomes a data request string (DRF) `DEVICE.PROPERTY@Q`, where the
//! property is the analog (`AA`), digital (`DA`) or severity (`SEVR`) alarm block and `@Q`
//! asks for a reply whenever the block changes. Each reply carries the index of the request
//! it answers and either readings or a status from the service.

use vstd::prelude::*;

use crate::clock::{chrono_timestamp_valid, utc_timestamp_valid};
use crate::model::status::Timestamp;
use crate::text::{concat2, str_eq};

verus! {

/// An error reported by the data acquisition client.
#[derive(Debug)]
pub struct DaqError {
    error_text: String,
}

impl DaqError {
    /// The text this error carries.
    pub closed spec fn text(&self) -> Seq<char> {
        self.error_text@
    }

    /// Creates an error with the given text.
    pub fn new(error_text: String) -> (e: Self)
        ensures
            e.text() == error_text@,
    {
        DaqError { error_text }
    }

    /// The error as displayed: `"DaqError: "` followed by its text.
    pub fn to_message(&self) -> (r: String)
        ensures
            r@ == "DaqError: "@ + self.text(),
    {
        concat2("DaqError: ", self.error_text.as_str())
    }
}

/// Which alarm block of a device is read.
#[derive(Debug, Copy, Clone, PartialEq, Eq, Structural, Hash)]
pub enum AlarmType {
    Analog,
    Digital,
    Value,
}

/// A request to follow one alarm block of one device.
#[derive(Debug)]
pub struct AlarmRequest {
    pub device: String,
    pub alarm_type: AlarmType,
}

/// The property suffix of a DRF for an alarm block.
pub open spec fn drf_suffix(alarm_type: AlarmType) -> Seq<char> {
    match alarm_type {
        AlarmType::Analog => ".AA@Q"@,
        AlarmType::Digital => ".DA@Q"@,
        AlarmType::Value => ".SEVR@Q"@,
    }
}

/// Builds the DRF of a request: `DEVICE.AA@Q`, `DEVICE.DA@Q` or `DEVICE.SEVR@Q`.
pub fn build_drf(request: &AlarmRequest) -> (r: String)
    ensures
        r@ == request.device@ + drf_suffix(request.alarm_type),
{
    let suffix = match request.alarm_type {
        AlarmType::Analog => ".AA@Q",
        AlarmType::Digital => ".DA@Q",
        AlarmType::Value => ".SEVR@Q",
    };
    concat2(request.device.as_str(), suffix)
}

/// Builds the DRFs of all requests, in order; a reply's index refers to this order.
pub fn build_drf_list(requests: &Vec<AlarmRequest>) -> (r: Vec<String>)
    ensures
        r@.len() == requests@.len(),
        forall|i: int|
            0 <= i < requests@.len() ==> #[trigger] r@[i]@ == requests@[i].device@ + drf_suffix(
                requests@[i].alarm_type,
            ),
{
    let mut r: Vec<String> = Vec::new();
    let mut i: usize = 0;
    while i < requests.len()
        invariant
            i <= requests@.len(),
            r@.len() == i,
            forall|j: int|
                0 <= j < i ==> #[trigger] r@[j]@ == requests@[j].device@ + drf_suffix(
                    requests@[j].alarm_type,
                ),
        decreases requests@.len() - i,
    {
        r.push(build_drf(&requests[i]));
        i = i + 1;
    }
    r
}

/// A status reported by the service in place of data.
#[derive(Debug)]
pub struct DeviceStatus {
    pub facility_code: i32,
    pub status_code: i32,
    pub message: String,
}

/// One reading: its timestamp and its data value, when present.
#[derive(Debug)]
pub struct Reading<V> {
    pub timestamp: Option<Timestamp>,
    pub data: Option<V>,
}

/// What a reply carries.
#[derive(Debug)]
pub enum ReplyValue<V> {
    Readings(Vec<Reading<V>>),
    Status(DeviceStatus),
}

/// One reply of the reading stream, for the request at position `index`.
#[derive(Debug)]
pub struct ReadingReply<V> {
    pub index: u32,
    pub value: Option<ReplyValue<V>>,
}

/// A parsed reading of an alarm block.
#[derive(Debug)]
pub struct DpmReading<V> {
    pub index: u32,
    pub device: String,
    pub alarm_type: AlarmType,
    pub timestamp: Timestamp,
    pub data: V,
}

/// A parsed status reply for an alarm block.
#[derive(Debug)]
pub struct DpmStatus {
    pub index: u32,
    pub device: String,
    pub alarm_type: AlarmType,
    pub facility_code: u8,
    pub status_code: i8,
    pub message: String,
}

/// A parsed reply.
#[derive(Debug)]
pub enum DpmData<V> {
    Reading(DpmReading<V>),
    Status(DpmStatus),
}

/// Why a reply could not be parsed.
#[derive(Debug, Clone, Copy, PartialEq, Eq, Structural)]
pub enum ReplyError {
    NoReadings,
    MissingTimestamp,
    InvalidTimestamp,
    MissingData,
    EmptyReply,
}

/// The message of a reply error, as displayed.
pub open spec fn reply_error_text(e: ReplyError) -> Seq<char> {
    match e {
        ReplyError::NoReadings => "No readings in reply"@,
        ReplyError::MissingTimestamp => "missing timestamp"@,
        ReplyError::InvalidTimestamp => "DaqError: Invalid timestamp value"@,
        ReplyError::MissingData => "missing data value"@,
        ReplyError::EmptyReply => "DaqError: Empty reply value"@,
    }
}

impl ReplyError {
    /// The error's message, as displayed.
    pub fn to_message(&self) -> (r: String)
        ensures
            r@ == reply_error_text(*self),
    {
        match self {
            ReplyError::NoReadings => String::from_str("No readings in reply"),
            ReplyError::MissingTimestamp => String::from_str("missing timestamp"),
            ReplyError::InvalidTimestamp => {
                proof {
                    reveal_strlit("DaqError: ");
                    reveal_strlit("Invalid timestamp value");
                    reveal_strlit("DaqError: Invalid timestamp value");
                }
                DaqError::new(String::from_str("Invalid timestamp value")).to_message()
            },
            ReplyError::MissingData => String::from_str("missing data value"),
            ReplyError::EmptyReply => {
                proof {
                    reveal_strlit("DaqError: ");
                    reveal_strlit("Empty reply value");
                    reveal_strlit("DaqError: Empty reply value");
                }
                DaqError::new(String::from_str("Empty reply value")).to_message()
            },
        }
    }
}

/// The status code of a status reply: the facility code plus 256 times the status code,
/// truncated to a byte.
pub open spec fn combined_status_code(st: DeviceStatus) -> i8 {
    ((st.facility_code + st.status_code * 256) as i32) as i8
}

/// Whether the combined status code of `st`, and the product in it, fit in `i32`.
pub open spec fn status_code_in_range(st: DeviceStatus) -> bool {
    &&& i32::MIN <= st.status_code * 256 <= i32::MAX
    &&& i32::MIN <= st.facility_code + st.status_code * 256 <= i32::MAX
}

/// What parsing `reply` for `request` gives: the error, or `Ok` when it parses. The data of a
/// parsed reading is a clone, which the contract of `parse_reply` states apart.
pub open spec fn parse_reply_error<V>(reply: ReadingReply<V>) -> Option<ReplyError> {
    match reply.value {
        None => Some(ReplyError::EmptyReply),
        Some(ReplyValue::Status(_)) => None,
        Some(ReplyValue::Readings(rs)) => if rs@.len() == 0 {
            Some(ReplyError::NoReadings)
        } else {
            match rs@[0].timestamp {
                None => Some(ReplyError::MissingTimestamp),
                Some(t) => if !chrono_timestamp_valid(t.seconds, t.nanos as u32) {
                    Some(ReplyError::InvalidTimestamp)
                } else if rs@[0].data is None {
                    Some(ReplyError::MissingData)
                } else {
                    None
                },
            }
        },
    }
}

/// Parses one reply for the request it answers.
///
/// A status reply becomes a status; a reading reply becomes the first reading, whose
/// timestamp must be present and representable and whose data must be present.
pub fn parse_reply<V: Clone>(reply: &ReadingReply<V>, device_request: &AlarmRequest) -> (r: Result<
    DpmData<V>,
    ReplyError,
>)
    requires
        reply.value matches Some(ReplyValue::Status(st)) ==> status_code_in_range(st),
    ensures
        r matches Err(e) ==> parse_reply_error(*reply) == Some(e),
        r is Ok ==> parse_reply_error(*reply) is None,
        r matches Ok(DpmData::Status(s)) ==> {
            &&& reply.value matches Some(ReplyValue::Status(st))
            &&& s.index == reply.index
            &&& s.device@ == device_request.device@
            &&& s.alarm_type == device_request.alarm_type
            &&& s.facility_code == st.facility_code as u8
            &&& s.status_code == combined_status_code(st)
            &&& s.message@ == st.message@
        },
        r matches Ok(DpmData::Reading(d)) ==> {
            &&& reply.value matches Some(ReplyValue::Readings(rs))
            &&& rs@[0].timestamp == Some(d.timestamp)
            &&& rs@[0].data matches Some(v) && cloned(v, d.data)
            &&& d.index == reply.index
            &&& d.device@ == device_request.device@
            &&& d.alarm_type == device_request.alarm_type
        },
        reply.value matches Some(ReplyValue::Status(_)) ==> r matches Ok(DpmData::Status(_)),
        reply.value matches Some(ReplyValue::Readings(_)) && r is Ok ==> r matches Ok(
            DpmData::Reading(_),
        ),
{
    match &reply.value {
        Some(ReplyValue::Readings(readings)) => {
            if readings.len() == 0 {
                return Err(ReplyError::NoReadings);
            }
            let reading = &readings[0];
            let raw_timestamp = match &reading.timestamp {
                Some(t) => *t,
                None => {
                    return Err(ReplyError::MissingTimestamp);
                },
            };
            if !utc_timestamp_valid(raw_timestamp.seconds, raw_timestamp.nanos as u32) {
                return Err(ReplyError::InvalidTimestamp);
            }
            let data = match &reading.data {
                Some(v) => v.clone(),
                None => {
                    return Err(ReplyError::MissingData);
                },
            };
            Ok(
                DpmData::Reading(
                    DpmReading {
                        index: reply.index,
                        device: device_request.device.clone(),
                        alarm_type: device_request.alarm_type,
                        timestamp: raw_timestamp,
                        data,
                    },
                ),
            )
        },
        Some(ReplyValue::Status(status)) => {
            let combined: i32 = status.facility_code + status.status_code * 256;
            Ok(
                DpmData::Status(
                    DpmStatus {
                        index: reply.index,
                        device: device_request.device.clone(),
                        alarm_type: device_request.alarm_type,
                        facility_code: status.facility_code as u8,
                        status_code: combined as i8,
                        message: status.message.clone(),
                    },
                ),
            )
        },
        None => Err(ReplyError::EmptyReply),
    }
}

/// Parses a reply of the reading stream for the request that its index names.
pub fn parse_stream_reply<V: Clone>(reply: &ReadingReply<V>, requests: &Vec<AlarmRequest>) -> (r:
    Result<DpmData<V>, ReplyError>)
    requires
        reply.index < requests@.len(),
        reply.value matches Some(ReplyValue::Status(st)) ==> status_code_in_range(st),
    ensures
        r matches Err(e) ==> parse_reply_error(*reply) == Some(e),
        r is Ok ==> parse_reply_error(*reply) is None,
        r matches Ok(DpmData::Status(s)) ==> s.device@ == requests@[reply.index as int].device@
            && s.alarm_type == requests@[reply.index as int].alarm_type && s.index == reply.index,
        r matches Ok(DpmData::Reading(d)) ==> d.device@ == requests@[reply.index as int].device@
            && d.alarm_type == requests@[reply.index as int].alarm_type && d.index == reply.index,
{
    parse_reply(reply, &requests[reply.index as usize])
}

/// Whether a service endpoint asks for TLS: it does when its URL starts with `https://`.
pub fn endpoint_uses_tls(endpoint: &str) -> (r: bool)
    ensures
        r == (endpoint@.len() >= 8 && endpoint@.subrange(0, 8) == "https://"@),
{
    let prefix = "https://";
    proof {
        reveal_strlit("https://");
    }
    let n = endpoint.unicode_len();
    if n < 8 {
        return false;
    }
    let head = endpoint.substring_char(0, 8);
    str_eq(head, prefix)
}

} // verus!
