//! Device database records: device summaries, expanded alarm-block information, and the
//! alarm requests that the ACNET device database yields.

use vstd::prelude::*;

use crate::dpm::{AlarmRequest, AlarmType};

verus! {

/// The device part of a device-database info entry, as far as summaries read it: its
/// description, whether it has reading and setting properties, and the number of control
/// commands and status bits when it has control and status properties.
#[derive(Debug)]
pub struct DeviceInfo {
    pub description: String,
    pub reading: bool,
    pub setting: bool,
    pub control_cmds: Option<usize>,
    pub status_bits: Option<usize>,
}

/// What the device database answered for one name.
#[derive(Debug)]
pub enum InfoResult {
    Device(DeviceInfo),
    ErrMsg(String),
}

/// One entry of a device-info reply.
#[derive(Debug)]
pub struct InfoEntry {
    pub name: String,
    pub result: Option<InfoResult>,
}

/// A summary of one device-info entry.
#[derive(Debug, Clone)]
pub struct DeviceSummary {
    pub name: String,
    pub description: String,
    pub has_reading: bool,
    pub has_setting: bool,
    pub control_cmd_count: usize,
    pub status_bit_count: usize,
}

impl DeviceSummary {
    /// Summarizes an entry that describes a device; other entries give `None`.
    pub fn from_proto(entry: &InfoEntry) -> (r: Option<Self>)
        ensures
            r is Some <==> entry.result matches Some(InfoResult::Device(_)),
            r matches Some(s) ==> entry.result matches Some(InfoResult::Device(dev)) && {
                &&& s.name@ == entry.name@
                &&& s.description@ == dev.description@
                &&& s.has_reading == dev.reading
                &&& s.has_setting == dev.setting
                &&& s.control_cmd_count == (match dev.control_cmds {
                    Some(n) => n,
                    None => 0,
                })
                &&& s.status_bit_count == (match dev.status_bits {
                    Some(n) => n,
                    None => 0,
                })
            },
    {
        let name = entry.name.clone();
        match &entry.result {
            Some(InfoResult::Device(dev)) => Some(
                DeviceSummary {
                    name,
                    description: dev.description.clone(),
                    has_reading: dev.reading,
                    has_setting: dev.setting,
                    control_cmd_count: match dev.control_cmds {
                        Some(n) => n,
                        None => 0,
                    },
                    status_bit_count: match dev.status_bits {
                        Some(n) => n,
                        None => 0,
                    },
                },
            ),
            _ => None,
        }
    }
}

/// The alarm block of a device-database alarm entry.
#[derive(Debug, Clone)]
pub struct AlarmBlock {
    pub di: i32,
    pub pi: u32,
    pub status: Vec<u8>,
    pub tries_needed: u32,
    pub tries_now: u32,
}

/// One alarm entry of the device database, with its analog and digital alarm descriptions
/// carried as they came.
#[derive(Debug)]
pub struct AlarmInfo<A, D> {
    pub device_name: String,
    pub alarm_block: Option<AlarmBlock>,
    pub device_analog_alarm: Option<A>,
    pub device_digital_alarm: Option<D>,
}

/// An alarm entry laid out for display.
#[derive(Debug, Clone)]
pub struct AlarmInfoExpanded<A, D> {
    pub device_index: i32,
    pub property_index: u32,
    pub status_word_hex: Option<String>,
    pub tries_needed: u32,
    pub tries_now: u32,
    pub analog: Option<A>,
    pub digital: Option<D>,
}

/// The uppercase hexadecimal digit of a value below sixteen.
pub open spec fn hex_digit(n: u8) -> char {
    if n < 10 {
        (('0' as u8) + n) as char
    } else {
        (('A' as u8) + n - 10) as char
    }
}

/// Bytes as uppercase hexadecimal, two digits per byte, as `format!("{:02X}", byte)` writes
/// each.
pub open spec fn hex_upper(bytes: Seq<u8>) -> Seq<char>
    decreases bytes.len(),
{
    if bytes.len() == 0 {
        Seq::empty()
    } else {
        let b = bytes.last();
        hex_upper(bytes.drop_last()).push(hex_digit(b / 16)).push(hex_digit(b % 16))
    }
}

fn hex_digit_str(n: u8) -> (s: &'static str)
    requires
        n < 16,
    ensures
        s@ == seq![hex_digit(n)],
{
    let s = match n {
        0 => {
            proof {
                reveal_strlit("0");
            }
            "0"
        },
        1 => {
            proof {
                reveal_strlit("1");
            }
            "1"
        },
        2 => {
            proof {
                reveal_strlit("2");
            }
            "2"
        },
        3 => {
            proof {
                reveal_strlit("3");
            }
            "3"
        },
        4 => {
            proof {
                reveal_strlit("4");
            }
            "4"
        },
        5 => {
            proof {
                reveal_strlit("5");
            }
            "5"
        },
        6 => {
            proof {
                reveal_strlit("6");
            }
            "6"
        },
        7 => {
            proof {
                reveal_strlit("7");
            }
            "7"
        },
        8 => {
            proof {
                reveal_strlit("8");
            }
            "8"
        },
        9 => {
            proof {
                reveal_strlit("9");
            }
            "9"
        },
        10 => {
            proof {
                reveal_strlit("A");
            }
            "A"
        },
        11 => {
            proof {
                reveal_strlit("B");
            }
            "B"
        },
        12 => {
            proof {
                reveal_strlit("C");
            }
            "C"
        },
        13 => {
            proof {
                reveal_strlit("D");
            }
            "D"
        },
        14 => {
            proof {
                reveal_strlit("E");
            }
            "E"
        },
        _ => {
            proof {
                reveal_strlit("F");
            }
            "F"
        },
    };
    assert(s@ =~= seq![hex_digit(n)]);
    s
}

/// Writes bytes as uppercase hexadecimal, two digits per byte.
pub fn to_hex_upper(bytes: &Vec<u8>) -> (r: String)
    ensures
        r@ == hex_upper(bytes@),
{
    let mut out = String::new();
    let mut i: usize = 0;
    while i < bytes.len()
        invariant
            i <= bytes@.len(),
            out@ == hex_upper(bytes@.subrange(0, i as int)),
        decreases bytes@.len() - i,
    {
        let b = bytes[i];
        proof {
            assert(bytes@.subrange(0, i + 1).drop_last() =~= bytes@.subrange(0, i as int));
        }
        out.append(hex_digit_str(b / 16));
        out.append(hex_digit_str(b % 16));
        assert(out@ =~= hex_upper(bytes@.subrange(0, i + 1)));
        i = i + 1;
    }
    assert(bytes@.subrange(0, bytes@.len() as int) =~= bytes@);
    out
}

impl<A: Clone, D: Clone> AlarmInfoExpanded<A, D> {
    /// Expands an alarm entry: the block's indices and tries (zero without a block), the
    /// block's status word in hexadecimal, and copies of the alarm descriptions.
    pub fn from_proto(info: &AlarmInfo<A, D>) -> (r: Self)
        ensures
            match info.alarm_block {
                Some(b) => {
                    &&& r.device_index == b.di
                    &&& r.property_index == b.pi
                    &&& r.status_word_hex matches Some(h) && h@ == hex_upper(b.status@)
                    &&& r.tries_needed == b.tries_needed
                    &&& r.tries_now == b.tries_now
                },
                None => {
                    &&& r.device_index == 0
                    &&& r.property_index == 0
                    &&& r.status_word_hex is None
                    &&& r.tries_needed == 0
                    &&& r.tries_now == 0
                },
            },
            r.analog is Some <==> info.device_analog_alarm is Some,
            r.analog matches Some(a) ==> cloned(info.device_analog_alarm->0, a),
            r.digital is Some <==> info.device_digital_alarm is Some,
            r.digital matches Some(d) ==> cloned(info.device_digital_alarm->0, d),
    {
        let analog = info.device_analog_alarm.clone();
        let digital = info.device_digital_alarm.clone();
        match &info.alarm_block {
            Some(b) => AlarmInfoExpanded {
                device_index: b.di,
                property_index: b.pi,
                status_word_hex: Some(to_hex_upper(&b.status)),
                tries_needed: b.tries_needed,
                tries_now: b.tries_now,
                analog,
                digital,
            },
            None => AlarmInfoExpanded {
                device_index: 0,
                property_index: 0,
                status_word_hex: None,
                tries_needed: 0,
                tries_now: 0,
                analog,
                digital,
            },
        }
    }
}

/// Whether an alarm entry names a known block: property index 1 for an analog block,
/// 5 for a digital one.
pub open spec fn has_known_block<A, D>(info: AlarmInfo<A, D>) -> bool {
    info.alarm_block matches Some(b) && (b.pi == 1 || b.pi == 5)
}

/// The alarm type of a known block's property index.
pub open spec fn block_alarm_type(pi: u32) -> AlarmType {
    if pi == 1 {
        AlarmType::Analog
    } else {
        AlarmType::Digital
    }
}

/// The identity of an alarm request: its device and alarm type.
pub open spec fn request_id(r: AlarmRequest) -> (Seq<char>, AlarmType) {
    (r.device@, r.alarm_type)
}

/// The identities of a sequence of requests.
pub open spec fn request_ids(s: Seq<AlarmRequest>) -> Seq<(Seq<char>, AlarmType)> {
    s.map_values(|r: AlarmRequest| request_id(r))
}

/// Builds the alarm request of an entry with a known block.
pub fn build_alarm_request<A, D>(alarm_info: &AlarmInfo<A, D>) -> (r: AlarmRequest)
    requires
        has_known_block(*alarm_info),
    ensures
        r.device@ == alarm_info.device_name@,
        r.alarm_type == block_alarm_type(alarm_info.alarm_block->0.pi),
{
    let pi = match &alarm_info.alarm_block {
        Some(b) => b.pi,
        None => 0,
    };
    AlarmRequest {
        device: alarm_info.device_name.clone(),
        alarm_type: if pi == 1 {
            AlarmType::Analog
        } else {
            AlarmType::Digital
        },
    }
}

/// The first occurrence of each identity, in order of first appearance.
pub open spec fn first_occurrences<T>(s: Seq<T>) -> Seq<T>
    decreases s.len(),
{
    if s.len() == 0 {
        Seq::empty()
    } else {
        let prev = first_occurrences(s.drop_last());
        if s.drop_last().contains(s.last()) {
            prev
        } else {
            prev.push(s.last())
        }
    }
}

/// An identity is kept exactly when it occurs.
pub proof fn lemma_first_occurrences_contains<T>(s: Seq<T>, x: T)
    ensures
        first_occurrences(s).contains(x) <==> s.contains(x),
    decreases s.len(),
{
    if s.len() > 0 {
        let u = s.drop_last();
        lemma_first_occurrences_contains(u, x);
        lemma_first_occurrences_contains(u, s.last());
        if u.contains(x) {
            let i = choose|i: int| 0 <= i < u.len() && u[i] == x;
            assert(s[i] == x);
        }
        if s.contains(x) {
            let i = choose|i: int| 0 <= i < s.len() && s[i] == x;
            if i < u.len() {
                assert(u[i] == x);
            }
        }
        if !u.contains(s.last()) {
            let p = first_occurrences(u).push(s.last());
            assert(p[p.len() - 1] == s.last());
            if first_occurrences(u).contains(x) {
                let j = choose|j: int| 0 <= j < first_occurrences(u).len() && first_occurrences(u)[j] == x;
                assert(p[j] == x);
            }
        }
    }
}

/// Deduplication leaves each identity at most once.
pub proof fn law_first_occurrences_distinct<T>(s: Seq<T>)
    ensures
        first_occurrences(s).no_duplicates(),
    decreases s.len(),
{
    if s.len() > 0 {
        let u = s.drop_last();
        law_first_occurrences_distinct(u);
        lemma_first_occurrences_contains(u, s.last());
        if !u.contains(s.last()) {
            let p = first_occurrences(u);
            let q = p.push(s.last());
            assert forall|i: int, j: int| 0 <= i < q.len() && 0 <= j < q.len() && i != j implies q[i]
                != q[j] by {
                if i < p.len() && j < p.len() {
                } else if i == p.len() {
                    assert(q[j] == p[j]);
                    if p[j] == s.last() {
                        assert(p.contains(s.last()));
                    }
                } else {
                    assert(q[i] == p[i]);
                    if p[i] == s.last() {
                        assert(p.contains(s.last()));
                    }
                }
            }
        }
    }
}

/// Removes requests for a device and alarm type already requested, keeping the first of each.
pub fn dedupe_alarm_requests(requests: Vec<AlarmRequest>) -> (r: Vec<AlarmRequest>)
    ensures
        request_ids(r@) == first_occurrences(request_ids(requests@)),
{
    let mut out: Vec<AlarmRequest> = Vec::new();
    let n = requests.len();
    let mut i: usize = 0;
    while i < n
        invariant
            n == requests@.len(),
            i <= n,
            request_ids(out@) == first_occurrences(request_ids(requests@.subrange(0, i as int))),
        decreases n - i,
    {
        let ghost prefix = request_ids(requests@.subrange(0, i as int));
        let ghost next = request_ids(requests@.subrange(0, i + 1));
        proof {
            assert(next.drop_last() =~= prefix);
            assert(next.last() == request_id(requests@[i as int]));
        }
        let candidate = &requests[i];
        let mut seen = false;
        let mut j: usize = 0;
        while j < out.len()
            invariant
                j <= out@.len(),
                seen == exists|k: int| 0 <= k < j && request_id(out@[k]) == request_id(*candidate),
            decreases out@.len() - j,
        {
            if out[j].alarm_type == candidate.alarm_type && out[j].device == candidate.device {
                seen = true;
            }
            j = j + 1;
        }
        proof {
            lemma_first_occurrences_contains(prefix, request_id(*candidate));
            let ids = request_ids(out@);
            if seen {
                let k = choose|k: int| 0 <= k < j && request_id(out@[k]) == request_id(*candidate);
                assert(ids[k] == request_id(*candidate));
                assert(ids.contains(request_id(*candidate)));
            } else {
                assert forall|k: int| 0 <= k < ids.len() implies ids[k] != request_id(*candidate) by {
                    assert(ids[k] == request_id(out@[k]));
                }
                assert(!ids.contains(request_id(*candidate)));
            }
        }
        if !seen {
            out.push(AlarmRequest { device: candidate.device.clone(), alarm_type: candidate.alarm_type });
            proof {
                assert(request_ids(out@) =~= first_occurrences(next));
            }
        }
        i = i + 1;
    }
    assert(requests@.subrange(0, n as int) =~= requests@);
    out
}

/// Whether every entry names a known alarm block.
pub open spec fn all_known_blocks<A, D>(infos: Seq<AlarmInfo<A, D>>) -> bool {
    forall|i: int| 0 <= i < infos.len() ==> #[trigger] has_known_block(infos[i])
}

/// The alarm requests of the device database's alarm entries: one per entry, then
/// deduplicated by device and alarm type.
pub fn alarm_requests_from_info<A, D>(infos: &Vec<AlarmInfo<A, D>>) -> (r: Vec<AlarmRequest>)
    requires
        all_known_blocks(infos@),
    ensures
        request_ids(r@) == first_occurrences(
            Seq::new(
                infos@.len(),
                |i: int| (infos@[i].device_name@, block_alarm_type(infos@[i].alarm_block->0.pi)),
            ),
        ),
{
    let mut raw: Vec<AlarmRequest> = Vec::new();
    let mut i: usize = 0;
    while i < infos.len()
        invariant
            i <= infos@.len(),
            all_known_blocks(infos@),
            raw@.len() == i,
            forall|j: int|
                0 <= j < i ==> #[trigger] request_id(raw@[j]) == (
                    infos@[j].device_name@,
                    block_alarm_type(infos@[j].alarm_block->0.pi),
                ),
        decreases infos@.len() - i,
    {
        assert(has_known_block(infos@[i as int]));
        raw.push(build_alarm_request(&infos[i]));
        i = i + 1;
    }
    assert(request_ids(raw@) =~= Seq::new(
        infos@.len(),
        |i: int| (infos@[i].device_name@, block_alarm_type(infos@[i].alarm_block->0.pi)),
    ));
    dedupe_alarm_requests(raw)
}

} // verus!
