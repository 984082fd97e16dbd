//! Alarm identity keys derived from device names and alarm sources.

use vstd::prelude::*;
use vstd::std_specs::cmp::PartialEqSpecImpl;
use vstd::string::*;

use crate::model::status::{Source, Status};
use crate::text::{concat2, concat3, find_char, first_index_of, str_eq, to_uppercase, trim, trim_spec, unicode_uppercase};

verus! {

/// The mathematical identity of a key: its normalized device name and its source.
pub type KeyView = (Seq<char>, Source);

/// Uniquely identifies an alarm by its device name and data source.
///
/// The device name is always stored trimmed and uppercased. The string form is
/// `"DEVICE#Source"`, which is also the Kafka message key.
#[derive(Debug, Hash)]
pub struct Key {
    /// Normalized device name.
    pub device: String,
    /// The alarm data source.
    pub source: Source,
}

impl View for Key {
    type V = KeyView;

    open spec fn view(&self) -> KeyView {
        (self.device@, self.source)
    }
}

impl Clone for Key {
    fn clone(&self) -> (res: Self)
        ensures
            res == *self,
    {
        Key { device: self.device.clone(), source: self.source }
    }
}

impl PartialEq for Key {
    fn eq(&self, other: &Self) -> (r: bool) {
        self.device == other.device && self.source == other.source
    }
}

impl PartialEqSpecImpl for Key {
    open spec fn obeys_eq_spec() -> bool {
        true
    }

    open spec fn eq_spec(&self, other: &Self) -> bool {
        self@ == other@
    }
}

impl Eq for Key {}

/// The normalized form of a device name: trimmed, then uppercased.
pub open spec fn normalize_device(s: Seq<char>) -> Seq<char> {
    unicode_uppercase(trim_spec(s))
}

/// The source named by an uppercased source name.
pub open spec fn source_from_upper_name(name: Seq<char>) -> Option<Source> {
    if name == "ANALOG"@ {
        Some(Source::Analog)
    } else if name == "DIGITAL"@ {
        Some(Source::Digital)
    } else if name == "EPICS"@ {
        Some(Source::Epics)
    } else {
        None
    }
}

/// The variant name of a source, as it appears in the string form of a key.
pub open spec fn source_name(source: Source) -> Seq<char> {
    match source {
        Source::Unknown => "Unknown"@,
        Source::Analog => "Analog"@,
        Source::Digital => "Digital"@,
        Source::Epics => "Epics"@,
    }
}

/// What parsing `"DEVICE#Source"` yields: the key's view, or the error message.
///
/// The text is split at the first `'#'`. The part after it, trimmed and uppercased, must name a
/// known source; the part before it, normalized, must not be empty.
pub open spec fn parse_key_spec(s: Seq<char>) -> Result<KeyView, Seq<char>> {
    match first_index_of(s, '#') {
        None => Err(
            s
                + " does not contain the expected '#' delimiter for separating device name from alarm source."@,
        ),
        Some(i) => {
            let device = normalize_device(s.subrange(0, i));
            match source_from_upper_name(normalize_device(s.subrange(i + 1, s.len() as int))) {
                None => Err(s + " does not contain a known alarms source."@),
                Some(source) => if device.len() == 0 {
                    Err(s + " is missing a device name."@)
                } else {
                    Ok((device, source))
                },
            }
        },
    }
}

/// The string form of a key: `"DEVICE#SourceVariant"`.
pub open spec fn key_string(k: KeyView) -> Seq<char> {
    k.0 + "#"@ + source_name(k.1)
}

/// Returns the variant name of a source.
pub fn source_to_str(source: Source) -> (r: &'static str)
    ensures
        r@ == source_name(source),
{
    match source {
        Source::Unknown => "Unknown",
        Source::Analog => "Analog",
        Source::Digital => "Digital",
        Source::Epics => "Epics",
    }
}

/// Normalizes a device name: trims surrounding whitespace and uppercases it.
pub fn normalize(s: &str) -> (r: String)
    ensures
        r@ == normalize_device(s@),
{
    to_uppercase(trim(s))
}

pub fn source_from_upper(name: &str) -> (r: Option<Source>)
    ensures
        r == source_from_upper_name(name@),
{
    if str_eq(name, "ANALOG") {
        Some(Source::Analog)
    } else if str_eq(name, "DIGITAL") {
        Some(Source::Digital)
    } else if str_eq(name, "EPICS") {
        Some(Source::Epics)
    } else {
        None
    }
}

impl Key {
    /// Constructs a key from a status, normalizing the device name.
    pub fn from(status: &Status) -> (key: Key)
        ensures
            key@ == (normalize_device(status.device@), status.source),
    {
        Key { device: normalize(status.device.as_str()), source: status.source }
    }

    /// Constructs a key from a `"DEVICE#Source"` string.
    ///
    /// The device portion, left of the first `'#'`, is trimmed and uppercased. The source portion
    /// is matched case-insensitively after trimming.
    pub fn try_from(s: &str) -> (r: Result<Key, String>)
        ensures
            match r {
                Ok(key) => parse_key_spec(s@) == Ok::<KeyView, Seq<char>>(key@),
                Err(msg) => parse_key_spec(s@) == Err::<KeyView, Seq<char>>(msg@),
            },
    {
        match find_char(s, '#') {
            Some(i) => {
                let n = s.unicode_len();
                let device_part = s.substring_char(0, i);
                let source_part = s.substring_char(i + 1, n);
                let source_name = normalize(source_part);
                match source_from_upper(source_name.as_str()) {
                    None => Err(concat2(s, " does not contain a known alarms source.")),
                    Some(source) => {
                        let device = normalize(device_part);
                        if device.as_str().unicode_len() == 0 {
                            Err(concat2(s, " is missing a device name."))
                        } else {
                            Ok(Key { device, source })
                        }
                    },
                }
            },
            None => Err(
                concat2(
                    s,
                    " does not contain the expected '#' delimiter for separating device name from alarm source.",
                ),
            ),
        }
    }

    /// Serializes the key as `"DEVICE#SourceVariant"`.
    pub fn to_string(&self) -> (r: String)
        ensures
            r@ == key_string(self@),
    {
        concat3(self.device.as_str(), "#", source_to_str(self.source))
    }

    /// Whether two keys identify the same alarm.
    pub fn same_as(&self, other: &Key) -> (r: bool)
        ensures
            r == (self@ == other@),
    {
        self.device == other.device && self.source == other.source
    }
}

} // verus!
