//! Wall-clock readings from `chrono`.

use vstd::prelude::*;

verus! {

/// Converts `SystemTime::now()` into a `chrono::DateTime<Utc>` and reads it as whole seconds
/// and subsecond nanoseconds since the Unix epoch; a clock set before 1970 reads as a negative
/// number of seconds.
///
/// The reading depends on the system clock, so nothing ties it to any argument; chrono builds
/// it from `SystemTime`'s subsecond nanoseconds, which stay below one billion.
#[verifier::external_body]
pub fn utc_now() -> (r: (i64, u32))
    ensures
        r.1 < 1_000_000_000,
{
    let now: chrono::DateTime<chrono::Utc> = chrono::DateTime::from(std::time::SystemTime::now());
    (now.timestamp(), now.timestamp_subsec_nanos())
}

} // verus!

verus! {

/// What `Duration::as_millis` returns: the whole milliseconds a duration contains.
pub uninterp spec fn duration_millis(d: std::time::Duration) -> u128;

/// Calls `Duration::as_millis`; the result is the number of whole milliseconds in `d`.
#[verifier::external_body]
pub fn duration_as_millis(d: &std::time::Duration) -> (r: u128)
    ensures
        r == duration_millis(*d),
{
    d.as_millis()
}

} // verus!

verus! {

/// The earliest whole second chrono can represent: January 1 of year -262143.
pub const CHRONO_MIN_TIMESTAMP: i64 = -8_334_601_315_200;

/// The latest whole second chrono can represent: December 31 of year 262142, 23:59:59.
pub const CHRONO_MAX_TIMESTAMP: i64 = 8_210_266_876_799;

/// Whether chrono can build a UTC date-time from `secs` seconds and `nsecs` nanoseconds since
/// the epoch: the seconds must fall within its range of years, and the nanoseconds must be
/// below one second, or below two seconds on the last second of a minute (a leap second).
pub open spec fn chrono_timestamp_valid(secs: i64, nsecs: u32) -> bool {
    &&& CHRONO_MIN_TIMESTAMP <= secs <= CHRONO_MAX_TIMESTAMP
    &&& (nsecs < 1_000_000_000 || (nsecs < 2_000_000_000 && secs % 60 == 59))
}

/// Calls `DateTime::<Utc>::from_timestamp_secs`; it yields a date-time exactly when `secs`
/// lies within chrono's range of years.
#[verifier::external_body]
pub fn timestamp_secs_representable(secs: i64) -> (r: bool)
    ensures
        r == chrono_timestamp_valid(secs, 0),
{
    chrono::DateTime::<chrono::Utc>::from_timestamp_secs(secs).is_some()
}

/// Calls `Utc.timestamp_opt(secs, nsecs)` and reports whether it yields a single date-time,
/// which it does exactly when chrono can represent that instant.
#[verifier::external_body]
pub fn utc_timestamp_valid(secs: i64, nsecs: u32) -> (r: bool)
    ensures
        r == chrono_timestamp_valid(secs, nsecs),
{
    chrono::TimeZone::timestamp_opt(&chrono::Utc, secs, nsecs).single().is_some()
}

/// What chrono's `Display` writes for the UTC date-time `secs` seconds and `nsecs`
/// nanoseconds after the epoch.
pub uninterp spec fn utc_display_text(secs: i64, nsecs: u32) -> Seq<char>;

/// Calls `DateTime::<Utc>::from_timestamp(secs, nsecs)` and writes the date-time with its
/// `Display` implementation.
#[verifier::external_body]
pub fn format_utc(secs: i64, nsecs: u32) -> (r: String)
    requires
        chrono_timestamp_valid(secs, nsecs),
    ensures
        r@ == utc_display_text(secs, nsecs),
{
    chrono::DateTime::from_timestamp(secs, nsecs).unwrap().to_string()
}

} // verus!
