//! Conversion between nanosecond timestamps and calendar records.
use crate::error::RtcError;
use vstd::prelude::*;

verus! {

/// Nanoseconds in one second.
pub const NANOS_PER_SEC: u64 = 1_000_000_000;

/// The fixed offset from UTC, in seconds, at which timestamps are shown as
/// calendar records (UTC+8).
pub const DISPLAY_OFFSET_SECS: i32 = 28800;

/// A wall-clock date and time, to the second.
#[derive(Debug, Clone, Copy, PartialEq, Eq, Structural)]
pub struct RtcTime {
    pub year: u32,
    pub month: u8,
    pub day: u8,
    pub hour: u8,
    pub minute: u8,
    pub second: u8,
}

impl RtcTime {
    pub fn new(year: u32, month: u8, day: u8, hour: u8, minute: u8, second: u8) -> (r: Self)
        ensures
            r == (RtcTime { year, month, day, hour, minute, second }),
    {
        RtcTime { year, month, day, hour, minute, second }
    }
}

/// Leap years of the proleptic Gregorian calendar.
pub open spec fn is_leap_year(y: int) -> bool {
    (y % 4 == 0 && y % 100 != 0) || y % 400 == 0
}

/// The number of days of month `m` (`1..=12`) in year `y`.
pub open spec fn days_in_month(y: int, m: int) -> int {
    if m == 2 {
        if is_leap_year(y) {
            29
        } else {
            28
        }
    } else if m == 4 || m == 6 || m == 9 || m == 11 {
        30
    } else {
        31
    }
}

/// The number of days from 1970-01-01 to the date `y-m-d` of the proleptic
/// Gregorian calendar (negative before it). Years are counted from March,
/// so that the leap day ends a year.
pub open spec fn days_from_civil(y: int, m: int, d: int) -> int {
    let y = if m <= 2 {
        y - 1
    } else {
        y
    };
    let era = y / 400;
    let year_of_era = y - era * 400;
    let shifted_month = if m > 2 {
        m - 3
    } else {
        m + 9
    };
    let day_of_year = (153 * shifted_month + 2) / 5 + d - 1;
    let day_of_era = year_of_era * 365 + year_of_era / 4 - year_of_era / 100 + day_of_year;
    era * 146097 + day_of_era - 719468
}

/// Seconds from 1970-01-01 00:00:00 to the given wall-clock time, read at
/// offset zero.
pub open spec fn civil_seconds(y: int, mo: int, d: int, h: int, mi: int, s: int) -> int {
    days_from_civil(y, mo, d) * 86400 + h * 3600 + mi * 60 + s
}

/// Seconds from the epoch to `c`, read at offset zero.
pub open spec fn seconds_of(c: RtcTime) -> int {
    civil_seconds(
        c.year as int,
        c.month as int,
        c.day as int,
        c.hour as int,
        c.minute as int,
        c.second as int,
    )
}

/// A date and time that exists: year `1..=9999`, month `1..=12`, a day of
/// that month (leap years counted), hour `0..=23`, minute and second `0..=59`.
pub open spec fn is_valid_calendar(c: RtcTime) -> bool {
    1 <= c.year <= 9999 && 1 <= c.month <= 12 && 1 <= c.day <= days_in_month(
        c.year as int,
        c.month as int,
    ) && c.hour < 24 && c.minute < 60 && c.second < 60
}

/// `c` is how the timestamp `ns` reads on a clock at the display offset.
pub open spec fn is_display_calendar_of(ns: u64, c: RtcTime) -> bool {
    is_valid_calendar(c) && seconds_of(c) == ns as int / NANOS_PER_SEC as int
        + DISPLAY_OFFSET_SECS as int
}

/// The timestamp of `c`, read as wall-clock time at offset zero.
pub open spec fn raw_of_calendar(c: RtcTime) -> Result<u64, RtcError> {
    let n = seconds_of(c) * NANOS_PER_SEC as int;
    if !is_valid_calendar(c) {
        Err(RtcError::InvalidDateTime)
    } else if n < 0 || n > u64::MAX {
        Err(RtcError::TimestampOutOfRange)
    } else {
        Ok(n as u64)
    }
}

/// Relies on `time::OffsetDateTime::from_unix_timestamp_nanos`,
/// `time::UtcOffset::from_whole_seconds` and `OffsetDateTime::to_offset`,
/// and on the calendar accessors of the result: the local date and time at
/// offset `offset_secs` of the instant `ns` nanoseconds after the epoch, in
/// the proleptic Gregorian calendar. A `u64` timestamp and an offset below
/// one day stay within the crate's years `-9999..=9999`, so neither
/// `unwrap` nor `to_offset` panics.
#[verifier::external_body]
fn civil_time_at_offset(ns: u64, offset_secs: i32) -> (r: RtcTime)
    requires
        -86399 <= offset_secs <= 86399,
    ensures
        is_valid_calendar(r),
        seconds_of(r) == ns as int / NANOS_PER_SEC as int + offset_secs as int,
{
    let utc = time::OffsetDateTime::from_unix_timestamp_nanos(ns as i128).unwrap();
    let local = utc.to_offset(time::UtcOffset::from_whole_seconds(offset_secs).unwrap());
    RtcTime {
        year: local.year() as u32,
        month: local.month() as u8,
        day: local.day(),
        hour: local.hour(),
        minute: local.minute(),
        second: local.second(),
    }
}

/// Relies on `time::Month::try_from`, `time::Date::from_calendar_date`,
/// `time::Time::from_hms`, `PrimitiveDateTime::assume_utc` and
/// `OffsetDateTime::unix_timestamp_nanos`: the date and time exist (years
/// `-9999..=9999`) exactly when every constructor succeeds, and the result
/// is then the nanosecond count of that wall-clock time at UTC.
#[verifier::external_body]
fn unix_nanos_at_utc(year: i32, month: u8, day: u8, hour: u8, minute: u8, second: u8) -> (r:
    Option<i128>)
    ensures
        r.is_some() <==> (-9999 <= year <= 9999 && 1 <= month <= 12 && 1 <= day
            <= days_in_month(year as int, month as int) && hour < 24 && minute < 60 && second
            < 60),
        r.is_some() ==> r.unwrap() == civil_seconds(
            year as int,
            month as int,
            day as int,
            hour as int,
            minute as int,
            second as int,
        ) * NANOS_PER_SEC as int,
{
    let month = time::Month::try_from(month).ok()?;
    let date = time::Date::from_calendar_date(year, month, day).ok()?;
    let clock = time::Time::from_hms(hour, minute, second).ok()?;
    Some(time::PrimitiveDateTime::new(date, clock).assume_utc().unix_timestamp_nanos())
}

/// The calendar record of `ns` at the display offset (UTC+8). The
/// nanoseconds below one second are dropped.
pub fn raw_to_calendar(ns: u64) -> (r: RtcTime)
    ensures
        is_display_calendar_of(ns, r),
{
    civil_time_at_offset(ns, DISPLAY_OFFSET_SECS)
}

/// The timestamp of `c`, whose fields are read as wall-clock time at offset
/// zero. Fails with `InvalidDateTime` when `c` names no date and time, and
/// with `TimestampOutOfRange` when it lies before the epoch or too far
/// after it for 64 bits.
pub fn calendar_to_raw(c: &RtcTime) -> (r: Result<u64, RtcError>)
    ensures
        r == raw_of_calendar(*c),
{
    if c.year < 1 || c.year > 9999 {
        return Err(RtcError::InvalidDateTime);
    }
    match unix_nanos_at_utc(c.year as i32, c.month, c.day, c.hour, c.minute, c.second) {
        None => Err(RtcError::InvalidDateTime),
        Some(n) => {
            if n < 0 || n > u64::MAX as i128 {
                Err(RtcError::TimestampOutOfRange)
            } else {
                Ok(n as u64)
            }
        },
    }
}

/// Round trip: a timestamp shown at the display offset and read back at
/// offset zero gives the timestamp cut to the whole second and moved
/// forward by the display offset, wherever that still fits in 64 bits.
pub proof fn lemma_calendar_round_trip(t: u64, c: RtcTime)
    requires
        is_display_calendar_of(t, c),
        (t / NANOS_PER_SEC + DISPLAY_OFFSET_SECS as int) * NANOS_PER_SEC <= u64::MAX,
    ensures
        raw_of_calendar(c) == Ok::<u64, RtcError>(
            ((t / NANOS_PER_SEC + DISPLAY_OFFSET_SECS as int) * NANOS_PER_SEC) as u64,
        ),
{
}

} // verus!
