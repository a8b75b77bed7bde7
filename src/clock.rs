use vstd::prelude::*;
use chrono::{Datelike, Timelike};

verus! {

/// Day of year (counted from 1) of a UNIX time on the UTC calendar.
pub uninterp spec fn utc_ordinal(timestamp: int) -> int;

/// A UTC instant as the calendar shows it.
struct CalendarTime {
    hour: u32,
    minute: u32,
    second: u32,
    ordinal: u32,
}

/// The moment that drives one decision: a UNIX time with the offset of the
/// installation applied, its seconds after midnight and its day of year.
#[derive(Clone, Copy, Debug, PartialEq, Eq, Structural)]
pub struct ClockReading {
    pub timestamp: i64,
    pub now_seconds: u32,
    pub ordinal: u16,
}

/// Relies on chrono's conversion `From<SystemTime> for DateTime<Utc>`, read
/// back through DateTime::timestamp: the current UNIX time in whole seconds,
/// negative where the system clock stands before 1970. chrono unwraps only
/// where the clock lies beyond its calendar of about 262,000 years either
/// side of year 0.
#[verifier::external_body]
fn unix_now() -> (r: i64) {
    chrono::DateTime::<chrono::Utc>::from(std::time::SystemTime::now()).timestamp()
}

/// Relies on chrono::DateTime::from_timestamp, read back through the
/// Timelike and Datelike accessors: hour, minute and second of the day and
/// day of year of a UNIX time in UTC, or None where chrono cannot represent
/// that time.
#[verifier::external_body]
fn utc_calendar(timestamp: i64) -> (r: Option<CalendarTime>)
    ensures
        -4398046511104 <= timestamp <= 4398046511104 ==> r is Some,
        r matches Some(c) ==> {
            &&& c.hour < 24
            &&& c.minute < 60
            &&& c.second < 60
            &&& c.hour * 3600 + c.minute * 60 + c.second == timestamp % 86400
            &&& c.ordinal == utc_ordinal(timestamp as int)
            &&& 1 <= c.ordinal <= 366
        },
{
    match chrono::DateTime::from_timestamp(timestamp, 0) {
        Some(t) => Some(
            CalendarTime { hour: t.hour(), minute: t.minute(), second: t.second(), ordinal: t.ordinal() },
        ),
        None => None,
    }
}

/// Moves a UNIX time by whole hours, or None where the result does not fit
/// in an `i64`.
pub fn shift_hours(timestamp: i64, hour_offset: i64) -> (r: Option<i64>)
    ensures
        r is Some <==> i64::MIN <= timestamp + 3600 * hour_offset <= i64::MAX,
        r matches Some(t) ==> t == timestamp + 3600 * hour_offset,
{
    let delta: i128 = hour_offset as i128 * 3600;
    let shifted: i128 = timestamp as i128 + delta;
    if i64::MIN as i128 <= shifted && shifted <= i64::MAX as i128 {
        Some(shifted as i64)
    } else {
        None
    }
}

/// The reading of UNIX time `timestamp` moved by `hour_offset` hours: its
/// seconds after midnight and its day of year on the UTC calendar. None
/// where the moved time does not fit in an `i64` or on the calendar; every
/// moved time within 2^42 seconds (about 139,000 years) of 1970 is read.
pub fn read_clock_at(timestamp: i64, hour_offset: i64) -> (r: Option<ClockReading>)
    ensures
        !(i64::MIN <= timestamp + 3600 * hour_offset <= i64::MAX) ==> r is None,
        -4398046511104 <= timestamp + 3600 * hour_offset <= 4398046511104 ==> r is Some,
        r matches Some(c) ==> {
            &&& c.timestamp == timestamp + 3600 * hour_offset
            &&& c.now_seconds == c.timestamp % 86400
            &&& c.ordinal == utc_ordinal(c.timestamp as int)
            &&& 1 <= c.ordinal <= 366
        },
{
    let shifted = match shift_hours(timestamp, hour_offset) {
        Some(t) => t,
        None => return None,
    };
    match utc_calendar(shifted) {
        Some(c) => {
            let now_seconds = c.hour * 3600 + c.minute * 60 + c.second;
            Some(ClockReading { timestamp: shifted, now_seconds, ordinal: c.ordinal as u16 })
        },
        None => None,
    }
}

/// Reads the clock now, moved by `hour_offset` hours; None where the moved
/// time does not fit in an `i64` or on the calendar.
pub fn get_now(hour_offset: i64) -> (r: Option<ClockReading>)
    ensures
        r matches Some(c) ==> {
            &&& c.now_seconds == c.timestamp % 86400
            &&& c.now_seconds < 86400
            &&& c.ordinal == utc_ordinal(c.timestamp as int)
            &&& 1 <= c.ordinal <= 366
        },
{
    read_clock_at(unix_now(), hour_offset)
}

} // verus!
