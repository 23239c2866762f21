//! Calendar date and time with a fixed offset from UTC, held as plain values.
use chrono::{Datelike, Timelike};
use vstd::prelude::*;

verus! {

/// Smallest year that `chrono::NaiveDate` represents.
pub const MIN_YEAR: i32 = -262143;

/// Largest year that `chrono::NaiveDate` represents.
pub const MAX_YEAR: i32 = 262142;

/// Seconds in a day: a fixed offset lies strictly between minus and plus this.
pub const SECS_PER_DAY: i32 = 86400;

/// A wall-clock date and time together with the offset of that wall clock
/// from UTC, in seconds east of Greenwich.
#[derive(Clone, Copy, Debug, PartialEq, Eq, Structural)]
pub struct DateTimeFixed {
    pub year: i32,
    pub month: u32,
    pub day: u32,
    pub hour: u32,
    pub minute: u32,
    pub second: u32,
    pub nanosecond: u32,
    pub offset_east_secs: i32,
}

pub open spec fn is_leap_year(y: int) -> bool {
    (y % 4 == 0 && y % 100 != 0) || y % 400 == 0
}

pub open spec fn days_in_month(y: int, m: int) -> int {
    if m == 2 {
        if is_leap_year(y) { 29 } else { 28 }
    } else if m == 4 || m == 6 || m == 9 || m == 11 {
        30
    } else {
        31
    }
}

/// The calendar day exists and its year is one that chrono represents.
pub open spec fn valid_ymd(y: int, m: int, d: int) -> bool {
    MIN_YEAR <= y <= MAX_YEAR && 1 <= m <= 12 && 1 <= d <= days_in_month(y, m)
}

/// A time of day; a nanosecond count of a second or more stands for a leap
/// second and is only allowed in the 59th second.
pub open spec fn valid_hms(h: int, mi: int, s: int, ns: int) -> bool {
    h < 24 && mi < 60 && s < 60 && ns < 2_000_000_000 && (ns >= 1_000_000_000 ==> s == 59)
}

pub open spec fn valid_offset(secs: int) -> bool {
    -SECS_PER_DAY < secs < SECS_PER_DAY
}

/// Days from 1970-01-01 to the given proleptic Gregorian date.
pub open spec fn days_from_civil(y: int, m: int, d: int) -> int {
    let yy = if m <= 2 { y - 1 } else { y };
    let era = yy / 400;
    let yoe = yy - era * 400;
    let mp = if m > 2 { m - 3 } else { m + 9 };
    let doy = (153 * mp + 2) / 5 + d - 1;
    let doe = yoe * 365 + yoe / 4 - yoe / 100 + doy;
    era * 146097 + doe - 719468
}

impl DateTimeFixed {
    pub open spec fn wf(self) -> bool {
        &&& valid_ymd(self.year as int, self.month as int, self.day as int)
        &&& valid_hms(self.hour as int, self.minute as int, self.second as int, self.nanosecond as int)
        &&& valid_offset(self.offset_east_secs as int)
    }

    /// Whole seconds of the instant since 1970-01-01T00:00:00Z.
    pub open spec fn unix_seconds(self) -> int {
        days_from_civil(self.year as int, self.month as int, self.day as int) * 86400
            + self.hour * 3600 + self.minute * 60 + self.second - self.offset_east_secs
    }
}

#[verifier::external_type_specification]
#[verifier::external_body]
pub struct ExNaiveDate(chrono::NaiveDate);

#[verifier::external_type_specification]
#[verifier::external_body]
pub struct ExNaiveTime(chrono::NaiveTime);

#[verifier::external_type_specification]
#[verifier::external_body]
pub struct ExFixedOffset(chrono::FixedOffset);

/// Relies on chrono::NaiveDate::from_ymd_opt: `None` exactly for a day that
/// does not exist or a year out of chrono's range.
#[verifier::external_body]
pub(crate) fn chrono_date(year: i32, month: u32, day: u32) -> (r: Option<chrono::NaiveDate>)
    ensures
        r.is_some() == valid_ymd(year as int, month as int, day as int),
{
    chrono::NaiveDate::from_ymd_opt(year, month, day)
}

/// Relies on chrono::NaiveTime::from_hms_nano_opt: `None` exactly on an
/// invalid hour, minute, second or nanosecond.
#[verifier::external_body]
pub(crate) fn chrono_time(hour: u32, minute: u32, second: u32, nano: u32) -> (r: Option<chrono::NaiveTime>)
    ensures
        r.is_some() == valid_hms(hour as int, minute as int, second as int, nano as int),
{
    chrono::NaiveTime::from_hms_nano_opt(hour, minute, second, nano)
}

/// Relies on chrono::FixedOffset::west_opt: `None` exactly when the offset
/// is a whole day or more.
#[verifier::external_body]
pub(crate) fn chrono_offset_west(secs: i32) -> (r: Option<chrono::FixedOffset>)
    ensures
        r.is_some() == valid_offset(secs as int),
{
    chrono::FixedOffset::west_opt(secs)
}

/// Largest distance from the epoch, in seconds, that a creation time may lie.
pub const MAX_UNIX_SECS: i64 = 8_000_000_000_000;

/// Relies on chrono::DateTime::from_timestamp: the UTC date and time of a
/// count of seconds since the epoch, `None` only out of chrono's range.
#[verifier::external_body]
fn chrono_from_timestamp(secs: i64) -> (r: Option<DateTimeFixed>)
    ensures
        r matches Some(d) ==> d.wf() && d.offset_east_secs == 0 && d.nanosecond == 0
            && d.unix_seconds() == secs,
        -MAX_UNIX_SECS <= secs <= MAX_UNIX_SECS ==> r.is_some(),
{
    match chrono::DateTime::from_timestamp(secs, 0) {
        Some(d) => Some(DateTimeFixed {
            year: d.year(),
            month: d.month(),
            day: d.day(),
            hour: d.hour(),
            minute: d.minute(),
            second: d.second(),
            nanosecond: d.nanosecond(),
            offset_east_secs: 0,
        }),
        None => None,
    }
}

/// The instant `secs` seconds after the epoch, on a clock at UTC.
pub fn utc_from_unix_seconds(secs: i64) -> (r: DateTimeFixed)
    requires
        -MAX_UNIX_SECS <= secs <= MAX_UNIX_SECS,
    ensures
        r.wf(),
        r.offset_east_secs == 0,
        r.nanosecond == 0,
        r.unix_seconds() == secs,
{
    chrono_from_timestamp(secs).unwrap()
}

} // verus!
