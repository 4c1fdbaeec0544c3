//! Calendar dates and times of day as chrono values, with the rules of
//! when they exist.

use chrono::{FixedOffset, NaiveDate, NaiveDateTime};
use vstd::prelude::*;

verus! {

#[verifier::external_type_specification]
#[verifier::external_body]
pub struct ExNaiveDate(NaiveDate);

#[verifier::external_type_specification]
#[verifier::external_body]
pub struct ExNaiveDateTime(NaiveDateTime);

#[verifier::external_type_specification]
#[verifier::external_body]
pub struct ExFixedOffset(FixedOffset);

/// Earliest year of a date.
pub const MIN_YEAR: i32 = -262_143;

/// Latest year of a date.
pub const MAX_YEAR: i32 = 262_142;

/// Seconds in a day: a fixed offset from UTC is less than this either way.
pub const SECONDS_PER_DAY: i32 = 86_400;

/// Leap years of the proleptic Gregorian calendar.
pub open spec fn is_leap_year(year: int) -> bool {
    year % 4 == 0 && (year % 100 != 0 || year % 400 == 0)
}

/// Number of days of month `month` (1 to 12) of `year`.
pub open spec fn days_in_month(year: int, month: int) -> int {
    if month == 2 {
        if is_leap_year(year) {
            29
        } else {
            28
        }
    } else if month == 4 || month == 6 || month == 9 || month == 11 {
        30
    } else {
        31
    }
}

/// Whether the day `day` of month `month` of `year` exists, in the range of
/// years that a date can have.
pub open spec fn valid_date(year: int, month: int, day: int) -> bool {
    &&& MIN_YEAR <= year <= MAX_YEAR
    &&& 1 <= month <= 12
    &&& 1 <= day <= days_in_month(year, month)
}

/// Whether `hour`:`min`:`sec` is a time of day (leap seconds aside).
pub open spec fn valid_time(hour: int, min: int, sec: int) -> bool {
    0 <= hour < 24 && 0 <= min < 60 && 0 <= sec < 60
}

/// Whether `secs` east of UTC is an offset that a fixed time zone can have.
pub open spec fn valid_offset(secs: int) -> bool {
    -(SECONDS_PER_DAY as int) < secs < SECONDS_PER_DAY as int
}

/// Relies on `NaiveDate::from_ymd_opt`: a date for every existing calendar
/// day of a year in range, nothing otherwise.
#[verifier::external_body]
fn date_from_ymd(year: i32, month: u32, day: u32) -> (r: Option<NaiveDate>)
    ensures
        r is Some <==> valid_date(year as int, month as int, day as int),
{
    NaiveDate::from_ymd_opt(year, month, day)
}

/// Relies on `NaiveDate::and_hms_opt`: the date at a time of day, for hours
/// below 24 and minutes and seconds below 60, nothing otherwise.
#[verifier::external_body]
fn date_at_hms(date: &NaiveDate, hour: u32, min: u32, sec: u32) -> (r: Option<NaiveDateTime>)
    ensures
        r is Some <==> valid_time(hour as int, min as int, sec as int),
{
    date.and_hms_opt(hour, min, sec)
}

/// Relies on `FixedOffset::east_opt`: an offset for less than a day either
/// way, nothing otherwise.
#[verifier::external_body]
fn offset_east(secs: i32) -> (r: Option<FixedOffset>)
    ensures
        r is Some <==> valid_offset(secs as int),
{
    FixedOffset::east_opt(secs)
}

/// Why a date and time could not be built.
#[derive(Debug, Clone, Copy, PartialEq, Eq, Structural)]
pub enum DateError {
    InvalidDate,
    InvalidTime,
    InvalidTimezoneOffset,
}

impl DateError {
    /// Text of the error.
    pub fn message(self) -> (r: String)
        ensures
            r@ == (match self {
                DateError::InvalidDate => "Invalid date"@,
                DateError::InvalidTime => "Invalid time"@,
                DateError::InvalidTimezoneOffset => "Invalid timezone offset"@,
            }),
    {
        match self {
            DateError::InvalidDate => String::from_str("Invalid date"),
            DateError::InvalidTime => String::from_str("Invalid time"),
            DateError::InvalidTimezoneOffset => String::from_str("Invalid timezone offset"),
        }
    }
}

/// The error of a date and time: the date is checked first, then the time.
pub open spec fn date_time_error(
    year: int,
    month: int,
    day: int,
    hour: int,
    min: int,
    sec: int,
) -> Option<DateError> {
    if !valid_date(year, month, day) {
        Some(DateError::InvalidDate)
    } else if !valid_time(hour, min, sec) {
        Some(DateError::InvalidTime)
    } else {
        None
    }
}

/// A UTC date and time of day; it exists when the day exists and the time
/// is a time of day.
pub fn utc_date_time(
    year: i32,
    month: u32,
    day: u32,
    hour: u32,
    min: u32,
    sec: u32,
) -> (r: Result<NaiveDateTime, DateError>)
    ensures
        r is Ok <==> date_time_error(
            year as int,
            month as int,
            day as int,
            hour as int,
            min as int,
            sec as int,
        ) is None,
        r matches Err(e) ==> date_time_error(
            year as int,
            month as int,
            day as int,
            hour as int,
            min as int,
            sec as int,
        ) == Some(e),
{
    let date = match date_from_ymd(year, month, day) {
        Some(d) => d,
        None => return Err(DateError::InvalidDate),
    };
    match date_at_hms(&date, hour, min, sec) {
        Some(t) => Ok(t),
        None => Err(DateError::InvalidTime),
    }
}

/// A UTC date and time of day with the offset of a zone `offset_secs`
/// seconds east of UTC; the date is checked first, then the time, then the offset.
pub fn date_time_with_offset(
    year: i32,
    month: u32,
    day: u32,
    hour: u32,
    min: u32,
    sec: u32,
    offset_secs: i32,
) -> (r: Result<(NaiveDateTime, FixedOffset), DateError>)
    ensures
        r is Ok <==> date_time_error(
            year as int,
            month as int,
            day as int,
            hour as int,
            min as int,
            sec as int,
        ) is None && valid_offset(offset_secs as int),
        r matches Err(e) ==> (match date_time_error(
            year as int,
            month as int,
            day as int,
            hour as int,
            min as int,
            sec as int,
        ) {
            Some(first) => e == first,
            None => e == DateError::InvalidTimezoneOffset,
        }),
{
    let utc = match utc_date_time(year, month, day, hour, min, sec) {
        Ok(t) => t,
        Err(e) => return Err(e),
    };
    match offset_east(offset_secs) {
        Some(zone) => Ok((utc, zone)),
        None => Err(DateError::InvalidTimezoneOffset),
    }
}

} // verus!
