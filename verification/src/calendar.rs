//! Calendar dates with a time of day, as the schedule window holds them.
//!
//! The values are plain numbers. Reading a date from text, writing it and
//! counting seconds are chrono's work; this module states what it relies on.

use chrono::{Datelike, NaiveDate};
use vstd::prelude::*;

use crate::text::{decimal, digit_char};

verus! {

/// The first and the last year that chrono's `NaiveDate` can hold.
pub const MIN_YEAR: i32 = -262143;

pub const MAX_YEAR: i32 = 262142;

/// Leap years of the proleptic Gregorian calendar.
pub open spec fn is_leap_year(year: int) -> bool {
    year % 4 == 0 && (year % 100 != 0 || year % 400 == 0)
}

/// The number of days of a month; 0 for a month that does not exist.
pub open spec fn days_in_month(year: int, month: int) -> int {
    if month == 2 {
        if is_leap_year(year) {
            29
        } else {
            28
        }
    } else if month == 4 || month == 6 || month == 9 || month == 11 {
        30
    } else if 1 <= month <= 12 {
        31
    } else {
        0
    }
}

/// A day that exists in the calendar, in a year that chrono can hold.
pub open spec fn valid_date(year: int, month: int, day: int) -> bool {
    &&& MIN_YEAR <= year <= MAX_YEAR
    &&& 1 <= month <= 12
    &&& 1 <= day <= days_in_month(year, month)
}

/// A second of a day.
pub open spec fn valid_time(hour: int, minute: int, second: int) -> bool {
    0 <= hour < 24 && 0 <= minute < 60 && 0 <= second < 60
}

/// A number below 100 in two digits.
pub open spec fn two_digits(n: int) -> Seq<char> {
    seq![digit_char(n / 10), digit_char(n % 10)]
}

/// A non-negative number in at least four digits.
pub open spec fn four_digits(n: int) -> Seq<char> {
    if n <= 9999 {
        two_digits(n / 100) + two_digits(n % 100)
    } else {
        decimal(n as nat)
    }
}

/// The year of a date as ISO 8601 writes it: four digits, and an explicit
/// sign outside of the years 0 to 9999.
pub open spec fn year_text(year: int) -> Seq<char> {
    if 0 <= year <= 9999 {
        four_digits(year)
    } else if year < 0 {
        seq!['-'] + four_digits(-year)
    } else {
        seq!['+'] + four_digits(year)
    }
}

/// A date in the form `YYYY-MM-DD`.
pub open spec fn date_text(year: int, month: int, day: int) -> Seq<char> {
    year_text(year) + seq!['-'] + two_digits(month) + seq!['-'] + two_digits(day)
}

/// The date that chrono reads from a text with the format `%Y-%m-%d`, if it
/// reads one.
pub uninterp spec fn date_of_text(text: Seq<char>) -> Option<(i32, u32, u32)>;

/// The seconds from the start of 1970 to the given time of the given day,
/// leap seconds not counted, as chrono counts them.
pub uninterp spec fn unix_seconds(
    year: int,
    month: int,
    day: int,
    hour: int,
    minute: int,
    second: int,
) -> int;

/// A calendar date with a time of day, without a time zone.
#[derive(Debug, Clone, Copy, PartialEq, Eq)]
pub struct CivilDateTime {
    pub year: i32,
    pub month: u32,
    pub day: u32,
    pub hour: u32,
    pub minute: u32,
    pub second: u32,
}

/// The hour at which a week's schedule starts and ends.
pub const RESET_HOUR: u32 = 11;

impl CivilDateTime {
    /// The day exists and the time of day is one of its seconds.
    pub open spec fn wf(self) -> bool {
        &&& valid_date(self.year as int, self.month as int, self.day as int)
        &&& valid_time(self.hour as int, self.minute as int, self.second as int)
    }

    /// The same day at the hour of the weekly reset.
    pub open spec fn at_reset(self) -> CivilDateTime {
        CivilDateTime { hour: RESET_HOUR, minute: 0, second: 0, ..self }
    }

    /// The date without its time of day, as `YYYY-MM-DD`.
    pub open spec fn date_text(self) -> Seq<char> {
        date_text(self.year as int, self.month as int, self.day as int)
    }

    /// The seconds from the start of 1970 to this time.
    pub open spec fn unix_seconds(self) -> int {
        unix_seconds(
            self.year as int,
            self.month as int,
            self.day as int,
            self.hour as int,
            self.minute as int,
            self.second as int,
        )
    }

    /// Tests whether the value is a time of a day that exists.
    pub fn is_well_formed(&self) -> (r: bool)
        ensures
            r == self.wf(),
    {
        if self.year < MIN_YEAR || self.year > MAX_YEAR {
            return false;
        }
        if self.month < 1 || self.month > 12 || self.day < 1 {
            return false;
        }
        // 262400 is a multiple of 400, so the shifted year is leap when the year is
        let shifted: u32 = (self.year + 262400) as u32;
        let leap = shifted % 4 == 0 && (shifted % 100 != 0 || shifted % 400 == 0);
        assert(leap == is_leap_year(self.year as int));
        let days: u32 = if self.month == 2 {
            if leap {
                29
            } else {
                28
            }
        } else if self.month == 4 || self.month == 6 || self.month == 9 || self.month == 11 {
            30
        } else {
            31
        };
        self.day <= days && self.hour < 24 && self.minute < 60 && self.second < 60
    }

    /// The seconds from the start of 1970 to this time, leap seconds not
    /// counted.
    pub fn timestamp(&self) -> (r: i64)
        requires
            self.wf(),
        ensures
            r == self.unix_seconds(),
    {
        let seconds = seconds_since_epoch(self);
        seconds.unwrap()
    }
}

/// chrono's `NaiveDate::parse_from_str` with the format `%Y-%m-%d`, and the
/// year, month and day of the date it returns. Claimed: the result is the
/// date named `date_of_text`, and a date that comes back exists in the
/// calendar, since a `NaiveDate` holds no other.
#[verifier::external_body]
fn parse_calendar_date(text: &str) -> (r: Option<(i32, u32, u32)>)
    ensures
        r == date_of_text(text@),
        r matches Some(date) ==> valid_date(date.0 as int, date.1 as int, date.2 as int),
{
    NaiveDate::parse_from_str(text, "%Y-%m-%d").ok().map(|d| (d.year(), d.month(), d.day()))
}

/// chrono's `NaiveDate::from_ymd_opt`, and `to_string` on the date it gives.
/// Claimed: a date is given exactly for a day that exists in a year that
/// chrono can hold, and it is written as ISO 8601 asks: the year in four
/// digits, with a sign outside of the years 0 to 9999, then month and day
/// in two digits each.
#[verifier::external_body]
fn format_calendar_date(year: i32, month: u32, day: u32) -> (r: Option<String>)
    ensures
        r is Some <==> valid_date(year as int, month as int, day as int),
        r matches Some(text) ==> text@ == date_text(year as int, month as int, day as int),
{
    NaiveDate::from_ymd_opt(year, month, day).map(|d| d.to_string())
}

/// chrono's `NaiveDate::from_ymd_opt` and `and_hms_opt`, then
/// `and_utc().timestamp()` on the time they give. Claimed: a time is given
/// exactly for a second of a day that exists, and the count is the number
/// named `unix_seconds`.
#[verifier::external_body]
fn seconds_since_epoch(t: &CivilDateTime) -> (r: Option<i64>)
    ensures
        r is Some <==> t.wf(),
        r matches Some(seconds) ==> seconds == unix_seconds(t.year as int, t.month as int, t.day as int, t.hour as int, t.minute as int, t.second as int),
{
    NaiveDate::from_ymd_opt(t.year, t.month, t.day).and_then(
        |d| d.and_hms_opt(t.hour, t.minute, t.second),
    ).map(|at| at.and_utc().timestamp())
}

/// Writes the date of `v`, without its time of day, as `YYYY-MM-DD`.
pub fn as_naive_date_without_time(v: &CivilDateTime) -> (r: String)
    requires
        v.wf(),
    ensures
        r@ == v.date_text(),
{
    let text = format_calendar_date(v.year, v.month, v.day);
    text.unwrap()
}

/// Reads a date in the form `YYYY-MM-DD` and places it at the hour of the
/// weekly reset. `None` for a text that chrono does not read as a date.
pub fn from_naive_date_with_known_time(text: &str) -> (r: Option<CivilDateTime>)
    ensures
        r == reset_time_of_text(text@),
        r matches Some(t) ==> t.wf(),
{
    match parse_calendar_date(text) {
        Some(date) => Some(
            CivilDateTime {
                year: date.0,
                month: date.1,
                day: date.2,
                hour: RESET_HOUR,
                minute: 0,
                second: 0,
            },
        ),
        None => None,
    }
}

/// The time that a date text stands for: its day, at the hour of the reset.
pub open spec fn reset_time_of_text(text: Seq<char>) -> Option<CivilDateTime> {
    match date_of_text(text) {
        Some(date) => Some(
            CivilDateTime {
                year: date.0,
                month: date.1,
                day: date.2,
                hour: RESET_HOUR,
                minute: 0,
                second: 0,
            },
        ),
        None => None,
    }
}

} // verus!
