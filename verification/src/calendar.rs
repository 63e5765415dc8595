//! Calendar dates, as the `chrono` crate knows them.

use vstd::prelude::*;
use chrono::{Datelike, Local, NaiveDate};

verus! {

/// The first year that a date can have.
pub const MIN_YEAR: i32 = -262143;

/// The last year that a date can have.
pub const MAX_YEAR: i32 = 262142;

/// A day of the proleptic Gregorian calendar.
#[derive(Clone, Copy, Debug, PartialEq, Eq, Structural)]
pub struct CalendarDate {
    pub year: i32,
    pub month: u32,
    pub day: u32,
}

/// Whether the year has a 29th of February.
pub open spec fn is_leap_year(year: int) -> bool {
    year % 4 == 0 && (year % 100 != 0 || year % 400 == 0)
}

/// Number of days of the month; months count from 1.
pub open spec fn days_in_month(year: int, month: int) -> int {
    if month == 2 {
        if is_leap_year(year) {
            29
        } else {
            28
        }
    } else if month == 4 || month == 6 || month == 9 || month == 11 {
        30
    } else {
        31
    }
}

/// Whether the calendar has this day, in a year that a date can have.
pub open spec fn valid_ymd(year: int, month: int, day: int) -> bool {
    &&& MIN_YEAR <= year <= MAX_YEAR
    &&& 1 <= month <= 12
    &&& 1 <= day <= days_in_month(year, month)
}

impl CalendarDate {
    /// The date is a day of the calendar.
    pub open spec fn wf(self) -> bool {
        valid_ymd(self.year as int, self.month as int, self.day as int)
    }
}

/// The date with this year, month and day, where the calendar has it.
///
/// Trusted: calls `chrono::NaiveDate::from_ymd_opt` and reads the date back
/// with `Datelike::year`, `month` and `day`. The contract claims that chrono
/// makes a date exactly of the days of the proleptic Gregorian calendar in
/// the years from `MIN_YEAR` to `MAX_YEAR`, and that the date reads back as
/// it was made.
#[verifier::external_body]
pub(crate) fn date_from_ymd(year: i32, month: u32, day: u32) -> (date: Option<CalendarDate>)
    ensures
        date == if valid_ymd(year as int, month as int, day as int) {
            Some(CalendarDate { year, month, day })
        } else {
            None
        },
{
    match NaiveDate::from_ymd_opt(year, month, day) {
        Some(date) => Some(
            CalendarDate { year: date.year(), month: date.month(), day: date.day() },
        ),
        None => None,
    }
}

/// The current date in the local time zone.
///
/// Trusted: calls `chrono::Local::now` and `DateTime::date_naive`, and reads
/// the date with `Datelike::year`, `month` and `day`. The contract claims
/// only that what chrono returns is a day of the calendar; which day it is
/// depends on the clock and on the time zone. Chrono panics where the
/// system clock stands before 1970.
#[verifier::external_body]
pub(crate) fn local_today() -> (today: CalendarDate)
    ensures
        today.wf(),
{
    let date = Local::now().date_naive();
    CalendarDate { year: date.year(), month: date.month(), day: date.day() }
}

} // verus!
