//! Calendar dates as plain year/month/day values.
//!
//! Expenses carry a calendar date. The library models a date as its year,
//! month and day numbers with the Gregorian validity rules; the clock (the
//! date of "today") is the one thing only the outside world can supply.

use vstd::prelude::*;
use chrono::Datelike;

verus! {

/// A Gregorian calendar date, stored as plain numbers.
#[derive(Clone, Copy, PartialEq, Eq, Structural, Debug)]
pub struct Date {
    pub year: i32,
    pub month: u8,
    pub day: u8,
}

/// A year is a leap year when it is divisible by 4 but not by 100,
/// or divisible by 400.
pub open spec fn spec_is_leap_year(year: i32) -> bool {
    (year % 4 == 0 && year % 100 != 0) || year % 400 == 0
}

/// Number of days of a month; months outside 1..=12 count 30 days,
/// mirroring the lenient table the calendar widget uses.
pub open spec fn spec_days_in_month(year: i32, month: u8) -> u8 {
    if month == 1 || month == 3 || month == 5 || month == 7 || month == 8 || month == 10
        || month == 12 {
        31
    } else if month == 4 || month == 6 || month == 9 || month == 11 {
        30
    } else if month == 2 {
        if spec_is_leap_year(year) {
            29
        } else {
            28
        }
    } else {
        30
    }
}

impl Date {
    /// A date is well formed when its month and day fall inside the calendar.
    pub open spec fn wf(self) -> bool {
        1 <= self.month <= 12 && 1 <= self.day <= spec_days_in_month(self.year, self.month)
    }

    /// Builds a date after checking the calendar rules; an impossible
    /// combination yields `None`.
    pub fn new(year: i32, month: u8, day: u8) -> (r: Option<Date>)
        ensures
            r matches Some(d) ==> d == (Date { year, month, day }) && d.wf(),
            r is None ==> !(Date { year, month, day }).wf(),
    {
        if 1 <= month && month <= 12 && 1 <= day && day <= days_in_month(year, month) {
            Some(Date { year, month, day })
        } else {
            None
        }
    }
}

/// Leap-year test over the Gregorian rules.
pub fn is_leap_year(year: i32) -> (r: bool)
    ensures
        r == spec_is_leap_year(year),
{
    (year % 4 == 0 && year % 100 != 0) || year % 400 == 0
}

/// Days of the given month, with February depending on the leap-year rule.
pub fn days_in_month(year: i32, month: u8) -> (r: u8)
    ensures
        r == spec_days_in_month(year, month),
{
    match month {
        1 | 3 | 5 | 7 | 8 | 10 | 12 => 31,
        4 | 6 | 9 | 11 => 30,
        2 => {
            if is_leap_year(year) {
                29
            } else {
                28
            }
        },
        _ => 30,
    }
}

/// Relies on `chrono::Local::now` and `NaiveDate`'s `Datelike` accessors:
/// the current local date is a valid Gregorian date whose month and day
/// numbers are one-based.
#[verifier::external_body]
pub fn today() -> (r: Date)
    ensures
        r.wf(),
{
    let now = chrono::Local::now().date_naive();
    Date {
        year: now.year(),
        month: now.month() as u8,
        day: now.day() as u8,
    }
}

} // verus!
