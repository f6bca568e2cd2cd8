//! Proleptic Gregorian calendar arithmetic: leap years, month lengths, and
//! validity of calendar instants.

use vstd::prelude::*;

verus! {

/// A concrete point in calendar time at second precision, with no time zone
/// attached. Resolution only ever produces instants satisfying
/// [`CalendarInstant::spec_valid`].
#[derive(Clone, Copy, Debug, PartialEq, Eq, Structural)]
pub struct CalendarInstant {
    pub year: i32,
    pub month: u32,
    pub day: u32,
    pub hour: u32,
    pub minute: u32,
    pub second: u32,
}

/// Whether `year` is a leap year of the proleptic Gregorian calendar.
pub open spec fn spec_is_leap_year(year: int) -> bool {
    year % 4 == 0 && (year % 100 != 0 || year % 400 == 0)
}

/// The number of days of month `month` of `year`, or 0 when `month` is not a
/// calendar month.
pub open spec fn spec_last_day_of_month(year: int, month: int) -> int {
    if month == 1 || month == 3 || month == 5 || month == 7 || month == 8 || month == 10
        || month == 12 {
        31
    } else if month == 4 || month == 6 || month == 9 || month == 11 {
        30
    } else if month == 2 {
        if spec_is_leap_year(year) {
            29
        } else {
            28
        }
    } else {
        0
    }
}

/// Whether year/month/day name a day of the proleptic Gregorian calendar.
pub open spec fn spec_valid_date(year: int, month: int, day: int) -> bool {
    &&& 1 <= month <= 12
    &&& 1 <= day <= spec_last_day_of_month(year, month)
}

impl CalendarInstant {
    /// The date part names a calendar day and the time part a second of it.
    pub open spec fn spec_valid(self) -> bool {
        &&& spec_valid_date(self.year as int, self.month as int, self.day as int)
        &&& self.hour <= 23
        &&& self.minute <= 59
        &&& self.second <= 59
    }

    /// Whether `self` is no later than `other`: the lexicographic order of
    /// the six fields, year first, which on valid instants is calendar
    /// order.
    pub open spec fn spec_le(self, other: CalendarInstant) -> bool {
        if self.year != other.year {
            self.year < other.year
        } else if self.month != other.month {
            self.month < other.month
        } else if self.day != other.day {
            self.day < other.day
        } else if self.hour != other.hour {
            self.hour < other.hour
        } else if self.minute != other.minute {
            self.minute < other.minute
        } else {
            self.second <= other.second
        }
    }

    /// Whether `self` is no later than `other`.
    pub fn le(&self, other: &CalendarInstant) -> (r: bool)
        ensures
            r == self.spec_le(*other),
    {
        if self.year != other.year {
            self.year < other.year
        } else if self.month != other.month {
            self.month < other.month
        } else if self.day != other.day {
            self.day < other.day
        } else if self.hour != other.hour {
            self.hour < other.hour
        } else if self.minute != other.minute {
            self.minute < other.minute
        } else {
            self.second <= other.second
        }
    }

    /// Build an instant out of its six fields.
    pub fn new(year: i32, month: u32, day: u32, hour: u32, minute: u32, second: u32) -> (r:
        CalendarInstant)
        ensures
            r == (CalendarInstant { year, month, day, hour, minute, second }),
    {
        CalendarInstant { year, month, day, hour, minute, second }
    }
}

/// Whether `year` is a leap year of the proleptic Gregorian calendar.
pub fn is_leap_year(year: i32) -> (r: bool)
    ensures
        r == spec_is_leap_year(year as int),
{
    year % 4 == 0 && (year % 100 != 0 || year % 400 == 0)
}

/// The number of days of month `month` of `year`; `None` when `month` is not
/// in `1..=12`.
pub fn last_day_of_month(year: i32, month: u32) -> (r: Option<u32>)
    ensures
        1 <= month <= 12 ==> r == Some(spec_last_day_of_month(year as int, month as int) as u32),
        !(1 <= month <= 12) ==> r is None,
{
    match month {
        1 | 3 | 5 | 7 | 8 | 10 | 12 => Some(31),
        4 | 6 | 9 | 11 => Some(30),
        2 => if is_leap_year(year) {
            Some(29)
        } else {
            Some(28)
        },
        _ => None,
    }
}

/// Whether year/month/day name a day of the proleptic Gregorian calendar.
pub fn is_valid_date(year: i32, month: u32, day: u32) -> (r: bool)
    ensures
        r == spec_valid_date(year as int, month as int, day as int),
{
    match last_day_of_month(year, month) {
        Some(last) => 1 <= day && day <= last,
        None => false,
    }
}

} // verus!
