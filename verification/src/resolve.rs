//! Role-aware expansion of merged field values into concrete calendar
//! instants.
//!
//! The coarsest unset field of the merged values is the precision of the
//! literal. `Start` resolves to the inclusive lower bound of the calendar
//! period at that precision; `End` to the exclusive upper bound, the first
//! instant of the immediately following period, carrying across month, year,
//! day, hour and minute boundaries as needed. A fully specified literal has
//! no period to widen: both roles resolve to the same instant. Resolution
//! fails (`None`) when no year is available, when a field is outside its
//! calendar range, or when the following period's year does not fit an `i32`.

use vstd::prelude::*;

use crate::calendar::is_valid_date;
use crate::calendar::last_day_of_month;
use crate::calendar::spec_last_day_of_month;
use crate::calendar::spec_valid_date;
use crate::calendar::CalendarInstant;
use crate::fragment::DateTimeFragment;
use crate::merge::merged_fields;
use crate::merge::spec_merge;
use crate::merge::MergedFields;

verus! {

/// Which calendar boundary to compute: the inclusive lower bound of the
/// period implied by the merged precision, or its exclusive upper bound.
#[derive(Clone, Copy, Debug, PartialEq, Eq, Structural)]
pub enum Role {
    /// The first instant of the period.
    Start,
    /// The first instant of the immediately following period at the same
    /// precision.
    End,
}

/// Resolution of a year-precision literal: the first instant of that year,
/// or of the next one.
pub open spec fn spec_of_year(role: Role, year: i32) -> Option<CalendarInstant> {
    match role {
        Role::Start => Some(
            CalendarInstant { year, month: 1, day: 1, hour: 0, minute: 0, second: 0 },
        ),
        Role::End => if year == i32::MAX {
            None
        } else {
            Some(
                CalendarInstant {
                    year: (year + 1) as i32,
                    month: 1,
                    day: 1,
                    hour: 0,
                    minute: 0,
                    second: 0,
                },
            )
        },
    }
}

/// Resolution of a month-precision literal: the first instant of that month,
/// or of the next one, carrying into the next year after December.
pub open spec fn spec_of_month(role: Role, year: i32, month: u32) -> Option<CalendarInstant> {
    if !(1 <= month <= 12) {
        None
    } else {
        match role {
            Role::Start => Some(
                CalendarInstant { year, month, day: 1, hour: 0, minute: 0, second: 0 },
            ),
            Role::End => if month < 12 {
                Some(
                    CalendarInstant {
                        year,
                        month: (month + 1) as u32,
                        day: 1,
                        hour: 0,
                        minute: 0,
                        second: 0,
                    },
                )
            } else {
                spec_of_year(Role::End, year)
            },
        }
    }
}

/// Resolution of a day-precision literal: midnight of that day, or of the
/// next calendar day, carrying across month and year ends.
pub open spec fn spec_of_day(role: Role, year: i32, month: u32, day: u32) -> Option<
    CalendarInstant,
> {
    if !spec_valid_date(year as int, month as int, day as int) {
        None
    } else {
        match role {
            Role::Start => Some(
                CalendarInstant { year, month, day, hour: 0, minute: 0, second: 0 },
            ),
            Role::End => if (day as int) < spec_last_day_of_month(year as int, month as int) {
                Some(
                    CalendarInstant {
                        year,
                        month,
                        day: (day + 1) as u32,
                        hour: 0,
                        minute: 0,
                        second: 0,
                    },
                )
            } else {
                spec_of_month(Role::End, year, month)
            },
        }
    }
}

/// Resolution of an hour-precision literal: the first instant of that hour,
/// or of the next one, carrying across the day boundary.
pub open spec fn spec_of_hour(role: Role, year: i32, month: u32, day: u32, hour: u32) -> Option<
    CalendarInstant,
> {
    if !spec_valid_date(year as int, month as int, day as int) || hour > 23 {
        None
    } else {
        match role {
            Role::Start => Some(
                CalendarInstant { year, month, day, hour, minute: 0, second: 0 },
            ),
            Role::End => if hour < 23 {
                Some(
                    CalendarInstant {
                        year,
                        month,
                        day,
                        hour: (hour + 1) as u32,
                        minute: 0,
                        second: 0,
                    },
                )
            } else {
                spec_of_day(Role::End, year, month, day)
            },
        }
    }
}

/// Resolution of a minute-precision literal: the first instant of that
/// minute, or of the next one, carrying across the hour boundary.
pub open spec fn spec_of_minute(
    role: Role,
    year: i32,
    month: u32,
    day: u32,
    hour: u32,
    minute: u32,
) -> Option<CalendarInstant> {
    if !spec_valid_date(year as int, month as int, day as int) || hour > 23 || minute > 59 {
        None
    } else {
        match role {
            Role::Start => Some(CalendarInstant { year, month, day, hour, minute, second: 0 }),
            Role::End => if minute < 59 {
                Some(
                    CalendarInstant {
                        year,
                        month,
                        day,
                        hour,
                        minute: (minute + 1) as u32,
                        second: 0,
                    },
                )
            } else {
                spec_of_hour(Role::End, year, month, day, hour)
            },
        }
    }
}

/// Resolution of a fully specified literal: the exact instant, for either
/// role.
pub open spec fn spec_of_second(
    year: i32,
    month: u32,
    day: u32,
    hour: u32,
    minute: u32,
    second: u32,
) -> Option<CalendarInstant> {
    if !spec_valid_date(year as int, month as int, day as int) || hour > 23 || minute > 59
        || second > 59 {
        None
    } else {
        Some(CalendarInstant { year, month, day, hour, minute, second })
    }
}

/// Resolution of merged field values at their own precision.
pub open spec fn spec_resolve(fields: MergedFields, role: Role) -> Option<CalendarInstant> {
    match fields {
        MergedFields::Empty => None,
        MergedFields::Year { year } => spec_of_year(role, year),
        MergedFields::Month { year, month } => spec_of_month(role, year, month),
        MergedFields::Day { year, month, day } => spec_of_day(role, year, month, day),
        MergedFields::Hour { year, month, day, hour } => spec_of_hour(role, year, month, day, hour),
        MergedFields::Minute { year, month, day, hour, minute } => spec_of_minute(
            role,
            year,
            month,
            day,
            hour,
            minute,
        ),
        MergedFields::Second { year, month, day, hour, minute, second } => spec_of_second(
            year,
            month,
            day,
            hour,
            minute,
            second,
        ),
    }
}

impl Role {
    /// The first instant of the year (`Start`), or of the following year
    /// (`End`); `None` only when the following year does not fit an `i32`.
    pub fn of_year(&self, year: i32) -> (r: Option<CalendarInstant>)
        ensures
            r == spec_of_year(*self, year),
    {
        match self {
            Role::Start => Some(CalendarInstant::new(year, 1, 1, 0, 0, 0)),
            Role::End => if year == i32::MAX {
                None
            } else {
                Some(CalendarInstant::new(year + 1, 1, 1, 0, 0, 0))
            },
        }
    }

    /// The first instant of the month (`Start`), or of the following month
    /// (`End`), carrying into the next year after December; `None` when
    /// `month` is not in `1..=12`.
    pub fn of_month(&self, year: i32, month: u32) -> (r: Option<CalendarInstant>)
        ensures
            r == spec_of_month(*self, year, month),
    {
        if month < 1 || month > 12 {
            return None;
        }
        match self {
            Role::Start => Some(CalendarInstant::new(year, month, 1, 0, 0, 0)),
            Role::End => if month < 12 {
                Some(CalendarInstant::new(year, month + 1, 1, 0, 0, 0))
            } else {
                Role::End.of_year(year)
            },
        }
    }

    /// Midnight of the day (`Start`), or of the next calendar day (`End`),
    /// carrying across month and year ends; `None` when year/month/day is
    /// not a calendar date.
    pub fn of_day(&self, year: i32, month: u32, day: u32) -> (r: Option<CalendarInstant>)
        ensures
            r == spec_of_day(*self, year, month, day),
    {
        let last = match last_day_of_month(year, month) {
            Some(last) => last,
            None => {
                return None;
            },
        };
        if day < 1 || day > last {
            return None;
        }
        match self {
            Role::Start => Some(CalendarInstant::new(year, month, day, 0, 0, 0)),
            Role::End => if day < last {
                Some(CalendarInstant::new(year, month, day + 1, 0, 0, 0))
            } else {
                Role::End.of_month(year, month)
            },
        }
    }

    /// The first instant of the hour (`Start`), or of the following hour
    /// (`End`), carrying across the day boundary.
    pub fn of_hour(&self, year: i32, month: u32, day: u32, hour: u32) -> (r: Option<
        CalendarInstant,
    >)
        ensures
            r == spec_of_hour(*self, year, month, day, hour),
    {
        if !is_valid_date(year, month, day) || hour > 23 {
            return None;
        }
        match self {
            Role::Start => Some(CalendarInstant::new(year, month, day, hour, 0, 0)),
            Role::End => if hour < 23 {
                Some(CalendarInstant::new(year, month, day, hour + 1, 0, 0))
            } else {
                Role::End.of_day(year, month, day)
            },
        }
    }

    /// The first instant of the minute (`Start`), or of the following minute
    /// (`End`), carrying across the hour boundary.
    pub fn of_minute(&self, year: i32, month: u32, day: u32, hour: u32, minute: u32) -> (r: Option<
        CalendarInstant,
    >)
        ensures
            r == spec_of_minute(*self, year, month, day, hour, minute),
    {
        if !is_valid_date(year, month, day) || hour > 23 || minute > 59 {
            return None;
        }
        match self {
            Role::Start => Some(CalendarInstant::new(year, month, day, hour, minute, 0)),
            Role::End => if minute < 59 {
                Some(CalendarInstant::new(year, month, day, hour, minute + 1, 0))
            } else {
                Role::End.of_hour(year, month, day, hour)
            },
        }
    }
}

/// The exact instant of a fully specified literal; both roles coincide, so no
/// role is taken.
pub fn of_second(year: i32, month: u32, day: u32, hour: u32, minute: u32, second: u32) -> (r:
    Option<CalendarInstant>)
    ensures
        r == spec_of_second(year, month, day, hour, minute, second),
{
    if !is_valid_date(year, month, day) || hour > 23 || minute > 59 || second > 59 {
        return None;
    }
    Some(CalendarInstant::new(year, month, day, hour, minute, second))
}

impl MergedFields {
    /// Resolve merged field values at their own precision into one concrete
    /// instant, or `None` when no year anchors them or a field is outside
    /// its calendar range.
    pub fn resolve(&self, role: Role) -> (r: Option<CalendarInstant>)
        ensures
            r == spec_resolve(*self, role),
    {
        match *self {
            MergedFields::Empty => None,
            MergedFields::Year { year } => role.of_year(year),
            MergedFields::Month { year, month } => role.of_month(year, month),
            MergedFields::Day { year, month, day } => role.of_day(year, month, day),
            MergedFields::Hour { year, month, day, hour } => role.of_hour(year, month, day, hour),
            MergedFields::Minute { year, month, day, hour, minute } => role.of_minute(
                year,
                month,
                day,
                hour,
                minute,
            ),
            MergedFields::Second { year, month, day, hour, minute, second } => of_second(
                year,
                month,
                day,
                hour,
                minute,
                second,
            ),
        }
    }
}

/// Merge a relative and a base fragment and resolve the result for `role`.
pub fn fragment_to_datetime(
    relative: &Option<DateTimeFragment>,
    base: &Option<DateTimeFragment>,
    role: Role,
) -> (r: Option<CalendarInstant>)
    ensures
        r == spec_resolve(spec_merge(*relative, *base), role),
{
    merged_fields(relative, base).resolve(role)
}

/// Resolve a single fragment, with no other fragment to merge with.
pub fn fragment_to_datetime_either(either: &DateTimeFragment, role: Role) -> (r: Option<
    CalendarInstant,
>)
    ensures
        r == spec_resolve(spec_merge(Some(*either), None), role),
{
    let relative = Some(*either);
    fragment_to_datetime(&relative, &None, role)
}

/// Merge a relative fragment with a base fragment, both present, and resolve
/// the result for `role`.
pub fn fragment_to_datetime_both(
    relative: &DateTimeFragment,
    base: &DateTimeFragment,
    role: Role,
) -> (r: Option<CalendarInstant>)
    ensures
        r == spec_resolve(spec_merge(Some(*relative), Some(*base)), role),
{
    let relative_opt = Some(*relative);
    let base_opt = Some(*base);
    fragment_to_datetime(&relative_opt, &base_opt, role)
}

/// Resolution for the completion attribute: when the item is not done there
/// is no completion instant, whatever the literal said; when it is done and
/// the merged literal is entirely absent, the completion falls back to the
/// resolved due instant, and failing that to the resolved start instant.
pub open spec fn spec_completed(
    merged: MergedFields,
    done: bool,
    due: Option<CalendarInstant>,
    start: Option<CalendarInstant>,
) -> Option<CalendarInstant> {
    if !done {
        None
    } else if merged is Empty {
        if due is Some {
            due
        } else {
            start
        }
    } else {
        spec_resolve(merged, Role::End)
    }
}

/// Merge and resolve the completion attribute of an item whose done flag is
/// `done`, falling back to the already resolved `due` and `start` instants
/// when the merged literal is entirely absent.
pub fn fragment_to_datetime_completed(
    relative: &Option<DateTimeFragment>,
    base: &Option<DateTimeFragment>,
    done: bool,
    due: &Option<CalendarInstant>,
    start: &Option<CalendarInstant>,
) -> (r: Option<CalendarInstant>)
    ensures
        r == spec_completed(spec_merge(*relative, *base), done, *due, *start),
{
    if !done {
        return None;
    }
    let merged = merged_fields(relative, base);
    match merged {
        MergedFields::Empty => if due.is_some() {
            *due
        } else {
            *start
        },
        _ => merged.resolve(Role::End),
    }
}

} // verus!
