//! Field-by-field combination of an explicit ("relative") fragment with a
//! shared ("base") fragment.
//!
//! The relative side wins wherever it specifies a field; a field it leaves
//! open is taken from the base. A `MonthOrDay` value is given its meaning by
//! the shape of the *other* fragment: when the other side supplies a year and
//! a month it is a day, when the other side supplies only a year it is a
//! month, and when the other side supplies no year it contributes nothing.
//! The merged result stops descending at the first level neither side fills,
//! so a value can never carry a field without all coarser ones.

use vstd::prelude::*;

use crate::fragment::DateTimeFragment;

verus! {

/// One effective set of field values after merging, truncated at the first
/// unfilled level: the variant is the precision of the merged specification.
#[derive(Clone, Copy, Debug, PartialEq, Eq, Structural)]
pub enum MergedFields {
    /// No anchoring year is available: nothing can resolve.
    Empty,
    /// Specified down to the year.
    Year { year: i32 },
    /// Specified down to the month.
    Month { year: i32, month: u32 },
    /// Specified down to the day.
    Day { year: i32, month: u32, day: u32 },
    /// Specified down to the hour.
    Hour { year: i32, month: u32, day: u32, hour: u32 },
    /// Specified down to the minute.
    Minute { year: i32, month: u32, day: u32, hour: u32, minute: u32 },
    /// Fully specified.
    Second { year: i32, month: u32, day: u32, hour: u32, minute: u32, second: u32 },
}

impl MergedFields {
    /// The year these merged fields carry, when any.
    pub open spec fn spec_year_field(self) -> Option<i32> {
        match self {
            MergedFields::Empty => None,
            MergedFields::Year { year } => Some(year),
            MergedFields::Month { year, .. } => Some(year),
            MergedFields::Day { year, .. } => Some(year),
            MergedFields::Hour { year, .. } => Some(year),
            MergedFields::Minute { year, .. } => Some(year),
            MergedFields::Second { year, .. } => Some(year),
        }
    }

    /// The month these merged fields carry, when any.
    pub open spec fn spec_month_field(self) -> Option<u32> {
        match self {
            MergedFields::Month { month, .. } => Some(month),
            MergedFields::Day { month, .. } => Some(month),
            MergedFields::Hour { month, .. } => Some(month),
            MergedFields::Minute { month, .. } => Some(month),
            MergedFields::Second { month, .. } => Some(month),
            _ => None,
        }
    }

    /// The day these merged fields carry, when any.
    pub open spec fn spec_day_field(self) -> Option<u32> {
        match self {
            MergedFields::Day { day, .. } => Some(day),
            MergedFields::Hour { day, .. } => Some(day),
            MergedFields::Minute { day, .. } => Some(day),
            MergedFields::Second { day, .. } => Some(day),
            _ => None,
        }
    }
}

/// The year of an optional fragment, when present.
pub open spec fn spec_opt_year(o: Option<DateTimeFragment>) -> Option<i32> {
    match o {
        Some(f) => f.spec_year(),
        None => None,
    }
}

/// The month of an optional fragment, when present.
pub open spec fn spec_opt_month(o: Option<DateTimeFragment>) -> Option<u32> {
    match o {
        Some(f) => f.spec_month(),
        None => None,
    }
}

/// What one side contributes as the month, in the context of the other side:
/// an ambiguous `MonthOrDay` value is a month exactly when the other side
/// supplies a year and no month.
pub open spec fn spec_month_contribution(
    side: Option<DateTimeFragment>,
    other: Option<DateTimeFragment>,
) -> Option<u32> {
    match side {
        Some(DateTimeFragment::MonthOrDay(v)) => if spec_opt_year(other) is Some
            && spec_opt_month(other) is None {
            Some(v)
        } else {
            None
        },
        Some(f) => f.spec_month(),
        None => None,
    }
}

/// What one side contributes as the day, in the context of the other side: an
/// ambiguous `MonthOrDay` value is a day exactly when the other side supplies
/// both a year and a month.
pub open spec fn spec_day_contribution(
    side: Option<DateTimeFragment>,
    other: Option<DateTimeFragment>,
) -> Option<u32> {
    match side {
        Some(DateTimeFragment::MonthOrDay(v)) => if spec_opt_year(other) is Some
            && spec_opt_month(other) is Some {
            Some(v)
        } else {
            None
        },
        Some(f) => f.spec_day(),
        None => None,
    }
}

/// The hour of an optional fragment, when present.
pub open spec fn spec_opt_hour(o: Option<DateTimeFragment>) -> Option<u32> {
    match o {
        Some(f) => f.spec_hour(),
        None => None,
    }
}

/// The minute of an optional fragment, when present.
pub open spec fn spec_opt_minute(o: Option<DateTimeFragment>) -> Option<u32> {
    match o {
        Some(f) => f.spec_minute(),
        None => None,
    }
}

/// The second of an optional fragment, when present.
pub open spec fn spec_opt_second(o: Option<DateTimeFragment>) -> Option<u32> {
    match o {
        Some(f) => f.spec_second(),
        None => None,
    }
}

/// The first of two optional values, preferring the first.
pub open spec fn spec_first_of<T>(a: Option<T>, b: Option<T>) -> Option<T> {
    match a {
        Some(v) => Some(v),
        None => b,
    }
}

/// The merge of a relative and a base fragment: per field the relative side
/// wins, `MonthOrDay` values are disambiguated by the other side's shape, and
/// descent stops at the first level neither side fills.
pub open spec fn spec_merge(
    relative: Option<DateTimeFragment>,
    base: Option<DateTimeFragment>,
) -> MergedFields {
    match spec_first_of(spec_opt_year(relative), spec_opt_year(base)) {
        None => MergedFields::Empty,
        Some(year) => match spec_first_of(
            spec_month_contribution(relative, base),
            spec_month_contribution(base, relative),
        ) {
            None => MergedFields::Year { year },
            Some(month) => match spec_first_of(
                spec_day_contribution(relative, base),
                spec_day_contribution(base, relative),
            ) {
                None => MergedFields::Month { year, month },
                Some(day) => match spec_first_of(spec_opt_hour(relative), spec_opt_hour(base)) {
                    None => MergedFields::Day { year, month, day },
                    Some(hour) => match spec_first_of(
                        spec_opt_minute(relative),
                        spec_opt_minute(base),
                    ) {
                        None => MergedFields::Hour { year, month, day, hour },
                        Some(minute) => match spec_first_of(
                            spec_opt_second(relative),
                            spec_opt_second(base),
                        ) {
                            None => MergedFields::Minute { year, month, day, hour, minute },
                            Some(second) => MergedFields::Second {
                                year,
                                month,
                                day,
                                hour,
                                minute,
                                second,
                            },
                        },
                    },
                },
            },
        },
    }
}

/// The first of two optional values, preferring the first.
fn first_of<T>(a: Option<T>, b: Option<T>) -> (r: Option<T>)
    ensures
        r == spec_first_of(a, b),
{
    match a {
        Some(v) => Some(v),
        None => b,
    }
}

/// What one side contributes as the month, in the context of the other side.
fn month_contribution(side: &Option<DateTimeFragment>, other: &Option<DateTimeFragment>) -> (r:
    Option<u32>)
    ensures
        r == spec_month_contribution(*side, *other),
{
    match side {
        Some(DateTimeFragment::MonthOrDay(v)) => {
            let other_has_year = match other {
                Some(o) => o.year().is_some(),
                None => false,
            };
            let other_has_month = match other {
                Some(o) => o.month().is_some(),
                None => false,
            };
            if other_has_year && !other_has_month {
                Some(*v)
            } else {
                None
            }
        },
        Some(f) => f.month(),
        None => None,
    }
}

/// What one side contributes as the day, in the context of the other side.
fn day_contribution(side: &Option<DateTimeFragment>, other: &Option<DateTimeFragment>) -> (r:
    Option<u32>)
    ensures
        r == spec_day_contribution(*side, *other),
{
    match side {
        Some(DateTimeFragment::MonthOrDay(v)) => {
            let other_has_year = match other {
                Some(o) => o.year().is_some(),
                None => false,
            };
            let other_has_month = match other {
                Some(o) => o.month().is_some(),
                None => false,
            };
            if other_has_year && other_has_month {
                Some(*v)
            } else {
                None
            }
        },
        Some(f) => f.day(),
        None => None,
    }
}

/// The year of an optional fragment, when present.
fn opt_year(o: &Option<DateTimeFragment>) -> (r: Option<i32>)
    ensures
        r == spec_opt_year(*o),
{
    match o {
        Some(f) => f.year(),
        None => None,
    }
}

/// The hour of an optional fragment, when present.
fn opt_hour(o: &Option<DateTimeFragment>) -> (r: Option<u32>)
    ensures
        r == spec_opt_hour(*o),
{
    match o {
        Some(f) => f.hour(),
        None => None,
    }
}

/// The minute of an optional fragment, when present.
fn opt_minute(o: &Option<DateTimeFragment>) -> (r: Option<u32>)
    ensures
        r == spec_opt_minute(*o),
{
    match o {
        Some(f) => f.minute(),
        None => None,
    }
}

/// The second of an optional fragment, when present.
fn opt_second(o: &Option<DateTimeFragment>) -> (r: Option<u32>)
    ensures
        r == spec_opt_second(*o),
{
    match o {
        Some(f) => f.second(),
        None => None,
    }
}

/// Combine a relative and a base fragment into one effective set of field
/// values, the relative side taking priority per field and `MonthOrDay`
/// values taking their meaning from the other side's shape.
pub fn merged_fields(relative: &Option<DateTimeFragment>, base: &Option<DateTimeFragment>) -> (r:
    MergedFields)
    ensures
        r == spec_merge(*relative, *base),
{
    let year = match first_of(opt_year(relative), opt_year(base)) {
        Some(y) => y,
        None => {
            return MergedFields::Empty;
        },
    };
    let month = match first_of(
        month_contribution(relative, base),
        month_contribution(base, relative),
    ) {
        Some(m) => m,
        None => {
            return MergedFields::Year { year };
        },
    };
    let day = match first_of(
        day_contribution(relative, base),
        day_contribution(base, relative),
    ) {
        Some(d) => d,
        None => {
            return MergedFields::Month { year, month };
        },
    };
    let hour = match first_of(opt_hour(relative), opt_hour(base)) {
        Some(h) => h,
        None => {
            return MergedFields::Day { year, month, day };
        },
    };
    let minute = match first_of(opt_minute(relative), opt_minute(base)) {
        Some(m) => m,
        None => {
            return MergedFields::Hour { year, month, day, hour };
        },
    };
    let second = match first_of(opt_second(relative), opt_second(base)) {
        Some(s) => s,
        None => {
            return MergedFields::Minute { year, month, day, hour, minute };
        },
    };
    MergedFields::Second { year, month, day, hour, minute, second }
}

} // verus!
