//! The fragment value tree: a parsed, partial date/time literal retaining
//! only the precision actually present in the text.
//!
//! A fragment never carries a field without also carrying every coarser field
//! it logically extends (minute present implies hour present, and so on); the
//! chain of `rest` options enforces that structurally. The single rootless
//! case is [`DateTimeFragment::MonthOrDay`]: a bare two-digit number whose
//! meaning (month or day) is undetermined without context.

use vstd::prelude::*;

verus! {

/// A minute, optionally extended by a second.
#[derive(Clone, Copy, Debug, PartialEq, Eq, Structural)]
pub struct MinuteRest {
    pub minute: u32,
    pub rest: Option<u32>,
}

impl MinuteRest {
    /// The second, when present.
    pub open spec fn spec_second(self) -> Option<u32> {
        self.rest
    }

    pub fn from_m(minute: u32) -> (r: Self)
        ensures
            r == (MinuteRest { minute, rest: None }),
    {
        Self { minute, rest: None }
    }

    pub fn from_ms(minute: u32, second: u32) -> (r: Self)
        ensures
            r == (MinuteRest { minute, rest: Some(second) }),
    {
        Self { minute, rest: Some(second) }
    }

    pub fn minute(&self) -> (r: u32)
        ensures
            r == self.minute,
    {
        self.minute
    }

    pub fn second(&self) -> (r: Option<u32>)
        ensures
            r == self.spec_second(),
    {
        self.rest
    }
}

/// An hour, optionally extended by a minute and a second.
#[derive(Clone, Copy, Debug, PartialEq, Eq, Structural)]
pub struct HourRest {
    pub hour: u32,
    pub rest: Option<MinuteRest>,
}

impl HourRest {
    /// The minute, when present.
    pub open spec fn spec_minute(self) -> Option<u32> {
        match self.rest {
            Some(m) => Some(m.minute),
            None => None,
        }
    }

    /// The second, when present.
    pub open spec fn spec_second(self) -> Option<u32> {
        match self.rest {
            Some(m) => m.spec_second(),
            None => None,
        }
    }

    pub fn from_h(hour: u32) -> (r: Self)
        ensures
            r == (HourRest { hour, rest: None }),
    {
        Self { hour, rest: None }
    }

    pub fn from_hm(hour: u32, minute: u32) -> (r: Self)
        ensures
            r == (HourRest { hour, rest: Some(MinuteRest { minute, rest: None }) }),
    {
        Self { hour, rest: Some(MinuteRest::from_m(minute)) }
    }

    pub fn from_hms(hour: u32, minute: u32, second: u32) -> (r: Self)
        ensures
            r == (HourRest { hour, rest: Some(MinuteRest { minute, rest: Some(second) }) }),
    {
        Self { hour, rest: Some(MinuteRest::from_ms(minute, second)) }
    }

    pub fn hour(&self) -> (r: u32)
        ensures
            r == self.hour,
    {
        self.hour
    }

    pub fn minute(&self) -> (r: Option<u32>)
        ensures
            r == self.spec_minute(),
    {
        match &self.rest {
            Some(m) => Some(m.minute),
            None => None,
        }
    }

    pub fn second(&self) -> (r: Option<u32>)
        ensures
            r == self.spec_second(),
    {
        match &self.rest {
            Some(m) => m.second(),
            None => None,
        }
    }
}

/// A day, optionally extended by a time.
#[derive(Clone, Copy, Debug, PartialEq, Eq, Structural)]
pub struct DayRest {
    pub day: u32,
    pub rest: Option<HourRest>,
}

impl DayRest {
    /// The hour, when present.
    pub open spec fn spec_hour(self) -> Option<u32> {
        match self.rest {
            Some(h) => Some(h.hour),
            None => None,
        }
    }

    /// The minute, when present.
    pub open spec fn spec_minute(self) -> Option<u32> {
        match self.rest {
            Some(h) => h.spec_minute(),
            None => None,
        }
    }

    /// The second, when present.
    pub open spec fn spec_second(self) -> Option<u32> {
        match self.rest {
            Some(h) => h.spec_second(),
            None => None,
        }
    }

    pub fn from_d(day: u32) -> (r: Self)
        ensures
            r == (DayRest { day, rest: None }),
    {
        Self { day, rest: None }
    }

    pub fn from_d_h(day: u32, hour: u32) -> (r: Self)
        ensures
            r == (DayRest { day, rest: Some(HourRest { hour, rest: None }) }),
    {
        Self { day, rest: Some(HourRest::from_h(hour)) }
    }

    pub fn from_d_hm(day: u32, hour: u32, minute: u32) -> (r: Self)
        ensures
            r.day == day,
            r.rest == Some(HourRest { hour, rest: Some(MinuteRest { minute, rest: None }) }),
    {
        Self { day, rest: Some(HourRest::from_hm(hour, minute)) }
    }

    pub fn from_d_hms(day: u32, hour: u32, minute: u32, second: u32) -> (r: Self)
        ensures
            r.day == day,
            r.rest == Some(
                HourRest { hour, rest: Some(MinuteRest { minute, rest: Some(second) }) },
            ),
    {
        Self { day, rest: Some(HourRest::from_hms(hour, minute, second)) }
    }

    pub fn day(&self) -> (r: u32)
        ensures
            r == self.day,
    {
        self.day
    }

    pub fn hour(&self) -> (r: Option<u32>)
        ensures
            r == self.spec_hour(),
    {
        match &self.rest {
            Some(h) => Some(h.hour),
            None => None,
        }
    }

    pub fn minute(&self) -> (r: Option<u32>)
        ensures
            r == self.spec_minute(),
    {
        match &self.rest {
            Some(h) => h.minute(),
            None => None,
        }
    }

    pub fn second(&self) -> (r: Option<u32>)
        ensures
            r == self.spec_second(),
    {
        match &self.rest {
            Some(h) => h.second(),
            None => None,
        }
    }
}

/// A month, optionally extended by a day and a time. Carries no year: on its
/// own it can never resolve to an absolute instant.
#[derive(Clone, Copy, Debug, PartialEq, Eq, Structural)]
pub struct MonthRest {
    pub month: u32,
    pub rest: Option<DayRest>,
}

impl MonthRest {
    /// The day, when present.
    pub open spec fn spec_day(self) -> Option<u32> {
        match self.rest {
            Some(d) => Some(d.day),
            None => None,
        }
    }

    /// The hour, when present.
    pub open spec fn spec_hour(self) -> Option<u32> {
        match self.rest {
            Some(d) => d.spec_hour(),
            None => None,
        }
    }

    /// The minute, when present.
    pub open spec fn spec_minute(self) -> Option<u32> {
        match self.rest {
            Some(d) => d.spec_minute(),
            None => None,
        }
    }

    /// The second, when present.
    pub open spec fn spec_second(self) -> Option<u32> {
        match self.rest {
            Some(d) => d.spec_second(),
            None => None,
        }
    }

    pub fn from_m(month: u32) -> (r: Self)
        ensures
            r == (MonthRest { month, rest: None }),
    {
        Self { month, rest: None }
    }

    pub fn from_md(month: u32, day: u32) -> (r: Self)
        ensures
            r == (MonthRest { month, rest: Some(DayRest { day, rest: None }) }),
    {
        Self { month, rest: Some(DayRest::from_d(day)) }
    }

    pub fn from_md_h(month: u32, day: u32, hour: u32) -> (r: Self)
        ensures
            r.month == month,
            r.rest == Some(DayRest { day, rest: Some(HourRest { hour, rest: None }) }),
    {
        Self { month, rest: Some(DayRest::from_d_h(day, hour)) }
    }

    pub fn from_md_hm(month: u32, day: u32, hour: u32, minute: u32) -> (r: Self)
        ensures
            r.month == month,
            r.rest matches Some(d) && d.day == day && d.rest == Some(
                HourRest { hour, rest: Some(MinuteRest { minute, rest: None }) },
            ),
    {
        Self { month, rest: Some(DayRest::from_d_hm(day, hour, minute)) }
    }

    pub fn from_md_hms(month: u32, day: u32, hour: u32, minute: u32, second: u32) -> (r: Self)
        ensures
            r.month == month,
            r.rest matches Some(d) && d.day == day && d.rest == Some(
                HourRest { hour, rest: Some(MinuteRest { minute, rest: Some(second) }) },
            ),
    {
        Self { month, rest: Some(DayRest::from_d_hms(day, hour, minute, second)) }
    }

    pub fn month(&self) -> (r: u32)
        ensures
            r == self.month,
    {
        self.month
    }

    pub fn day(&self) -> (r: Option<u32>)
        ensures
            r == self.spec_day(),
    {
        match &self.rest {
            Some(d) => Some(d.day),
            None => None,
        }
    }

    pub fn hour(&self) -> (r: Option<u32>)
        ensures
            r == self.spec_hour(),
    {
        match &self.rest {
            Some(d) => d.hour(),
            None => None,
        }
    }

    pub fn minute(&self) -> (r: Option<u32>)
        ensures
            r == self.spec_minute(),
    {
        match &self.rest {
            Some(d) => d.minute(),
            None => None,
        }
    }

    pub fn second(&self) -> (r: Option<u32>)
        ensures
            r == self.spec_second(),
    {
        match &self.rest {
            Some(d) => d.second(),
            None => None,
        }
    }
}

/// A year, optionally extended by a month, a day and a time: the only anchored
/// fragment shape, and the only one that can resolve to an absolute instant.
#[derive(Clone, Copy, Debug, PartialEq, Eq, Structural)]
pub struct YearRest {
    pub year: i32,
    pub rest: Option<MonthRest>,
}

impl YearRest {
    /// The month, when present.
    pub open spec fn spec_month(self) -> Option<u32> {
        match self.rest {
            Some(m) => Some(m.month),
            None => None,
        }
    }

    /// The day, when present.
    pub open spec fn spec_day(self) -> Option<u32> {
        match self.rest {
            Some(m) => m.spec_day(),
            None => None,
        }
    }

    /// The hour, when present.
    pub open spec fn spec_hour(self) -> Option<u32> {
        match self.rest {
            Some(m) => m.spec_hour(),
            None => None,
        }
    }

    /// The minute, when present.
    pub open spec fn spec_minute(self) -> Option<u32> {
        match self.rest {
            Some(m) => m.spec_minute(),
            None => None,
        }
    }

    /// The second, when present.
    pub open spec fn spec_second(self) -> Option<u32> {
        match self.rest {
            Some(m) => m.spec_second(),
            None => None,
        }
    }

    pub fn from_y(year: i32) -> (r: Self)
        ensures
            r == (YearRest { year, rest: None }),
    {
        Self { year, rest: None }
    }

    pub fn from_ym(year: i32, month: u32) -> (r: Self)
        ensures
            r == (YearRest { year, rest: Some(MonthRest { month, rest: None }) }),
    {
        Self { year, rest: Some(MonthRest::from_m(month)) }
    }

    pub fn from_ymd(year: i32, month: u32, day: u32) -> (r: Self)
        ensures
            r.year == year,
            r.rest == Some(MonthRest { month, rest: Some(DayRest { day, rest: None }) }),
    {
        Self { year, rest: Some(MonthRest::from_md(month, day)) }
    }

    pub fn from_ymd_h(year: i32, month: u32, day: u32, hour: u32) -> (r: Self)
        ensures
            r.year == year,
            r.rest matches Some(m) && m.month == month && m.rest == Some(
                DayRest { day, rest: Some(HourRest { hour, rest: None }) },
            ),
    {
        Self { year, rest: Some(MonthRest::from_md_h(month, day, hour)) }
    }

    pub fn from_ymd_hm(year: i32, month: u32, day: u32, hour: u32, minute: u32) -> (r: Self)
        ensures
            r.year == year,
            r.rest matches Some(m) && m.month == month && (m.rest matches Some(d) && d.day == day
                && d.rest == Some(
                HourRest { hour, rest: Some(MinuteRest { minute, rest: None }) },
            )),
    {
        Self { year, rest: Some(MonthRest::from_md_hm(month, day, hour, minute)) }
    }

    pub fn from_ymd_hms(
        year: i32,
        month: u32,
        day: u32,
        hour: u32,
        minute: u32,
        second: u32,
    ) -> (r: Self)
        ensures
            r.year == year,
            r.rest matches Some(m) && m.month == month && (m.rest matches Some(d) && d.day == day
                && d.rest == Some(
                HourRest { hour, rest: Some(MinuteRest { minute, rest: Some(second) }) },
            )),
    {
        Self { year, rest: Some(MonthRest::from_md_hms(month, day, hour, minute, second)) }
    }

    pub fn year(&self) -> (r: i32)
        ensures
            r == self.year,
    {
        self.year
    }

    pub fn month(&self) -> (r: Option<u32>)
        ensures
            r == self.spec_month(),
    {
        match &self.rest {
            Some(m) => Some(m.month),
            None => None,
        }
    }

    pub fn day(&self) -> (r: Option<u32>)
        ensures
            r == self.spec_day(),
    {
        match &self.rest {
            Some(m) => m.day(),
            None => None,
        }
    }

    pub fn hour(&self) -> (r: Option<u32>)
        ensures
            r == self.spec_hour(),
    {
        match &self.rest {
            Some(m) => m.hour(),
            None => None,
        }
    }

    pub fn minute(&self) -> (r: Option<u32>)
        ensures
            r == self.spec_minute(),
    {
        match &self.rest {
            Some(m) => m.minute(),
            None => None,
        }
    }

    pub fn second(&self) -> (r: Option<u32>)
        ensures
            r == self.spec_second(),
    {
        match &self.rest {
            Some(m) => m.second(),
            None => None,
        }
    }
}

/// A parsed, partial date/time literal at any of its admissible shapes.
#[derive(Clone, Copy, Debug, PartialEq, Eq, Structural)]
pub enum DateTimeFragment {
    /// A literal anchored by a four-digit year.
    YearRest(YearRest),
    /// A bare two-digit number: a month or a day, undetermined without the
    /// context of another fragment's shape.
    MonthOrDay(u32),
    /// A month (with optional day and time) and no year.
    MonthRest(MonthRest),
    /// A day (with optional time) and no date above it.
    DayRest(DayRest),
    /// A literal that began with the time separator; `None` when it specified
    /// nothing beyond the separator itself.
    HourRest(Option<HourRest>),
}

impl DateTimeFragment {
    /// The year, when present: only an anchored literal carries one.
    pub open spec fn spec_year(self) -> Option<i32> {
        match self {
            DateTimeFragment::YearRest(y) => Some(y.year),
            _ => None,
        }
    }

    /// The month, when present. A `MonthOrDay` value is not a month here: its
    /// meaning is decided only at merge time.
    pub open spec fn spec_month(self) -> Option<u32> {
        match self {
            DateTimeFragment::YearRest(y) => y.spec_month(),
            DateTimeFragment::MonthRest(m) => Some(m.month),
            _ => None,
        }
    }

    /// The day, when present.
    pub open spec fn spec_day(self) -> Option<u32> {
        match self {
            DateTimeFragment::YearRest(y) => y.spec_day(),
            DateTimeFragment::MonthRest(m) => m.spec_day(),
            DateTimeFragment::DayRest(d) => Some(d.day),
            _ => None,
        }
    }

    /// The hour, when present.
    pub open spec fn spec_hour(self) -> Option<u32> {
        match self {
            DateTimeFragment::YearRest(y) => y.spec_hour(),
            DateTimeFragment::MonthRest(m) => m.spec_hour(),
            DateTimeFragment::DayRest(d) => d.spec_hour(),
            DateTimeFragment::HourRest(Some(h)) => Some(h.hour),
            _ => None,
        }
    }

    /// The minute, when present.
    pub open spec fn spec_minute(self) -> Option<u32> {
        match self {
            DateTimeFragment::YearRest(y) => y.spec_minute(),
            DateTimeFragment::MonthRest(m) => m.spec_minute(),
            DateTimeFragment::DayRest(d) => d.spec_minute(),
            DateTimeFragment::HourRest(Some(h)) => h.spec_minute(),
            _ => None,
        }
    }

    /// The second, when present.
    pub open spec fn spec_second(self) -> Option<u32> {
        match self {
            DateTimeFragment::YearRest(y) => y.spec_second(),
            DateTimeFragment::MonthRest(m) => m.spec_second(),
            DateTimeFragment::DayRest(d) => d.spec_second(),
            DateTimeFragment::HourRest(Some(h)) => h.spec_second(),
            _ => None,
        }
    }

    pub fn from_y(year: i32) -> (r: Self)
        ensures
            r == DateTimeFragment::YearRest(YearRest { year, rest: None }),
    {
        Self::YearRest(YearRest::from_y(year))
    }

    pub fn from_ym(year: i32, month: u32) -> (r: Self)
        ensures
            r == DateTimeFragment::YearRest(
                YearRest { year, rest: Some(MonthRest { month, rest: None }) },
            ),
    {
        Self::YearRest(YearRest::from_ym(year, month))
    }

    pub fn from_ymd(year: i32, month: u32, day: u32) -> (r: Self)
        ensures
            r matches DateTimeFragment::YearRest(y) && y.year == year && y.rest == Some(
                MonthRest { month, rest: Some(DayRest { day, rest: None }) },
            ),
    {
        Self::YearRest(YearRest::from_ymd(year, month, day))
    }

    pub fn from_ymd_h(year: i32, month: u32, day: u32, hour: u32) -> (r: Self)
        ensures
            r.spec_year() == Some(year),
            r.spec_month() == Some(month),
            r.spec_day() == Some(day),
            r.spec_hour() == Some(hour),
            r.spec_minute() is None,
            r.spec_second() is None,
    {
        Self::YearRest(YearRest::from_ymd_h(year, month, day, hour))
    }

    pub fn from_ymd_hm(year: i32, month: u32, day: u32, hour: u32, minute: u32) -> (r: Self)
        ensures
            r.spec_year() == Some(year),
            r.spec_month() == Some(month),
            r.spec_day() == Some(day),
            r.spec_hour() == Some(hour),
            r.spec_minute() == Some(minute),
            r.spec_second() is None,
    {
        Self::YearRest(YearRest::from_ymd_hm(year, month, day, hour, minute))
    }

    pub fn from_ymd_hms(
        year: i32,
        month: u32,
        day: u32,
        hour: u32,
        minute: u32,
        second: u32,
    ) -> (r: Self)
        ensures
            r.spec_year() == Some(year),
            r.spec_month() == Some(month),
            r.spec_day() == Some(day),
            r.spec_hour() == Some(hour),
            r.spec_minute() == Some(minute),
            r.spec_second() == Some(second),
    {
        Self::YearRest(YearRest::from_ymd_hms(year, month, day, hour, minute, second))
    }

    pub fn from_m_d(month_or_day: u32) -> (r: Self)
        ensures
            r == DateTimeFragment::MonthOrDay(month_or_day),
    {
        Self::MonthOrDay(month_or_day)
    }

    pub fn from_m(month: u32) -> (r: Self)
        ensures
            r == DateTimeFragment::MonthRest(MonthRest { month, rest: None }),
    {
        Self::MonthRest(MonthRest::from_m(month))
    }

    pub fn from_md(month: u32, day: u32) -> (r: Self)
        ensures
            r == DateTimeFragment::MonthRest(
                MonthRest { month, rest: Some(DayRest { day, rest: None }) },
            ),
    {
        Self::MonthRest(MonthRest::from_md(month, day))
    }

    pub fn from_md_h(month: u32, day: u32, hour: u32) -> (r: Self)
        ensures
            r.spec_year() is None,
            r.spec_month() == Some(month),
            r.spec_day() == Some(day),
            r.spec_hour() == Some(hour),
            r.spec_minute() is None,
            r.spec_second() is None,
    {
        Self::MonthRest(MonthRest::from_md_h(month, day, hour))
    }

    pub fn from_md_hm(month: u32, day: u32, hour: u32, minute: u32) -> (r: Self)
        ensures
            r.spec_year() is None,
            r.spec_month() == Some(month),
            r.spec_day() == Some(day),
            r.spec_hour() == Some(hour),
            r.spec_minute() == Some(minute),
            r.spec_second() is None,
    {
        Self::MonthRest(MonthRest::from_md_hm(month, day, hour, minute))
    }

    pub fn from_md_hms(month: u32, day: u32, hour: u32, minute: u32, second: u32) -> (r: Self)
        ensures
            r.spec_year() is None,
            r.spec_month() == Some(month),
            r.spec_day() == Some(day),
            r.spec_hour() == Some(hour),
            r.spec_minute() == Some(minute),
            r.spec_second() == Some(second),
    {
        Self::MonthRest(MonthRest::from_md_hms(month, day, hour, minute, second))
    }

    pub fn from_d(day: u32) -> (r: Self)
        ensures
            r == DateTimeFragment::DayRest(DayRest { day, rest: None }),
    {
        Self::DayRest(DayRest::from_d(day))
    }

    pub fn from_d_h(day: u32, hour: u32) -> (r: Self)
        ensures
            r == DateTimeFragment::DayRest(
                DayRest { day, rest: Some(HourRest { hour, rest: None }) },
            ),
    {
        Self::DayRest(DayRest::from_d_h(day, hour))
    }

    pub fn from_d_hm(day: u32, hour: u32, minute: u32) -> (r: Self)
        ensures
            r.spec_year() is None,
            r.spec_month() is None,
            r.spec_day() == Some(day),
            r.spec_hour() == Some(hour),
            r.spec_minute() == Some(minute),
            r.spec_second() is None,
    {
        Self::DayRest(DayRest::from_d_hm(day, hour, minute))
    }

    pub fn from_d_hms(day: u32, hour: u32, minute: u32, second: u32) -> (r: Self)
        ensures
            r.spec_year() is None,
            r.spec_month() is None,
            r.spec_day() == Some(day),
            r.spec_hour() == Some(hour),
            r.spec_minute() == Some(minute),
            r.spec_second() == Some(second),
    {
        Self::DayRest(DayRest::from_d_hms(day, hour, minute, second))
    }

    pub fn from_h(hour: u32) -> (r: Self)
        ensures
            r == DateTimeFragment::HourRest(Some(HourRest { hour, rest: None })),
    {
        Self::HourRest(Some(HourRest::from_h(hour)))
    }

    pub fn from_hm(hour: u32, minute: u32) -> (r: Self)
        ensures
            r == DateTimeFragment::HourRest(
                Some(HourRest { hour, rest: Some(MinuteRest { minute, rest: None }) }),
            ),
    {
        Self::HourRest(Some(HourRest::from_hm(hour, minute)))
    }

    pub fn from_hms(hour: u32, minute: u32, second: u32) -> (r: Self)
        ensures
            r == DateTimeFragment::HourRest(
                Some(
                    HourRest { hour, rest: Some(MinuteRest { minute, rest: Some(second) }) },
                ),
            ),
    {
        Self::HourRest(Some(HourRest::from_hms(hour, minute, second)))
    }

    pub fn year(&self) -> (r: Option<i32>)
        ensures
            r == self.spec_year(),
    {
        match self {
            DateTimeFragment::YearRest(y) => Some(y.year),
            _ => None,
        }
    }

    pub fn month(&self) -> (r: Option<u32>)
        ensures
            r == self.spec_month(),
    {
        match self {
            DateTimeFragment::YearRest(y) => y.month(),
            DateTimeFragment::MonthRest(m) => Some(m.month),
            _ => None,
        }
    }

    pub fn day(&self) -> (r: Option<u32>)
        ensures
            r == self.spec_day(),
    {
        match self {
            DateTimeFragment::YearRest(y) => y.day(),
            DateTimeFragment::MonthRest(m) => m.day(),
            DateTimeFragment::DayRest(d) => Some(d.day),
            _ => None,
        }
    }

    pub fn hour(&self) -> (r: Option<u32>)
        ensures
            r == self.spec_hour(),
    {
        match self {
            DateTimeFragment::YearRest(y) => y.hour(),
            DateTimeFragment::MonthRest(m) => m.hour(),
            DateTimeFragment::DayRest(d) => d.hour(),
            DateTimeFragment::HourRest(Some(h)) => Some(h.hour),
            DateTimeFragment::HourRest(None) => None,
            DateTimeFragment::MonthOrDay(_) => None,
        }
    }

    pub fn minute(&self) -> (r: Option<u32>)
        ensures
            r == self.spec_minute(),
    {
        match self {
            DateTimeFragment::YearRest(y) => y.minute(),
            DateTimeFragment::MonthRest(m) => m.minute(),
            DateTimeFragment::DayRest(d) => d.minute(),
            DateTimeFragment::HourRest(Some(h)) => h.minute(),
            DateTimeFragment::HourRest(None) => None,
            DateTimeFragment::MonthOrDay(_) => None,
        }
    }

    pub fn second(&self) -> (r: Option<u32>)
        ensures
            r == self.spec_second(),
    {
        match self {
            DateTimeFragment::YearRest(y) => y.second(),
            DateTimeFragment::MonthRest(m) => m.second(),
            DateTimeFragment::DayRest(d) => d.second(),
            DateTimeFragment::HourRest(Some(h)) => h.second(),
            DateTimeFragment::HourRest(None) => None,
            DateTimeFragment::MonthOrDay(_) => None,
        }
    }
}

} // verus!
