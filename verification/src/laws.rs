//! The engine's general laws, stated over the specification functions that
//! the executable functions' contracts use, and proved once for all inputs.

use vstd::prelude::*;

use crate::calendar::spec_last_day_of_month;
use crate::calendar::spec_valid_date;
use crate::calendar::CalendarInstant;
use crate::fragment::DateTimeFragment;
use crate::fragment::DayRest;
use crate::fragment::MonthRest;
use crate::fragment::YearRest;
use crate::link::spec_link;
use crate::link::Link;
use crate::marker::spec_attributes_of;
use crate::merge::spec_merge;
use crate::merge::MergedFields;
use crate::parse::spec_date_time_fragment;
use crate::parse::spec_day_rest;
use crate::parse::spec_four_digits;
use crate::parse::spec_hour_rest;
use crate::parse::spec_month_rest;
use crate::parse::spec_two_digits;
use crate::parse::spec_year_rest;
use crate::resolve::spec_resolve;
use crate::resolve::Role;

verus! {

/// A day-precision specification resolves to midnight of that very day as a
/// range start, and to midnight of the following calendar day as a range
/// end, carrying correctly at month and year ends; a `YYYY-MM-DD` literal
/// merged on its own is exactly such a specification.
pub proof fn lemma_day_range(year: i32, month: u32, day: u32)
    requires
        spec_valid_date(year as int, month as int, day as int),
        year < i32::MAX,
    ensures
        spec_merge(
            Some(
                DateTimeFragment::YearRest(
                    YearRest {
                        year,
                        rest: Some(
                            MonthRest { month, rest: Some(DayRest { day, rest: None }) },
                        ),
                    },
                ),
            ),
            None,
        ) == (MergedFields::Day { year, month, day }),
        spec_resolve(MergedFields::Day { year, month, day }, Role::Start) == Some(
            CalendarInstant { year, month, day, hour: 0, minute: 0, second: 0 },
        ),
        (day as int) < spec_last_day_of_month(year as int, month as int) ==> spec_resolve(
            MergedFields::Day { year, month, day },
            Role::End,
        ) == Some(
            CalendarInstant {
                year,
                month,
                day: (day + 1) as u32,
                hour: 0,
                minute: 0,
                second: 0,
            },
        ),
        (day as int) == spec_last_day_of_month(year as int, month as int) && month < 12
            ==> spec_resolve(MergedFields::Day { year, month, day }, Role::End) == Some(
            CalendarInstant {
                year,
                month: (month + 1) as u32,
                day: 1,
                hour: 0,
                minute: 0,
                second: 0,
            },
        ),
        (day as int) == spec_last_day_of_month(year as int, month as int) && month == 12
            ==> spec_resolve(MergedFields::Day { year, month, day }, Role::End) == Some(
            CalendarInstant {
                year: (year + 1) as i32,
                month: 1,
                day: 1,
                hour: 0,
                minute: 0,
                second: 0,
            },
        ),
{
}

/// A month-precision specification resolves to the first day of that month
/// as a range start, and to the first day of the immediately following month
/// as a range end, carrying into the next year after December.
pub proof fn lemma_month_range(year: i32, month: u32)
    requires
        1 <= month <= 12,
        year < i32::MAX,
    ensures
        spec_resolve(MergedFields::Month { year, month }, Role::Start) == Some(
            CalendarInstant { year, month, day: 1, hour: 0, minute: 0, second: 0 },
        ),
        month < 12 ==> spec_resolve(MergedFields::Month { year, month }, Role::End) == Some(
            CalendarInstant {
                year,
                month: (month + 1) as u32,
                day: 1,
                hour: 0,
                minute: 0,
                second: 0,
            },
        ),
        month == 12 ==> spec_resolve(MergedFields::Month { year, month }, Role::End) == Some(
            CalendarInstant {
                year: (year + 1) as i32,
                month: 1,
                day: 1,
                hour: 0,
                minute: 0,
                second: 0,
            },
        ),
{
}

/// A bare two-digit value merged against a base that supplies only a year is
/// a month: it merges exactly as a bare month literal of that value would,
/// and the result is that year and that month. Against a base that supplies
/// a year and a month it is a day: it merges exactly as a bare day literal
/// of that value would, overriding the base's own day if any.
pub proof fn lemma_month_or_day_disambiguation(value: u32, base: DateTimeFragment)
    ensures
        base.spec_year() is Some && base.spec_month() is None ==> spec_merge(
            Some(DateTimeFragment::MonthOrDay(value)),
            Some(base),
        ) == (MergedFields::Month { year: base.spec_year()->0, month: value }),
        base.spec_year() is Some && base.spec_month() is Some ==> spec_merge(
            Some(DateTimeFragment::MonthOrDay(value)),
            Some(base),
        ) == spec_merge(
            Some(DateTimeFragment::DayRest(DayRest { day: value, rest: None })),
            Some(base),
        ),
        base.spec_year() is Some && base.spec_month() is Some ==> spec_merge(
            Some(DateTimeFragment::MonthOrDay(value)),
            Some(base),
        ).spec_day_field() == Some(value),
{
}

/// A fully specified second-precision value resolves to the same instant as
/// a range start and as a range end: there is no period to widen.
pub proof fn lemma_second_precision_point(
    year: i32,
    month: u32,
    day: u32,
    hour: u32,
    minute: u32,
    second: u32,
)
    ensures
        spec_resolve(
            MergedFields::Second { year, month, day, hour, minute, second },
            Role::Start,
        ) == spec_resolve(
            MergedFields::Second { year, month, day, hour, minute, second },
            Role::End,
        ),
{
}

/// A fragment with no anchoring year, alone on either side of the merge,
/// resolves to nothing, whatever the role: a bare number or a bare
/// month-day is never guessed into an absolute date.
pub proof fn lemma_no_year_no_instant(fragment: DateTimeFragment, role: Role)
    requires
        fragment.spec_year() is None,
    ensures
        spec_merge(Some(fragment), None) == MergedFields::Empty,
        spec_merge(None, Some(fragment)) == MergedFields::Empty,
        spec_resolve(spec_merge(Some(fragment), None), role) is None,
        spec_resolve(spec_merge(None, Some(fragment)), role) is None,
{
}

/// Merging a lone base is the same as merging that fragment as the literal
/// itself: an attribute with only a base and no per-key override resolves
/// exactly as if the base were the keyed literal.
pub proof fn lemma_base_alone_round_trip(base: DateTimeFragment, role: Role)
    ensures
        spec_merge(None, Some(base)) == spec_merge(Some(base), None),
        spec_resolve(spec_merge(None, Some(base)), role) == spec_resolve(
            spec_merge(Some(base), None),
            role,
        ),
{
}

/// The same round trip at the marker level: a marker body holding only a
/// base and no per-key fragments resolves its start and due attributes
/// exactly as the base parsed as the keyed literal alone would.
pub proof fn lemma_base_only_marker_attributes(base: DateTimeFragment, done: bool)
    ensures
        spec_attributes_of(
            Link { base: Some(base), start: None, due: None, completed: None },
            done,
        ).start == spec_resolve(spec_merge(Some(base), None), Role::Start),
        spec_attributes_of(
            Link { base: Some(base), start: None, due: None, completed: None },
            done,
        ).due == spec_resolve(spec_merge(Some(base), None), Role::End),
{
}

/// Every instant that resolution produces is calendar-valid: a real month,
/// a real day of that month and year, and a real time of day. The validity
/// gate of the resolver is not bypassed on any path.
pub proof fn lemma_resolution_valid(fields: MergedFields, role: Role)
    ensures
        spec_resolve(fields, role) matches Some(instant) ==> instant.spec_valid(),
{
}

/// The range start never lies after the range end: the two roles bound a
/// (possibly empty) half-open period whenever both resolve.
pub proof fn lemma_start_not_after_end(fields: MergedFields)
    ensures
        spec_resolve(fields, Role::Start) matches Some(start) ==> spec_resolve(
            fields,
            Role::End,
        ) matches Some(end) ==> start.spec_le(end),
{
}

/// The ASCII digit for a value in `0..=9`.
pub open spec fn spec_digit(v: int) -> u8 {
    (48 + v) as u8
}

/// The ten bytes of the literal `YYYY-MM-DD` for the given fields.
pub open spec fn spec_ymd_literal(year: int, month: int, day: int) -> Seq<u8> {
    seq![
        spec_digit(year / 1000 % 10),
        spec_digit(year / 100 % 10),
        spec_digit(year / 10 % 10),
        spec_digit(year % 10),
        45u8,
        spec_digit(month / 10 % 10),
        spec_digit(month % 10),
        45u8,
        spec_digit(day / 10 % 10),
        spec_digit(day % 10),
    ]
}

/// The seven bytes of the literal `YYYY-MM` for the given fields.
pub open spec fn spec_ym_literal(year: int, month: int) -> Seq<u8> {
    seq![
        spec_digit(year / 1000 % 10),
        spec_digit(year / 100 % 10),
        spec_digit(year / 10 % 10),
        spec_digit(year % 10),
        45u8,
        spec_digit(month / 10 % 10),
        spec_digit(month % 10),
    ]
}

/// Every literal matching `YYYY-MM-DD` parses as a whole marker body to
/// exactly the year-month-day fragment of its fields, as the base, with no
/// keyed fragments.
#[verifier::rlimit(50)]
pub proof fn lemma_ymd_literal_parses(year: i32, month: u32, day: u32)
    requires
        0 <= year <= 9999,
        month <= 99,
        day <= 99,
    ensures
        spec_link(spec_ymd_literal(year as int, month as int, day as int)) == Some(
            Link {
                base: Some(
                    DateTimeFragment::YearRest(
                        YearRest {
                            year,
                            rest: Some(
                                MonthRest { month, rest: Some(DayRest { day, rest: None }) },
                            ),
                        },
                    ),
                ),
                start: None,
                due: None,
                completed: None,
            },
        ),
{
    let s = spec_ymd_literal(year as int, month as int, day as int);
    assert(year == (s[0] - 48) * 1000 + (s[1] - 48) * 100 + (s[2] - 48) * 10 + (s[3] - 48));
    assert(month == (s[5] - 48) * 10 + (s[6] - 48));
    assert(day == (s[8] - 48) * 10 + (s[9] - 48));
    assert(spec_four_digits(s, 0) == Some((year, 4int)));
    assert(spec_two_digits(s, 5) == Some((month, 7int)));
    assert(spec_two_digits(s, 8) == Some((day, 10int)));
    assert(spec_hour_rest(s, 10) is None);
    assert(spec_day_rest(s, 8) == Some((DayRest { day, rest: None }, 10int)));
    assert(spec_month_rest(s, 5) == Some(
        (MonthRest { month, rest: Some(DayRest { day, rest: None }) }, 10int),
    ));
    let yr = YearRest {
        year,
        rest: Some(MonthRest { month, rest: Some(DayRest { day, rest: None }) }),
    };
    assert(spec_year_rest(s, 0) == Some((yr, 10int)));
    assert(spec_date_time_fragment(s, 0) == Some((DateTimeFragment::YearRest(yr), 10int)));
}

/// Every literal matching `YYYY-MM` parses as a whole marker body to exactly
/// the year-month fragment of its fields, as the base, with no keyed
/// fragments.
pub proof fn lemma_ym_literal_parses(year: i32, month: u32)
    requires
        0 <= year <= 9999,
        month <= 99,
    ensures
        spec_link(spec_ym_literal(year as int, month as int)) == Some(
            Link {
                base: Some(
                    DateTimeFragment::YearRest(
                        YearRest { year, rest: Some(MonthRest { month, rest: None }) },
                    ),
                ),
                start: None,
                due: None,
                completed: None,
            },
        ),
{
    let s = spec_ym_literal(year as int, month as int);
    assert(year == (s[0] - 48) * 1000 + (s[1] - 48) * 100 + (s[2] - 48) * 10 + (s[3] - 48));
    assert(month == (s[5] - 48) * 10 + (s[6] - 48));
}

/// The month-precision law at the literal level: a marker holding exactly a
/// `YYYY-MM` literal of a calendar month resolves its due to the range end
/// of that month, which the first day of the immediately following month is
/// (the December carry is that of [`lemma_month_range`]).
pub proof fn lemma_ym_marker_attributes(year: i32, month: u32, done: bool)
    requires
        0 <= year <= 9998,
        1 <= month <= 12,
    ensures
        spec_link(spec_ym_literal(year as int, month as int)) matches Some(lnk)
            && spec_attributes_of(lnk, done).start == Some(
            CalendarInstant { year, month, day: 1, hour: 0, minute: 0, second: 0 },
        ) && spec_attributes_of(lnk, done).due == spec_resolve(
            MergedFields::Month { year, month },
            Role::End,
        ) && spec_attributes_of(lnk, done).due is Some,
{
    lemma_ym_literal_parses(year, month);
    lemma_month_range(year, month);
}

/// The day-precision law at the literal level: a marker holding exactly a
/// `YYYY-MM-DD` literal of a calendar-valid date resolves its start to
/// midnight of that date, and its due to the range end of that day, which
/// midnight of the following calendar day is (the carry cases are those of
/// [`lemma_day_range`]).
pub proof fn lemma_ymd_marker_attributes(year: i32, month: u32, day: u32, done: bool)
    requires
        0 <= year <= 9998,
        spec_valid_date(year as int, month as int, day as int),
    ensures
        spec_link(spec_ymd_literal(year as int, month as int, day as int)) matches Some(lnk)
            && spec_attributes_of(lnk, done).start == Some(
            CalendarInstant { year, month, day, hour: 0, minute: 0, second: 0 },
        ) && spec_attributes_of(lnk, done).due == spec_resolve(
            MergedFields::Day { year, month, day },
            Role::End,
        ) && spec_attributes_of(lnk, done).due is Some,
{
    lemma_ymd_literal_parses(year, month, day);
    lemma_day_range(year, month, day);
}

} // verus!
