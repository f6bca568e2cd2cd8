//! The fragment grammar: ordered alternatives over an arbitrarily-truncated
//! date/time literal.
//!
//! Each parsing function takes the input bytes and a start position and
//! returns the parsed value with the position of the first unconsumed byte,
//! or `None` when the head of the remaining input cannot satisfy the rule.
//! The alternatives of [`date_time_fragment`] are tried in a fixed precedence
//! order, first match wins. No field value is range-checked against calendar
//! limits here: a month of `13` is a perfectly good two-digit value, and
//! calendar validity is enforced only when an instant is built during
//! resolution.

use vstd::prelude::*;

use crate::fragment::DateTimeFragment;
use crate::fragment::DayRest;
use crate::fragment::HourRest;
use crate::fragment::MinuteRest;
use crate::fragment::MonthRest;
use crate::fragment::YearRest;

verus! {

/// Whether `b` is an ASCII decimal digit.
pub open spec fn spec_is_digit(b: u8) -> bool {
    48 <= b <= 57
}

/// Whether an executable step result equals its specification-level
/// counterpart: same success, same value, same next position.
pub open spec fn spec_step_eq<T>(r: Option<(T, usize)>, s: Option<(T, int)>) -> bool {
    match (r, s) {
        (Option::None, Option::None) => true,
        (Option::Some((rv, ri)), Option::Some((sv, si))) => rv == sv && ri as int == si,
        _ => false,
    }
}

/// A single expected byte at position `i`.
pub open spec fn spec_byte(s: Seq<u8>, i: int, b: u8) -> Option<int> {
    if 0 <= i < s.len() && s[i] == b {
        Some(i + 1)
    } else {
        None
    }
}

/// Two ASCII digits at position `i`, read as a number.
pub open spec fn spec_two_digits(s: Seq<u8>, i: int) -> Option<(u32, int)> {
    if 0 <= i && i + 2 <= s.len() && spec_is_digit(s[i]) && spec_is_digit(s[i + 1]) {
        Some(((((s[i] - 48) * 10 + (s[i + 1] - 48))) as u32, i + 2))
    } else {
        None
    }
}

/// Four ASCII digits at position `i`, read as a number.
pub open spec fn spec_four_digits(s: Seq<u8>, i: int) -> Option<(i32, int)> {
    if 0 <= i && i + 4 <= s.len() && spec_is_digit(s[i]) && spec_is_digit(s[i + 1]) && spec_is_digit(
        s[i + 2],
    ) && spec_is_digit(s[i + 3]) {
        Some(
            (
                (((s[i] - 48) * 1000 + (s[i + 1] - 48) * 100 + (s[i + 2] - 48) * 10 + (s[i + 3]
                    - 48))) as i32,
                i + 4,
            ),
        )
    } else {
        None
    }
}

/// A minute, optionally extended by `:` and a second; a trailing `:` with no
/// second after it is consumed and contributes nothing.
pub open spec fn spec_minute_rest(s: Seq<u8>, i: int) -> Option<(MinuteRest, int)> {
    match spec_two_digits(s, i) {
        None => None,
        Some((minute, j)) => match spec_byte(s, j, 58) {
            None => Some((MinuteRest { minute, rest: None }, j)),
            Some(k) => match spec_two_digits(s, k) {
                None => Some((MinuteRest { minute, rest: None }, k)),
                Some((second, l)) => Some((MinuteRest { minute, rest: Some(second) }, l)),
            },
        },
    }
}

/// The time separator `T`, optionally followed by an hour and, after `:`, a
/// minute and second; a bare `T` is consumed and yields no hour at all.
pub open spec fn spec_hour_rest(s: Seq<u8>, i: int) -> Option<(Option<HourRest>, int)> {
    match spec_byte(s, i, 84) {
        None => None,
        Some(j) => match spec_two_digits(s, j) {
            None => Some((None, j)),
            Some((hour, k)) => match spec_byte(s, k, 58) {
                None => Some((Some(HourRest { hour, rest: None }), k)),
                Some(l) => match spec_minute_rest(s, l) {
                    None => Some((Some(HourRest { hour, rest: None }), l)),
                    Some((mr, m)) => Some((Some(HourRest { hour, rest: Some(mr) }), m)),
                },
            },
        },
    }
}

/// A day, optionally extended by a time part.
pub open spec fn spec_day_rest(s: Seq<u8>, i: int) -> Option<(DayRest, int)> {
    match spec_two_digits(s, i) {
        None => None,
        Some((day, j)) => match spec_hour_rest(s, j) {
            None => Some((DayRest { day, rest: None }, j)),
            Some((hr, k)) => Some((DayRest { day, rest: hr }, k)),
        },
    }
}

/// A month, optionally extended by `-` and a day; the next byte must not be
/// the time separator, which distinguishes a month from a day.
pub open spec fn spec_month_rest(s: Seq<u8>, i: int) -> Option<(MonthRest, int)> {
    match spec_two_digits(s, i) {
        None => None,
        Some((month, j)) => {
            let (rest, k) = match spec_byte(s, j, 45) {
                None => (None::<DayRest>, j),
                Some(j1) => match spec_day_rest(s, j1) {
                    None => (None::<DayRest>, j1),
                    Some((dr, j2)) => (Some(dr), j2),
                },
            };
            if 0 <= k < s.len() && s[k] == 84 {
                None
            } else {
                Some((MonthRest { month, rest }, k))
            }
        },
    }
}

/// A four-digit year, optionally extended by `-` and a month chain.
pub open spec fn spec_year_rest(s: Seq<u8>, i: int) -> Option<(YearRest, int)> {
    match spec_four_digits(s, i) {
        None => None,
        Some((year, j)) => match spec_byte(s, j, 45) {
            None => Some((YearRest { year, rest: None }, j)),
            Some(j1) => match spec_month_rest(s, j1) {
                None => Some((YearRest { year, rest: None }, j1)),
                Some((mr, j2)) => Some((YearRest { year, rest: Some(mr) }, j2)),
            },
        },
    }
}

/// A bare two-digit number standing alone, before the next `;` separator or
/// the end of the input: a month or a day, meaning undetermined without
/// context.
pub open spec fn spec_month_or_day(s: Seq<u8>, i: int) -> Option<(u32, int)> {
    match spec_two_digits(s, i) {
        None => None,
        Some((v, j)) => if j == s.len() || s[j] == 59 {
            Some((v, j))
        } else {
            None
        },
    }
}

/// One fragment, by the fixed precedence order of the grammar: a year chain,
/// a bare two-digit number standing alone, a month chain, a day chain, a
/// time part.
pub open spec fn spec_date_time_fragment(s: Seq<u8>, i: int) -> Option<(DateTimeFragment, int)> {
    match spec_year_rest(s, i) {
        Some((y, j)) => Some((DateTimeFragment::YearRest(y), j)),
        None => match spec_month_or_day(s, i) {
            Some((v, j)) => Some((DateTimeFragment::MonthOrDay(v), j)),
            None => match spec_month_rest(s, i) {
                Some((m, j)) => Some((DateTimeFragment::MonthRest(m), j)),
                None => match spec_day_rest(s, i) {
                    Some((d, j)) => Some((DateTimeFragment::DayRest(d), j)),
                    None => match spec_hour_rest(s, i) {
                        Some((h, j)) => Some((DateTimeFragment::HourRest(h), j)),
                        None => None,
                    },
                },
            },
        },
    }
}

/// The hyphen separating date fields.
pub fn hyphen(s: &[u8], i: usize) -> (r: Option<usize>)
    ensures
        r matches Some(j) ==> spec_byte(s@, i as int, 45) == Some(j as int),
        r is None ==> spec_byte(s@, i as int, 45) is None,
{
    if i < s.len() && s[i] == 45 {
        Some(i + 1)
    } else {
        None
    }
}

/// The colon separating time fields.
pub fn colon(s: &[u8], i: usize) -> (r: Option<usize>)
    ensures
        r matches Some(j) ==> spec_byte(s@, i as int, 58) == Some(j as int),
        r is None ==> spec_byte(s@, i as int, 58) is None,
{
    if i < s.len() && s[i] == 58 {
        Some(i + 1)
    } else {
        None
    }
}

/// The capital `T` separating the date part from the time part.
pub fn cap_t(s: &[u8], i: usize) -> (r: Option<usize>)
    ensures
        r matches Some(j) ==> spec_byte(s@, i as int, 84) == Some(j as int),
        r is None ==> spec_byte(s@, i as int, 84) is None,
{
    if i < s.len() && s[i] == 84 {
        Some(i + 1)
    } else {
        None
    }
}

/// Two ASCII digits read as a number.
pub fn two_digits(s: &[u8], i: usize) -> (r: Option<(u32, usize)>)
    ensures
        spec_step_eq(r, spec_two_digits(s@, i as int)),
{
    if i < s.len() && s.len() - i >= 2 {
        let d0 = s[i];
        let d1 = s[i + 1];
        if 48 <= d0 && d0 <= 57 && 48 <= d1 && d1 <= 57 {
            let v = ((d0 - 48) as u32) * 10 + ((d1 - 48) as u32);
            Some((v, i + 2))
        } else {
            None
        }
    } else {
        None
    }
}

/// Four ASCII digits read as a number.
pub fn four_digits(s: &[u8], i: usize) -> (r: Option<(i32, usize)>)
    ensures
        spec_step_eq(r, spec_four_digits(s@, i as int)),
{
    if i < s.len() && s.len() - i >= 4 {
        let d0 = s[i];
        let d1 = s[i + 1];
        let d2 = s[i + 2];
        let d3 = s[i + 3];
        if 48 <= d0 && d0 <= 57 && 48 <= d1 && d1 <= 57 && 48 <= d2 && d2 <= 57 && 48 <= d3 && d3
            <= 57 {
            let v = ((d0 - 48) as u32) * 1000 + ((d1 - 48) as u32) * 100 + ((d2 - 48) as u32) * 10
                + ((d3 - 48) as u32);
            Some((v as i32, i + 4))
        } else {
            None
        }
    } else {
        None
    }
}

/// A minute, optionally extended by `:` and a second.
pub fn minute_rest(s: &[u8], i: usize) -> (r: Option<(MinuteRest, usize)>)
    ensures
        spec_step_eq(r, spec_minute_rest(s@, i as int)),
{
    let (minute, j) = match two_digits(s, i) {
        Some(p) => p,
        None => {
            return None;
        },
    };
    match colon(s, j) {
        None => Some((MinuteRest { minute, rest: None }, j)),
        Some(k) => match two_digits(s, k) {
            None => Some((MinuteRest { minute, rest: None }, k)),
            Some((second, l)) => Some((MinuteRest { minute, rest: Some(second) }, l)),
        },
    }
}

/// The time separator, optionally followed by an hour, minute and second.
pub fn hour_rest(s: &[u8], i: usize) -> (r: Option<(Option<HourRest>, usize)>)
    ensures
        spec_step_eq(r, spec_hour_rest(s@, i as int)),
{
    let j = match cap_t(s, i) {
        Some(j) => j,
        None => {
            return None;
        },
    };
    match two_digits(s, j) {
        None => Some((None, j)),
        Some((hour, k)) => match colon(s, k) {
            None => Some((Some(HourRest { hour, rest: None }), k)),
            Some(l) => match minute_rest(s, l) {
                None => Some((Some(HourRest { hour, rest: None }), l)),
                Some((mr, m)) => Some((Some(HourRest { hour, rest: Some(mr) }), m)),
            },
        },
    }
}

/// A day, optionally extended by a time part.
pub fn day_rest(s: &[u8], i: usize) -> (r: Option<(DayRest, usize)>)
    ensures
        spec_step_eq(r, spec_day_rest(s@, i as int)),
{
    let (day, j) = match two_digits(s, i) {
        Some(p) => p,
        None => {
            return None;
        },
    };
    match hour_rest(s, j) {
        None => Some((DayRest { day, rest: None }, j)),
        Some((hr, k)) => Some((DayRest { day, rest: hr }, k)),
    }
}

/// A month, optionally extended by `-` and a day chain; fails when the next
/// byte is the time separator.
pub fn month_rest(s: &[u8], i: usize) -> (r: Option<(MonthRest, usize)>)
    ensures
        spec_step_eq(r, spec_month_rest(s@, i as int)),
{
    let (month, j) = match two_digits(s, i) {
        Some(p) => p,
        None => {
            return None;
        },
    };
    let (rest, k) = match hyphen(s, j) {
        None => (None, j),
        Some(j1) => match day_rest(s, j1) {
            None => (None, j1),
            Some((dr, j2)) => (Some(dr), j2),
        },
    };
    if k < s.len() && s[k] == 84 {
        None
    } else {
        Some((MonthRest { month, rest }, k))
    }
}

/// A four-digit year, optionally extended by `-` and a month chain.
pub fn year_rest(s: &[u8], i: usize) -> (r: Option<(YearRest, usize)>)
    ensures
        spec_step_eq(r, spec_year_rest(s@, i as int)),
{
    let (year, j) = match four_digits(s, i) {
        Some(p) => p,
        None => {
            return None;
        },
    };
    match hyphen(s, j) {
        None => Some((YearRest { year, rest: None }, j)),
        Some(j1) => match month_rest(s, j1) {
            None => Some((YearRest { year, rest: None }, j1)),
            Some((mr, j2)) => Some((YearRest { year, rest: Some(mr) }, j2)),
        },
    }
}

/// A bare two-digit number standing alone, before the next `;` separator or
/// the end of the input.
pub fn month_or_day(s: &[u8], i: usize) -> (r: Option<(u32, usize)>)
    ensures
        spec_step_eq(r, spec_month_or_day(s@, i as int)),
{
    match two_digits(s, i) {
        None => None,
        Some((v, j)) => if j == s.len() || s[j] == 59 {
            Some((v, j))
        } else {
            None
        },
    }
}

/// One fragment, by the fixed precedence order of the grammar.
pub fn date_time_fragment(s: &[u8], i: usize) -> (r: Option<(DateTimeFragment, usize)>)
    ensures
        spec_step_eq(r, spec_date_time_fragment(s@, i as int)),
{
    if let Some((y, j)) = year_rest(s, i) {
        return Some((DateTimeFragment::YearRest(y), j));
    }
    if let Some((v, j)) = month_or_day(s, i) {
        return Some((DateTimeFragment::MonthOrDay(v), j));
    }
    if let Some((m, j)) = month_rest(s, i) {
        return Some((DateTimeFragment::MonthRest(m), j));
    }
    if let Some((d, j)) = day_rest(s, i) {
        return Some((DateTimeFragment::DayRest(d), j));
    }
    if let Some((h, j)) = hour_rest(s, i) {
        return Some((DateTimeFragment::HourRest(h), j));
    }
    None
}

/// A successful parse at a well-formed position consumes at least one byte
/// and stays within the input.
pub proof fn lemma_fragment_step_bounds(s: Seq<u8>, i: int)
    requires
        0 <= i,
    ensures
        spec_date_time_fragment(s, i) matches Some((_, j)) ==> i < j <= s.len(),
{
}

} // verus!
