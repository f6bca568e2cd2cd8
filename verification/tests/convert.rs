//! Merging and resolving fragments on concrete values: each case fixes a
//! relative and a base fragment and gives the exact instant for both roles.

use agemda::fragment_to_datetime;
use agemda::of_second;
use agemda::CalendarInstant;
use agemda::DateTimeFragment;
use agemda::Role;

fn both(
    relative: Option<DateTimeFragment>,
    base: Option<DateTimeFragment>,
    start: Option<CalendarInstant>,
    end: Option<CalendarInstant>,
) {
    assert_eq!(fragment_to_datetime(&relative, &base, Role::Start), start);
    assert_eq!(fragment_to_datetime(&relative, &base, Role::End), end);
}

#[test]
fn both_none() {
    both(None, None, None, None);
}

#[test]
fn relative_year() {
    both(
        Some(DateTimeFragment::from_y(2025)),
        None,
        of_second(2025, 1, 1, 0, 0, 0),
        of_second(2026, 1, 1, 0, 0, 0),
    );
}

#[test]
fn relative_year_month() {
    both(
        Some(DateTimeFragment::from_ym(2025, 2)),
        None,
        of_second(2025, 2, 1, 0, 0, 0),
        of_second(2025, 3, 1, 0, 0, 0),
    );
}

#[test]
fn relative_year_month_carry() {
    both(
        Some(DateTimeFragment::from_ym(2025, 12)),
        None,
        of_second(2025, 12, 1, 0, 0, 0),
        of_second(2026, 1, 1, 0, 0, 0),
    );
}

#[test]
fn relative_year_month_day() {
    both(
        Some(DateTimeFragment::from_ymd(2025, 2, 3)),
        None,
        of_second(2025, 2, 3, 0, 0, 0),
        of_second(2025, 2, 4, 0, 0, 0),
    );
}

#[test]
fn relative_year_month_day_carry() {
    both(
        Some(DateTimeFragment::from_ymd(2025, 3, 31)),
        None,
        of_second(2025, 3, 31, 0, 0, 0),
        of_second(2025, 4, 1, 0, 0, 0),
    );
}

#[test]
fn relative_year_month_day_hour() {
    both(
        Some(DateTimeFragment::from_ymd_h(2025, 2, 3, 12)),
        None,
        of_second(2025, 2, 3, 12, 0, 0),
        of_second(2025, 2, 3, 13, 0, 0),
    );
}

#[test]
fn relative_year_month_day_hour_carry() {
    both(
        Some(DateTimeFragment::from_ymd_h(2025, 2, 3, 23)),
        None,
        of_second(2025, 2, 3, 23, 0, 0),
        of_second(2025, 2, 4, 0, 0, 0),
    );
}

#[test]
fn relative_year_month_day_hour_minute() {
    both(
        Some(DateTimeFragment::from_ymd_hm(2025, 2, 3, 12, 31)),
        None,
        of_second(2025, 2, 3, 12, 31, 0),
        of_second(2025, 2, 3, 12, 32, 0),
    );
}

#[test]
fn relative_year_month_day_hour_minute_carry() {
    both(
        Some(DateTimeFragment::from_ymd_hm(2025, 2, 3, 12, 59)),
        None,
        of_second(2025, 2, 3, 12, 59, 0),
        of_second(2025, 2, 3, 13, 0, 0),
    );
}

#[test]
fn relative_year_month_day_hour_minute_second() {
    both(
        Some(DateTimeFragment::from_ymd_hms(2025, 2, 3, 12, 31, 50)),
        None,
        of_second(2025, 2, 3, 12, 31, 50),
        of_second(2025, 2, 3, 12, 31, 50),
    );
}

#[test]
fn relative_month() {
    both(Some(DateTimeFragment::from_m(2)), None, None, None);
}

#[test]
fn both_relative_year_base_year() {
    both(
        Some(DateTimeFragment::from_y(2025)),
        Some(DateTimeFragment::from_y(2024)),
        of_second(2025, 1, 1, 0, 0, 0),
        of_second(2026, 1, 1, 0, 0, 0),
    );
}

#[test]
fn both_relative_year_base_day() {
    both(
        Some(DateTimeFragment::from_y(2025)),
        Some(DateTimeFragment::from_d(12)),
        of_second(2025, 1, 1, 0, 0, 0),
        of_second(2026, 1, 1, 0, 0, 0),
    );
}

#[test]
fn leap_year_february_end() {
    both(
        Some(DateTimeFragment::from_ym(2024, 2)),
        None,
        of_second(2024, 2, 1, 0, 0, 0),
        of_second(2024, 3, 1, 0, 0, 0),
    );
    both(
        Some(DateTimeFragment::from_ymd(2024, 2, 29)),
        None,
        of_second(2024, 2, 29, 0, 0, 0),
        of_second(2024, 3, 1, 0, 0, 0),
    );
}

#[test]
fn non_leap_february_29_invalid() {
    both(Some(DateTimeFragment::from_ymd(2025, 2, 29)), None, None, None);
    both(Some(DateTimeFragment::from_ymd(1900, 2, 29)), None, None, None);
}

#[test]
fn century_leap_february_29_valid() {
    both(
        Some(DateTimeFragment::from_ymd(2000, 2, 29)),
        None,
        of_second(2000, 2, 29, 0, 0, 0),
        of_second(2000, 3, 1, 0, 0, 0),
    );
}

#[test]
fn month_or_day_with_year_base_is_month() {
    both(
        Some(DateTimeFragment::from_m_d(7)),
        Some(DateTimeFragment::from_y(2025)),
        of_second(2025, 7, 1, 0, 0, 0),
        of_second(2025, 8, 1, 0, 0, 0),
    );
}

#[test]
fn month_or_day_with_year_month_base_is_day() {
    both(
        Some(DateTimeFragment::from_m_d(15)),
        Some(DateTimeFragment::from_ym(2025, 3)),
        of_second(2025, 3, 15, 0, 0, 0),
        of_second(2025, 3, 16, 0, 0, 0),
    );
}

#[test]
fn month_or_day_overrides_base_day() {
    both(
        Some(DateTimeFragment::from_m_d(2)),
        Some(DateTimeFragment::from_ymd(2025, 3, 1)),
        of_second(2025, 3, 2, 0, 0, 0),
        of_second(2025, 3, 3, 0, 0, 0),
    );
}

#[test]
fn month_or_day_both_shapeless() {
    both(
        Some(DateTimeFragment::from_m_d(2)),
        Some(DateTimeFragment::from_m_d(3)),
        None,
        None,
    );
    both(
        Some(DateTimeFragment::from_m_d(2)),
        Some(DateTimeFragment::from_md(3, 4)),
        None,
        None,
    );
}

#[test]
fn base_month_or_day_with_relative_year() {
    both(
        Some(DateTimeFragment::from_y(2025)),
        Some(DateTimeFragment::from_m_d(7)),
        of_second(2025, 7, 1, 0, 0, 0),
        of_second(2025, 8, 1, 0, 0, 0),
    );
}

#[test]
fn base_time_fills_finer_fields() {
    both(
        Some(DateTimeFragment::from_d(2)),
        Some(DateTimeFragment::from_ymd_h(2025, 3, 1, 10)),
        of_second(2025, 3, 2, 10, 0, 0),
        of_second(2025, 3, 2, 11, 0, 0),
    );
}

#[test]
fn invalid_month_resolves_to_nothing() {
    both(Some(DateTimeFragment::from_ym(2025, 13)), None, None, None);
    both(Some(DateTimeFragment::from_ymd(2025, 13, 1)), None, None, None);
}

#[test]
fn invalid_day_resolves_to_nothing() {
    both(Some(DateTimeFragment::from_ymd(2025, 4, 31)), None, None, None);
}

#[test]
fn invalid_time_resolves_to_nothing() {
    both(Some(DateTimeFragment::from_ymd_h(2025, 4, 3, 24)), None, None, None);
    both(
        Some(DateTimeFragment::from_ymd_hms(2025, 4, 3, 10, 60, 0)),
        None,
        None,
        None,
    );
    both(
        Some(DateTimeFragment::from_ymd_hms(2025, 4, 3, 10, 0, 60)),
        None,
        None,
        None,
    );
}

#[test]
fn time_only_fragment_has_no_anchor() {
    both(Some(DateTimeFragment::from_hms(10, 20, 30)), None, None, None);
}

#[test]
fn year_end_of_december_31() {
    both(
        Some(DateTimeFragment::from_ymd(2025, 12, 31)),
        None,
        of_second(2025, 12, 31, 0, 0, 0),
        of_second(2026, 1, 1, 0, 0, 0),
    );
}
