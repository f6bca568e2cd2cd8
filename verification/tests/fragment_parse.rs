//! The fragment grammar on concrete literals: each case gives the input
//! bytes and the exact parsed value, and a full parse must consume the whole
//! input.

use agemda::date_time_fragment;
use agemda::day_rest;
use agemda::hour_rest;
use agemda::month_rest;
use agemda::year_rest;
use agemda::DateTimeFragment;
use agemda::DayRest;
use agemda::HourRest;
use agemda::MonthRest;
use agemda::YearRest;

#[test]
fn hour_rest_t() {
    assert_eq!(hour_rest(b"T", 0), Some((None, 1)));
}

#[test]
fn hour_rest_t_hour() {
    assert_eq!(hour_rest(b"T21", 0), Some((Some(HourRest::from_h(21)), 3)));
}

#[test]
fn hour_rest_t_hour_c() {
    assert_eq!(hour_rest(b"T21:", 0), Some((Some(HourRest::from_h(21)), 4)));
}

#[test]
fn hour_rest_t_hour_c_minute() {
    assert_eq!(
        hour_rest(b"T21:00", 0),
        Some((Some(HourRest::from_hm(21, 0)), 6))
    );
}

#[test]
fn hour_rest_t_hour_c_minute_c() {
    assert_eq!(
        hour_rest(b"T21:00:", 0),
        Some((Some(HourRest::from_hm(21, 0)), 7))
    );
}

#[test]
fn hour_rest_t_hour_c_minute_c_second() {
    assert_eq!(
        hour_rest(b"T21:00:05", 0),
        Some((Some(HourRest::from_hms(21, 0, 5)), 9))
    );
}

#[test]
fn day_rest_day() {
    assert_eq!(day_rest(b"21", 0), Some((DayRest::from_d(21), 2)));
}

#[test]
fn day_rest_day_t() {
    assert_eq!(day_rest(b"21T", 0), Some((DayRest::from_d(21), 3)));
}

#[test]
fn day_rest_day_t_time() {
    assert_eq!(
        day_rest(b"21T10:04:25", 0),
        Some((DayRest::from_d_hms(21, 10, 4, 25), 11))
    );
}

#[test]
fn month_rest_month() {
    assert_eq!(month_rest(b"10", 0), Some((MonthRest::from_m(10), 2)));
}

#[test]
fn month_rest_month_h() {
    assert_eq!(month_rest(b"10-", 0), Some((MonthRest::from_m(10), 3)));
}

#[test]
fn month_rest_month_h_day() {
    assert_eq!(
        month_rest(b"10-21", 0),
        Some((MonthRest::from_md(10, 21), 5))
    );
}

#[test]
fn month_rest_month_h_day_time() {
    assert_eq!(
        month_rest(b"10-21T10:04:25", 0),
        Some((MonthRest::from_md_hms(10, 21, 10, 4, 25), 14))
    );
}

#[test]
fn month_or_day_ok() {
    assert_eq!(agemda::month_or_day(b"10", 0), Some((10, 2)));
}

#[test]
fn month_or_day_ok_before_separator() {
    assert_eq!(agemda::month_or_day(b"10;x=01", 0), Some((10, 2)));
}

#[test]
fn month_or_day_err_h() {
    assert_eq!(agemda::month_or_day(b"10-", 0), None);
}

#[test]
fn month_or_day_err_t() {
    assert_eq!(agemda::month_or_day(b"10T", 0), None);
}

#[test]
fn year_rest_year() {
    assert_eq!(year_rest(b"2025", 0), Some((YearRest::from_y(2025), 4)));
}

#[test]
fn year_rest_year_h() {
    assert_eq!(year_rest(b"2025-", 0), Some((YearRest::from_y(2025), 5)));
}

#[test]
fn year_rest_year_h_month() {
    assert_eq!(
        year_rest(b"2025-10", 0),
        Some((YearRest::from_ym(2025, 10), 7))
    );
}

#[test]
fn year_rest_year_h_month_rest() {
    assert_eq!(
        year_rest(b"2025-10-01T06:00:00", 0),
        Some((YearRest::from_ymd_hms(2025, 10, 1, 6, 0, 0), 19))
    );
}

#[test]
fn dtf_year() {
    assert_eq!(
        date_time_fragment(b"2025", 0),
        Some((DateTimeFragment::from_y(2025), 4))
    );
}

#[test]
fn dtf_year_h() {
    assert_eq!(
        date_time_fragment(b"2025-", 0),
        Some((DateTimeFragment::from_y(2025), 5))
    );
}

#[test]
fn dtf_year_h_month() {
    assert_eq!(
        date_time_fragment(b"2025-10", 0),
        Some((DateTimeFragment::from_ym(2025, 10), 7))
    );
}

#[test]
fn dtf_year_h_month_h() {
    assert_eq!(
        date_time_fragment(b"2025-10-", 0),
        Some((DateTimeFragment::from_ym(2025, 10), 8))
    );
}

#[test]
fn dtf_year_h_month_h_day() {
    assert_eq!(
        date_time_fragment(b"2025-10-01", 0),
        Some((DateTimeFragment::from_ymd(2025, 10, 1), 10))
    );
}

#[test]
fn dtf_year_h_month_h_day_t() {
    assert_eq!(
        date_time_fragment(b"2025-10-01T", 0),
        Some((DateTimeFragment::from_ymd(2025, 10, 1), 11))
    );
}

#[test]
fn dtf_year_h_month_h_day_t_hour() {
    assert_eq!(
        date_time_fragment(b"2025-10-01T10", 0),
        Some((DateTimeFragment::from_ymd_h(2025, 10, 1, 10), 13))
    );
}

#[test]
fn dtf_year_h_month_h_day_t_hour_c() {
    assert_eq!(
        date_time_fragment(b"2025-10-01T10:", 0),
        Some((DateTimeFragment::from_ymd_h(2025, 10, 1, 10), 14))
    );
}

#[test]
fn dtf_year_h_month_h_day_t_hour_c_minute() {
    assert_eq!(
        date_time_fragment(b"2025-10-01T10:20", 0),
        Some((DateTimeFragment::from_ymd_hm(2025, 10, 1, 10, 20), 16))
    );
}

#[test]
fn dtf_year_h_month_h_day_t_hour_c_minute_c() {
    assert_eq!(
        date_time_fragment(b"2025-10-01T10:20:", 0),
        Some((DateTimeFragment::from_ymd_hm(2025, 10, 1, 10, 20), 17))
    );
}

#[test]
fn dtf_year_h_month_h_day_t_hour_c_minute_c_second() {
    assert_eq!(
        date_time_fragment(b"2025-10-01T10:20:25", 0),
        Some((DateTimeFragment::from_ymd_hms(2025, 10, 1, 10, 20, 25), 19))
    );
}

#[test]
fn dtf_month_or_day() {
    assert_eq!(
        date_time_fragment(b"10", 0),
        Some((DateTimeFragment::from_m_d(10), 2))
    );
}

#[test]
fn dtf_month() {
    assert_eq!(
        date_time_fragment(b"10-", 0),
        Some((DateTimeFragment::from_m(10), 3))
    );
}

#[test]
fn dtf_month_h_day() {
    assert_eq!(
        date_time_fragment(b"10-01", 0),
        Some((DateTimeFragment::from_md(10, 1), 5))
    );
}

#[test]
fn dtf_month_h_day_t() {
    assert_eq!(
        date_time_fragment(b"10-01T", 0),
        Some((DateTimeFragment::from_md(10, 1), 6))
    );
}

#[test]
fn dtf_month_h_day_t_hour() {
    assert_eq!(
        date_time_fragment(b"10-01T10", 0),
        Some((DateTimeFragment::from_md_h(10, 1, 10), 8))
    );
}

#[test]
fn dtf_month_h_day_t_hour_c() {
    assert_eq!(
        date_time_fragment(b"10-01T10:", 0),
        Some((DateTimeFragment::from_md_h(10, 1, 10), 9))
    );
}

#[test]
fn dtf_month_h_day_t_hour_c_minute() {
    assert_eq!(
        date_time_fragment(b"10-01T10:20", 0),
        Some((DateTimeFragment::from_md_hm(10, 1, 10, 20), 11))
    );
}

#[test]
fn dtf_month_h_day_t_hour_c_minute_c() {
    assert_eq!(
        date_time_fragment(b"10-01T10:20:", 0),
        Some((DateTimeFragment::from_md_hm(10, 1, 10, 20), 12))
    );
}

#[test]
fn dtf_month_h_day_t_hour_c_minute_c_second() {
    assert_eq!(
        date_time_fragment(b"10-01T10:20:30", 0),
        Some((DateTimeFragment::from_md_hms(10, 1, 10, 20, 30), 14))
    );
}

#[test]
fn dtf_day_t() {
    assert_eq!(
        date_time_fragment(b"01T", 0),
        Some((DateTimeFragment::from_d(1), 3))
    );
}

#[test]
fn dtf_day_t_hour() {
    assert_eq!(
        date_time_fragment(b"01T10", 0),
        Some((DateTimeFragment::from_d_h(1, 10), 5))
    );
}

#[test]
fn dtf_day_t_hour_c() {
    assert_eq!(
        date_time_fragment(b"01T10:", 0),
        Some((DateTimeFragment::from_d_h(1, 10), 6))
    );
}

#[test]
fn dtf_day_t_hour_c_minute() {
    assert_eq!(
        date_time_fragment(b"01T10:20", 0),
        Some((DateTimeFragment::from_d_hm(1, 10, 20), 8))
    );
}

#[test]
fn dtf_day_t_hour_c_minute_c() {
    assert_eq!(
        date_time_fragment(b"01T10:20:", 0),
        Some((DateTimeFragment::from_d_hm(1, 10, 20), 9))
    );
}

#[test]
fn dtf_day_t_hour_c_minute_c_second() {
    assert_eq!(
        date_time_fragment(b"01T10:20:30", 0),
        Some((DateTimeFragment::from_d_hms(1, 10, 20, 30), 11))
    );
}

#[test]
fn dtf_t() {
    assert_eq!(
        date_time_fragment(b"T", 0),
        Some((DateTimeFragment::HourRest(None), 1))
    );
}

#[test]
fn dtf_t_hour() {
    assert_eq!(
        date_time_fragment(b"T10", 0),
        Some((DateTimeFragment::from_h(10), 3))
    );
}

#[test]
fn dtf_t_hour_c() {
    assert_eq!(
        date_time_fragment(b"T10:", 0),
        Some((DateTimeFragment::from_h(10), 4))
    );
}

#[test]
fn dtf_t_hour_c_minute() {
    assert_eq!(
        date_time_fragment(b"T10:20", 0),
        Some((DateTimeFragment::from_hm(10, 20), 6))
    );
}

#[test]
fn dtf_t_hour_c_minute_c() {
    assert_eq!(
        date_time_fragment(b"T10:20:", 0),
        Some((DateTimeFragment::from_hm(10, 20), 7))
    );
}

#[test]
fn dtf_t_hour_c_minute_c_second() {
    assert_eq!(
        date_time_fragment(b"T10:20:30", 0),
        Some((DateTimeFragment::from_hms(10, 20, 30), 9))
    );
}

#[test]
fn year_month_day() {
    assert_eq!(
        date_time_fragment(b"2025-01-03", 0),
        Some((DateTimeFragment::from_ymd(2025, 1, 3), 10))
    );
}

#[test]
fn year_month() {
    assert_eq!(
        date_time_fragment(b"2025-01", 0),
        Some((DateTimeFragment::from_ym(2025, 1), 7))
    );
}

#[test]
fn month_day() {
    assert_eq!(
        date_time_fragment(b"01-03", 0),
        Some((DateTimeFragment::from_md(1, 3), 5))
    );
}

#[test]
fn year() {
    assert_eq!(
        date_time_fragment(b"2025", 0),
        Some((DateTimeFragment::from_y(2025), 4))
    );
}

#[test]
fn month_or_day() {
    assert_eq!(
        date_time_fragment(b"01", 0),
        Some((DateTimeFragment::from_m_d(1), 2))
    );
}

#[test]
fn two_digits_rejects_sign() {
    assert_eq!(agemda::two_digits(b"+5", 0), None);
}

#[test]
fn four_digits_rejects_sign() {
    assert_eq!(agemda::four_digits(b"-123", 0), None);
    assert_eq!(agemda::four_digits(b"+123", 0), None);
}
