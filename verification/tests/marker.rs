//! Whole markers through the boundary: payload and done flag in, attribute
//! record (or the raw payload back) out.

use agemda::link;
use agemda::of_second;
use agemda::resolve_marker;
use agemda::CalendarInstant;
use agemda::DateTimeFragment;
use agemda::Link;

fn instant(
    year: i32,
    month: u32,
    day: u32,
    hour: u32,
    minute: u32,
    second: u32,
) -> Option<CalendarInstant> {
    Some(CalendarInstant::new(year, month, day, hour, minute, second))
}

#[test]
fn base_only_marker() {
    let r = resolve_marker(b"2025-03-01", false).unwrap();
    assert_eq!(r.start, instant(2025, 3, 1, 0, 0, 0));
    assert_eq!(r.due, instant(2025, 3, 2, 0, 0, 0));
    assert_eq!(r.completed, None);
    assert!(!r.is_completed());
}

#[test]
fn base_with_start_and_due_keys() {
    let r = resolve_marker(b"2025-03-01;start=02;due=04", false).unwrap();
    assert_eq!(r.start, instant(2025, 3, 2, 0, 0, 0));
    assert_eq!(r.due, instant(2025, 3, 5, 0, 0, 0));
    assert_eq!(r.completed, None);
}

#[test]
fn december_end_carries_into_next_year() {
    let r = resolve_marker(b"2025-12", false).unwrap();
    assert_eq!(r.start, instant(2025, 12, 1, 0, 0, 0));
    assert_eq!(r.due, instant(2026, 1, 1, 0, 0, 0));
}

#[test]
fn month_day_without_year_resolves_to_nothing() {
    let r = resolve_marker(b"10-21", true).unwrap();
    assert_eq!(r.start, None);
    assert_eq!(r.due, None);
    assert_eq!(r.completed, None);
}

#[test]
fn completion_falls_back_to_resolved_due() {
    let due = instant(2025, 1, 1, 0, 0, 0);
    let r = agemda::fragment_to_datetime_completed(&None, &None, true, &due, &None);
    assert_eq!(r, due);
}

#[test]
fn completion_falls_back_to_resolved_start() {
    let start = instant(2025, 2, 1, 0, 0, 0);
    let r = agemda::fragment_to_datetime_completed(&None, &None, true, &None, &start);
    assert_eq!(r, start);
}

#[test]
fn completion_absent_when_undone() {
    let base = Some(DateTimeFragment::from_ymd(2025, 3, 1));
    let due = instant(2025, 1, 1, 0, 0, 0);
    let r = agemda::fragment_to_datetime_completed(&base, &None, false, &due, &None);
    assert_eq!(r, None);
}

#[test]
fn calendar_invalid_month_parses_but_resolves_to_nothing() {
    let r = resolve_marker(b"2025-13-01", false).unwrap();
    assert_eq!(r.start, None);
    assert_eq!(r.due, None);
    assert_eq!(r.completed, None);
}

#[test]
fn done_marker_completion_snaps_to_due() {
    let r = resolve_marker(b"2025-03-01", true).unwrap();
    assert_eq!(r.due, instant(2025, 3, 2, 0, 0, 0));
    assert_eq!(r.completed, r.due);
    assert!(r.is_completed());
}

#[test]
fn done_marker_with_completed_key() {
    let r = resolve_marker(b"2025-03-01;completed=03", true).unwrap();
    assert_eq!(r.completed, instant(2025, 3, 4, 0, 0, 0));
}

#[test]
fn empty_marker() {
    let r = resolve_marker(b"", true).unwrap();
    assert_eq!(r.start, None);
    assert_eq!(r.due, None);
    assert_eq!(r.completed, None);
}

#[test]
fn keys_without_base() {
    let r = resolve_marker(b"start=2025-01-01;due=2025-03-01", false).unwrap();
    assert_eq!(r.start, instant(2025, 1, 1, 0, 0, 0));
    assert_eq!(r.due, instant(2025, 3, 2, 0, 0, 0));
}

#[test]
fn malformed_marker_hands_back_raw_payload() {
    let r = resolve_marker(b"2025-03-01 oops", false);
    assert_eq!(r, Err(b"2025-03-01 oops".to_vec()));
}

#[test]
fn trailing_semicolon_is_malformed() {
    assert!(resolve_marker(b"2025-03-01;", false).is_err());
}

#[test]
fn unknown_key_value_is_parsed_and_discarded() {
    let r = resolve_marker(b"2025-03-01;note=02", false).unwrap();
    assert_eq!(r.start, instant(2025, 3, 1, 0, 0, 0));
    assert_eq!(r.due, instant(2025, 3, 2, 0, 0, 0));
}

#[test]
fn unknown_key_with_ungrammatical_value_is_malformed() {
    assert!(resolve_marker(b"2025-03-01;note=oops", false).is_err());
}

#[test]
fn duplicate_key_last_occurrence_wins() {
    let r = resolve_marker(b"2025-03-01;due=02;due=04", false).unwrap();
    assert_eq!(r.due, instant(2025, 3, 5, 0, 0, 0));
}

#[test]
fn link_collects_base_and_keys() {
    let l = link(b"2025-03;start=02;due=04;completed=05").unwrap();
    assert_eq!(
        l,
        Link {
            base: Some(DateTimeFragment::from_ym(2025, 3)),
            start: Some(DateTimeFragment::from_m_d(2)),
            due: Some(DateTimeFragment::from_m_d(4)),
            completed: Some(DateTimeFragment::from_m_d(5)),
        }
    );
}

#[test]
fn link_rejects_second_bare_fragment_after_base() {
    assert_eq!(link(b"2025-03;02"), None);
}

#[test]
fn second_precision_start_equals_end() {
    let r = resolve_marker(b"2025-03-01T10:20:30", false).unwrap();
    assert_eq!(r.start, of_second(2025, 3, 1, 10, 20, 30));
    assert_eq!(r.due, of_second(2025, 3, 1, 10, 20, 30));
    assert_eq!(r.start, r.due);
}

#[test]
fn base_alone_round_trip_on_marker() {
    let with_base_only = resolve_marker(b"2025-07", false).unwrap();
    let as_keyed_literal = resolve_marker(b"start=2025-07;due=2025-07", false).unwrap();
    assert_eq!(with_base_only.start, as_keyed_literal.start);
    assert_eq!(with_base_only.due, as_keyed_literal.due);
}

#[test]
fn group_without_equals_is_malformed() {
    assert_eq!(resolve_marker(b"x;due=03", false), Err(b"x;due=03".to_vec()));
    assert_eq!(
        resolve_marker(b"2025;x;due=03", false),
        Err(b"2025;x;due=03".to_vec())
    );
}

#[test]
fn empty_key_is_malformed() {
    assert!(resolve_marker(b"=02", false).is_err());
    assert!(resolve_marker(b"2025;=02", false).is_err());
}
