//! Partial date/time literals for checklist markers: a parser for
//! arbitrarily-truncated date/time fragments, a field-by-field merge of an
//! explicit fragment with a shared base fragment, and a role-aware expansion
//! of the merged, still-partial specification into concrete calendar
//! instants (inclusive range starts and exclusive range ends), with
//! month-length, leap-year and unit-rollover arithmetic.

mod calendar;
mod fragment;
mod laws;
mod link;
mod marker;
mod merge;
mod parse;
mod resolve;

pub use calendar::is_leap_year;
pub use calendar::is_valid_date;
pub use calendar::last_day_of_month;
pub use calendar::CalendarInstant;
pub use fragment::DateTimeFragment;
pub use fragment::DayRest;
pub use fragment::HourRest;
pub use fragment::MinuteRest;
pub use fragment::MonthRest;
pub use fragment::YearRest;
pub use laws::lemma_base_alone_round_trip;
pub use laws::lemma_base_only_marker_attributes;
pub use laws::lemma_day_range;
pub use laws::lemma_month_or_day_disambiguation;
pub use laws::lemma_month_range;
pub use laws::lemma_no_year_no_instant;
pub use laws::lemma_resolution_valid;
pub use laws::lemma_second_precision_point;
pub use laws::lemma_start_not_after_end;
pub use laws::lemma_ym_literal_parses;
pub use laws::lemma_ym_marker_attributes;
pub use laws::lemma_ymd_literal_parses;
pub use laws::lemma_ymd_marker_attributes;
pub use link::link;
pub use link::Link;
pub use link::MarkerKey;
pub use marker::attributes_of;
pub use marker::has_overlap;
pub use marker::resolve_marker;
pub use marker::Attributes;
pub use merge::merged_fields;
pub use merge::MergedFields;
pub use parse::cap_t;
pub use parse::colon;
pub use parse::date_time_fragment;
pub use parse::day_rest;
pub use parse::four_digits;
pub use parse::hour_rest;
pub use parse::hyphen;
pub use parse::minute_rest;
pub use parse::month_or_day;
pub use parse::month_rest;
pub use parse::two_digits;
pub use parse::year_rest;
pub use resolve::fragment_to_datetime;
pub use resolve::fragment_to_datetime_both;
pub use resolve::fragment_to_datetime_completed;
pub use resolve::fragment_to_datetime_either;
pub use resolve::of_second;
pub use resolve::Role;
