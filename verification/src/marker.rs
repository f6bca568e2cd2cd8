//! The engine's boundary: one marker payload and a done flag in, one
//! attribute record (or the raw payload back, for diagnostics) out.

use vstd::prelude::*;

use crate::calendar::CalendarInstant;
use crate::link::link;
use crate::link::spec_link;
use crate::link::Link;
use crate::merge::merged_fields;
use crate::merge::spec_merge;
use crate::resolve::fragment_to_datetime_completed;
use crate::resolve::spec_completed;
use crate::resolve::spec_resolve;
use crate::resolve::Role;

verus! {

/// The attributes of one checklist item, each an optional concrete instant:
/// the inclusive start of its period, the exclusive end of its due period,
/// and its completion instant.
#[derive(Clone, Copy, Debug, PartialEq, Eq, Structural)]
pub struct Attributes {
    pub start: Option<CalendarInstant>,
    pub due: Option<CalendarInstant>,
    pub completed: Option<CalendarInstant>,
}

impl Attributes {
    /// Whether the item carries a completion instant.
    pub fn is_completed(&self) -> (r: bool)
        ensures
            r == (self.completed is Some),
    {
        self.completed.is_some()
    }
}

/// The attribute record of a parsed marker body: `start` resolved as a range
/// start, `due` as a range end, each keyed fragment merged with the base;
/// the completion instant is gated by the done flag and falls back to the
/// resolved due (then start) instant when its merged literal is absent.
pub open spec fn spec_attributes_of(lnk: Link, done: bool) -> Attributes {
    let start = spec_resolve(spec_merge(lnk.start, lnk.base), Role::Start);
    let due = spec_resolve(spec_merge(lnk.due, lnk.base), Role::End);
    let completed = spec_completed(spec_merge(lnk.completed, lnk.base), done, due, start);
    Attributes { start, due, completed }
}

/// The attribute record of a parsed marker body and a done flag.
pub fn attributes_of(lnk: &Link, done: bool) -> (r: Attributes)
    ensures
        r == spec_attributes_of(*lnk, done),
{
    let start = merged_fields(&lnk.start, &lnk.base).resolve(Role::Start);
    let due = merged_fields(&lnk.due, &lnk.base).resolve(Role::End);
    let completed = fragment_to_datetime_completed(&lnk.completed, &lnk.base, done, &due, &start);
    Attributes { start, due, completed }
}

/// Whether an item's due instant falls on the calendar day given by
/// `year`/`month`/`day`: the day-overlap test a calendar view filters by.
/// Completed items overlap only when `should_show_completed` asks for them.
pub open spec fn spec_has_overlap(
    attributes: Attributes,
    year: i32,
    month: u32,
    day: u32,
    should_show_completed: bool,
) -> bool {
    match attributes.due {
        Some(due) => {
            let is_due = due.year == year && due.month == month && due.day == day;
            if should_show_completed {
                is_due
            } else {
                is_due && attributes.completed is None
            }
        },
        None => false,
    }
}

/// Whether an item's due instant falls on the given calendar day; completed
/// items count only when `should_show_completed` asks for them.
pub fn has_overlap(
    attributes: &Attributes,
    year: i32,
    month: u32,
    day: u32,
    should_show_completed: bool,
) -> (r: bool)
    ensures
        r == spec_has_overlap(*attributes, year, month, day, should_show_completed),
{
    match &attributes.due {
        Some(due) => {
            let is_due = due.year == year && due.month == month && due.day == day;
            if should_show_completed {
                is_due
            } else {
                is_due && attributes.completed.is_none()
            }
        },
        None => false,
    }
}

/// A byte-for-byte copy of the input.
fn copy_bytes(s: &[u8]) -> (v: Vec<u8>)
    ensures
        v@ == s@,
{
    let mut v: Vec<u8> = Vec::new();
    let mut k: usize = 0;
    while k < s.len()
        invariant
            k <= s@.len(),
            v@ == s@.subrange(0, k as int),
        decreases s@.len() - k,
    {
        v.push(s[k]);
        k = k + 1;
        proof {
            assert(v@ =~= s@.subrange(0, k as int));
        }
    }
    proof {
        assert(v@ =~= s@);
    }
    v
}

/// Turn one raw marker payload and the item's done flag into its attribute
/// record; a payload that does not satisfy the marker grammar is handed back
/// unchanged for diagnostics, and no partial attributes are produced.
pub fn resolve_marker(raw: &[u8], done: bool) -> (r: Result<Attributes, Vec<u8>>)
    ensures
        spec_link(raw@) matches Some(lnk) ==> r == Ok::<Attributes, Vec<u8>>(
            spec_attributes_of(lnk, done),
        ),
        spec_link(raw@) is None ==> (r matches Err(e) && e@ == raw@),
{
    match link(raw) {
        Some(lnk) => Ok(attributes_of(&lnk, done)),
        None => Err(copy_bytes(raw)),
    }
}

} // verus!
