//! The marker-body grammar: an optional leading base fragment followed by
//! `;key=value` groups, or a list of `key=value` groups from the start.
//!
//! Every group's key is matched case-sensitively against exactly `start`,
//! `due` and `completed`; any other key's value is still parsed as a fragment
//! for grammar validity but discarded. Duplicate keys: the last occurrence
//! wins. The entire payload must be consumed; any leftover byte after the
//! last recognized group fails the whole marker.

use vstd::prelude::*;

use crate::fragment::DateTimeFragment;
use crate::parse::date_time_fragment;
use crate::parse::lemma_fragment_step_bounds;
use crate::parse::spec_date_time_fragment;
use crate::parse::spec_step_eq;

verus! {

broadcast use vstd::slice::axiom_spec_len;

/// The parsed structure of a marker body: the optional shared base fragment
/// and the keyed fragments for the three recognized keys.
#[derive(Clone, Copy, Debug, PartialEq, Eq, Structural)]
pub struct Link {
    pub base: Option<DateTimeFragment>,
    pub start: Option<DateTimeFragment>,
    pub due: Option<DateTimeFragment>,
    pub completed: Option<DateTimeFragment>,
}

impl Link {
    /// A marker body with nothing in it.
    pub open spec fn spec_empty() -> Link {
        Link { base: None, start: None, due: None, completed: None }
    }

    /// A marker body with nothing in it.
    pub fn empty() -> (r: Link)
        ensures
            r == Link::spec_empty(),
    {
        Link { base: None, start: None, due: None, completed: None }
    }
}

/// One of the three recognized keys of a `key=value` group.
#[derive(Clone, Copy, Debug, PartialEq, Eq, Structural)]
pub enum MarkerKey {
    Start,
    Due,
    Completed,
}

/// The position of the first `=` at or after `i`, when one stands before
/// the next `;` separator: a group's key may not run across a separator.
pub open spec fn spec_find_eq(s: Seq<u8>, i: int) -> Option<int>
    decreases s.len() - i,
{
    if !(0 <= i < s.len()) {
        None
    } else if s[i] == 61 {
        Some(i)
    } else if s[i] == 59 {
        None
    } else {
        spec_find_eq(s, i + 1)
    }
}

/// A found `=` lies at or after the start of the search and inside the input.
pub proof fn lemma_find_eq_bounds(s: Seq<u8>, i: int)
    ensures
        spec_find_eq(s, i) matches Some(e) ==> i <= e < s.len(),
    decreases s.len() - i,
{
    if 0 <= i < s.len() && s[i] != 61 && s[i] != 59 {
        lemma_find_eq_bounds(s, i + 1);
    }
}

/// Whether the bytes from `i` (inclusive) to `e` (exclusive) spell `start`.
pub open spec fn spec_key_is_start(s: Seq<u8>, i: int, e: int) -> bool {
    e - i == 5 && s[i] == 115 && s[i + 1] == 116 && s[i + 2] == 97 && s[i + 3] == 114 && s[i + 4]
        == 116
}

/// Whether the bytes from `i` (inclusive) to `e` (exclusive) spell `due`.
pub open spec fn spec_key_is_due(s: Seq<u8>, i: int, e: int) -> bool {
    e - i == 3 && s[i] == 100 && s[i + 1] == 117 && s[i + 2] == 101
}

/// Whether the bytes from `i` (inclusive) to `e` (exclusive) spell
/// `completed`.
pub open spec fn spec_key_is_completed(s: Seq<u8>, i: int, e: int) -> bool {
    e - i == 9 && s[i] == 99 && s[i + 1] == 111 && s[i + 2] == 109 && s[i + 3] == 112 && s[i + 4]
        == 108 && s[i + 5] == 101 && s[i + 6] == 116 && s[i + 7] == 101 && s[i + 8] == 100
}

/// One `key=value` group at position `i`: the key runs to the first `=`,
/// must not be empty and must not cross a `;`; the value must parse as a
/// fragment; a key other than the three recognized ones yields no entry (the
/// fragment is discarded).
pub open spec fn spec_key_value_pair(s: Seq<u8>, i: int) -> Option<
    (Option<(MarkerKey, DateTimeFragment)>, int),
> {
    match spec_find_eq(s, i) {
        None => None,
        Some(e) => if e == i {
            None
        } else {
            match spec_date_time_fragment(s, e + 1) {
                None => None,
                Some((f, j)) => if spec_key_is_start(s, i, e) {
                    Some((Some((MarkerKey::Start, f)), j))
                } else if spec_key_is_due(s, i, e) {
                    Some((Some((MarkerKey::Due, f)), j))
                } else if spec_key_is_completed(s, i, e) {
                    Some((Some((MarkerKey::Completed, f)), j))
                } else {
                    Some((None, j))
                },
            }
        },
    }
}

/// A successful group at a well-formed position consumes at least one byte
/// and stays within the input.
pub proof fn lemma_key_value_pair_bounds(s: Seq<u8>, i: int)
    requires
        0 <= i,
    ensures
        spec_key_value_pair(s, i) matches Some((_, j)) ==> i < j <= s.len(),
{
    lemma_find_eq_bounds(s, i);
    match spec_find_eq(s, i) {
        Some(e) => lemma_fragment_step_bounds(s, e + 1),
        None => (),
    }
}

/// Record an entry in the marker body; a later entry for the same key
/// overwrites an earlier one.
pub open spec fn spec_apply_entry(lnk: Link, entry: Option<(MarkerKey, DateTimeFragment)>) -> Link {
    match entry {
        None => lnk,
        Some((MarkerKey::Start, f)) => Link { start: Some(f), ..lnk },
        Some((MarkerKey::Due, f)) => Link { due: Some(f), ..lnk },
        Some((MarkerKey::Completed, f)) => Link { completed: Some(f), ..lnk },
    }
}

/// Zero or more `;key=value` groups starting at `i`, folded into `acc`: the
/// collected body and the position after the last complete group. A `;` not
/// followed by a complete group is left unconsumed.
pub open spec fn spec_key_value_groups(s: Seq<u8>, i: int, acc: Link) -> (Link, int)
    decreases s.len() - i,
{
    if 0 <= i < s.len() && s[i] == 59 {
        match spec_key_value_pair(s, i + 1) {
            None => (acc, i),
            Some((entry, j)) => if i < j <= s.len() {
                spec_key_value_groups(s, j, spec_apply_entry(acc, entry))
            } else {
                (acc, i)
            },
        }
    } else {
        (acc, i)
    }
}

/// The whole marker body: an optional leading base fragment, then `;`-led
/// groups; with no base, the first group needs no leading `;`. The payload
/// must be consumed entirely, else the marker fails as a whole.
pub open spec fn spec_link(s: Seq<u8>) -> Option<Link> {
    match spec_date_time_fragment(s, 0) {
        Some((base, i)) => {
            let (lnk, j) = spec_key_value_groups(
                s,
                i,
                Link { base: Some(base), start: None, due: None, completed: None },
            );
            if j == s.len() {
                Some(lnk)
            } else {
                None
            }
        },
        None => match spec_key_value_pair(s, 0) {
            None => if s.len() == 0 {
                Some(Link::spec_empty())
            } else {
                None
            },
            Some((entry, i)) => {
                let (lnk, j) = spec_key_value_groups(
                    s,
                    i,
                    spec_apply_entry(Link::spec_empty(), entry),
                );
                if j == s.len() {
                    Some(lnk)
                } else {
                    None
                }
            },
        },
    }
}

/// The position of the first `=` at or after `i`, when one stands before
/// the next `;` separator.
fn find_eq(s: &[u8], i: usize) -> (r: Option<usize>)
    ensures
        r matches Some(e) ==> spec_find_eq(s@, i as int) == Some(e as int),
        r is None ==> spec_find_eq(s@, i as int) is None,
{
    let mut k = i;
    while k < s.len()
        invariant
            i <= k,
            spec_find_eq(s@, i as int) == spec_find_eq(s@, k as int),
        decreases s@.len() - k,
    {
        if s[k] == 61 {
            return Some(k);
        }
        if s[k] == 59 {
            return None;
        }
        k = k + 1;
    }
    None
}

/// One `key=value` group at position `i`.
fn key_value_pair(s: &[u8], i: usize) -> (r: Option<(Option<(MarkerKey, DateTimeFragment)>, usize)>)
    ensures
        spec_step_eq(r, spec_key_value_pair(s@, i as int)),
{
    let e = match find_eq(s, i) {
        Some(e) => e,
        None => {
            return None;
        },
    };
    if e == i {
        return None;
    }
    proof {
        lemma_find_eq_bounds(s@, i as int);
        assert(vstd::slice::spec_slice_len(s) == s@.len());
    }
    let (f, j) = match date_time_fragment(s, e + 1) {
        Some(p) => p,
        None => {
            return None;
        },
    };
    let klen = e - i;
    let entry = if klen == 5 && s[i] == 115 && s[i + 1] == 116 && s[i + 2] == 97 && s[i + 3] == 114
        && s[i + 4] == 116 {
        Some((MarkerKey::Start, f))
    } else if klen == 3 && s[i] == 100 && s[i + 1] == 117 && s[i + 2] == 101 {
        Some((MarkerKey::Due, f))
    } else if klen == 9 && s[i] == 99 && s[i + 1] == 111 && s[i + 2] == 109 && s[i + 3] == 112 && s[i
        + 4] == 108 && s[i + 5] == 101 && s[i + 6] == 116 && s[i + 7] == 101 && s[i + 8] == 100 {
        Some((MarkerKey::Completed, f))
    } else {
        None
    };
    Some((entry, j))
}

/// Record an entry in the marker body; a later entry for the same key
/// overwrites an earlier one.
fn apply_entry(lnk: &mut Link, entry: Option<(MarkerKey, DateTimeFragment)>)
    ensures
        *final(lnk) == spec_apply_entry(*old(lnk), entry),
{
    match entry {
        None => {},
        Some((MarkerKey::Start, f)) => {
            lnk.start = Some(f);
        },
        Some((MarkerKey::Due, f)) => {
            lnk.due = Some(f);
        },
        Some((MarkerKey::Completed, f)) => {
            lnk.completed = Some(f);
        },
    }
}

/// Parse a whole marker body: an optional base fragment, then `;key=value`
/// groups (with no base, the first group needs no leading `;`), consuming
/// the entire payload. `None` when the body does not satisfy the grammar.
#[verifier::loop_isolation(false)]
pub fn link(s: &[u8]) -> (r: Option<Link>)
    ensures
        r == spec_link(s@),
{
    let mut lnk = Link::empty();
    let mut i: usize;
    match date_time_fragment(s, 0) {
        Some((base, j)) => {
            proof {
                lemma_fragment_step_bounds(s@, 0);
            }
            lnk.base = Some(base);
            i = j;
        },
        None => {
            match key_value_pair(s, 0) {
                None => {
                    if s.len() == 0 {
                        return Some(lnk);
                    } else {
                        return None;
                    }
                },
                Some((entry, j)) => {
                    proof {
                        lemma_key_value_pair_bounds(s@, 0);
                    }
                    apply_entry(&mut lnk, entry);
                    i = j;
                },
            }
        },
    }
    let ghost start_i = i as int;
    let ghost start_lnk = lnk;
    let mut more = true;
    while more
        invariant
            i <= s@.len(),
            spec_key_value_groups(s@, start_i, start_lnk) == spec_key_value_groups(
                s@,
                i as int,
                lnk,
            ),
            !more ==> spec_key_value_groups(s@, i as int, lnk) == (lnk, i as int),
        decreases s@.len() - i + (if more { 1int } else { 0int }),
    {
        if i < s.len() {
            if s[i] == 59 {
                match key_value_pair(s, i + 1) {
                    Some((entry, j)) => {
                        proof {
                            lemma_key_value_pair_bounds(s@, i as int + 1);
                        }
                        apply_entry(&mut lnk, entry);
                        i = j;
                    },
                    None => {
                        more = false;
                    },
                }
            } else {
                more = false;
            }
        } else {
            more = false;
        }
    }
    if i == s.len() {
        Some(lnk)
    } else {
        None
    }
}

} // verus!
