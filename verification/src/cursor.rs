//! Selection cursors: an index into a list, or nothing.

use vstd::prelude::*;

verus! {

/// Whether a cursor is unset or points into a list of `len` entries.
pub open spec fn cursor_in_range(cursor: Option<usize>, len: nat) -> bool {
    cursor matches Some(i) ==> i < len
}

/// A cursor after a step down a list of `len` entries: from nothing to the
/// first entry, from an entry to the next, and from the last entry to
/// nothing.
pub open spec fn stepped_down(cursor: Option<usize>, len: nat) -> Option<usize> {
    match cursor {
        None => if len > 0 {
            Some(0)
        } else {
            None
        },
        Some(i) => if i + 1 < len {
            Some((i + 1) as usize)
        } else {
            None
        },
    }
}

/// A cursor after a step up a list of `len` entries: from an entry to the one
/// before it and from the first entry to nothing. From nothing the step goes
/// to the last entry while browsing and to the first while searching.
pub open spec fn stepped_up(cursor: Option<usize>, len: nat, searching: bool) -> Option<usize> {
    match cursor {
        None => if len == 0 {
            None
        } else if searching {
            Some(0)
        } else {
            Some((len - 1) as usize)
        },
        Some(i) => if i > 0 {
            Some((i - 1) as usize)
        } else {
            None
        },
    }
}

/// A cursor brought back into a list of `len` entries: unset when the list is
/// empty, on the last entry when it pointed past the end.
pub open spec fn clamped(cursor: Option<usize>, len: nat) -> Option<usize> {
    match cursor {
        None => None,
        Some(i) => if len == 0 {
            None
        } else if i >= len {
            Some((len - 1) as usize)
        } else {
            Some(i)
        },
    }
}

/// The search cursor after the results have been computed anew: an unset
/// cursor goes to the best result, a set one is brought back into the list.
pub open spec fn cursor_after_search(cursor: Option<usize>, len: nat) -> Option<usize> {
    match cursor {
        None => if len > 0 {
            Some(0)
        } else {
            None
        },
        Some(_) => clamped(cursor, len),
    }
}

/// Moves a cursor one entry down.
pub fn step_down(cursor: Option<usize>, len: usize) -> (r: Option<usize>)
    ensures
        r == stepped_down(cursor, len as nat),
{
    match cursor {
        None => if len > 0 {
            Some(0)
        } else {
            None
        },
        Some(i) => if len > 0 && i < len - 1 {
            Some(i + 1)
        } else {
            None
        },
    }
}

/// Moves a cursor one entry up.
pub fn step_up(cursor: Option<usize>, len: usize, searching: bool) -> (r: Option<usize>)
    ensures
        r == stepped_up(cursor, len as nat, searching),
{
    match cursor {
        None => if len == 0 {
            None
        } else if searching {
            Some(0)
        } else {
            Some(len - 1)
        },
        Some(i) => if i > 0 {
            Some(i - 1)
        } else {
            None
        },
    }
}

/// Brings a cursor back into a list of `len` entries.
pub fn clamp(cursor: Option<usize>, len: usize) -> (r: Option<usize>)
    ensures
        r == clamped(cursor, len as nat),
{
    match cursor {
        None => None,
        Some(i) => if len == 0 {
            None
        } else if i >= len {
            Some(len - 1)
        } else {
            Some(i)
        },
    }
}

/// Brings the search cursor into results that were computed anew.
pub fn settle_after_search(cursor: Option<usize>, len: usize) -> (r: Option<usize>)
    ensures
        r == cursor_after_search(cursor, len as nat),
{
    match cursor {
        None => if len > 0 {
            Some(0)
        } else {
            None
        },
        Some(_) => clamp(cursor, len),
    }
}

} // verus!
