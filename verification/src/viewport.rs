//! Choosing which contiguous slice of a long list is drawn around the
//! selection when there are fewer rows than items.

use vstd::prelude::*;

verus! {

/// How many lines a list of `total` items is drawn with once `deficit` lines
/// have to be given up. A deficit larger than the list leaves one line.
pub open spec fn shown_lines(total: int, deficit: int) -> int {
    if deficit > total {
        1
    } else {
        total - deficit
    }
}

/// The part of `deficit` that a list of `total` items cannot absorb.
pub open spec fn unresolved_deficit(total: int, deficit: int) -> int {
    if deficit > total {
        deficit - total + 1
    } else {
        0
    }
}

/// Where a window of `shown` lines centred on `anchor` would start if the
/// list were endless: half a window above the anchor, but never before 0.
pub open spec fn centred_start(anchor: int, shown: int) -> int {
    if anchor >= shown / 2 {
        anchor - shown / 2
    } else {
        0
    }
}

/// First index of the window: the centred start, moved up as far as needed
/// (and as far as possible) for the window to end inside the list.
pub open spec fn window_start(total: int, deficit: int, anchor: int) -> int {
    let shown = shown_lines(total, deficit);
    let start = centred_start(anchor, shown);
    if start + shown <= total {
        start
    } else if total >= shown {
        total - shown
    } else {
        0
    }
}

/// One past the last index of the window.
pub open spec fn window_end(total: int, deficit: int, anchor: int) -> int {
    let shown = shown_lines(total, deficit);
    let start = centred_start(anchor, shown);
    if start + shown <= total {
        start + shown
    } else {
        total
    }
}

/// The index a window is centred on: the selection, or 0 without one.
pub open spec fn anchor_of(anchor: Option<usize>) -> int {
    match anchor {
        Some(a) => a as int,
        None => 0,
    }
}

/// Computes the window `[start, end)` of a list of `total` items that is
/// drawn when `deficit` lines do not fit, centred on `anchor`.
///
/// Returns `(start, anchor_index, end, unresolved_deficit)`. `start` items
/// are hidden above the window and `total - end` below it.
pub fn window(total: usize, deficit: usize, anchor: Option<usize>) -> (w: (usize, usize, usize, usize))
    requires
        unresolved_deficit(total as int, deficit as int) <= usize::MAX,
    ensures
        w.0 == window_start(total as int, deficit as int, anchor_of(anchor)),
        w.1 == anchor_of(anchor),
        w.2 == window_end(total as int, deficit as int, anchor_of(anchor)),
        w.3 == unresolved_deficit(total as int, deficit as int),
{
    let (shown, unresolved): (usize, usize) = if deficit > total {
        (1, deficit - total + 1)
    } else {
        (total - deficit, 0)
    };
    let anchor_index: usize = match anchor {
        Some(a) => a,
        None => 0,
    };
    let centred: usize = if anchor_index >= shown / 2 {
        anchor_index - shown / 2
    } else {
        0
    };
    if shown <= total && centred <= total - shown {
        (centred, anchor_index, centred + shown, unresolved)
    } else if total >= shown {
        (total - shown, anchor_index, total, unresolved)
    } else {
        (0, anchor_index, total, unresolved)
    }
}

/// How many lines of a list of `len` entries do not fit into a table of
/// `table_rows` rows, one of which is the title's.
pub open spec fn rows_deficit(table_rows: int, len: int) -> int {
    let room = if table_rows > 0 {
        table_rows - 1
    } else {
        0
    };
    if len > room {
        len - room
    } else {
        0
    }
}

/// Computes [`rows_deficit`].
pub fn deficit_for_rows(table_rows: usize, len: usize) -> (deficit: usize)
    ensures
        deficit == rows_deficit(table_rows as int, len as int),
        deficit <= len,
{
    let room: usize = if table_rows > 0 {
        table_rows - 1
    } else {
        0
    };
    if len > room {
        len - room
    } else {
        0
    }
}

/// A window lies inside the list, and while the deficit does not exceed the
/// list it holds exactly the lines that are left.
pub proof fn lemma_window_bounds(total: int, deficit: int, anchor: int)
    requires
        0 <= total,
        0 <= deficit,
        0 <= anchor,
    ensures
        0 <= window_start(total, deficit, anchor) <= window_end(total, deficit, anchor) <= total,
        deficit <= total ==> window_end(total, deficit, anchor) - window_start(
            total,
            deficit,
            anchor,
        ) == total - deficit,
        deficit > total && total > 0 ==> window_end(total, deficit, anchor) - window_start(
            total,
            deficit,
            anchor,
        ) == 1,
{
}

/// A window of at least one line holds the entry it is centred on, if that
/// entry exists.
pub proof fn lemma_window_holds_anchor(total: int, deficit: int, anchor: int)
    requires
        0 <= deficit,
        0 <= anchor < total,
        deficit != total,
    ensures
        window_start(total, deficit, anchor) <= anchor < window_end(total, deficit, anchor),
{
}

} // verus!
