//! Viewport scrolling and selection marking.
//!
//! The renderer draws a sixteen-byte-wide grid.  This module computes
//! which row-aligned slice of the buffer is visible and turns a linear
//! selection range into per-row highlight spans; drawing itself happens
//! outside the library.

use crate::utils::{move_window, moved_window};
use vstd::prelude::*;

verus! {

/// A rectangle of the terminal: the top-left cell and the dimensions.
pub struct DrawArea {
    pub origin: (u16, u16),
    pub dimens: (u16, u16),
}

/// The inclusive chunks of `[start, end]` taken `size` at a time: each
/// chunk runs from its start to the last value before the next chunk,
/// the final one cut off at `end`.
pub open spec fn chunks_spec(start: int, end: int, size: int) -> Seq<(u16, u16)>
    decreases (if start <= end {
        end + 1 - start
    } else {
        0
    }),
{
    if start > end || size <= 0 {
        Seq::<(u16, u16)>::empty()
    } else {
        seq![(start as u16, vstd::math::min(start + size - 1, end) as u16)] + chunks_spec(
            start + size,
            end,
            size,
        )
    }
}

/// Splits the inclusive range `[start, end]` into spans of `size`.
pub fn chunks_indices(start: u16, end: u16, size: u16) -> (ret: Vec<(u16, u16)>)
    requires
        size >= 1,
        end + size <= u16::MAX,
    ensures
        ret@ == chunks_spec(start as int, end as int, size as int),
{
    let mut result: Vec<(u16, u16)> = Vec::new();
    let mut cur = start;
    while cur <= end
        invariant
            size >= 1,
            end + size <= u16::MAX,
            chunks_spec(start as int, end as int, size as int) == result@ + chunks_spec(
                cur as int,
                end as int,
                size as int,
            ),
        decreases
                (if cur <= end {
                    end + 1 - cur
                } else {
                    0
                }),
    {
        let top = if cur + (size - 1) < end {
            cur + (size - 1)
        } else {
            end
        };
        result.push((cur, top));
        cur = cur + size;
    }
    proof {
        assert(result@ =~= result@ + chunks_spec(cur as int, end as int, size as int));
    }
    result
}

/// The highlight spans of the selection `[start, end]` on a
/// sixteen-wide grid, one triple per touched row: the row number, the
/// first highlighted column and the last.  Only the first row starts
/// after column zero and only the last row ends before column fifteen.
pub open spec fn marker_rows(lo: int, hi: int) -> Seq<(u16, u16, u16)> {
    Seq::new(
        (hi / 16 - lo / 16 + 1) as nat,
        |k: int|
            (
                (lo / 16 + k) as u16,
                if k == 0 {
                    (lo % 16) as u16
                } else {
                    0u16
                },
                if lo / 16 + k == hi / 16 {
                    (hi % 16) as u16
                } else {
                    15u16
                },
            ),
    )
}

/// Converts a linear selection range, given in either order, into
/// per-row highlight spans.
pub fn range_to_marker(start: u16, end: u16) -> (ret: Vec<(u16, u16, u16)>)
    ensures
        ret@ == marker_rows(
            vstd::math::min(start as int, end as int),
            vstd::math::max(start as int, end as int),
        ),
{
    let (lo, hi) = if start > end {
        (end, start)
    } else {
        (start, end)
    };

    let first_row = lo / 16;
    let last_row = hi / 16;
    let mut rows: Vec<(u16, u16, u16)> = Vec::new();
    let mut r = first_row;
    while r <= last_row
        invariant
            first_row == lo / 16,
            last_row == hi / 16,
            lo <= hi,
            first_row <= r <= last_row + 1,
            rows@ == marker_rows(lo as int, hi as int).subrange(0, r - first_row),
        decreases last_row + 1 - r,
    {
        let from = if r == first_row {
            lo % 16
        } else {
            0
        };
        let to = if r == last_row {
            hi % 16
        } else {
            15
        };
        rows.push((r, from, to));
        proof {
            assert(rows@ =~= marker_rows(lo as int, hi as int).subrange(0, r + 1 - first_row));
        }
        r = r + 1;
    }
    proof {
        assert(rows@ =~= marker_rows(lo as int, hi as int));
    }
    rows
}

/// The viewport after scrolling just far enough to show the row that
/// holds `index`.
pub open spec fn scrolled(vp: Viewport, index: usize) -> Viewport {
    Viewport {
        scroll_start: (16 * moved_window(
            vp.scroll_start as int / 16,
            vp.height as int,
            index as int / 16,
        )) as usize,
        height: vp.height,
    }
}

/// Scrolling to an index a second time changes nothing: the window
/// already shows it.
pub proof fn lemma_scrolled_idempotent(vp: Viewport, index: usize)
    requires
        vp.wf(),
    ensures
        scrolled(scrolled(vp, index), index) == scrolled(vp, index),
{
    crate::utils::lemma_move_window_shows_index(
        vp.scroll_start as int / 16,
        vp.height as int,
        index as int / 16,
    );
}

/// The scroll state of the hex grid: the buffer offset of the first
/// visible row and the number of visible rows.
pub struct Viewport {
    pub scroll_start: usize,
    pub height: usize,
}

impl Viewport {
    /// A window always shows at least one row.
    pub open spec fn wf(self) -> bool {
        self.height >= 1
    }

    pub fn new() -> (ret: Viewport)
        ensures
            ret.scroll_start == 0,
            ret.height == 13,
            ret.wf(),
    {
        Viewport { scroll_start: 0, height: 13 }
    }

    /// Adopts a new terminal height: the drawing area keeps a minimum
    /// height of four rows, three of which belong to the heading and the
    /// status lines.
    pub fn resize(&mut self, term_height: u16)
        ensures
            final(self).height == vstd::math::max(term_height as int, 4) - 3,
            final(self).scroll_start == old(self).scroll_start,
            final(self).wf(),
    {
        let clamped = if term_height < 4 {
            4
        } else {
            term_height
        };
        self.height = (clamped - 3) as usize;
    }

    /// Scrolls just far enough that the row holding `index` is visible.
    pub fn scroll_to(&mut self, index: usize)
        requires
            old(self).wf(),
        ensures
            final(self).height == old(self).height,
            final(self).scroll_start == 16 * moved_window(
                old(self).scroll_start as int / 16,
                old(self).height as int,
                index as int / 16,
            ),
            *final(self) == scrolled(*old(self), index),
            final(self).wf(),
    {
        let start_row = self.scroll_start / 16;
        let index_row = index / 16;
        let new_row = match move_window(start_row, self.height, index_row) {
            Some(row) => row,
            None => start_row,
        };
        proof {
            assert(new_row <= vstd::math::max(start_row as int, index_row as int));
        }
        self.scroll_start = new_row * 16;
    }
}

} // verus!
