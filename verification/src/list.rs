//! Scroll and virtualization bookkeeping for one tab's row list.
//!
//! Rows are laid out top to bottom at integer pixel heights. A row that was
//! rendered before has a cached measured height; any other row is estimated
//! at a default height, which keeps scrollbar geometry stable while bounding
//! per-frame work to the rows that intersect the viewport.

use vstd::prelude::*;

verus! {

/// Per-tab scroll state: cached row heights, the viewport, and a guard
/// against reentrant layout of the same list within one frame.
pub struct ListState {
    /// Measured heights of previously rendered rows, by display position.
    pub heights: Vec<u32>,
    /// Estimated height for rows that were never measured.
    pub default_height: u32,
    /// How many pixels of content lie above the viewport.
    pub scroll_offset: u64,
    /// Height of the viewport in pixels.
    pub viewport_height: u64,
    /// True while a layout pass over this list is in flight.
    pub in_layout: bool,
}

/// Height of the row at display position `i`: measured if cached, estimated
/// otherwise.
pub open spec fn spec_row_height(s: ListState, i: int) -> int {
    if 0 <= i < s.heights@.len() {
        s.heights@[i] as int
    } else {
        s.default_height as int
    }
}

/// Vertical offset of the top of the row at display position `i`.
pub open spec fn spec_offset(s: ListState, i: int) -> int
    decreases i,
{
    if i <= 0 {
        0
    } else {
        spec_offset(s, i - 1) + spec_row_height(s, i - 1)
    }
}

/// Row offsets never decrease as the position grows.
pub proof fn lemma_offset_monotonic(s: ListState, i: int, j: int)
    requires
        0 <= i <= j,
    ensures
        spec_offset(s, i) <= spec_offset(s, j),
    decreases j - i,
{
    if i < j {
        lemma_offset_monotonic(s, i, j - 1);
    }
}

/// Each row is at most `u32::MAX` pixels tall, so the offset of row `i` is
/// bounded by `i` times that.
pub proof fn lemma_offset_bound(s: ListState, i: int)
    requires
        0 <= i,
    ensures
        0 <= spec_offset(s, i) <= i * 0xffff_ffff,
    decreases i,
{
    if i > 0 {
        lemma_offset_bound(s, i - 1);
    }
}

/// The first display position at or after `i` whose row ends below the top
/// of the viewport, or `n` when every row ends above it.
pub open spec fn spec_first_visible(s: ListState, n: int, i: int) -> int
    decreases n - i,
{
    if i >= n {
        n
    } else if spec_offset(s, i + 1) > s.scroll_offset as int {
        i
    } else {
        spec_first_visible(s, n, i + 1)
    }
}

/// The first display position at or after `i` whose row starts at or below
/// the bottom of the viewport, or `n` when none does.
pub open spec fn spec_end_visible(s: ListState, n: int, i: int) -> int
    decreases n - i,
{
    if i >= n {
        n
    } else if spec_offset(s, i) >= s.scroll_offset as int + s.viewport_height as int {
        i
    } else {
        spec_end_visible(s, n, i + 1)
    }
}

pub proof fn lemma_first_visible_props(s: ListState, n: int, i: int)
    requires
        0 <= i <= n,
    ensures
        i <= spec_first_visible(s, n, i) <= n,
        forall|j: int|
            i <= j < spec_first_visible(s, n, i) ==> #[trigger] spec_offset(s, j + 1)
                <= s.scroll_offset as int,
        spec_first_visible(s, n, i) < n ==> spec_offset(s, spec_first_visible(s, n, i) + 1)
            > s.scroll_offset as int,
    decreases n - i,
{
    if i < n && !(spec_offset(s, i + 1) > s.scroll_offset as int) {
        lemma_first_visible_props(s, n, i + 1);
    }
}

pub proof fn lemma_end_visible_props(s: ListState, n: int, i: int)
    requires
        0 <= i <= n,
    ensures
        i <= spec_end_visible(s, n, i) <= n,
        forall|j: int|
            i <= j < spec_end_visible(s, n, i) ==> spec_offset(s, j) < s.scroll_offset as int
                + s.viewport_height as int,
        spec_end_visible(s, n, i) < n ==> spec_offset(s, spec_end_visible(s, n, i))
            >= s.scroll_offset as int + s.viewport_height as int,
    decreases n - i,
{
    if i < n && !(spec_offset(s, i) >= s.scroll_offset as int + s.viewport_height as int) {
        lemma_end_visible_props(s, n, i + 1);
    }
}

impl ListState {
    /// A fresh list: nothing measured, nothing scrolled, no layout running.
    pub fn new(default_height: u32) -> (r: ListState)
        ensures
            r.heights@.len() == 0,
            r.default_height == default_height,
            r.scroll_offset == 0,
            r.viewport_height == 0,
            !r.in_layout,
    {
        ListState {
            heights: Vec::new(),
            default_height,
            scroll_offset: 0,
            viewport_height: 0,
            in_layout: false,
        }
    }

    /// Moves the scroll anchor; everything else survives across frames.
    pub fn set_scroll(&mut self, scroll_offset: u64)
        ensures
            *final(self) == (ListState { scroll_offset, ..*old(self) }),
    {
        self.scroll_offset = scroll_offset;
    }

    /// Records the viewport height for this frame.
    pub fn set_viewport(&mut self, viewport_height: u64)
        ensures
            *final(self) == (ListState { viewport_height, ..*old(self) }),
    {
        self.viewport_height = viewport_height;
    }

    /// Caches the measured height of the row at display position `i`,
    /// padding any never-measured gap with the default estimate.
    pub fn record_height(&mut self, i: usize, h: u32)
        requires
            i < 0xffff_ffff,
        ensures
            final(self).heights@.len() == if i < old(self).heights@.len() {
                old(self).heights@.len() as int
            } else {
                i + 1
            },
            forall|k: int|
                0 <= k < final(self).heights@.len() ==> final(self).heights@[k] == (if k == i {
                    h
                } else if k < old(self).heights@.len() {
                    old(self).heights@[k]
                } else {
                    old(self).default_height
                }),
            final(self).default_height == old(self).default_height,
            final(self).scroll_offset == old(self).scroll_offset,
            final(self).viewport_height == old(self).viewport_height,
            final(self).in_layout == old(self).in_layout,
    {
        let ghost orig = *old(self);
        while self.heights.len() <= i
            invariant
                i < 0xffff_ffff,
                self.heights@.len() >= orig.heights@.len(),
                self.heights@.len() <= i + 1 || self.heights@.len() == orig.heights@.len(),
                forall|k: int|
                    0 <= k < self.heights@.len() ==> self.heights@[k] == (if k
                        < orig.heights@.len() {
                        orig.heights@[k]
                    } else {
                        orig.default_height
                    }),
                self.default_height == orig.default_height,
                self.scroll_offset == orig.scroll_offset,
                self.viewport_height == orig.viewport_height,
                self.in_layout == orig.in_layout,
            decreases i + 1 - self.heights@.len(),
        {
            let d = self.default_height;
            self.heights.push(d);
        }
        self.heights[i] = h;
    }

    /// Claims the layout pass. Returns false, changing nothing, when a pass
    /// is already in flight: the caller must fail fast, not re-enter.
    pub fn begin_layout(&mut self) -> (ok: bool)
        ensures
            ok == !old(self).in_layout,
            *final(self) == (ListState { in_layout: true, ..*old(self) }),
    {
        if self.in_layout {
            false
        } else {
            self.in_layout = true;
            true
        }
    }

    /// Releases the layout pass claimed by `begin_layout`.
    pub fn end_layout(&mut self)
        ensures
            *final(self) == (ListState { in_layout: false, ..*old(self) }),
    {
        self.in_layout = false;
    }

    /// Height of the row at display position `i` as laid out this frame.
    pub fn row_height(&self, i: usize) -> (h: u32)
        ensures
            h as int == spec_row_height(*self, i as int),
    {
        if i < self.heights.len() {
            self.heights[i]
        } else {
            self.default_height
        }
    }

    /// The contiguous display positions whose rows intersect the viewport:
    /// every position in `[first, end)` overlaps it, every position before
    /// `first` ends above it, and every position from `end` on starts below
    /// it. Only this range is rendered, which bounds per-frame work.
    pub fn visible_range(&self, n: usize) -> (r: (usize, usize))
        requires
            n <= 0xffff_ffff,
            self.scroll_offset as int + self.viewport_height as int <= u64::MAX as int,
        ensures
            r.0 as int == spec_first_visible(*self, n as int, 0),
            r.1 as int == spec_end_visible(*self, n as int, r.0 as int),
            r.0 <= r.1 <= n,
            forall|i: int|
                0 <= i < r.0 ==> #[trigger] spec_offset(*self, i + 1)
                    <= self.scroll_offset as int,
            forall|i: int|
                r.0 <= i < r.1 ==> #[trigger] spec_offset(*self, i + 1)
                    > self.scroll_offset as int && spec_offset(*self, i)
                    < self.scroll_offset as int + self.viewport_height as int,
            forall|i: int|
                r.1 <= i < n ==> spec_offset(*self, i) >= self.scroll_offset as int
                    + self.viewport_height as int,
    {
        let scroll = self.scroll_offset;
        let limit = self.scroll_offset + self.viewport_height;

        let mut i: usize = 0;
        let mut acc: u64 = 0;
        loop
            invariant
                n <= 0xffff_ffff,
                0 <= i <= n,
                acc as int == spec_offset(*self, i as int),
                scroll == self.scroll_offset,
                spec_first_visible(*self, n as int, 0) == spec_first_visible(
                    *self,
                    n as int,
                    i as int,
                ),
            ensures
                0 <= i <= n,
                acc as int == spec_offset(*self, i as int),
                i as int == spec_first_visible(*self, n as int, 0),
            decreases n - i,
        {
            if i >= n {
                break ;
            }
            proof {
                lemma_offset_bound(*self, i as int);
                assert((i as int) * 0xffff_ffff + 0xffff_ffff <= 0xffff_ffff * 0xffff_ffff
                    + 0xffff_ffff) by (nonlinear_arith)
                    requires
                        0 <= i as int <= 0xffff_ffff - 1,
                ;
            }
            let next = acc + self.row_height(i) as u64;
            if next > scroll {
                break ;
            }
            acc = next;
            i = i + 1;
        }
        let first = i;

        let mut j: usize = first;
        let mut acc2: u64 = acc;
        loop
            invariant
                n <= 0xffff_ffff,
                first <= j <= n,
                acc2 as int == spec_offset(*self, j as int),
                limit as int == self.scroll_offset as int + self.viewport_height as int,
                spec_end_visible(*self, n as int, first as int) == spec_end_visible(
                    *self,
                    n as int,
                    j as int,
                ),
            ensures
                first <= j <= n,
                limit as int == self.scroll_offset as int + self.viewport_height as int,
                j as int == spec_end_visible(*self, n as int, first as int),
            decreases n - j,
        {
            if j >= n {
                break ;
            }
            if acc2 >= limit {
                break ;
            }
            proof {
                lemma_offset_bound(*self, j as int);
                assert((j as int) * 0xffff_ffff + 0xffff_ffff <= 0xffff_ffff * 0xffff_ffff
                    + 0xffff_ffff) by (nonlinear_arith)
                    requires
                        0 <= j as int <= 0xffff_ffff - 1,
                ;
            }
            acc2 = acc2 + self.row_height(j) as u64;
            j = j + 1;
        }
        let end = j;

        proof {
            lemma_first_visible_props(*self, n as int, 0);
            lemma_end_visible_props(*self, n as int, first as int);
            if first < end {
                assert forall|i2: int| first <= i2 < end implies #[trigger] spec_offset(
                    *self,
                    i2 + 1,
                ) > self.scroll_offset as int && spec_offset(*self, i2) < self.scroll_offset as int
                    + self.viewport_height as int by {
                    lemma_offset_monotonic(*self, first as int + 1, i2 + 1);
                }
            }
            assert forall|i2: int| end <= i2 < n implies #[trigger] spec_offset(*self, i2)
                >= self.scroll_offset as int + self.viewport_height as int by {
                lemma_offset_monotonic(*self, end as int, i2);
            }
        }
        (first, end)
    }
}

} // verus!
