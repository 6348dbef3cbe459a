//! Grid geometry and scroll state: how a linear item index maps to an
//! on-screen row and column, and which slice of items the currently visible
//! page covers.

use vstd::arithmetic::div_mod::{
    lemma_div_is_ordered, lemma_fundamental_div_mod, lemma_fundamental_div_mod_converse,
    lemma_mod_bound,
};
use vstd::arithmetic::mul::lemma_mul_inequality;
use vstd::math::{max, min};
use vstd::prelude::*;

verus! {

/// Fixed shape of the on-screen inventory grid, constant for one run.
#[derive(Clone, Copy, PartialEq, Eq, Structural, Debug)]
pub struct GridGeometry {
    /// Number of item columns on screen, at least 1.
    pub columns: usize,
    /// Number of fully visible item rows on screen, at least 1.
    pub visible_rows: usize,
    /// Total number of items in the inventory.
    pub total_items: usize,
}

impl GridGeometry {
    /// A usable geometry: at least one column and one visible row, and small
    /// enough that row arithmetic stays inside `usize`.
    pub open spec fn wf(self) -> bool {
        &&& self.columns >= 1
        &&& self.visible_rows >= 1
        &&& self.total_items + self.columns <= usize::MAX
    }

    /// Number of grid rows needed to hold every item: `ceil(total_items / columns)`.
    pub open spec fn spec_total_rows(self) -> int {
        (self.total_items + self.columns - 1) / (self.columns as int)
    }

    pub fn total_rows(&self) -> (r: usize)
        requires
            self.wf(),
        ensures
            r == self.spec_total_rows(),
    {
        (self.total_items + self.columns - 1) / self.columns
    }
}

/// `spec_total_rows` is exactly the ceiling of `total_items / columns`: enough
/// rows to hold every item, and no row to spare.
pub proof fn lemma_total_rows_is_ceil(g: GridGeometry)
    requires
        g.wf(),
    ensures
        g.spec_total_rows() >= 0,
        g.columns * g.spec_total_rows() >= g.total_items,
        g.total_items > 0 ==> g.columns * (g.spec_total_rows() - 1) < g.total_items,
        g.total_items == 0 ==> g.spec_total_rows() == 0,
        g.spec_total_rows() <= g.total_items,
{
    let c = g.columns as int;
    let x = g.total_items + c - 1;
    let d = g.spec_total_rows();
    lemma_fundamental_div_mod(x, c);
    lemma_mod_bound(x, c);
    assert(c * d == x - x % c);
    assert(c * d >= g.total_items);
    assert(c * (d - 1) == c * d - c) by (nonlinear_arith);
    assert(c * (d - 1) < g.total_items);
    if g.total_items == 0 {
        assert(c * d >= 0);
        if d < 0 {
            lemma_mul_inequality(d, -1, c);
            assert(d * c <= (-1) * c) by (nonlinear_arith)
                requires d <= -1 && c >= 1;
            assert(c * d <= -c) by (nonlinear_arith)
                requires d * c <= (-1) * c;
            assert(false);
        }
        if d > 0 {
            assert(c * (d - 1) >= 0) by (nonlinear_arith)
                requires c >= 1 && d >= 1;
            assert(false);
        }
    } else {
        if d < 0 {
            assert(c * d <= 0) by (nonlinear_arith)
                requires c >= 1 && d <= 0;
            assert(false);
        }
        // d <= total_items: ceil(t/c) <= t for c >= 1, t >= 1
        assert(g.total_items + c - 1 <= g.total_items * c) by (nonlinear_arith)
            requires c >= 1 && g.total_items >= 1;
        lemma_div_is_ordered(x, g.total_items * c, c);
        lemma_fundamental_div_mod_converse(g.total_items * c, c, g.total_items as int, 0);
        assert(d <= (g.total_items * c) / c);
    }
    if g.total_items == 0 {
        lemma_fundamental_div_mod_converse(c - 1, c, 0, c - 1);
    }
}

/// Scroll position of the orchestrator.  `scrolled_rows` counts rows
/// permanently scrolled past; `start_row` is the row offset within the
/// visible window where the first not-yet-passed row sits after a partial
/// scroll.
#[derive(Clone, Copy, PartialEq, Eq, Structural, Debug)]
pub struct ScrollState {
    pub scrolled_rows: usize,
    pub start_row: usize,
}

impl ScrollState {
    /// Invariant kept by the orchestrator: the window start stays strictly
    /// inside the grid (or at 0 for an empty grid), and scrolling is clamped
    /// at the end of the content.
    pub open spec fn wf(self, g: GridGeometry) -> bool {
        &&& self.start_row < g.visible_rows
        &&& (self.scrolled_rows + self.start_row == 0 || self.scrolled_rows + self.start_row
            < g.spec_total_rows())
        &&& self.scrolled_rows + g.visible_rows <= max(
            g.spec_total_rows(),
            g.visible_rows as int,
        )
    }

    /// First item index of the current page window.
    pub open spec fn spec_start_item(self, g: GridGeometry) -> int {
        g.columns * (self.scrolled_rows + self.start_row)
    }

    /// One past the last item index of the current page window.
    pub open spec fn spec_end_item(self, g: GridGeometry) -> int {
        min(g.columns * (self.scrolled_rows + g.visible_rows), g.total_items as int)
    }

    pub fn start_item(&self, g: &GridGeometry) -> (r: usize)
        requires
            g.wf(),
            self.wf(*g),
        ensures
            r == self.spec_start_item(*g),
    {
        proof {
            lemma_start_item_bounded(*self, *g);
        }
        g.columns * (self.scrolled_rows + self.start_row)
    }

    pub fn end_item(&self, g: &GridGeometry) -> (r: usize)
        requires
            g.wf(),
            self.wf(*g),
        ensures
            r == self.spec_end_item(*g),
    {
        let tr = g.total_rows();
        proof {
            lemma_total_rows_is_ceil(*g);
        }
        if tr <= self.scrolled_rows + g.visible_rows {
            proof {
                lemma_mul_inequality(tr as int, self.scrolled_rows + g.visible_rows, g.columns as int);
                assert(tr * g.columns == g.columns * tr) by (nonlinear_arith);
                assert((self.scrolled_rows + g.visible_rows) * g.columns == g.columns * (
                self.scrolled_rows + g.visible_rows)) by (nonlinear_arith);
            }
            g.total_items
        } else {
            proof {
                lemma_mul_inequality(
                    self.scrolled_rows + g.visible_rows,
                    tr as int - 1,
                    g.columns as int,
                );
                assert((self.scrolled_rows + g.visible_rows) * g.columns == g.columns * (
                self.scrolled_rows + g.visible_rows)) by (nonlinear_arith);
                assert((tr - 1) * g.columns == g.columns * (tr - 1)) by (nonlinear_arith);
            }
            g.columns * (self.scrolled_rows + g.visible_rows)
        }
    }

    /// Screen row of the item `target`, counted from the top of the visible
    /// window, given the current scroll position.
    pub open spec fn spec_cell_row(self, g: GridGeometry, target: int) -> int {
        (target - self.spec_start_item(g)) / (g.columns as int) + self.start_row
    }

    /// Screen column of the item `target`.
    pub open spec fn spec_cell_col(self, g: GridGeometry, target: int) -> int {
        (target - self.spec_start_item(g)) % (g.columns as int)
    }

    /// Maps an item of the current page window to its on-screen cell; the
    /// cell always lies inside the visible grid.
    pub fn cell_of(&self, g: &GridGeometry, target: usize) -> (rc: (usize, usize))
        requires
            g.wf(),
            self.wf(*g),
            self.spec_start_item(*g) <= target < self.spec_end_item(*g),
        ensures
            rc.0 == self.spec_cell_row(*g, target as int),
            rc.1 == self.spec_cell_col(*g, target as int),
            rc.0 < g.visible_rows,
            rc.1 < g.columns,
    {
        let s = self.start_item(g);
        let p = target - s;
        proof {
            lemma_cell_row(*g, *self, target as int);
        }
        (p / g.columns + self.start_row, p % g.columns)
    }
}

/// The cell of an item of the page window lies inside the visible grid, at
/// or below the window's start row, and its row is the item's global grid
/// row `target / columns` minus the rows scrolled past.
pub proof fn lemma_cell_row(g: GridGeometry, s: ScrollState, target: int)
    requires
        g.wf(),
        s.wf(g),
        s.spec_start_item(g) <= target < s.spec_end_item(g),
    ensures
        s.start_row <= s.spec_cell_row(g, target) < g.visible_rows,
        0 <= s.spec_cell_col(g, target) < g.columns,
        s.scrolled_rows + s.spec_cell_row(g, target) == target / (g.columns as int),
{
    let c = g.columns as int;
    let sr = s.scrolled_rows as int;
    let st = s.start_row as int;
    let vr = g.visible_rows as int;
    let k = vr - st;
    let p = target - s.spec_start_item(g);
    assert(c * (sr + vr) - c * (sr + st) == c * (vr - st)) by (nonlinear_arith);
    assert(p < c * k);
    assert(c * k - 1 == (k - 1) * c + (c - 1)) by (nonlinear_arith);
    lemma_div_is_ordered(p, c * k - 1, c);
    lemma_fundamental_div_mod_converse(c * k - 1, c, k - 1, c - 1);
    assert(p / c <= k - 1);
    lemma_div_is_ordered(0, p, c);
    lemma_fundamental_div_mod_converse(0, c, 0, 0);
    lemma_mod_bound(p, c);
    vstd::arithmetic::div_mod::lemma_hoist_over_denominator(p, sr + st, g.columns as nat);
    assert(p / c + (sr + st) == (p + (sr + st) * c) / c);
    assert((sr + st) * c == c * (sr + st)) by (nonlinear_arith);
    assert(p + c * (sr + st) == target);
}

/// After a confirmed toggle the relic-style grid may scroll by itself so
/// that the acted-on item's row tops the window.  Shifting the scroll state
/// by `shift` rows, clamped by the scroll room and by the item's row, keeps
/// the invariant; the new window starts at the first item of the acted-on
/// item's grid row, so it does not pass the item, and the window's end only
/// grows.
pub proof fn lemma_viewport_shift(g: GridGeometry, s: ScrollState, target: int, shift: int)
    requires
        g.wf(),
        s.wf(g),
        s.spec_start_item(g) <= target < s.spec_end_item(g),
        1 <= shift <= s.spec_cell_row(g, target),
        shift <= g.spec_total_rows() - s.scrolled_rows - g.visible_rows,
    ensures
        s.spec_cell_row(g, target) < g.visible_rows,
        s.scrolled_rows + shift <= g.total_items,
        ({
            let s2 = ScrollState {
                scrolled_rows: (s.scrolled_rows + shift) as usize,
                start_row: (s.spec_cell_row(g, target) - shift) as usize,
            };
            &&& s2.wf(g)
            &&& s2.spec_start_item(g) <= target
            &&& s.spec_end_item(g) <= s2.spec_end_item(g)
            &&& s2.spec_start_item(g) < s.spec_end_item(g)
        }),
{
    lemma_total_rows_is_ceil(g);
    lemma_cell_row(g, s, target);
    let c = g.columns as int;
    let tr = g.spec_total_rows();
    let q = target / c;
    let r = s.spec_cell_row(g, target);
    lemma_fundamental_div_mod(target, c);
    lemma_mod_bound(target, c);
    assert(c * q <= target);
    // the item's global row lies strictly inside the grid
    lemma_div_is_ordered(target, g.total_items - 1, c);
    vstd::arithmetic::div_mod::lemma_hoist_over_denominator(
        g.total_items - 1,
        1,
        g.columns as nat,
    );
    assert((g.total_items - 1) / c + 1 == (g.total_items - 1 + 1 * c) / c);
    assert(1 * c == c) by (nonlinear_arith);
    assert(q < tr);
    let s2 = ScrollState {
        scrolled_rows: (s.scrolled_rows + shift) as usize,
        start_row: (r - shift) as usize,
    };
    assert(s.scrolled_rows + shift <= tr - g.visible_rows);
    assert(s2.scrolled_rows + s2.start_row == q);
    assert(s2.wf(g));
    assert(s2.spec_start_item(g) == c * q);
    // the window's end only grows with the scrolled rows
    lemma_mul_inequality(
        s.scrolled_rows + g.visible_rows,
        s.scrolled_rows + shift + g.visible_rows,
        c,
    );
    assert((s.scrolled_rows + g.visible_rows) * c == c * (s.scrolled_rows + g.visible_rows))
        by (nonlinear_arith);
    assert((s.scrolled_rows + shift + g.visible_rows) * c == c * (s.scrolled_rows + shift
        + g.visible_rows)) by (nonlinear_arith);
}

/// The start of the page window never passes the total item count.
pub proof fn lemma_start_item_bounded(s: ScrollState, g: GridGeometry)
    requires
        g.wf(),
        s.wf(g),
    ensures
        0 <= s.spec_start_item(g) <= g.total_items,
{
    lemma_total_rows_is_ceil(g);
    let c = g.columns as int;
    let pos = s.scrolled_rows + s.start_row;
    if pos == 0 {
        assert(c * pos == 0) by (nonlinear_arith)
            requires pos == 0;
    } else {
        assert(pos < g.spec_total_rows());
        lemma_mul_inequality(pos as int, g.spec_total_rows() - 1, c);
        assert(pos * c == c * pos) by (nonlinear_arith);
        assert((g.spec_total_rows() - 1) * c == c * (g.spec_total_rows() - 1))
            by (nonlinear_arith);
        assert(g.total_items > 0);
        assert(c * pos >= 0) by (nonlinear_arith)
            requires c >= 0 && pos >= 0;
    }
}

/// A page turn by `rows = min(total_rows - scrolled_rows - visible_rows,
/// visible_rows)` rows advances the window to exactly where the previous one
/// ended: the new scroll state is well formed and its first item is the old
/// window's end, so consecutive page windows neither overlap nor leave a
/// gap.
pub proof fn lemma_page_turn(g: GridGeometry, s: ScrollState, rows: int)
    requires
        g.wf(),
        s.wf(g),
        g.spec_total_rows() > s.scrolled_rows + g.visible_rows,
        rows == min(
            g.spec_total_rows() - s.scrolled_rows - g.visible_rows,
            g.visible_rows as int,
        ),
    ensures
        1 <= rows <= g.visible_rows,
        s.scrolled_rows + rows <= g.total_items,
        ({
            let s2 = ScrollState {
                scrolled_rows: (s.scrolled_rows + rows) as usize,
                start_row: (g.visible_rows - rows) as usize,
            };
            s2.wf(g) && s2.spec_start_item(g) == s.spec_end_item(g)
        }),
{
    lemma_total_rows_is_ceil(g);
    let c = g.columns as int;
    let tr = g.spec_total_rows();
    let sv = s.scrolled_rows + g.visible_rows;
    assert(s.scrolled_rows + rows <= tr - g.visible_rows);
    assert(tr <= g.total_items);
    let s2 = ScrollState {
        scrolled_rows: (s.scrolled_rows + rows) as usize,
        start_row: (g.visible_rows - rows) as usize,
    };
    assert(s2.scrolled_rows + s2.start_row == sv);
    assert(sv < tr);
    assert(s2.wf(g));
    // the old window was not clamped: c * sv < total_items
    lemma_mul_inequality(sv, tr - 1, c);
    assert(sv * c == c * sv) by (nonlinear_arith);
    assert((tr - 1) * c == c * (tr - 1)) by (nonlinear_arith);
    assert(g.total_items > 0);
    assert(c * sv < g.total_items);
    assert(s2.spec_start_item(g) == c * sv);
    assert(s.spec_end_item(g) == c * sv);
}

/// The page window `[start_item, end_item)` always lies inside
/// `[0, total_items)` as a range: `0 <= start_item <= end_item <= total_items`.
pub proof fn lemma_page_window_in_range(s: ScrollState, g: GridGeometry)
    requires
        g.wf(),
        s.wf(g),
    ensures
        0 <= s.spec_start_item(g),
        s.spec_start_item(g) <= s.spec_end_item(g),
        s.spec_end_item(g) <= g.total_items,
{
    lemma_start_item_bounded(s, g);
    let c = g.columns as int;
    lemma_mul_inequality(
        s.scrolled_rows + s.start_row,
        s.scrolled_rows + g.visible_rows,
        c,
    );
    assert((s.scrolled_rows + s.start_row) * c == c * (s.scrolled_rows + s.start_row))
        by (nonlinear_arith);
    assert((s.scrolled_rows + g.visible_rows) * c == c * (s.scrolled_rows + g.visible_rows))
        by (nonlinear_arith);
}

} // verus!
