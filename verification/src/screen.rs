//! The double-buffered character grid. Writes land on a *pending*
//! surface; `flush` moves genuinely changed, in-bounds cells onto the
//! *committed* surface and reports exactly those cells, so a cell is
//! re-emitted to the terminal only when its character really changed.

use vstd::prelude::*;

verus! {

use vstd::arithmetic::div_mod::lemma_fundamental_div_mod;
use vstd::arithmetic::div_mod::lemma_fundamental_div_mod_converse_div;
use vstd::arithmetic::div_mod::lemma_fundamental_div_mod_converse_mod;

use crate::position::Position;

/// The character an untouched cell reads as. Writing it is an ordinary
/// write, not a delete: clearing a cell means writing this sentinel.
pub const BLANK: char = ' ';

/// Mathematical model of a screen: fixed dimensions and the two cell
/// surfaces, row-major, one slot per in-bounds cell.
#[verifier::ext_equal]
pub struct GridView {
    pub cols: int,
    pub rows: int,
    pub pending: Seq<Option<char>>,
    pub committed: Seq<Option<char>>,
}

/// What a cell commits to on flush: the pending character if one was
/// ever written, otherwise whatever was committed before.
pub open spec fn merge_cell(p: Option<char>, c: Option<char>) -> Option<char> {
    if p is Some {
        p
    } else {
        c
    }
}

/// The coordinate of row-major slot `k` in a grid `cols` wide.
pub open spec fn pos_of(k: int, cols: int) -> Position {
    Position { col: (k % cols) as i32, row: (k / cols) as i32 }
}

impl GridView {
    /// Number of cell slots.
    pub open spec fn grid_len(self) -> int {
        self.cols * self.rows
    }

    pub open spec fn wf(self) -> bool {
        &&& 0 <= self.cols <= i32::MAX
        &&& 0 <= self.rows <= i32::MAX
        &&& self.pending.len() == self.grid_len()
        &&& self.committed.len() == self.grid_len()
    }

    /// A coordinate with a cell of its own: strictly inside the grid.
    pub open spec fn in_bounds(self, p: Position) -> bool {
        0 <= p.col < self.cols && 0 <= p.row < self.rows
    }

    /// Row-major slot of an in-bounds coordinate.
    pub open spec fn cell(self, p: Position) -> int {
        p.row * self.cols + p.col
    }

    pub open spec fn pending_at(self, p: Position) -> Option<char> {
        if self.in_bounds(p) {
            self.pending[self.cell(p)]
        } else {
            None
        }
    }

    pub open spec fn committed_at(self, p: Position) -> Option<char> {
        if self.in_bounds(p) {
            self.committed[self.cell(p)]
        } else {
            None
        }
    }

    /// What a read returns: the committed character, blank if the cell
    /// was never committed or lies outside the grid.
    pub open spec fn read_char(self, p: Position) -> char {
        match self.committed_at(p) {
            Some(c) => c,
            None => BLANK,
        }
    }

    /// The buffered-but-unflushed character, blank if none.
    pub open spec fn pending_char(self, p: Position) -> char {
        match self.pending_at(p) {
            Some(c) => c,
            None => BLANK,
        }
    }

    /// Effect of one write: an in-bounds write overwrites the pending
    /// slot; an out-of-bounds write changes nothing at all.
    pub open spec fn write(self, p: Position, ch: char) -> GridView {
        if self.in_bounds(p) {
            GridView {
                cols: self.cols,
                rows: self.rows,
                pending: self.pending.update(self.cell(p), Some(ch)),
                committed: self.committed,
            }
        } else {
            self
        }
    }

    /// Effect of a flush on the surfaces: every written cell is
    /// committed; the pending surface is kept as the authoritative
    /// overlay of last intended values.
    pub open spec fn merge(self) -> GridView {
        GridView {
            cols: self.cols,
            rows: self.rows,
            pending: self.pending,
            committed: Seq::new(
                self.grid_len() as nat,
                |k: int| merge_cell(self.pending[k], self.committed[k]),
            ),
        }
    }

    /// Both surfaces forgotten; every cell reads blank again.
    pub open spec fn cleared(self) -> GridView {
        GridView {
            cols: self.cols,
            rows: self.rows,
            pending: Seq::new(self.grid_len() as nat, |k: int| None),
            committed: Seq::new(self.grid_len() as nat, |k: int| None),
        }
    }

    /// Slot `k` would appear in a flush: something is pending there and
    /// it differs from what was committed.
    pub open spec fn changed_at(self, k: int) -> bool {
        self.pending[k] is Some && self.committed[k] != self.pending[k]
    }

    /// The diff of the first `n` slots, in row-major slot order.
    pub open spec fn diff_upto(self, n: int) -> Seq<(Position, char)>
        decreases n,
    {
        if n <= 0 {
            Seq::empty()
        } else if self.changed_at(n - 1) {
            self.diff_upto(n - 1).push((pos_of(n - 1, self.cols), self.pending[n - 1]->0))
        } else {
            self.diff_upto(n - 1)
        }
    }

    /// Exactly what a flush reports.
    pub open spec fn diff(self) -> Seq<(Position, char)> {
        self.diff_upto(self.grid_len())
    }
}

/// An in-bounds coordinate's slot lies inside the grid.
pub proof fn lemma_cell_in_range(g: GridView, p: Position)
    requires
        g.wf(),
        g.in_bounds(p),
    ensures
        0 <= g.cell(p) < g.grid_len(),
        p.row * g.cols <= g.cell(p),
{
    assert(0 <= p.row * g.cols + p.col < g.cols * g.rows) by (nonlinear_arith)
        requires
            0 <= p.col < g.cols,
            0 <= p.row < g.rows,
    ;
}

/// Slot and coordinate are inverse to one another on the grid.
pub proof fn lemma_pos_of_cell(g: GridView, p: Position)
    requires
        g.wf(),
        g.in_bounds(p),
    ensures
        pos_of(g.cell(p), g.cols) == p,
{
    lemma_fundamental_div_mod_converse_div(g.cell(p), g.cols, p.row as int, p.col as int);
    lemma_fundamental_div_mod_converse_mod(g.cell(p), g.cols, p.row as int, p.col as int);
}

/// Every slot's coordinate is in bounds.
pub proof fn lemma_pos_of_in_bounds(g: GridView, k: int)
    requires
        g.wf(),
        0 <= k < g.grid_len(),
    ensures
        g.in_bounds(pos_of(k, g.cols)),
        g.cell(pos_of(k, g.cols)) == k,
{
    assert(g.cols > 0) by (nonlinear_arith)
        requires
            0 <= g.cols,
            0 <= g.rows,
            0 <= k < g.cols * g.rows,
    ;
    lemma_fundamental_div_mod(k, g.cols);
    assert(0 <= k % g.cols < g.cols);
    assert(k / g.cols < g.rows) by (nonlinear_arith)
        requires
            g.cols > 0,
            k < g.cols * g.rows,
            k == g.cols * (k / g.cols) + k % g.cols,
            0 <= k % g.cols,
    ;
    assert(k / g.cols >= 0) by (nonlinear_arith)
        requires
            g.cols > 0,
            k >= 0,
            k == g.cols * (k / g.cols) + k % g.cols,
            k % g.cols < g.cols,
    ;
    assert((k / g.cols) * g.cols == g.cols * (k / g.cols)) by (nonlinear_arith);
}

proof fn lemma_diff_upto_of_settled(g: GridView, n: int)
    requires
        forall|k: int| 0 <= k < n ==> !g.changed_at(k),
    ensures
        g.diff_upto(n) =~= Seq::<(Position, char)>::empty(),
    decreases n,
{
    if n > 0 {
        lemma_diff_upto_of_settled(g, n - 1);
    }
}

/// A flush settles the grid: diffing the merged surfaces again yields
/// the empty diff. Hence two consecutive flushes with no write in
/// between always report nothing the second time.
pub proof fn lemma_second_flush_is_empty(g: GridView)
    requires
        g.wf(),
    ensures
        g.merge().diff() =~= Seq::<(Position, char)>::empty(),
{
    let m = g.merge();
    assert forall|k: int| 0 <= k < m.grid_len() implies !m.changed_at(k) by {
        assert(m.committed[k] == merge_cell(g.pending[k], g.committed[k]));
    }
    lemma_diff_upto_of_settled(m, m.grid_len());
}

/// An in-bounds write, once flushed, is exactly what a committed read
/// returns.
pub proof fn lemma_write_flush_read(g: GridView, p: Position, ch: char)
    requires
        g.wf(),
        g.in_bounds(p),
    ensures
        g.write(p, ch).merge().read_char(p) == ch,
{
    lemma_cell_in_range(g, p);
}

/// An out-of-bounds write is invisible: the grid is exactly as if the
/// write never happened, so no flush can ever report it and the
/// committed surface can never hold it.
pub proof fn lemma_out_of_bounds_write_invisible(g: GridView, p: Position, ch: char)
    requires
        !g.in_bounds(p),
    ensures
        g.write(p, ch) == g,
{
}

proof fn lemma_diff_upto_entries_are_changes(g: GridView, n: int, i: int)
    requires
        g.wf(),
        0 <= n <= g.grid_len(),
        0 <= i < g.diff_upto(n).len(),
    ensures
        g.in_bounds(g.diff_upto(n)[i].0),
        g.pending_at(g.diff_upto(n)[i].0) == Some(g.diff_upto(n)[i].1),
        g.committed_at(g.diff_upto(n)[i].0) != Some(g.diff_upto(n)[i].1),
    decreases n,
{
    if n > 0 {
        if g.changed_at(n - 1) && i == g.diff_upto(n).len() - 1 {
            lemma_pos_of_in_bounds(g, n - 1);
        } else {
            lemma_diff_upto_entries_are_changes(g, n - 1, i);
        }
    }
}

/// Everything a flush reports is a genuine change: a coordinate
/// strictly inside the grid, carrying its pending character, which
/// differs from what was committed there. In particular an
/// out-of-bounds coordinate never appears in a diff.
pub proof fn lemma_diff_entries_are_changes(g: GridView, i: int)
    requires
        g.wf(),
        0 <= i < g.diff().len(),
    ensures
        g.in_bounds(g.diff()[i].0),
        g.pending_at(g.diff()[i].0) == Some(g.diff()[i].1),
        g.committed_at(g.diff()[i].0) != Some(g.diff()[i].1),
{
    lemma_diff_upto_entries_are_changes(g, g.grid_len(), i);
}

proof fn lemma_diff_upto_contains_change(g: GridView, n: int, k: int)
    requires
        g.wf(),
        0 <= k < n <= g.grid_len(),
        g.changed_at(k),
    ensures
        g.diff_upto(n).contains((pos_of(k, g.cols), g.pending[k]->0)),
    decreases n,
{
    let entry = (pos_of(k, g.cols), g.pending[k]->0);
    if k == n - 1 {
        assert(g.diff_upto(n)[g.diff_upto(n).len() - 1] == entry);
    } else {
        lemma_diff_upto_contains_change(g, n - 1, k);
        let j = choose|j: int| 0 <= j < g.diff_upto(n - 1).len() && #[trigger] g.diff_upto(n - 1)[j]
            == entry;
        assert(g.diff_upto(n)[j] == entry);
    }
}

/// Every genuine change is reported: an in-bounds cell whose pending
/// character differs from the committed one appears in the diff with
/// exactly that character. Together with
/// `lemma_diff_entries_are_changes` this makes the diff minimal and
/// complete.
pub proof fn lemma_diff_reports_every_change(g: GridView, p: Position)
    requires
        g.wf(),
        g.in_bounds(p),
        g.pending_at(p) is Some,
        g.committed_at(p) != g.pending_at(p),
    ensures
        g.diff().contains((p, g.pending_at(p)->0)),
{
    lemma_cell_in_range(g, p);
    lemma_pos_of_cell(g, p);
    lemma_diff_upto_contains_change(g, g.grid_len(), g.cell(p));
}

/// A terminal's character grid, double-buffered. `cols` and `rows` are
/// fixed for the buffer's lifetime.
pub struct Screen {
    pub cols: i32,
    pub rows: i32,
    pending: Vec<Option<char>>,
    committed: Vec<Option<char>>,
}

impl View for Screen {
    type V = GridView;

    closed spec fn view(&self) -> GridView {
        GridView {
            cols: self.cols as int,
            rows: self.rows as int,
            pending: self.pending@,
            committed: self.committed@,
        }
    }
}

impl Screen {
    /// Grid width in columns.
    pub fn width(&self) -> (w: i32)
        ensures
            w == self@.cols,
    {
        self.cols
    }

    /// Grid height in rows.
    pub fn height(&self) -> (h: i32)
        ensures
            h == self@.rows,
    {
        self.rows
    }

    /// A fresh screen: both surfaces empty, one slot per cell.
    pub fn with_size(col_row: Position) -> (s: Screen)
        requires
            0 <= col_row.col,
            0 <= col_row.row,
            col_row.col * col_row.row <= usize::MAX,
        ensures
            s@.wf(),
            s@.cols == col_row.col,
            s@.rows == col_row.row,
            forall|k: int|
                0 <= k < s@.grid_len() ==> s@.pending[k] is None && s@.committed[k] is None,
    {
        let total: usize = (col_row.col as usize) * (col_row.row as usize);
        let mut pending: Vec<Option<char>> = Vec::new();
        let mut committed: Vec<Option<char>> = Vec::new();
        let mut i: usize = 0;
        while i < total
            invariant
                i <= total,
                pending.len() == i,
                committed.len() == i,
                forall|k: int| 0 <= k < i ==> pending@[k] is None && committed@[k] is None,
            decreases total - i,
        {
            pending.push(None);
            committed.push(None);
            i = i + 1;
        }
        Screen { cols: col_row.col, rows: col_row.row, pending, committed }
    }

    /// Buffers `ch` at `position` and returns what was pending there
    /// before (blank if nothing). The write is never rejected: an
    /// out-of-bounds position is accepted and ignored, since the grid
    /// keeps exactly `cols * rows` cells and such a cell could never be
    /// committed anyway.
    pub fn write(&mut self, position: &Position, ch: char) -> (prev: char)
        requires
            old(self)@.wf(),
        ensures
            final(self)@ == old(self)@.write(*position, ch),
            final(self)@.wf(),
            prev == old(self)@.pending_char(*position),
    {
        if 0 <= position.col && position.col < self.cols && 0 <= position.row
            && position.row < self.rows {
            proof {
                lemma_cell_in_range(self@, *position);
                assert(self@.grid_len() <= usize::MAX) by {
                    assert(self.pending.len() == self@.pending.len());
                }
            }
            let idx: usize = (position.row as usize) * (self.cols as usize)
                + (position.col as usize);
            let prev: Option<char> = self.pending[idx];
            self.pending[idx] = Some(ch);
            match prev {
                Some(c) => c,
                None => BLANK,
            }
        } else {
            BLANK
        }
    }

    /// The committed character at `position`; blank if that cell was
    /// never flushed or lies outside the grid.
    pub fn read(&self, position: &Position) -> (ch: char)
        requires
            self@.wf(),
        ensures
            ch == self@.read_char(*position),
    {
        if 0 <= position.col && position.col < self.cols && 0 <= position.row
            && position.row < self.rows {
            proof {
                lemma_cell_in_range(self@, *position);
                assert(self@.grid_len() <= usize::MAX) by {
                    assert(self.committed.len() == self@.committed.len());
                }
            }
            let idx: usize = (position.row as usize) * (self.cols as usize)
                + (position.col as usize);
            match self.committed[idx] {
                Some(c) => c,
                None => BLANK,
            }
        } else {
            BLANK
        }
    }

    /// Commits every pending cell and returns exactly the cells whose
    /// committed character actually changed, in row-major order. The
    /// pending surface is kept, so flushing again with no intervening
    /// write reports nothing.
    pub fn flush(&mut self) -> (updates: Vec<(Position, char)>)
        requires
            old(self)@.wf(),
        ensures
            final(self)@ == old(self)@.merge(),
            final(self)@.wf(),
            updates@ == old(self)@.diff(),
    {
        let total: usize = self.pending.len();
        let cols_u: usize = self.cols as usize;
        let mut updates: Vec<(Position, char)> = Vec::new();
        let mut k: usize = 0;
        while k < total
            invariant
                old(self)@.wf(),
                total == old(self)@.grid_len(),
                cols_u == old(self)@.cols,
                k <= total,
                self.cols == old(self).cols,
                self.rows == old(self).rows,
                self.pending@ == old(self)@.pending,
                self.committed.len() == total,
                forall|j: int|
                    0 <= j < k ==> self.committed@[j] == merge_cell(
                        old(self)@.pending[j],
                        old(self)@.committed[j],
                    ),
                forall|j: int| k <= j < total ==> self.committed@[j] == old(self)@.committed[j],
                updates@ == old(self)@.diff_upto(k as int),
            decreases total - k,
        {
            proof {
                let rows_g = old(self)@.rows;
                assert(cols_u > 0) by (nonlinear_arith)
                    requires
                        0 <= cols_u,
                        (k as int) < total,
                        total == cols_u * rows_g,
                        0 <= rows_g,
                ;
                lemma_pos_of_in_bounds(old(self)@, k as int);
            }
            let pcell: Option<char> = self.pending[k];
            match pcell {
                Some(ch) => {
                    let was_committed: bool = match self.committed[k] {
                        Some(c0) => c0 == ch,
                        None => false,
                    };
                    if !was_committed {
                        let col: i32 = (k % cols_u) as i32;
                        let row: i32 = (k / cols_u) as i32;
                        updates.push((Position::new(col, row), ch));
                        proof {
                            assert(col == pos_of(k as int, old(self)@.cols).col);
                            assert(row == pos_of(k as int, old(self)@.cols).row);
                        }
                    }
                    self.committed[k] = Some(ch);
                }
                None => {},
            }
            k = k + 1;
            proof {
                assert(updates@ =~= old(self)@.diff_upto(k as int));
            }
        }
        proof {
            assert(self@.committed =~= old(self)@.merge().committed);
            assert(self@ =~= old(self)@.merge());
        }
        updates
    }

    /// Forgets both surfaces: every cell reads blank and nothing is
    /// pending. Used to bound the waveform sub-grid's visible history.
    pub fn clear(&mut self)
        requires
            old(self)@.wf(),
        ensures
            final(self)@ == old(self)@.cleared(),
            final(self)@.wf(),
    {
        let total: usize = self.pending.len();
        let mut k: usize = 0;
        while k < total
            invariant
                old(self)@.wf(),
                total == old(self)@.grid_len(),
                k <= total,
                self.cols == old(self).cols,
                self.rows == old(self).rows,
                self.pending.len() == total,
                self.committed.len() == total,
                forall|j: int| 0 <= j < k ==> self.pending@[j] is None && self.committed@[j] is None,
            decreases total - k,
        {
            self.pending[k] = None;
            self.committed[k] = None;
            k = k + 1;
        }
        proof {
            assert(self@.pending =~= old(self)@.cleared().pending);
            assert(self@.committed =~= old(self)@.cleared().committed);
            assert(self@ =~= old(self)@.cleared());
        }
    }

    /// The position bounded into the rectangle `[0, cols] x [0, rows]`.
    pub fn clamp(&self, position: &Position) -> (p: Position)
        requires
            self@.wf(),
        ensures
            p.col == crate::position::spec_clamp_int(position.col as int, 0, self@.cols),
            p.row == crate::position::spec_clamp_int(position.row as int, 0, self@.rows),
    {
        position.clamp(Position::new(0, 0), Position::new(self.cols, self.rows))
    }

    /// The position as the cursor sees it: floored to the screen edge.
    pub fn clip(&self, position: &Position) -> (v: crate::position::Visible)
        ensures
            v.0 == crate::position::spec_floorcast(position.col),
            v.1 == crate::position::spec_floorcast(position.row),
    {
        position.to_visible()
    }
}

impl Default for Screen {
    /// A 100 x 100 screen, both surfaces empty.
    fn default() -> (s: Self)
        ensures
            s@.wf(),
            s@.cols == 100,
            s@.rows == 100,
            forall|k: int|
                0 <= k < s@.grid_len() ==> s@.pending[k] is None && s@.committed[k] is None,
    {
        Screen::with_size(Position::new(100, 100))
    }
}

} // verus!
