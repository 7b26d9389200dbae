//! Fixed-size two-dimensional grid of instruction symbols, together with the
//! set of breakpoint coordinates attached to it.
//!
//! The shape is fixed at construction: `rows x cols` cells, each holding one
//! `Command`, and a breakpoint flag per cell.

use vstd::prelude::*;

use crate::instruction::Command;

verus! {

/// Largest accepted extent of either grid dimension.
pub const MAX_GRID_DIM: usize = 4096;

#[derive(Debug, Clone)]
pub struct Grid {
    values: Vec<Vec<Command>>,
    breakpoints: Vec<Vec<bool>>,
}

/// Symbols in one row that are not the empty symbol.
pub open spec fn count_row(r: Seq<Command>) -> nat
    decreases r.len(),
{
    if r.len() == 0 {
        0
    } else {
        count_row(r.drop_last()) + (if r.last() == Command::Empty {
            0nat
        } else {
            1nat
        })
    }
}

/// Symbols in a whole grid that are not the empty symbol.
pub open spec fn count_cells(cs: Seq<Seq<Command>>) -> nat
    decreases cs.len(),
{
    if cs.len() == 0 {
        0
    } else {
        count_cells(cs.drop_last()) + count_row(cs.last())
    }
}

pub proof fn lemma_count_row_le(r: Seq<Command>)
    ensures
        count_row(r) <= r.len(),
    decreases r.len(),
{
    if r.len() > 0 {
        lemma_count_row_le(r.drop_last());
    }
}

/// A grid of `cs.len()` rows of at most `c` cells each holds at most
/// `cs.len() * c` symbols.
pub proof fn lemma_count_cells_le(cs: Seq<Seq<Command>>, c: int)
    requires
        c >= 0,
        forall|i: int| 0 <= i < cs.len() ==> (#[trigger] cs[i]).len() <= c,
    ensures
        count_cells(cs) <= cs.len() * c,
    decreases cs.len(),
{
    if cs.len() > 0 {
        lemma_count_cells_le(cs.drop_last(), c);
        lemma_count_row_le(cs.last());
        assert((cs.len() - 1) * c + c == cs.len() * c) by (nonlinear_arith);
    }
}

/// Breakpoint flags after the flag of one cell is flipped.
pub open spec fn toggle_spec(b: Seq<Seq<bool>>, row: int, col: int) -> Seq<Seq<bool>> {
    b.update(row, b[row].update(col, !b[row][col]))
}

/// Toggling a breakpoint is idempotent under double-toggle: flipping the
/// same cell twice restores every flag, and a single flip touches no other
/// cell (the `toggle_spec` update form pins the untouched cells).
pub proof fn lemma_toggle_twice(b: Seq<Seq<bool>>, row: int, col: int)
    requires
        0 <= row < b.len(),
        0 <= col < b[row].len(),
    ensures
        toggle_spec(toggle_spec(b, row, col), row, col) == b,
        forall|i: int, j: int|
            0 <= i < b.len() && 0 <= j < b[i].len() && !(i == row && j == col)
                ==> toggle_spec(b, row, col)[i][j] == b[i][j],
{
    assert(toggle_spec(toggle_spec(b, row, col), row, col)[row] =~= b[row]);
    assert(toggle_spec(toggle_spec(b, row, col), row, col) =~= b);
}

impl Grid {
    /// The symbol in each cell, row by row.
    pub closed spec fn cells(&self) -> Seq<Seq<Command>> {
        Seq::new(self.values@.len(), |i: int| self.values@[i]@)
    }

    /// The breakpoint flag of each cell, row by row.
    pub closed spec fn bps(&self) -> Seq<Seq<bool>> {
        Seq::new(self.breakpoints@.len(), |i: int| self.breakpoints@[i]@)
    }

    pub open spec fn rows_spec(&self) -> int {
        self.cells().len() as int
    }

    pub open spec fn cols_spec(&self) -> int {
        self.cells()[0].len() as int
    }

    /// A non-degenerate rectangle of bounded extent, with one breakpoint
    /// flag per cell.
    pub open spec fn wf(&self) -> bool {
        &&& 0 < self.rows_spec() <= MAX_GRID_DIM
        &&& 0 < self.cols_spec() <= MAX_GRID_DIM
        &&& forall|i: int|
            0 <= i < self.rows_spec() ==> (#[trigger] self.cells()[i]).len() == self.cols_spec()
        &&& self.bps().len() == self.rows_spec()
        &&& forall|i: int|
            0 <= i < self.rows_spec() ==> (#[trigger] self.bps()[i]).len() == self.cols_spec()
    }

    /// The symbol at a coordinate.
    pub open spec fn cell_at(&self, row: int, col: int) -> Command {
        self.cells()[row][col]
    }

    /// Whether a coordinate carries a breakpoint; coordinates outside the
    /// grid never do.
    pub open spec fn bp_at(&self, row: int, col: int) -> bool {
        &&& 0 <= row < self.rows_spec()
        &&& 0 <= col < self.cols_spec()
        &&& self.bps()[row][col]
    }

    /// A fresh grid of empty cells with no breakpoints.
    pub fn new(rows: usize, cols: usize) -> (g: Grid)
        requires
            0 < rows <= MAX_GRID_DIM,
            0 < cols <= MAX_GRID_DIM,
        ensures
            g.wf(),
            g.rows_spec() == rows,
            g.cols_spec() == cols,
            forall|i: int, j: int|
                0 <= i < rows && 0 <= j < cols ==> g.cell_at(i, j) == Command::Empty,
            forall|i: int, j: int| !g.bp_at(i, j),
    {
        let mut values: Vec<Vec<Command>> = Vec::new();
        let mut breakpoints: Vec<Vec<bool>> = Vec::new();
        let mut i: usize = 0;
        while i < rows
            invariant
                i <= rows,
                values@.len() == i,
                breakpoints@.len() == i,
                forall|k: int| 0 <= k < i ==> (#[trigger] values@[k])@.len() == cols,
                forall|k: int| 0 <= k < i ==> (#[trigger] breakpoints@[k])@.len() == cols,
                forall|k: int, j: int|
                    0 <= k < i && 0 <= j < cols ==> #[trigger] values@[k]@[j] == Command::Empty,
                forall|k: int, j: int|
                    0 <= k < i && 0 <= j < cols ==> !(#[trigger] breakpoints@[k]@[j]),
            decreases rows - i,
        {
            let mut row_vals: Vec<Command> = Vec::new();
            let mut row_bps: Vec<bool> = Vec::new();
            let mut j: usize = 0;
            while j < cols
                invariant
                    j <= cols,
                    row_vals@.len() == j,
                    row_bps@.len() == j,
                    forall|k: int| 0 <= k < j ==> row_vals@[k] == Command::Empty,
                    forall|k: int| 0 <= k < j ==> !row_bps@[k],
                decreases cols - j,
            {
                row_vals.push(Command::Empty);
                row_bps.push(false);
                j += 1;
            }
            values.push(row_vals);
            breakpoints.push(row_bps);
            i += 1;
        }
        Grid { values, breakpoints }
    }

    pub fn rows(&self) -> (r: usize)
        requires
            self.wf(),
        ensures
            r == self.rows_spec(),
    {
        self.values.len()
    }

    pub fn cols(&self) -> (r: usize)
        requires
            self.wf(),
        ensures
            r == self.cols_spec(),
    {
        self.values[0].len()
    }

    /// Write `value` into the cell at `(row, col)`.
    pub fn set_value(&mut self, row: usize, col: usize, value: Command)
        requires
            old(self).wf(),
            row < old(self).rows_spec(),
            col < old(self).cols_spec(),
        ensures
            final(self).wf(),
            final(self).rows_spec() == old(self).rows_spec(),
            final(self).cols_spec() == old(self).cols_spec(),
            final(self).cells() == old(self).cells().update(
                row as int,
                old(self).cells()[row as int].update(col as int, value),
            ),
            final(self).bps() == old(self).bps(),
    {
        proof {
            assert(self.values@[row as int]@ == self.cells()[row as int]);
        }
        self.values[row][col] = value;
        proof {
            assert(self.cells() =~~= old(self).cells().update(
                row as int,
                old(self).cells()[row as int].update(col as int, value),
            ));
            assert(self.bps() =~~= old(self).bps());
        }
    }

    /// The symbol in the cell at `(row, col)`.
    pub fn get_value(&self, row: usize, col: usize) -> (r: Command)
        requires
            self.wf(),
            row < self.rows_spec(),
            col < self.cols_spec(),
        ensures
            r == self.cell_at(row as int, col as int),
    {
        proof {
            assert(self.values@[row as int]@ == self.cells()[row as int]);
        }
        self.values[row][col]
    }

    /// Whether the cell at `(row, col)` carries a breakpoint.  Coordinates
    /// outside the grid simply report no breakpoint.
    pub fn has_breakpoint(&self, row: usize, col: usize) -> (r: bool)
        requires
            self.wf(),
        ensures
            r == self.bp_at(row as int, col as int),
    {
        if row < self.breakpoints.len() {
            let bp_row = &self.breakpoints[row];
            proof {
                assert(bp_row@ == self.bps()[row as int]);
            }
            if col < bp_row.len() {
                bp_row[col]
            } else {
                false
            }
        } else {
            false
        }
    }

    /// Flip the breakpoint flag of the cell at `(row, col)`, leaving every
    /// other cell and all symbols untouched.
    pub fn toggle_breakpoint(&mut self, row: usize, col: usize)
        requires
            old(self).wf(),
            row < old(self).rows_spec(),
            col < old(self).cols_spec(),
        ensures
            final(self).wf(),
            final(self).cells() == old(self).cells(),
            final(self).bps() == toggle_spec(old(self).bps(), row as int, col as int),
            final(self).bp_at(row as int, col as int) == !old(self).bp_at(row as int, col as int),
            forall|i: int, j: int|
                !(i == row && j == col) ==> final(self).bp_at(i, j) == old(self).bp_at(i, j),
    {
        proof {
            assert(self.breakpoints@[row as int]@ == self.bps()[row as int]);
        }
        let flag = self.breakpoints[row][col];
        self.breakpoints[row][col] = !flag;
        proof {
            assert(self.cells() =~~= old(self).cells());
            assert(self.bps() =~~= toggle_spec(old(self).bps(), row as int, col as int));
        }
    }

    /// Count of the cells holding a non-empty symbol.
    pub fn count_symbols(&self) -> (r: usize)
        requires
            self.wf(),
        ensures
            r == count_cells(self.cells()),
    {
        let rows = self.values.len();
        let mut total: usize = 0;
        let mut i: usize = 0;
        while i < rows
            invariant
                self.wf(),
                rows == self.rows_spec(),
                i <= rows,
                total == count_cells(self.cells().subrange(0, i as int)),
                total <= i * MAX_GRID_DIM,
            decreases rows - i,
        {
            let row = &self.values[i];
            proof {
                assert(row@ == self.cells()[i as int]);
            }
            let cols = row.len();
            let mut row_count: usize = 0;
            let mut j: usize = 0;
            while j < cols
                invariant
                    self.wf(),
                    i < self.rows_spec(),
                    row == &self.values[i as int],
                    row@ == self.cells()[i as int],
                    cols == self.cols_spec(),
                    j <= cols,
                    row_count == count_row(row@.subrange(0, j as int)),
                    row_count <= j,
                decreases cols - j,
            {
                proof {
                    assert(row@.subrange(0, j + 1).drop_last() =~= row@.subrange(0, j as int));
                    assert(row@.subrange(0, j + 1).last() == row@[j as int]);
                }
                if !matches!(row[j], Command::Empty) {
                    row_count += 1;
                }
                j += 1;
            }
            proof {
                assert(row@.subrange(0, cols as int) =~= row@);
                assert(self.cells().subrange(0, i + 1).drop_last() =~= self.cells().subrange(
                    0,
                    i as int,
                ));
                assert(self.cells().subrange(0, i + 1).last() == self.cells()[i as int]);
                lemma_count_row_le(row@);
                assert(i * MAX_GRID_DIM + MAX_GRID_DIM == (i + 1) * MAX_GRID_DIM) by (nonlinear_arith);
                assert((i + 1) * MAX_GRID_DIM <= MAX_GRID_DIM * MAX_GRID_DIM) by (nonlinear_arith)
                    requires i + 1 <= MAX_GRID_DIM;
            }
            total += row_count;
            i += 1;
        }
        proof {
            assert(self.cells().subrange(0, rows as int) =~= self.cells());
        }
        total
    }
}

} // verus!
