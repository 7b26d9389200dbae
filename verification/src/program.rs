//! A program a player has written: an instruction grid together with the
//! cell execution starts at — and a named solution, which bundles one
//! program per processor.
//!
//! A solution always carries two programs; a single-processor configuration
//! simply executes the first and leaves the second blank.  The
//! single-grid conveniences (`rows`, `set_grid_value`, `set_start`, ...)
//! operate on the first program.

use vstd::prelude::*;

use crate::grid::{count_cells, toggle_spec, Grid, MAX_GRID_DIM};
use crate::instruction::Command;

verus! {

/// Rows and columns of a freshly created program grid.
pub const DEFAULT_GRID_SIZE: usize = 10;

#[derive(Debug, Clone)]
pub struct Program {
    grid: Grid,
    start_row: usize,
    start_col: usize,
}

impl Program {
    pub closed spec fn grid_spec(&self) -> Grid {
        self.grid
    }

    pub closed spec fn start_row_spec(&self) -> int {
        self.start_row as int
    }

    pub closed spec fn start_col_spec(&self) -> int {
        self.start_col as int
    }

    /// The grid is well formed and the start cell lies inside it.
    pub open spec fn wf(&self) -> bool {
        &&& self.grid_spec().wf()
        &&& 0 <= self.start_row_spec() < self.grid_spec().rows_spec()
        &&& 0 <= self.start_col_spec() < self.grid_spec().cols_spec()
    }

    /// An untouched program of the given shape: all cells empty, no
    /// breakpoints, start at the top-left corner.
    pub open spec fn is_blank(&self, rows: int, cols: int) -> bool {
        &&& self.wf()
        &&& self.grid_spec().rows_spec() == rows
        &&& self.grid_spec().cols_spec() == cols
        &&& forall|i: int, j: int|
            0 <= i < rows && 0 <= j < cols ==> self.grid_spec().cell_at(i, j) == Command::Empty
        &&& forall|i: int, j: int| !self.grid_spec().bp_at(i, j)
        &&& self.start_row_spec() == 0
        &&& self.start_col_spec() == 0
    }

    pub fn new(rows: usize, cols: usize) -> (p: Program)
        requires
            0 < rows <= MAX_GRID_DIM,
            0 < cols <= MAX_GRID_DIM,
        ensures
            p.is_blank(rows as int, cols as int),
    {
        Program { grid: Grid::new(rows, cols), start_row: 0, start_col: 0 }
    }

    /// Give up the program and keep only its grid.
    pub fn into_grid(self) -> (g: Grid)
        ensures
            g == self.grid_spec(),
    {
        self.grid
    }

    pub fn rows(&self) -> (r: usize)
        requires
            self.wf(),
        ensures
            r == self.grid_spec().rows_spec(),
    {
        self.grid.rows()
    }

    pub fn cols(&self) -> (r: usize)
        requires
            self.wf(),
        ensures
            r == self.grid_spec().cols_spec(),
    {
        self.grid.cols()
    }

    /// Write `value` into the grid cell at `(row, col)`.
    pub fn set_grid_value(&mut self, row: usize, col: usize, value: Command)
        requires
            old(self).wf(),
            row < old(self).grid_spec().rows_spec(),
            col < old(self).grid_spec().cols_spec(),
        ensures
            final(self).wf(),
            final(self).grid_spec().cells() == old(self).grid_spec().cells().update(
                row as int,
                old(self).grid_spec().cells()[row as int].update(col as int, value),
            ),
            final(self).grid_spec().bps() == old(self).grid_spec().bps(),
            final(self).start_row_spec() == old(self).start_row_spec(),
            final(self).start_col_spec() == old(self).start_col_spec(),
    {
        self.grid.set_value(row, col, value);
    }

    pub fn start_row(&self) -> (r: usize)
        ensures
            r == self.start_row_spec(),
    {
        self.start_row
    }

    pub fn start_col(&self) -> (r: usize)
        ensures
            r == self.start_col_spec(),
    {
        self.start_col
    }

    /// Move the start cell.
    pub fn set_start(&mut self, start_row: usize, start_col: usize)
        requires
            old(self).wf(),
            start_row < old(self).grid_spec().rows_spec(),
            start_col < old(self).grid_spec().cols_spec(),
        ensures
            final(self).wf(),
            final(self).grid_spec() == old(self).grid_spec(),
            final(self).start_row_spec() == start_row,
            final(self).start_col_spec() == start_col,
    {
        self.start_row = start_row;
        self.start_col = start_col;
    }

    /// Count of non-empty grid cells, used for scoring.
    pub fn symbols_used(&self) -> (r: usize)
        requires
            self.wf(),
        ensures
            r == count_cells(self.grid_spec().cells()),
    {
        self.grid.count_symbols()
    }

    /// Flip the breakpoint flag of the cell at `(row, col)`.
    pub fn toggle_breakpoint(&mut self, row: usize, col: usize)
        requires
            old(self).wf(),
            row < old(self).grid_spec().rows_spec(),
            col < old(self).grid_spec().cols_spec(),
        ensures
            final(self).wf(),
            final(self).grid_spec().cells() == old(self).grid_spec().cells(),
            final(self).grid_spec().bps() == toggle_spec(
                old(self).grid_spec().bps(),
                row as int,
                col as int,
            ),
            final(self).start_row_spec() == old(self).start_row_spec(),
            final(self).start_col_spec() == old(self).start_col_spec(),
    {
        self.grid.toggle_breakpoint(row, col);
    }
}

impl Default for Program {
    /// A blank program on the default grid shape.
    fn default() -> (p: Program)
        ensures
            p.is_blank(DEFAULT_GRID_SIZE as int, DEFAULT_GRID_SIZE as int),
    {
        Program::new(DEFAULT_GRID_SIZE, DEFAULT_GRID_SIZE)
    }
}

#[derive(Debug, Clone)]
pub struct Solution {
    name: String,
    p0: Program,
    p1: Program,
}

impl Solution {
    pub closed spec fn name_spec(&self) -> Seq<char> {
        self.name@
    }

    pub closed spec fn program_0_spec(&self) -> Program {
        self.p0
    }

    pub closed spec fn program_1_spec(&self) -> Program {
        self.p1
    }

    pub open spec fn wf(&self) -> bool {
        &&& self.program_0_spec().wf()
        &&& self.program_1_spec().wf()
    }

    /// A fresh solution with the given name and two blank programs.
    pub fn new(name: String) -> (s: Solution)
        ensures
            s.name_spec() == name@,
            s.program_0_spec().is_blank(DEFAULT_GRID_SIZE as int, DEFAULT_GRID_SIZE as int),
            s.program_1_spec().is_blank(DEFAULT_GRID_SIZE as int, DEFAULT_GRID_SIZE as int),
            s.wf(),
    {
        Solution {
            name,
            p0: Program::new(DEFAULT_GRID_SIZE, DEFAULT_GRID_SIZE),
            p1: Program::new(DEFAULT_GRID_SIZE, DEFAULT_GRID_SIZE),
        }
    }

    pub fn name(&self) -> (r: &String)
        ensures
            r@ == self.name_spec(),
    {
        &self.name
    }

    /// Replace the solution's name.
    pub fn rename(&mut self, new_name: String)
        ensures
            final(self).name_spec() == new_name@,
            final(self).program_0_spec() == old(self).program_0_spec(),
            final(self).program_1_spec() == old(self).program_1_spec(),
    {
        self.name = new_name;
    }

    /// Total count of non-empty cells across both programs.
    pub fn symbols_used(&self) -> (r: usize)
        requires
            self.wf(),
        ensures
            r == count_cells(self.program_0_spec().grid_spec().cells()) + count_cells(
                self.program_1_spec().grid_spec().cells(),
            ),
    {
        proof {
            crate::grid::lemma_count_cells_le(self.p0.grid_spec().cells(), MAX_GRID_DIM as int);
            crate::grid::lemma_count_cells_le(self.p1.grid_spec().cells(), MAX_GRID_DIM as int);
        }
        self.p0.symbols_used() + self.p1.symbols_used()
    }

    /// The first processor's program, open for editing.
    pub fn program_0(&mut self) -> (ret: &mut Program)
        ensures
            *ret == old(self).program_0_spec(),
            final(self).program_0_spec() == *final(ret),
            final(self).program_1_spec() == old(self).program_1_spec(),
            final(self).name_spec() == old(self).name_spec(),
    {
        &mut self.p0
    }

    /// The second processor's program, open for editing.
    pub fn program_1(&mut self) -> (ret: &mut Program)
        ensures
            *ret == old(self).program_1_spec(),
            final(self).program_1_spec() == *final(ret),
            final(self).program_0_spec() == old(self).program_0_spec(),
            final(self).name_spec() == old(self).name_spec(),
    {
        &mut self.p1
    }

    /// Give up the solution and keep its two programs.
    pub fn into_programs(self) -> (r: (Program, Program))
        ensures
            r.0 == self.program_0_spec(),
            r.1 == self.program_1_spec(),
    {
        (self.p0, self.p1)
    }

    /// Give up the solution and keep the first program's grid (the
    /// single-processor configuration executes only that grid).
    pub fn into_grid(self) -> (g: Grid)
        ensures
            g == self.program_0_spec().grid_spec(),
    {
        self.p0.into_grid()
    }

    pub fn rows(&self) -> (r: usize)
        requires
            self.wf(),
        ensures
            r == self.program_0_spec().grid_spec().rows_spec(),
    {
        self.p0.rows()
    }

    pub fn cols(&self) -> (r: usize)
        requires
            self.wf(),
        ensures
            r == self.program_0_spec().grid_spec().cols_spec(),
    {
        self.p0.cols()
    }

    /// Write `value` into the first program's grid.
    pub fn set_grid_value(&mut self, row: usize, col: usize, value: Command)
        requires
            old(self).wf(),
            row < old(self).program_0_spec().grid_spec().rows_spec(),
            col < old(self).program_0_spec().grid_spec().cols_spec(),
        ensures
            final(self).wf(),
            final(self).program_0_spec().grid_spec().cells() == old(
                self,
            ).program_0_spec().grid_spec().cells().update(
                row as int,
                old(self).program_0_spec().grid_spec().cells()[row as int].update(
                    col as int,
                    value,
                ),
            ),
            final(self).program_0_spec().grid_spec().bps() == old(
                self,
            ).program_0_spec().grid_spec().bps(),
            final(self).program_0_spec().start_row_spec() == old(
                self,
            ).program_0_spec().start_row_spec(),
            final(self).program_0_spec().start_col_spec() == old(
                self,
            ).program_0_spec().start_col_spec(),
            final(self).program_1_spec() == old(self).program_1_spec(),
            final(self).name_spec() == old(self).name_spec(),
    {
        self.p0.set_grid_value(row, col, value);
    }

    pub fn start_row(&self) -> (r: usize)
        ensures
            r == self.program_0_spec().start_row_spec(),
    {
        self.p0.start_row()
    }

    pub fn start_col(&self) -> (r: usize)
        ensures
            r == self.program_0_spec().start_col_spec(),
    {
        self.p0.start_col()
    }

    /// Move the first program's start cell.
    pub fn set_start(&mut self, start_row: usize, start_col: usize)
        requires
            old(self).wf(),
            start_row < old(self).program_0_spec().grid_spec().rows_spec(),
            start_col < old(self).program_0_spec().grid_spec().cols_spec(),
        ensures
            final(self).wf(),
            final(self).program_0_spec().grid_spec() == old(self).program_0_spec().grid_spec(),
            final(self).program_0_spec().start_row_spec() == start_row,
            final(self).program_0_spec().start_col_spec() == start_col,
            final(self).program_1_spec() == old(self).program_1_spec(),
            final(self).name_spec() == old(self).name_spec(),
    {
        self.p0.set_start(start_row, start_col);
    }

    /// Flip a breakpoint flag in the first program's grid.
    pub fn toggle_breakpoint(&mut self, row: usize, col: usize)
        requires
            old(self).wf(),
            row < old(self).program_0_spec().grid_spec().rows_spec(),
            col < old(self).program_0_spec().grid_spec().cols_spec(),
        ensures
            final(self).wf(),
            final(self).program_0_spec().grid_spec().cells() == old(
                self,
            ).program_0_spec().grid_spec().cells(),
            final(self).program_0_spec().grid_spec().bps() == toggle_spec(
                old(self).program_0_spec().grid_spec().bps(),
                row as int,
                col as int,
            ),
            final(self).program_1_spec() == old(self).program_1_spec(),
            final(self).name_spec() == old(self).name_spec(),
    {
        self.p0.toggle_breakpoint(row, col);
    }
}

impl Default for Solution {
    /// A blank solution with a fresh-solution name.
    fn default() -> (s: Solution)
        ensures
            s.program_0_spec().is_blank(DEFAULT_GRID_SIZE as int, DEFAULT_GRID_SIZE as int),
            s.program_1_spec().is_blank(DEFAULT_GRID_SIZE as int, DEFAULT_GRID_SIZE as int),
            s.wf(),
    {
        Solution::new("New Solution".to_owned())
    }
}

} // verus!
