//! The virtual machine for one test case: one or two processors driven in
//! lockstep, a wrapping cycle counter and the test-case index.
//!
//! Each `step` first asks whether the puzzle is solved; if not, it
//! recomputes both processors' synchronization statuses (dual-processor
//! configuration), steps every processor in index order — an error does not
//! stop the sibling's step, and only the first error (lowest index) is
//! reported — and increments the cycle counter once.

use vstd::prelude::*;

use crate::instruction::{send_status_of, Command, SendStatus, VMError};
use crate::processor::{
    advance_model, cur_cmd, exec_sync_model, finish_model, initial_model, no_sync_cells,
    same_frame, solved_model, step_dual_model, step_solo_model, wf_model, Processor,
    ProcessorModel,
};
use crate::program::Solution;
use crate::puzzle::Puzzle;

verus! {

/// Stack capacity of the single-processor configuration.
pub const MAX_STACK_ENTRIES: usize = 15;

/// Stack capacity of the dual-processor configuration.
pub const PARALLEL_MAX_STACK_ENTRIES: usize = 8;

/// The cycle counter after one more cycle, wrapping at the 32-bit limit.
pub open spec fn wrap_inc(c: int) -> int {
    if c == 0xffff_ffff {
        0
    } else {
        c + 1
    }
}

/// One whole cycle of the dual-processor configuration, statuses first,
/// then processor 0, then processor 1; the index of the first error is
/// reported.
pub open spec fn cycle_dual_model(a: ProcessorModel, b: ProcessorModel) -> Result<
    (ProcessorModel, ProcessorModel),
    (VMError, int),
> {
    let a0 = ProcessorModel { status: send_status_of(cur_cmd(a)), ..a };
    let b0 = ProcessorModel { status: send_status_of(cur_cmd(b)), ..b };
    match step_dual_model(a0, b0) {
        Err(e) => Err((e, 0)),
        Ok((a1, b1)) => match step_dual_model(b1, a1) {
            Err(e) => Err((e, 1)),
            Ok((b2, a2)) => Ok((a2, b2)),
        },
    }
}

#[derive(Debug, Clone)]
pub struct VirtualMachine {
    p0: Processor,
    p1: Option<Processor>,
    cycle: u32,
    test_case: usize,
}

impl VirtualMachine {
    /// Model of the first processor.
    pub closed spec fn proc0(&self) -> ProcessorModel {
        self.p0@
    }

    /// Model of the second processor, in the dual-processor configuration.
    pub closed spec fn proc1(&self) -> Option<ProcessorModel> {
        match self.p1 {
            Some(p) => Some(p@),
            None => None,
        }
    }

    pub closed spec fn cycle_spec(&self) -> int {
        self.cycle as int
    }

    pub closed spec fn test_case_spec(&self) -> int {
        self.test_case as int
    }

    pub open spec fn is_parallel_spec(&self) -> bool {
        self.proc1() is Some
    }

    /// Both processors well formed; a single-processor grid holds no
    /// synchronization symbols.
    pub open spec fn wf(&self) -> bool {
        &&& crate::processor::wf_model(self.proc0())
        &&& match self.proc1() {
            Some(q) => crate::processor::wf_model(q),
            None => no_sync_cells(self.proc0().cells),
        }
    }

    /// The puzzle is solved once every processor's inputs are exhausted and
    /// its outputs equal its expected outputs.
    pub open spec fn solved_spec(&self) -> bool {
        &&& solved_model(self.proc0())
        &&& match self.proc1() {
            Some(q) => solved_model(q),
            None => true,
        }
    }

    /// Wire a solution and one test case's puzzle into a fresh machine.  A
    /// single-processor puzzle executes the solution's first program with
    /// the larger stack; a dual-processor puzzle executes both programs
    /// with the smaller stack.
    pub fn new(solution: Solution, test_case: usize, puzzle: Puzzle) -> (vm: VirtualMachine)
        requires
            solution.wf(),
            puzzle.wf(),
            !puzzle.is_parallel_spec() ==> no_sync_cells(
                solution.program_0_spec().grid_spec().cells(),
            ),
        ensures
            vm.wf(),
            vm.cycle_spec() == 0,
            vm.test_case_spec() == test_case,
            vm.is_parallel_spec() == puzzle.is_parallel_spec(),
            !puzzle.is_parallel_spec() ==> {
                &&& vm.proc0() == initial_model(
                    solution.program_0_spec(),
                    puzzle.p0_spec(),
                    MAX_STACK_ENTRIES as int,
                )
                &&& vm.proc1() is None
            },
            puzzle.is_parallel_spec() ==> {
                &&& vm.proc0() == initial_model(
                    solution.program_0_spec(),
                    puzzle.p0_spec(),
                    PARALLEL_MAX_STACK_ENTRIES as int,
                )
                &&& vm.proc1() == Some(
                    initial_model(
                        solution.program_1_spec(),
                        puzzle.p1_spec().unwrap(),
                        PARALLEL_MAX_STACK_ENTRIES as int,
                    ),
                )
            },
    {
        let (prog0, prog1) = solution.into_programs();
        if puzzle.is_parallel() {
            let (io0, io1) = puzzle.into_processor_ios();
            let p0 = Processor::new(prog0, io0, PARALLEL_MAX_STACK_ENTRIES);
            let p1 = Processor::new(prog1, io1, PARALLEL_MAX_STACK_ENTRIES);
            VirtualMachine { p0, p1: Some(p1), cycle: 0, test_case }
        } else {
            let io0 = puzzle.into_processor_io();
            let p0 = Processor::new(prog0, io0, MAX_STACK_ENTRIES);
            VirtualMachine { p0, p1: None, cycle: 0, test_case }
        }
    }

    pub fn get_cycle(&self) -> (r: u32)
        ensures
            r == self.cycle_spec(),
    {
        self.cycle
    }

    pub fn get_test_case(&self) -> (r: usize)
        ensures
            r == self.test_case_spec(),
    {
        self.test_case
    }

    pub fn is_parallel(&self) -> (r: bool)
        ensures
            r == self.is_parallel_spec(),
    {
        self.p1.is_some()
    }

    /// The first processor, for rendering and inspection.
    pub fn processor_0(&self) -> (r: &Processor)
        ensures
            r@ == self.proc0(),
    {
        &self.p0
    }

    /// The second processor, in the dual-processor configuration.
    pub fn processor_1(&self) -> (r: &Processor)
        requires
            self.is_parallel_spec(),
        ensures
            Some(r@) == self.proc1(),
    {
        match &self.p1 {
            Some(p) => p,
            None => &self.p0,
        }
    }

    pub fn rows(&self) -> (r: usize)
        requires
            self.wf(),
        ensures
            r == crate::processor::rows_of(self.proc0()),
    {
        self.p0.rows()
    }

    pub fn cols(&self) -> (r: usize)
        requires
            self.wf(),
        ensures
            r == crate::processor::cols_of(self.proc0()),
    {
        self.p0.cols()
    }

    pub fn row(&self) -> (r: usize)
        ensures
            r == self.proc0().row,
    {
        self.p0.row()
    }

    pub fn col(&self) -> (r: usize)
        ensures
            r == self.proc0().col,
    {
        self.p0.col()
    }

    /// Non-empty cells across all processors' grids, used for scoring.
    pub fn count_symbols(&self) -> (r: usize)
        requires
            self.wf(),
        ensures
            r == crate::grid::count_cells(self.proc0().cells) + (match self.proc1() {
                Some(q) => crate::grid::count_cells(q.cells),
                None => 0,
            }),
    {
        proof {
            crate::grid::lemma_count_cells_le(
                self.proc0().cells,
                crate::grid::MAX_GRID_DIM as int,
            );
        }
        let first = self.p0.count_symbols();
        match &self.p1 {
            Some(p) => {
                proof {
                    crate::grid::lemma_count_cells_le(p@.cells, crate::grid::MAX_GRID_DIM as int);
                }
                first + p.count_symbols()
            },
            None => first,
        }
    }

    /// Whether any processor sits at a breakpoint this cycle.
    pub fn is_at_breakpoint(&self) -> (r: bool)
        requires
            self.wf(),
        ensures
            r == ({
                ||| (self.proc0().bps[self.proc0().row][self.proc0().col]
                    && !self.proc0().skip_next)
                ||| match self.proc1() {
                    Some(q) => q.bps[q.row][q.col] && !q.skip_next,
                    None => false,
                }
            }),
    {
        if self.p0.is_at_breakpoint() {
            return true;
        }
        match &self.p1 {
            Some(p) => p.is_at_breakpoint(),
            None => false,
        }
    }

    /// Flip the breakpoint flag of the cell at `(row, col)` on every
    /// processor's grid.
    pub fn toggle_breakpoint(&mut self, row: usize, col: usize)
        requires
            old(self).wf(),
            row < crate::processor::rows_of(old(self).proc0()),
            col < crate::processor::cols_of(old(self).proc0()),
            match old(self).proc1() {
                Some(q) => row < crate::processor::rows_of(q) && col
                    < crate::processor::cols_of(q),
                None => true,
            },
        ensures
            final(self).wf(),
            final(self).proc0() == (ProcessorModel {
                bps: crate::grid::toggle_spec(old(self).proc0().bps, row as int, col as int),
                ..old(self).proc0()
            }),
            match old(self).proc1() {
                Some(q) => final(self).proc1() == Some(
                    ProcessorModel {
                        bps: crate::grid::toggle_spec(q.bps, row as int, col as int),
                        ..q
                    },
                ),
                None => final(self).proc1() is None,
            },
            final(self).cycle_spec() == old(self).cycle_spec(),
            final(self).test_case_spec() == old(self).test_case_spec(),
    {
        self.p0.toggle_breakpoint(row, col);
        match &mut self.p1 {
            Some(p) => p.toggle_breakpoint(row, col),
            None => (),
        }
    }

    /// Drive every processor one cycle.  Returns `Ok(true)`, changing
    /// nothing, once the puzzle is solved; otherwise steps processor 0 and
    /// then processor 1 (each still steps when the other failed), counts
    /// the cycle, and reports the first error together with the index of
    /// the processor that raised it.  After an error the machine must not
    /// be stepped again: its state beyond the frames is unspecified.
    pub fn step(&mut self) -> (r: Result<bool, (VMError, usize)>)
        requires
            old(self).wf(),
        ensures
            final(self).wf(),
            final(self).test_case_spec() == old(self).test_case_spec(),
            final(self).is_parallel_spec() == old(self).is_parallel_spec(),
            old(self).solved_spec() ==> {
                &&& r == Ok::<bool, (VMError, usize)>(true)
                &&& final(self).proc0() == old(self).proc0()
                &&& final(self).proc1() == old(self).proc1()
                &&& final(self).cycle_spec() == old(self).cycle_spec()
            },
            !old(self).solved_spec() ==> {
                &&& final(self).cycle_spec() == wrap_inc(old(self).cycle_spec())
                &&& match old(self).proc1() {
                    Some(b) => match cycle_dual_model(old(self).proc0(), b) {
                        Ok((a2, b2)) => {
                            &&& r == Ok::<bool, (VMError, usize)>(false)
                            &&& final(self).proc0() == a2
                            &&& final(self).proc1() == Some(b2)
                        },
                        Err((e, i)) => {
                            &&& r == Err::<bool, (VMError, usize)>((e, i as usize))
                            &&& same_frame(old(self).proc0(), final(self).proc0())
                            &&& same_frame(b, final(self).proc1().unwrap())
                        },
                    },
                    None => match step_solo_model(old(self).proc0()) {
                        Ok(m) => {
                            &&& r == Ok::<bool, (VMError, usize)>(false)
                            &&& final(self).proc0() == m
                        },
                        Err(e) => {
                            &&& r == Err::<bool, (VMError, usize)>((e, 0))
                            &&& same_frame(old(self).proc0(), final(self).proc0())
                        },
                    },
                }
            },
    {
        let solved = match &self.p1 {
            Some(p) => self.p0.is_solved() && p.is_solved(),
            None => self.p0.is_solved(),
        };
        if solved {
            return Ok(true);
        }
        self.cycle = if self.cycle == 0xffff_ffff {
            0
        } else {
            self.cycle + 1
        };
        match &mut self.p1 {
            Some(p1) => {
                self.p0.compute_send_status();
                p1.compute_send_status();
                let first = self.p0.step(p1);
                let second = p1.step(&mut self.p0);
                match (first, second) {
                    (Err(e), _) => Err((e, 0)),
                    (Ok(()), Err(e)) => Err((e, 1)),
                    (Ok(()), Ok(())) => Ok(false),
                }
            },
            None => match self.p0.step_single() {
                Ok(()) => Ok(false),
                Err(e) => Err((e, 0)),
            },
        }
    }
}

/// Two blocking transmits facing each other are a deadlock: when both
/// processors sit on a `Transmit` cell with no skip pending, the cycle
/// fails with `Deadlock` blamed on processor 0 — whatever else the two
/// states hold.
pub proof fn lemma_facing_transmits_deadlock(a: ProcessorModel, b: ProcessorModel)
    requires
        wf_model(a),
        wf_model(b),
        !a.skip_next,
        cur_cmd(a) == Command::Transmit,
        cur_cmd(b) == Command::Transmit,
    ensures
        cycle_dual_model(a, b) == Err::<(ProcessorModel, ProcessorModel), (VMError, int)>(
            (VMError::Deadlock, 0),
        ),
{
    let a0 = ProcessorModel { status: send_status_of(cur_cmd(a)), ..a };
    let b0 = ProcessorModel { status: send_status_of(cur_cmd(b)), ..b };
    assert(b0.status == SendStatus::Transmitting);
    assert(cur_cmd(a0) == Command::Transmit);
    assert(exec_sync_model(a0, b0) == Err::<(ProcessorModel, ProcessorModel), VMError>(
        VMError::Deadlock,
    ));
}

/// A rendezvous: processor 0 mid-`Transmit` with a value on its stack,
/// processor 1 executing `Receive` the same cycle.  The value moves from
/// the sender's stack to the top of the receiver's, both complete, and
/// both pointers advance this cycle.
pub proof fn lemma_rendezvous_transfers_value(a: ProcessorModel, b: ProcessorModel)
    requires
        wf_model(a),
        wf_model(b),
        !a.skip_next,
        !b.skip_next,
        cur_cmd(a) == Command::Transmit,
        cur_cmd(b) == Command::Receive,
        a.stack.len() >= 1,
        b.stack.len() < b.stack_cap,
    ensures
        cycle_dual_model(a, b) matches Ok(pair) && {
            let (a2, b2) = pair;
            &&& a2.stack == a.stack.drop_last()
            &&& b2.stack == b.stack.push(a.stack.last())
            &&& a2.status == SendStatus::Completed
            &&& b2.status == SendStatus::Completed
            &&& (a2.row, a2.col) == (advance_model(a).row, advance_model(a).col)
            &&& (b2.row, b2.col) == (advance_model(b).row, advance_model(b).col)
        },
{
    let a0 = ProcessorModel { status: SendStatus::Transmitting, ..a };
    let b0 = ProcessorModel { status: SendStatus::Receiving, ..b };
    assert((ProcessorModel { status: send_status_of(cur_cmd(a)), ..a }) =~= a0);
    assert((ProcessorModel { status: send_status_of(cur_cmd(b)), ..b }) =~= b0);
    let v = a.stack.last();
    assert(crate::instruction::VAL_MIN <= v <= crate::instruction::VAL_MAX) by {
        assert(a.stack[a.stack.len() - 1] == v);
    }
    let a1 = ProcessorModel {
        stack: a.stack.drop_last(),
        status: SendStatus::Completed,
        ..a0
    };
    let b1 = ProcessorModel { stack: b.stack.push(v), ..b0 };
    assert(exec_sync_model(a0, b0) == Ok::<(ProcessorModel, ProcessorModel), VMError>(
        (a1, b1),
    )) by {
        match crate::processor::pop_model(a0) {
            Ok((pv, pa)) => {
                assert(pv == v);
                match crate::processor::push_model(b0, pv as int) {
                    Ok(pb) => {
                        assert((ProcessorModel { status: SendStatus::Completed, ..pa }) =~= a1);
                        assert(pb =~= b1);
                    },
                    Err(_) => {
                        assert(false);
                    },
                }
            },
            Err(_) => {
                assert(false);
            },
        }
    }
    let a2 = finish_model(a1, false);
    assert(step_dual_model(a0, b0) == Ok::<(ProcessorModel, ProcessorModel), VMError>(
        (a2, b1),
    ));
    assert(cur_cmd(b1) == Command::Receive);
    assert(a2.status == SendStatus::Completed);
    let b2 = finish_model(ProcessorModel { status: SendStatus::Completed, ..b1 }, false);
    assert(step_dual_model(b1, a2) == Ok::<(ProcessorModel, ProcessorModel), VMError>(
        (b2, a2),
    )) by {
        assert(exec_sync_model(b1, a2) == Ok::<(ProcessorModel, ProcessorModel), VMError>(
            ((ProcessorModel { status: SendStatus::Completed, ..b1 }), a2),
        ));
    }
    assert(cycle_dual_model(a, b) == Ok::<(ProcessorModel, ProcessorModel), (VMError, int)>(
        (a2, b2),
    ));
    assert((a2.row, a2.col) == (advance_model(a).row, advance_model(a).col));
    assert((b2.row, b2.col) == (advance_model(b).row, advance_model(b).col));
}

} // verus!
