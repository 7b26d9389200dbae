//! One execution-pointer automaton over one program grid.
//!
//! A processor owns its grid, a bounded stack, an input queue, an output
//! queue and the puzzle's expected outputs, and executes one instruction
//! plus one move per cycle.  The mathematical model of a processor is
//! `ProcessorModel`; the transition the exec code performs each cycle is
//! the spec function `step_solo_model` (single-processor configuration)
//! or `step_dual_model` (dual-processor configuration, where a step may
//! also mutate the partner).

use vstd::prelude::*;

use crate::grid::Grid;
use crate::instruction::{
    mirror_backslash, mirror_slash, send_status_of, Command, Direction, SendStatus, VMError,
    VAL_MAX, VAL_MIN,
};
use crate::program::Program;
use crate::puzzle::{all_in_range, ProcessorIO};
use crate::queue::PuzzleIO;
use crate::stack::{rotate_down_spec, rotate_up_spec, Stack};

verus! {

/// Mathematical state of one processor.
#[verifier::ext_equal]
pub ghost struct ProcessorModel {
    /// The symbol in each grid cell, row by row.
    pub cells: Seq<Seq<Command>>,
    /// The breakpoint flag of each grid cell.
    pub bps: Seq<Seq<bool>>,
    /// Execution pointer.
    pub row: int,
    pub col: int,
    /// Direction the pointer travels after this cycle.
    pub direction: Direction,
    /// Whether the next executed cell is skipped instead.
    pub skip_next: bool,
    /// Whether the previously executed instruction was a digit.
    pub last_was_number: bool,
    /// The stack, bottom first.
    pub stack: Seq<i16>,
    pub stack_cap: int,
    /// Remaining input values, front first.
    pub inputs: Seq<i16>,
    pub in_cap: int,
    /// Produced output values, front first.
    pub outputs: Seq<i16>,
    pub out_cap: int,
    /// The puzzle's expected output values.
    pub expected: Seq<i16>,
    /// This cycle's synchronization status.
    pub status: SendStatus,
}

pub open spec fn rows_of(m: ProcessorModel) -> int {
    m.cells.len() as int
}

pub open spec fn cols_of(m: ProcessorModel) -> int {
    m.cells[0].len() as int
}

/// The symbol under the execution pointer.
pub open spec fn cur_cmd(m: ProcessorModel) -> Command {
    m.cells[m.row][m.col]
}

/// Well-formed processor state: a rectangular grid with the pointer inside
/// it, a stack within its capacity holding only representable values, and
/// queues within their capacities.
pub open spec fn wf_model(m: ProcessorModel) -> bool {
    &&& 0 < rows_of(m) <= crate::grid::MAX_GRID_DIM
    &&& 0 < cols_of(m) <= crate::grid::MAX_GRID_DIM
    &&& forall|i: int| 0 <= i < rows_of(m) ==> (#[trigger] m.cells[i]).len() == cols_of(m)
    &&& m.bps.len() == rows_of(m)
    &&& forall|i: int| 0 <= i < rows_of(m) ==> (#[trigger] m.bps[i]).len() == cols_of(m)
    &&& 0 <= m.row < rows_of(m)
    &&& 0 <= m.col < cols_of(m)
    &&& m.stack.len() <= m.stack_cap
    &&& all_in_range(m.stack)
    &&& all_in_range(m.inputs)
    &&& m.inputs.len() <= m.in_cap
    &&& m.outputs.len() <= m.out_cap
}

/// Move the pointer one cell in its travel direction, wrapping around on
/// both axes.
pub open spec fn advance_model(m: ProcessorModel) -> ProcessorModel {
    match m.direction {
        Direction::Up => ProcessorModel {
            row: if m.row == 0 { rows_of(m) - 1 } else { m.row - 1 },
            ..m
        },
        Direction::Down => ProcessorModel {
            row: if m.row == rows_of(m) - 1 { 0 } else { m.row + 1 },
            ..m
        },
        Direction::Left => ProcessorModel {
            col: if m.col == 0 { cols_of(m) - 1 } else { m.col - 1 },
            ..m
        },
        Direction::Right => ProcessorModel {
            col: if m.col == cols_of(m) - 1 { 0 } else { m.col + 1 },
            ..m
        },
    }
}

/// Outcome of pushing the computed value `v` onto the stack: a value whose
/// clamp would differ from itself is a numeric overflow, a full stack
/// an overflow of the stack; in either case nothing changes.
pub open spec fn push_model(m: ProcessorModel, v: int) -> Result<ProcessorModel, VMError> {
    if v < VAL_MIN as int || v > VAL_MAX as int {
        Err(VMError::NumericOverflow)
    } else if m.stack.len() >= m.stack_cap {
        Err(VMError::StackOverflow)
    } else {
        Ok(ProcessorModel { stack: m.stack.push(v as i16), ..m })
    }
}

/// Outcome of popping the stack: its top value and the remaining state.
pub open spec fn pop_model(m: ProcessorModel) -> Result<(i16, ProcessorModel), VMError> {
    if m.stack.len() == 0 {
        Err(VMError::StackUnderflow)
    } else {
        Ok((m.stack.last(), ProcessorModel { stack: m.stack.drop_last(), ..m }))
    }
}

/// Outcome of a digit instruction: a digit following a digit extends the
/// number on top of the stack by one decimal place; any other digit is
/// pushed on its own.
pub open spec fn digit_model(m: ProcessorModel, d: int) -> Result<ProcessorModel, VMError> {
    if m.last_was_number {
        match pop_model(m) {
            Err(e) => Err(e),
            Ok((v, m1)) => push_model(m1, v * 10 + d),
        }
    } else {
        push_model(m, d)
    }
}

/// Execute the non-synchronization instruction under the pointer: the state
/// after the instruction acts, before the pointer moves.  Synchronization
/// symbols are handled by `exec_sync_model` and leave the state unchanged
/// here.
pub open spec fn exec_core_model(m: ProcessorModel) -> Result<ProcessorModel, VMError> {
    match cur_cmd(m) {
        Command::Empty => Ok(m),
        Command::Up => Ok(ProcessorModel { direction: Direction::Up, ..m }),
        Command::Down => Ok(ProcessorModel { direction: Direction::Down, ..m }),
        Command::Left => Ok(ProcessorModel { direction: Direction::Left, ..m }),
        Command::Right => Ok(ProcessorModel { direction: Direction::Right, ..m }),
        Command::ForwardSlash => Ok(
            ProcessorModel { direction: mirror_slash(m.direction), ..m },
        ),
        Command::BackSlash => Ok(
            ProcessorModel { direction: mirror_backslash(m.direction), ..m },
        ),
        Command::Zero => digit_model(m, 0),
        Command::One => digit_model(m, 1),
        Command::Two => digit_model(m, 2),
        Command::Three => digit_model(m, 3),
        Command::Four => digit_model(m, 4),
        Command::Five => digit_model(m, 5),
        Command::Six => digit_model(m, 6),
        Command::Seven => digit_model(m, 7),
        Command::Eight => digit_model(m, 8),
        Command::Nine => digit_model(m, 9),
        Command::Pop => match pop_model(m) {
            Err(e) => Err(e),
            Ok((_, m1)) => Ok(m1),
        },
        Command::Duplicate => {
            if m.stack.len() == 0 {
                Err(VMError::StackUnderflow)
            } else {
                push_model(m, m.stack.last() as int)
            }
        },
        Command::SwapTop2 => match pop_model(m) {
            Err(e) => Err(e),
            Ok((v1, m1)) => match pop_model(m1) {
                Err(e) => Err(e),
                Ok((v2, m2)) => match push_model(m2, v1 as int) {
                    Err(e) => Err(e),
                    Ok(m3) => push_model(m3, v2 as int),
                },
            },
        },
        Command::RotateDown => Ok(
            if m.stack.len() == 0 {
                m
            } else {
                ProcessorModel { stack: rotate_down_spec(m.stack), ..m }
            },
        ),
        Command::RotateUp => Ok(
            if m.stack.len() == 0 {
                m
            } else {
                ProcessorModel { stack: rotate_up_spec(m.stack), ..m }
            },
        ),
        Command::Add => match pop_model(m) {
            Err(e) => Err(e),
            Ok((v2, m1)) => match pop_model(m1) {
                Err(e) => Err(e),
                Ok((v1, m2)) => push_model(m2, v1 as int + v2 as int),
            },
        },
        Command::Subtract => match pop_model(m) {
            Err(e) => Err(e),
            Ok((v2, m1)) => match pop_model(m1) {
                Err(e) => Err(e),
                Ok((v1, m2)) => push_model(m2, v1 as int - v2 as int),
            },
        },
        Command::Multiply => match pop_model(m) {
            Err(e) => Err(e),
            Ok((v2, m1)) => match pop_model(m1) {
                Err(e) => Err(e),
                Ok((v1, m2)) => push_model(m2, v1 as int * v2 as int),
            },
        },
        Command::IfLess => {
            if m.stack.len() == 0 {
                Err(VMError::StackUnderflow)
            } else {
                Ok(ProcessorModel { skip_next: !(m.stack.last() < 0), ..m })
            }
        },
        Command::IfEqual => {
            if m.stack.len() == 0 {
                Err(VMError::StackUnderflow)
            } else {
                Ok(ProcessorModel { skip_next: !(m.stack.last() == 0), ..m })
            }
        },
        Command::IfGreater => {
            if m.stack.len() == 0 {
                Err(VMError::StackUnderflow)
            } else {
                Ok(ProcessorModel { skip_next: !(m.stack.last() > 0), ..m })
            }
        },
        Command::Skip => Ok(ProcessorModel { skip_next: true, ..m }),
        Command::In => {
            if m.inputs.len() == 0 {
                Err(VMError::NoInputs)
            } else {
                push_model(
                    ProcessorModel { inputs: m.inputs.drop_first(), ..m },
                    m.inputs[0] as int,
                )
            }
        },
        Command::HasInput => Ok(ProcessorModel { skip_next: !(m.inputs.len() > 0), ..m }),
        Command::Out => match pop_model(m) {
            Err(e) => Err(e),
            Ok((v, m1)) => {
                if m1.outputs.len() >= m1.out_cap {
                    Err(VMError::TooManyOutputs)
                } else {
                    Ok(ProcessorModel { outputs: m1.outputs.push(v), ..m1 })
                }
            },
        },
        Command::Transmit => Ok(m),
        Command::Receive => Ok(m),
        Command::TryTransmit => Ok(m),
        Command::TryReceive => Ok(m),
    }
}

/// After the instruction has acted: move the pointer unless the processor
/// is still blocking on a rendezvous, and remember whether this cycle's
/// instruction was a digit.
pub open spec fn finish_model(m: ProcessorModel, is_number: bool) -> ProcessorModel {
    let moved = if m.status.is_blocking_spec() {
        m
    } else {
        advance_model(m)
    };
    ProcessorModel { last_was_number: is_number, ..moved }
}

/// One whole cycle of a processor in the single-processor configuration:
/// a pending skip consumes the cell, otherwise the instruction executes;
/// then the pointer moves.
pub open spec fn step_solo_model(m: ProcessorModel) -> Result<ProcessorModel, VMError> {
    if m.skip_next {
        Ok(finish_model(ProcessorModel { skip_next: false, ..m }, false))
    } else {
        match exec_core_model(m) {
            Err(e) => Err(e),
            Ok(m1) => Ok(finish_model(m1, cur_cmd(m).digit_spec() is Some)),
        }
    }
}

/// Resolution of a synchronization instruction executed by a processor `m`
/// against its partner `q`, inspecting the partner's already-computed
/// status for this cycle.  Returns the two states after resolution; a
/// completed rendezvous moves a value from the sender's stack to the
/// receiver's.
pub open spec fn exec_sync_model(m: ProcessorModel, q: ProcessorModel) -> Result<
    (ProcessorModel, ProcessorModel),
    VMError,
> {
    match cur_cmd(m) {
        Command::Transmit => match q.status {
            SendStatus::Idle | SendStatus::TryTransmitting => Ok((m, q)),
            SendStatus::Transmitting => Err(VMError::Deadlock),
            SendStatus::Receiving | SendStatus::TryReceiving => match pop_model(m) {
                Err(e) => Err(e),
                Ok((v, m1)) => match push_model(q, v as int) {
                    Err(e) => Err(e),
                    Ok(q1) => Ok((ProcessorModel { status: SendStatus::Completed, ..m1 }, q1)),
                },
            },
            SendStatus::Completed => Ok(
                (ProcessorModel { status: SendStatus::Completed, ..m }, q),
            ),
        },
        Command::Receive => match q.status {
            SendStatus::Idle | SendStatus::TryReceiving => Ok((m, q)),
            SendStatus::Receiving => Err(VMError::Deadlock),
            SendStatus::Transmitting | SendStatus::TryTransmitting => match pop_model(q) {
                Err(e) => Err(e),
                Ok((v, q1)) => match push_model(m, v as int) {
                    Err(e) => Err(e),
                    Ok(m1) => Ok((ProcessorModel { status: SendStatus::Completed, ..m1 }, q1)),
                },
            },
            SendStatus::Completed => Ok(
                (ProcessorModel { status: SendStatus::Completed, ..m }, q),
            ),
        },
        Command::TryTransmit => match q.status {
            SendStatus::Idle | SendStatus::Transmitting | SendStatus::TryTransmitting => Ok(
                (
                    ProcessorModel {
                        skip_next: true,
                        status: SendStatus::Completed,
                        ..m
                    },
                    q,
                ),
            ),
            SendStatus::Receiving | SendStatus::TryReceiving => match pop_model(m) {
                Err(e) => Err(e),
                Ok((v, m1)) => match push_model(q, v as int) {
                    Err(e) => Err(e),
                    Ok(q1) => Ok((ProcessorModel { status: SendStatus::Completed, ..m1 }, q1)),
                },
            },
            SendStatus::Completed => Ok(
                (ProcessorModel { status: SendStatus::Completed, ..m }, q),
            ),
        },
        Command::TryReceive => match q.status {
            SendStatus::Idle | SendStatus::Receiving | SendStatus::TryReceiving => Ok(
                (
                    ProcessorModel {
                        skip_next: true,
                        status: SendStatus::Completed,
                        ..m
                    },
                    q,
                ),
            ),
            SendStatus::Transmitting | SendStatus::TryTransmitting => match pop_model(q) {
                Err(e) => Err(e),
                Ok((v, q1)) => match push_model(m, v as int) {
                    Err(e) => Err(e),
                    Ok(m1) => Ok((ProcessorModel { status: SendStatus::Completed, ..m1 }, q1)),
                },
            },
            SendStatus::Completed => Ok(
                (ProcessorModel { status: SendStatus::Completed, ..m }, q),
            ),
        },
        _ => Ok((m, q)),
    }
}

/// One whole cycle of a processor in the dual-processor configuration.
/// A pending skip consumes the cell; otherwise the instruction executes,
/// possibly exchanging a value with the partner; then the pointer moves
/// unless the processor is still blocking on an unresolved rendezvous.
pub open spec fn step_dual_model(m: ProcessorModel, q: ProcessorModel) -> Result<
    (ProcessorModel, ProcessorModel),
    VMError,
> {
    if m.skip_next {
        Ok((finish_model(ProcessorModel { skip_next: false, ..m }, false), q))
    } else {
        let cmd = cur_cmd(m);
        let res = if cmd.is_sync() {
            exec_sync_model(m, q)
        } else {
            match exec_core_model(m) {
                Err(e) => Err(e),
                Ok(m1) => Ok((m1, q)),
            }
        };
        match res {
            Err(e) => Err(e),
            Ok((m1, q1)) => Ok((finish_model(m1, cmd.digit_spec() is Some), q1)),
        }
    }
}

/// No cell of the grid holds a synchronization symbol — the invariant of
/// the single-processor configuration, whose instruction set elides them.
pub open spec fn no_sync_cells(cells: Seq<Seq<Command>>) -> bool {
    forall|i: int, j: int|
        0 <= i < cells.len() && 0 <= j < cells[0].len() ==> !(#[trigger] cells[i][j]).is_sync()
}

pub open spec fn no_sync_model(m: ProcessorModel) -> bool {
    no_sync_cells(m.cells)
}

/// A puzzle is solved for a processor once its input queue is exhausted and
/// its outputs equal the expected outputs, element for element.
pub open spec fn solved_model(m: ProcessorModel) -> bool {
    m.inputs.len() == 0 && m.outputs == m.expected
}

/// The state a fresh processor starts a test case in.
pub open spec fn initial_model(program: Program, io: ProcessorIO, stack_cap: int) -> ProcessorModel {
    ProcessorModel {
        cells: program.grid_spec().cells(),
        bps: program.grid_spec().bps(),
        row: program.start_row_spec(),
        col: program.start_col_spec(),
        direction: Direction::Right,
        skip_next: false,
        last_was_number: false,
        stack: Seq::<i16>::empty(),
        stack_cap: stack_cap,
        inputs: io.inputs_spec()@,
        in_cap: io.inputs_spec().cap(),
        outputs: Seq::<i16>::empty(),
        out_cap: io.outputs_spec().cap(),
        expected: io.outputs_spec()@,
        status: SendStatus::Idle,
    }
}

/// The parts of a processor a step never changes: its program, its
/// breakpoints, its capacities and the puzzle's expected outputs.
pub open spec fn same_frame(a: ProcessorModel, b: ProcessorModel) -> bool {
    &&& a.cells == b.cells
    &&& a.bps == b.bps
    &&& a.stack_cap == b.stack_cap
    &&& a.in_cap == b.in_cap
    &&& a.out_cap == b.out_cap
    &&& a.expected == b.expected
}

/// What an instruction that failed leaves untouched of a processor: its
/// frame, its position, its cycle flags and its status.  (Its stack and
/// queues may have been partly consumed before the failure.)
pub open spec fn err_frame(a: ProcessorModel, b: ProcessorModel) -> bool {
    &&& same_frame(a, b)
    &&& b.row == a.row
    &&& b.col == a.col
    &&& b.status == a.status
    &&& b.skip_next == a.skip_next
    &&& b.direction == a.direction
    &&& b.last_was_number == a.last_was_number
}

/// Classification of the non-synchronization instructions by which helper
/// executes them.
pub open spec fn is_simple_cmd(c: Command) -> bool {
    match c {
        Command::Empty | Command::Up | Command::Down | Command::Left | Command::Right
            | Command::ForwardSlash | Command::BackSlash | Command::IfLess | Command::IfEqual
            | Command::IfGreater | Command::Skip | Command::HasInput => true,
        _ => false,
    }
}

pub open spec fn is_stack_cmd(c: Command) -> bool {
    match c {
        Command::Pop | Command::Duplicate | Command::SwapTop2 | Command::RotateDown
            | Command::RotateUp => true,
        _ => false,
    }
}

pub open spec fn is_arith_cmd(c: Command) -> bool {
    match c {
        Command::Add | Command::Subtract | Command::Multiply => true,
        _ => false,
    }
}

pub open spec fn is_io_cmd(c: Command) -> bool {
    match c {
        Command::In | Command::Out => true,
        _ => false,
    }
}

#[derive(Debug, Clone)]
pub struct Processor {
    grid: Grid,
    row: usize,
    col: usize,
    direction: Direction,
    skip_next_instruction: bool,
    last_was_number: bool,
    stack: Stack,
    inputs: PuzzleIO,
    outputs: PuzzleIO,
    expected_outputs: PuzzleIO,
    sending_status: SendStatus,
}

impl View for Processor {
    type V = ProcessorModel;

    closed spec fn view(&self) -> ProcessorModel {
        ProcessorModel {
            cells: self.grid.cells(),
            bps: self.grid.bps(),
            row: self.row as int,
            col: self.col as int,
            direction: self.direction,
            skip_next: self.skip_next_instruction,
            last_was_number: self.last_was_number,
            stack: self.stack@,
            stack_cap: self.stack.cap(),
            inputs: self.inputs@,
            in_cap: self.inputs.cap(),
            outputs: self.outputs@,
            out_cap: self.outputs.cap(),
            expected: self.expected_outputs@,
            status: self.sending_status,
        }
    }
}

impl Processor {
    pub open spec fn wf(&self) -> bool {
        wf_model(self@)
    }

    /// Wire one program and one processor's puzzle I/O into a fresh
    /// processor: pointer at the program's start cell, facing right, with an
    /// empty stack of the given capacity and an empty output queue.
    pub fn new(program: Program, io: ProcessorIO, stack_capacity: usize) -> (p: Processor)
        requires
            program.wf(),
            io.wf(),
        ensures
            p@ == initial_model(program, io, stack_capacity as int),
            p.wf(),
    {
        let out_cap = io.get_outputs().capacity();
        let expected_outputs = io.get_outputs().clone_queue();
        let inputs = io.get_inputs().clone_queue();
        let row = program.start_row();
        let col = program.start_col();
        let p = Processor {
            grid: program.into_grid(),
            row,
            col,
            direction: Direction::Right,
            skip_next_instruction: false,
            last_was_number: false,
            stack: Stack::new(stack_capacity),
            inputs,
            outputs: PuzzleIO::new(out_cap),
            expected_outputs,
            sending_status: SendStatus::Idle,
        };
        proof {
            assert(p@ =~= initial_model(program, io, stack_capacity as int));
        }
        p
    }

    pub fn rows(&self) -> (r: usize)
        requires
            self.wf(),
        ensures
            r == rows_of(self@),
    {
        self.grid.rows()
    }

    pub fn cols(&self) -> (r: usize)
        requires
            self.wf(),
        ensures
            r == cols_of(self@),
    {
        self.grid.cols()
    }

    pub fn row(&self) -> (r: usize)
        ensures
            r == self@.row,
    {
        self.row
    }

    pub fn col(&self) -> (r: usize)
        ensures
            r == self@.col,
    {
        self.col
    }

    pub fn count_symbols(&self) -> (r: usize)
        requires
            self.wf(),
        ensures
            r == crate::grid::count_cells(self@.cells),
    {
        self.grid.count_symbols()
    }

    /// Flip the breakpoint flag of the cell at `(row, col)`.
    pub fn toggle_breakpoint(&mut self, row: usize, col: usize)
        requires
            old(self).wf(),
            row < rows_of(old(self)@),
            col < cols_of(old(self)@),
        ensures
            final(self).wf(),
            final(self)@ == (ProcessorModel {
                bps: crate::grid::toggle_spec(old(self)@.bps, row as int, col as int),
                ..old(self)@
            }),
    {
        self.grid.toggle_breakpoint(row, col);
        proof {
            assert(self@ =~= (ProcessorModel {
                bps: crate::grid::toggle_spec(old(self)@.bps, row as int, col as int),
                ..old(self)@
            }));
        }
    }

    /// A processor sits at a breakpoint when its current cell carries one
    /// and no skip is pending (a skipped breakpoint cell does not trigger).
    pub fn is_at_breakpoint(&self) -> (r: bool)
        requires
            self.wf(),
        ensures
            r == (self@.bps[self@.row][self@.col] && !self@.skip_next),
    {
        self.grid.has_breakpoint(self.row, self.col) && !self.skip_next_instruction
    }

    /// Recompute this cycle's synchronization status from the symbol under
    /// the pointer, before any instruction of the cycle executes.
    pub fn compute_send_status(&mut self)
        requires
            old(self).wf(),
        ensures
            final(self).wf(),
            final(self)@ == (ProcessorModel {
                status: send_status_of(cur_cmd(old(self)@)),
                ..old(self)@
            }),
    {
        let cmd = self.grid.get_value(self.row, self.col);
        self.sending_status = match cmd {
            Command::Transmit => SendStatus::Transmitting,
            Command::TryTransmit => SendStatus::TryTransmitting,
            Command::Receive => SendStatus::Receiving,
            Command::TryReceive => SendStatus::TryReceiving,
            _ => SendStatus::Idle,
        };
        proof {
            assert(self@ =~= (ProcessorModel {
                status: send_status_of(cur_cmd(old(self)@)),
                ..old(self)@
            }));
        }
    }

    /// Push the computed value `val` onto the stack.  A value outside the
    /// representable range fails with a numeric overflow before the stack is
    /// touched; a full stack fails with a stack overflow.  In either failure
    /// the processor is unchanged.
    pub fn push(&mut self, val: i32) -> (r: Result<(), VMError>)
        requires
            old(self).wf(),
        ensures
            final(self).wf(),
            match r {
                Ok(()) => push_model(old(self)@, val as int) == Ok::<ProcessorModel, VMError>(
                    final(self)@,
                ),
                Err(e) => {
                    &&& push_model(old(self)@, val as int) == Err::<ProcessorModel, VMError>(e)
                    &&& final(self)@ == old(self)@
                },
            },
            (val < VAL_MIN as i32 || val > VAL_MAX as i32) <==> r == Err::<(), VMError>(
                VMError::NumericOverflow,
            ),
    {
        if val < VAL_MIN as i32 || val > VAL_MAX as i32 {
            return Err(VMError::NumericOverflow);
        }
        let ok = self.stack.push(val as i16);
        if ok {
            proof {
                assert(self@ =~= (ProcessorModel {
                    stack: old(self)@.stack.push(val as i16),
                    ..old(self)@
                }));
            }
            Ok(())
        } else {
            proof {
                assert(self@ =~= old(self)@);
            }
            Err(VMError::StackOverflow)
        }
    }

    /// Remove and return the top of the stack; an empty stack fails with a
    /// stack underflow and nothing changes.
    pub fn pop(&mut self) -> (r: Result<i16, VMError>)
        requires
            old(self).wf(),
        ensures
            final(self).wf(),
            match r {
                Ok(v) => pop_model(old(self)@) == Ok::<(i16, ProcessorModel), VMError>(
                    (v, final(self)@),
                ),
                Err(e) => {
                    &&& pop_model(old(self)@) == Err::<(i16, ProcessorModel), VMError>(e)
                    &&& final(self)@ == old(self)@
                },
            },
    {
        match self.stack.pop() {
            Some(v) => {
                proof {
                    assert(self@ =~= (ProcessorModel {
                        stack: old(self)@.stack.drop_last(),
                        ..old(self)@
                    }));
                }
                Ok(v)
            },
            None => Err(VMError::StackUnderflow),
        }
    }

    /// The top of the stack without removing it; an empty stack fails with
    /// a stack underflow.
    pub fn peek(&self) -> (r: Result<i16, VMError>)
        ensures
            self@.stack.len() == 0 ==> r == Err::<i16, VMError>(VMError::StackUnderflow),
            self@.stack.len() > 0 ==> r == Ok::<i16, VMError>(self@.stack.last()),
    {
        match self.stack.peek() {
            Some(v) => Ok(v),
            None => Err(VMError::StackUnderflow),
        }
    }

    /// Execute a digit instruction: extend the number on top of the stack
    /// by one decimal place when the previous instruction was a digit too,
    /// else push the digit on its own.
    fn handle_number(&mut self, number: i16) -> (r: Result<(), VMError>)
        requires
            old(self).wf(),
            0 <= number <= 9,
        ensures
            final(self).wf(),
            match r {
                Ok(()) => digit_model(old(self)@, number as int) == Ok::<
                    ProcessorModel,
                    VMError,
                >(final(self)@),
                Err(e) => {
                    &&& digit_model(old(self)@, number as int) == Err::<
                        ProcessorModel,
                        VMError,
                    >(e)
                    &&& same_frame(old(self)@, final(self)@)
                    &&& final(self)@.row == old(self)@.row
                    &&& final(self)@.col == old(self)@.col
                    &&& final(self)@.status == old(self)@.status
                    &&& final(self)@.skip_next == old(self)@.skip_next
                    &&& final(self)@.direction == old(self)@.direction
                    &&& final(self)@.last_was_number == old(self)@.last_was_number
                },
            },
    {
        if self.last_was_number {
            let v = match self.pop() {
                Ok(v) => v,
                Err(e) => {
                    return Err(e);
                },
            };
            self.push((v as i32) * 10 + (number as i32))
        } else {
            self.push(number as i32)
        }
    }

    /// Move the execution pointer one cell in its travel direction, with
    /// wraparound on both axes.
    fn advance(&mut self)
        requires
            old(self).wf(),
        ensures
            final(self).wf(),
            final(self)@ == advance_model(old(self)@),
    {
        match self.direction {
            Direction::Up => {
                let rows = self.grid.rows();
                self.row = if self.row == 0 { rows - 1 } else { self.row - 1 };
            },
            Direction::Down => {
                let rows = self.grid.rows();
                self.row = if self.row == rows - 1 { 0 } else { self.row + 1 };
            },
            Direction::Left => {
                let cols = self.grid.cols();
                self.col = if self.col == 0 { cols - 1 } else { self.col - 1 };
            },
            Direction::Right => {
                let cols = self.grid.cols();
                self.col = if self.col == cols - 1 { 0 } else { self.col + 1 };
            },
        }
        proof {
            assert(self@ =~= advance_model(old(self)@));
        }
    }


    /// Execute a movement, mirror, conditional or flow instruction: one
    /// that only reads the stack or the input queue and changes at most the
    /// travel direction or the skip flag.
    fn exec_simple(&mut self) -> (r: Result<(), VMError>)
        requires
            old(self).wf(),
            is_simple_cmd(cur_cmd(old(self)@)),
        ensures
            final(self).wf(),
            match r {
                Ok(()) => exec_core_model(old(self)@) == Ok::<ProcessorModel, VMError>(
                    final(self)@,
                ),
                Err(e) => {
                    &&& exec_core_model(old(self)@) == Err::<ProcessorModel, VMError>(e)
                    &&& final(self)@ == old(self)@
                    &&& same_frame(old(self)@, final(self)@)
                    &&& final(self)@.row == old(self)@.row
                    &&& final(self)@.col == old(self)@.col
                    &&& final(self)@.status == old(self)@.status
                    &&& final(self)@.skip_next == old(self)@.skip_next
                    &&& final(self)@.direction == old(self)@.direction
                    &&& final(self)@.last_was_number == old(self)@.last_was_number
                },
            },
    {
        let cmd = self.grid.get_value(self.row, self.col);
        match cmd {
            Command::Up => {
                self.direction = Direction::Up;
            },
            Command::Down => {
                self.direction = Direction::Down;
            },
            Command::Left => {
                self.direction = Direction::Left;
            },
            Command::Right => {
                self.direction = Direction::Right;
            },
            Command::ForwardSlash => {
                self.direction = match self.direction {
                    Direction::Up => Direction::Right,
                    Direction::Right => Direction::Up,
                    Direction::Down => Direction::Left,
                    Direction::Left => Direction::Down,
                };
            },
            Command::BackSlash => {
                self.direction = match self.direction {
                    Direction::Up => Direction::Left,
                    Direction::Left => Direction::Up,
                    Direction::Down => Direction::Right,
                    Direction::Right => Direction::Down,
                };
            },
            Command::IfLess => {
                let v = match self.peek() {
                    Ok(v) => v,
                    Err(e) => {
                        return Err(e);
                    },
                };
                self.skip_next_instruction = !(v < 0);
            },
            Command::IfEqual => {
                let v = match self.peek() {
                    Ok(v) => v,
                    Err(e) => {
                        return Err(e);
                    },
                };
                self.skip_next_instruction = !(v == 0);
            },
            Command::IfGreater => {
                let v = match self.peek() {
                    Ok(v) => v,
                    Err(e) => {
                        return Err(e);
                    },
                };
                self.skip_next_instruction = !(v > 0);
            },
            Command::Skip => {
                self.skip_next_instruction = true;
            },
            Command::HasInput => {
                self.skip_next_instruction = !self.inputs.can_read();
            },
            _ => {},
        }
        proof {
            match exec_core_model(old(self)@) {
                Ok(m) => {
                    assert(self@ =~= m);
                },
                Err(_) => {},
            }
        }
        Ok(())
    }

    /// Execute a stack instruction: pop, duplicate, swap or rotate.
    fn exec_stack_op(&mut self) -> (r: Result<(), VMError>)
        requires
            old(self).wf(),
            is_stack_cmd(cur_cmd(old(self)@)),
        ensures
            final(self).wf(),
            match r {
                Ok(()) => exec_core_model(old(self)@) == Ok::<ProcessorModel, VMError>(
                    final(self)@,
                ),
                Err(e) => {
                    &&& exec_core_model(old(self)@) == Err::<ProcessorModel, VMError>(e)
                    &&& same_frame(old(self)@, final(self)@)
                    &&& final(self)@.row == old(self)@.row
                    &&& final(self)@.col == old(self)@.col
                    &&& final(self)@.status == old(self)@.status
                    &&& final(self)@.skip_next == old(self)@.skip_next
                    &&& final(self)@.direction == old(self)@.direction
                    &&& final(self)@.last_was_number == old(self)@.last_was_number
                },
            },
    {
        let cmd = self.grid.get_value(self.row, self.col);
        match cmd {
            Command::Pop => {
                if let Err(e) = self.pop() {
                    return Err(e);
                }
            },
            Command::Duplicate => {
                let v = match self.peek() {
                    Ok(v) => v,
                    Err(e) => {
                        return Err(e);
                    },
                };
                if let Err(e) = self.push(v as i32) {
                    return Err(e);
                }
            },
            Command::SwapTop2 => {
                let v1 = match self.pop() {
                    Ok(v) => v,
                    Err(e) => {
                        return Err(e);
                    },
                };
                let v2 = match self.pop() {
                    Ok(v) => v,
                    Err(e) => {
                        return Err(e);
                    },
                };
                if let Err(e) = self.push(v1 as i32) {
                    return Err(e);
                }
                if let Err(e) = self.push(v2 as i32) {
                    return Err(e);
                }
            },
            Command::RotateDown => {
                self.stack.rotate_down();
            },
            Command::RotateUp => {
                self.stack.rotate_up();
            },
            _ => {},
        }
        proof {
            match exec_core_model(old(self)@) {
                Ok(m) => {
                    assert(self@ =~= m);
                },
                Err(_) => {},
            }
        }
        Ok(())
    }

    /// Execute an arithmetic instruction: pop the right then the left
    /// operand and push the exact result, subject to the range check.
    fn exec_arith(&mut self) -> (r: Result<(), VMError>)
        requires
            old(self).wf(),
            is_arith_cmd(cur_cmd(old(self)@)),
        ensures
            final(self).wf(),
            match r {
                Ok(()) => exec_core_model(old(self)@) == Ok::<ProcessorModel, VMError>(
                    final(self)@,
                ),
                Err(e) => {
                    &&& exec_core_model(old(self)@) == Err::<ProcessorModel, VMError>(e)
                    &&& same_frame(old(self)@, final(self)@)
                    &&& final(self)@.row == old(self)@.row
                    &&& final(self)@.col == old(self)@.col
                    &&& final(self)@.status == old(self)@.status
                    &&& final(self)@.skip_next == old(self)@.skip_next
                    &&& final(self)@.direction == old(self)@.direction
                    &&& final(self)@.last_was_number == old(self)@.last_was_number
                },
            },
    {
        let cmd = self.grid.get_value(self.row, self.col);
        let v2 = match self.pop() {
            Ok(v) => v,
            Err(e) => {
                return Err(e);
            },
        };
        let v1 = match self.pop() {
            Ok(v) => v,
            Err(e) => {
                return Err(e);
            },
        };
        let value: i32 = match cmd {
            Command::Add => v1 as i32 + v2 as i32,
            Command::Subtract => v1 as i32 - v2 as i32,
            _ => {
                proof {
                    assert((VAL_MIN as int) * (VAL_MAX as int) <= (v1 as int) * (v2 as int)
                        && (v1 as int) * (v2 as int) <= (VAL_MAX as int) * (VAL_MAX as int))
                        by (nonlinear_arith)
                        requires
                            VAL_MIN <= v1 <= VAL_MAX,
                            VAL_MIN <= v2 <= VAL_MAX,
                    ;
                }
                v1 as i32 * v2 as i32
            },
        };
        if let Err(e) = self.push(value) {
            return Err(e);
        }
        proof {
            match exec_core_model(old(self)@) {
                Ok(m) => {
                    assert(self@ =~= m);
                },
                Err(_) => {},
            }
        }
        Ok(())
    }

    /// Execute an I/O instruction: read the next input onto the stack, or
    /// pop the top of the stack into the output queue.
    fn exec_io(&mut self) -> (r: Result<(), VMError>)
        requires
            old(self).wf(),
            is_io_cmd(cur_cmd(old(self)@)),
        ensures
            final(self).wf(),
            match r {
                Ok(()) => exec_core_model(old(self)@) == Ok::<ProcessorModel, VMError>(
                    final(self)@,
                ),
                Err(e) => {
                    &&& exec_core_model(old(self)@) == Err::<ProcessorModel, VMError>(e)
                    &&& same_frame(old(self)@, final(self)@)
                    &&& final(self)@.row == old(self)@.row
                    &&& final(self)@.col == old(self)@.col
                    &&& final(self)@.status == old(self)@.status
                    &&& final(self)@.skip_next == old(self)@.skip_next
                    &&& final(self)@.direction == old(self)@.direction
                    &&& final(self)@.last_was_number == old(self)@.last_was_number
                },
            },
    {
        let cmd = self.grid.get_value(self.row, self.col);
        match cmd {
            Command::In => {
                let v = match self.inputs.read() {
                    Some(v) => v,
                    None => {
                        return Err(VMError::NoInputs);
                    },
                };
                if let Err(e) = self.push(v as i32) {
                    return Err(e);
                }
            },
            Command::Out => {
                let v = match self.pop() {
                    Ok(v) => v,
                    Err(e) => {
                        return Err(e);
                    },
                };
                if !self.outputs.write(v) {
                    return Err(VMError::TooManyOutputs);
                }
            },
            _ => {},
        }
        proof {
            match exec_core_model(old(self)@) {
                Ok(m) => {
                    assert(self@ =~= m);
                },
                Err(_) => {},
            }
        }
        Ok(())
    }

    /// Execute the non-synchronization instruction under the pointer,
    /// without moving the pointer: the `exec_core_model` phase of a cycle.
    fn exec_instruction(&mut self) -> (r: Result<(), VMError>)
        requires
            old(self).wf(),
            !cur_cmd(old(self)@).is_sync(),
        ensures
            final(self).wf(),
            match r {
                Ok(()) => exec_core_model(old(self)@) == Ok::<ProcessorModel, VMError>(
                    final(self)@,
                ),
                Err(e) => {
                    &&& exec_core_model(old(self)@) == Err::<ProcessorModel, VMError>(e)
                    &&& same_frame(old(self)@, final(self)@)
                    &&& final(self)@.row == old(self)@.row
                    &&& final(self)@.col == old(self)@.col
                    &&& final(self)@.status == old(self)@.status
                    &&& final(self)@.skip_next == old(self)@.skip_next
                    &&& final(self)@.direction == old(self)@.direction
                    &&& final(self)@.last_was_number == old(self)@.last_was_number
                },
            },
    {
        let cmd = self.grid.get_value(self.row, self.col);
        match cmd {
            Command::Empty | Command::Up | Command::Down | Command::Left | Command::Right
                | Command::ForwardSlash | Command::BackSlash | Command::IfLess
                | Command::IfEqual | Command::IfGreater | Command::Skip
                | Command::HasInput => self.exec_simple(),
            Command::Zero => self.handle_number(0),
            Command::One => self.handle_number(1),
            Command::Two => self.handle_number(2),
            Command::Three => self.handle_number(3),
            Command::Four => self.handle_number(4),
            Command::Five => self.handle_number(5),
            Command::Six => self.handle_number(6),
            Command::Seven => self.handle_number(7),
            Command::Eight => self.handle_number(8),
            Command::Nine => self.handle_number(9),
            Command::Pop | Command::Duplicate | Command::SwapTop2 | Command::RotateDown
                | Command::RotateUp => self.exec_stack_op(),
            Command::Add | Command::Subtract | Command::Multiply => self.exec_arith(),
            Command::In | Command::Out => self.exec_io(),
            Command::Transmit | Command::Receive | Command::TryTransmit
                | Command::TryReceive => {
                proof {
                    assert(false);
                }
                Ok(())
            },
        }
    }

    /// One cycle in the single-processor configuration: consume a pending
    /// skip or execute the instruction under the pointer, then move.  The
    /// whole transition is `step_solo_model`; on an error the processor
    /// keeps its position and its frame and stays well formed, but the rest
    /// of its state is unspecified (a failed run is not stepped again).
    #[verifier::rlimit(100)]
    #[verifier::spinoff_prover]
    pub fn step_single(&mut self) -> (r: Result<(), VMError>)
        requires
            old(self).wf(),
            no_sync_model(old(self)@),
        ensures
            final(self).wf(),
            same_frame(old(self)@, final(self)@),
            match r {
                Ok(()) => step_solo_model(old(self)@) == Ok::<ProcessorModel, VMError>(
                    final(self)@,
                ),
                Err(e) => {
                    &&& step_solo_model(old(self)@) == Err::<ProcessorModel, VMError>(e)
                    &&& final(self)@.row == old(self)@.row
                    &&& final(self)@.col == old(self)@.col
                },
            },
    {
        let mut is_number = false;
        if !self.skip_next_instruction {
            let cmd = self.grid.get_value(self.row, self.col);
            if cmd.digit().is_some() {
                is_number = true;
            }
            if let Err(e) = self.exec_instruction() {
                return Err(e);
            }
        } else {
            self.skip_next_instruction = false;
        }
        let ghost mid = self@;
        proof {
            if old(self)@.skip_next {
                assert(mid =~= (ProcessorModel { skip_next: false, ..old(self)@ }));
            } else {
                assert(exec_core_model(old(self)@) == Ok::<ProcessorModel, VMError>(mid));
            }
        }
        if !self.sending_status.is_blocking() {
            self.advance();
        }
        self.last_was_number = is_number;
        proof {
            assert(self@ =~= finish_model(mid, is_number));
        }
        Ok(())
    }

    /// Resolve a blocking transmit against the partner's status: block,
    /// detect a deadlock, or pop this stack and push onto the partner's.
    fn handle_transmit(&mut self, partner: &mut Processor) -> (r: Result<(), VMError>)
        requires
            old(self).wf(),
            old(partner).wf(),
            cur_cmd(old(self)@) == Command::Transmit,
        ensures
            final(self).wf(),
            final(partner).wf(),
            match r {
                Ok(()) => exec_sync_model(old(self)@, old(partner)@) == Ok::<
                    (ProcessorModel, ProcessorModel),
                    VMError,
                >((final(self)@, final(partner)@)),
                Err(e) => {
                    &&& exec_sync_model(old(self)@, old(partner)@) == Err::<
                        (ProcessorModel, ProcessorModel),
                        VMError,
                    >(e)
                    &&& err_frame(old(self)@, final(self)@)
                    &&& err_frame(old(partner)@, final(partner)@)
                },
            },
    {
        match partner.sending_status {
            SendStatus::Idle | SendStatus::TryTransmitting => {},
            SendStatus::Transmitting => {
                return Err(VMError::Deadlock);
            },
            SendStatus::Receiving | SendStatus::TryReceiving => {
                let v = match self.pop() {
                    Ok(v) => v,
                    Err(e) => {
                        return Err(e);
                    },
                };
                if let Err(e) = partner.push(v as i32) {
                    return Err(e);
                }
                self.sending_status = SendStatus::Completed;
            },
            SendStatus::Completed => {
                self.sending_status = SendStatus::Completed;
            },
        }
        proof {
            match exec_sync_model(old(self)@, old(partner)@) {
                Ok((a, b)) => {
                    assert(self@ =~= a);
                    assert(partner@ =~= b);
                },
                Err(_) => {},
            }
        }
        Ok(())
    }

    /// Resolve a blocking receive against the partner's status: block,
    /// detect a deadlock, or pop the partner's stack and push onto this one.
    fn handle_receive(&mut self, partner: &mut Processor) -> (r: Result<(), VMError>)
        requires
            old(self).wf(),
            old(partner).wf(),
            cur_cmd(old(self)@) == Command::Receive,
        ensures
            final(self).wf(),
            final(partner).wf(),
            match r {
                Ok(()) => exec_sync_model(old(self)@, old(partner)@) == Ok::<
                    (ProcessorModel, ProcessorModel),
                    VMError,
                >((final(self)@, final(partner)@)),
                Err(e) => {
                    &&& exec_sync_model(old(self)@, old(partner)@) == Err::<
                        (ProcessorModel, ProcessorModel),
                        VMError,
                    >(e)
                    &&& err_frame(old(self)@, final(self)@)
                    &&& err_frame(old(partner)@, final(partner)@)
                },
            },
    {
        match partner.sending_status {
            SendStatus::Idle | SendStatus::TryReceiving => {},
            SendStatus::Receiving => {
                return Err(VMError::Deadlock);
            },
            SendStatus::Transmitting | SendStatus::TryTransmitting => {
                let v = match partner.pop() {
                    Ok(v) => v,
                    Err(e) => {
                        return Err(e);
                    },
                };
                if let Err(e) = self.push(v as i32) {
                    return Err(e);
                }
                self.sending_status = SendStatus::Completed;
            },
            SendStatus::Completed => {
                self.sending_status = SendStatus::Completed;
            },
        }
        proof {
            match exec_sync_model(old(self)@, old(partner)@) {
                Ok((a, b)) => {
                    assert(self@ =~= a);
                    assert(partner@ =~= b);
                },
                Err(_) => {},
            }
        }
        Ok(())
    }

    /// Resolve a non-blocking transmit: with no partner ready, skip the
    /// next instruction; with a ready receiver, transfer a value.  Either
    /// way the transmit completes this cycle.
    fn handle_try_transmit(&mut self, partner: &mut Processor) -> (r: Result<(), VMError>)
        requires
            old(self).wf(),
            old(partner).wf(),
            cur_cmd(old(self)@) == Command::TryTransmit,
        ensures
            final(self).wf(),
            final(partner).wf(),
            match r {
                Ok(()) => exec_sync_model(old(self)@, old(partner)@) == Ok::<
                    (ProcessorModel, ProcessorModel),
                    VMError,
                >((final(self)@, final(partner)@)),
                Err(e) => {
                    &&& exec_sync_model(old(self)@, old(partner)@) == Err::<
                        (ProcessorModel, ProcessorModel),
                        VMError,
                    >(e)
                    &&& err_frame(old(self)@, final(self)@)
                    &&& err_frame(old(partner)@, final(partner)@)
                },
            },
    {
        match partner.sending_status {
            SendStatus::Idle | SendStatus::Transmitting | SendStatus::TryTransmitting => {
                self.skip_next_instruction = true;
            },
            SendStatus::Receiving | SendStatus::TryReceiving => {
                let v = match self.pop() {
                    Ok(v) => v,
                    Err(e) => {
                        return Err(e);
                    },
                };
                if let Err(e) = partner.push(v as i32) {
                    return Err(e);
                }
            },
            SendStatus::Completed => {},
        }
        self.sending_status = SendStatus::Completed;
        proof {
            match exec_sync_model(old(self)@, old(partner)@) {
                Ok((a, b)) => {
                    assert(self@ =~= a);
                    assert(partner@ =~= b);
                },
                Err(_) => {},
            }
        }
        Ok(())
    }

    /// Resolve a non-blocking receive: with no partner ready, skip the next
    /// instruction; with a ready sender, transfer a value.  Either way the
    /// receive completes this cycle.
    fn handle_try_receive(&mut self, partner: &mut Processor) -> (r: Result<(), VMError>)
        requires
            old(self).wf(),
            old(partner).wf(),
            cur_cmd(old(self)@) == Command::TryReceive,
        ensures
            final(self).wf(),
            final(partner).wf(),
            match r {
                Ok(()) => exec_sync_model(old(self)@, old(partner)@) == Ok::<
                    (ProcessorModel, ProcessorModel),
                    VMError,
                >((final(self)@, final(partner)@)),
                Err(e) => {
                    &&& exec_sync_model(old(self)@, old(partner)@) == Err::<
                        (ProcessorModel, ProcessorModel),
                        VMError,
                    >(e)
                    &&& err_frame(old(self)@, final(self)@)
                    &&& err_frame(old(partner)@, final(partner)@)
                },
            },
    {
        match partner.sending_status {
            SendStatus::Idle | SendStatus::Receiving | SendStatus::TryReceiving => {
                self.skip_next_instruction = true;
            },
            SendStatus::Transmitting | SendStatus::TryTransmitting => {
                let v = match partner.pop() {
                    Ok(v) => v,
                    Err(e) => {
                        return Err(e);
                    },
                };
                if let Err(e) = self.push(v as i32) {
                    return Err(e);
                }
            },
            SendStatus::Completed => {},
        }
        self.sending_status = SendStatus::Completed;
        proof {
            match exec_sync_model(old(self)@, old(partner)@) {
                Ok((a, b)) => {
                    assert(self@ =~= a);
                    assert(partner@ =~= b);
                },
                Err(_) => {},
            }
        }
        Ok(())
    }

    /// One cycle in the dual-processor configuration: consume a pending
    /// skip or execute the instruction under the pointer — resolving a
    /// synchronization instruction against the partner's status, possibly
    /// moving a value between the two stacks — then move unless still
    /// blocking.  The whole transition is `step_dual_model`; on an error
    /// both processors keep their positions and frames and stay well
    /// formed, but the rest of their state is unspecified.
    #[verifier::rlimit(100)]
    #[verifier::spinoff_prover]
    pub fn step(&mut self, partner: &mut Processor) -> (r: Result<(), VMError>)
        requires
            old(self).wf(),
            old(partner).wf(),
        ensures
            final(self).wf(),
            final(partner).wf(),
            same_frame(old(self)@, final(self)@),
            same_frame(old(partner)@, final(partner)@),
            match r {
                Ok(()) => step_dual_model(old(self)@, old(partner)@) == Ok::<
                    (ProcessorModel, ProcessorModel),
                    VMError,
                >((final(self)@, final(partner)@)),
                Err(e) => {
                    &&& step_dual_model(old(self)@, old(partner)@) == Err::<
                        (ProcessorModel, ProcessorModel),
                        VMError,
                    >(e)
                    &&& err_frame(old(self)@, final(self)@)
                    &&& err_frame(old(partner)@, final(partner)@)
                },
            },
    {
        let mut is_number = false;
        if !self.skip_next_instruction {
            let cmd = self.grid.get_value(self.row, self.col);
            if cmd.digit().is_some() {
                is_number = true;
            }
            let sync_result = match cmd {
                Command::Transmit => self.handle_transmit(partner),
                Command::Receive => self.handle_receive(partner),
                Command::TryTransmit => self.handle_try_transmit(partner),
                Command::TryReceive => self.handle_try_receive(partner),
                _ => self.exec_instruction(),
            };
            if let Err(e) = sync_result {
                return Err(e);
            }
        } else {
            self.skip_next_instruction = false;
        }
        let ghost mid = self@;
        let ghost mid_q = partner@;
        proof {
            if old(self)@.skip_next {
                assert(mid =~= (ProcessorModel { skip_next: false, ..old(self)@ }));
                assert(mid_q == old(partner)@);
            } else if cur_cmd(old(self)@).is_sync() {
                assert(exec_sync_model(old(self)@, old(partner)@) == Ok::<
                    (ProcessorModel, ProcessorModel),
                    VMError,
                >((mid, mid_q)));
            } else {
                assert(exec_core_model(old(self)@) == Ok::<ProcessorModel, VMError>(mid));
                assert(mid_q == old(partner)@);
            }
        }
        if !self.sending_status.is_blocking() {
            self.advance();
        }
        self.last_was_number = is_number;
        proof {
            assert(self@ =~= finish_model(mid, is_number));
        }
        Ok(())
    }

    /// Whether this processor has met its part of the puzzle: inputs
    /// exhausted and outputs exactly the expected outputs.
    pub fn is_solved(&self) -> (r: bool)
        ensures
            r == solved_model(self@),
    {
        self.inputs.len() == 0 && self.outputs.eq_values(&self.expected_outputs)
    }

    /// The stack, for rendering and inspection.
    pub fn get_stack(&self) -> (r: &Stack)
        ensures
            r@ == self@.stack,
    {
        &self.stack
    }

    /// The remaining inputs, for rendering and inspection.
    pub fn get_inputs(&self) -> (r: &PuzzleIO)
        ensures
            r@ == self@.inputs,
    {
        &self.inputs
    }

    /// The outputs produced so far, for rendering and inspection.
    pub fn get_outputs(&self) -> (r: &PuzzleIO)
        ensures
            r@ == self@.outputs,
    {
        &self.outputs
    }

    /// The expected outputs, for rendering and inspection.
    pub fn get_expected_outputs(&self) -> (r: &PuzzleIO)
        ensures
            r@ == self@.expected,
    {
        &self.expected_outputs
    }

    /// The direction the pointer will travel next.
    pub fn get_direction(&self) -> (r: Direction)
        ensures
            r == self@.direction,
    {
        self.direction
    }

    /// Whether the next executed cell will be skipped.
    pub fn skip_next(&self) -> (r: bool)
        ensures
            r == self@.skip_next,
    {
        self.skip_next_instruction
    }

    /// This cycle's synchronization status.
    pub fn get_send_status(&self) -> (r: SendStatus)
        ensures
            r == self@.status,
    {
        self.sending_status
    }

    /// The symbol in the cell at `(row, col)`, for rendering.
    pub fn get_cell(&self, row: usize, col: usize) -> (r: Command)
        requires
            self.wf(),
            row < rows_of(self@),
            col < cols_of(self@),
        ensures
            r == self@.cells[row as int][col as int],
    {
        self.grid.get_value(row, col)
    }

    /// Whether the cell at `(row, col)` carries a breakpoint, for rendering.
    pub fn has_breakpoint(&self, row: usize, col: usize) -> (r: bool)
        requires
            self.wf(),
        ensures
            r == self@.bps[row as int][col as int] || !(0 <= row < rows_of(self@) && 0 <= col
                < cols_of(self@)) && !r,
    {
        self.grid.has_breakpoint(row, col)
    }

    /// The symbol under the execution pointer.
    pub fn current_command(&self) -> (r: Command)
        requires
            self.wf(),
        ensures
            r == cur_cmd(self@),
    {
        self.grid.get_value(self.row, self.col)
    }
}

/// A non-blocking transmit with no ready partner skips the next
/// instruction on the sender, completes its status, leaves the partner
/// untouched — and still advances the sender's pointer this cycle.
pub proof fn lemma_try_transmit_no_partner(m: ProcessorModel, q: ProcessorModel)
    requires
        wf_model(m),
        !m.skip_next,
        cur_cmd(m) == Command::TryTransmit,
        q.status == SendStatus::Idle || q.status == SendStatus::Transmitting || q.status
            == SendStatus::TryTransmitting,
    ensures
        step_dual_model(m, q) == Ok::<(ProcessorModel, ProcessorModel), VMError>(
            (
                ProcessorModel {
                    last_was_number: false,
                    ..advance_model(
                        ProcessorModel { skip_next: true, status: SendStatus::Completed, ..m },
                    )
                },
                q,
            ),
        ),
{
    let resolved = ProcessorModel { skip_next: true, status: SendStatus::Completed, ..m };
    assert(exec_sync_model(m, q) == Ok::<(ProcessorModel, ProcessorModel), VMError>(
        (resolved, q),
    ));
    assert(finish_model(resolved, false) =~= (ProcessorModel {
        last_was_number: false,
        ..advance_model(resolved)
    }));
}

/// The state after `n` cycles of the single-processor configuration, or the
/// first error raised along the way.
pub open spec fn steps_solo_model(m: ProcessorModel, n: nat) -> Result<ProcessorModel, VMError>
    decreases n,
{
    if n == 0 {
        Ok(m)
    } else {
        match step_solo_model(m) {
            Err(e) => Err(e),
            Ok(m1) => steps_solo_model(m1, (n - 1) as nat),
        }
    }
}

/// The number the digits `ds` spell when they extend an accumulated value
/// `v` decimal place by decimal place.
pub open spec fn extend_number(v: int, ds: Seq<int>) -> int
    decreases ds.len(),
{
    if ds.len() == 0 {
        v
    } else {
        extend_number(v * 10 + ds[0], ds.drop_first())
    }
}

/// The number a digit sequence spells in decimal.
pub open spec fn digits_value(ds: Seq<int>) -> int {
    extend_number(0, ds)
}

/// Every entry of `ds` is a decimal digit.
pub open spec fn all_digits(ds: Seq<int>) -> bool {
    forall|i: int| 0 <= i < ds.len() ==> 0 <= #[trigger] ds[i] <= 9
}

/// Extending a non-negative value by digits never shrinks it.
proof fn lemma_extend_number_monotone(v: int, ds: Seq<int>)
    requires
        v >= 0,
        all_digits(ds),
    ensures
        extend_number(v, ds) >= v,
    decreases ds.len(),
{
    if ds.len() > 0 {
        assert(all_digits(ds.drop_first()));
        lemma_extend_number_monotone(v * 10 + ds[0], ds.drop_first());
    }
}

/// The digit cells `ds` stand in row `row` of `m`, one per column from
/// `col` on.
pub open spec fn digit_cells_at(m: ProcessorModel, row: int, col: int, ds: Seq<int>) -> bool {
    forall|i: int|
        0 <= i < ds.len() ==> (#[trigger] m.cells[row][col + i]).digit_spec() == Some(ds[i])
}

/// Inductive core of the multi-digit law: from a state whose previous
/// instruction was a digit and whose stack top is the accumulated value,
/// a run of digit cells extends that value in place.
proof fn lemma_digit_run(m: ProcessorModel, ds: Seq<int>)
    requires
        wf_model(m),
        m.direction == Direction::Right,
        !m.skip_next,
        m.last_was_number,
        m.status == SendStatus::Idle,
        m.stack.len() >= 1,
        m.stack.last() >= 0,
        all_digits(ds),
        extend_number(m.stack.last() as int, ds) <= VAL_MAX as int,
        m.col + ds.len() < cols_of(m),
        digit_cells_at(m, m.row, m.col, ds),
    ensures
        steps_solo_model(m, ds.len()) == Ok::<ProcessorModel, VMError>(
            ProcessorModel {
                col: m.col + ds.len(),
                stack: m.stack.drop_last().push(
                    extend_number(m.stack.last() as int, ds) as i16,
                ),
                ..m
            },
        ),
    decreases ds.len(),
{
    let expected = ProcessorModel {
        col: m.col + ds.len(),
        stack: m.stack.drop_last().push(extend_number(m.stack.last() as int, ds) as i16),
        ..m
    };
    if ds.len() == 0 {
        assert(m.stack.drop_last().push(m.stack.last()) =~= m.stack);
        assert(expected =~= m);
    } else {
        let d = ds[0];
        let v = m.stack.last() as int;
        assert(m.cells[m.row][m.col + 0].digit_spec() == Some(ds[0]));
        assert(cur_cmd(m).digit_spec() == Some(d));
        lemma_extend_number_monotone(v * 10 + d, ds.drop_first());
        let pushed = ProcessorModel { stack: m.stack.drop_last().push((v * 10 + d) as i16), ..m };
        assert(exec_core_model(m) == Ok::<ProcessorModel, VMError>(pushed)) by {
            match cur_cmd(m) {
                Command::Zero | Command::One | Command::Two | Command::Three | Command::Four
                    | Command::Five | Command::Six | Command::Seven | Command::Eight
                    | Command::Nine => {
                    assert(digit_model(m, d) == Ok::<ProcessorModel, VMError>(pushed));
                },
                _ => {
                    assert(false);
                },
            }
        }
        let m1 = finish_model(pushed, true);
        assert(step_solo_model(m) == Ok::<ProcessorModel, VMError>(m1));
        assert(m1 =~= (ProcessorModel {
            col: m.col + 1,
            stack: m.stack.drop_last().push((v * 10 + d) as i16),
            ..m
        }));
        assert(digit_cells_at(m1, m1.row, m1.col, ds.drop_first())) by {
            assert forall|i: int| 0 <= i < ds.drop_first().len() implies (#[trigger] m1.cells[
            m1.row][m1.col + i]).digit_spec() == Some(ds.drop_first()[i]) by {
                assert(m.cells[m.row][m.col + (i + 1)].digit_spec() == Some(ds[i + 1]));
            }
        }
        lemma_digit_run(m1, ds.drop_first());
        assert(m1.stack.last() == (v * 10 + d) as i16);
        assert(m1.stack.drop_last() =~= m.stack.drop_last());
        assert(extend_number(m1.stack.last() as int, ds.drop_first()) == extend_number(
            v,
            ds,
        ));
        let m2 = ProcessorModel {
            col: m1.col + ds.drop_first().len(),
            stack: m1.stack.drop_last().push(
                extend_number(m1.stack.last() as int, ds.drop_first()) as i16,
            ),
            ..m1
        };
        assert(steps_solo_model(m1, ds.drop_first().len()) == Ok::<ProcessorModel, VMError>(m2));
        assert(m2 =~= expected);
        assert(steps_solo_model(m, ds.len()) == steps_solo_model(m1, (ds.len() - 1) as nat));
        assert(ds.drop_first().len() == ds.len() - 1);
    }
}

/// Multi-digit construction: a sequence of digit cells written in
/// consecutive executed cells produces a single stack value — the decimal
/// number the digits spell — provided no digit immediately precedes the
/// run, the run stays inside the row, and the number is representable.
pub proof fn lemma_multi_digit_number(m: ProcessorModel, ds: Seq<int>)
    requires
        wf_model(m),
        m.direction == Direction::Right,
        !m.skip_next,
        !m.last_was_number,
        m.status == SendStatus::Idle,
        m.stack.len() < m.stack_cap,
        ds.len() >= 1,
        all_digits(ds),
        digits_value(ds) <= VAL_MAX as int,
        m.col + ds.len() < cols_of(m),
        digit_cells_at(m, m.row, m.col, ds),
    ensures
        steps_solo_model(m, ds.len()) == Ok::<ProcessorModel, VMError>(
            ProcessorModel {
                col: m.col + ds.len(),
                stack: m.stack.push(digits_value(ds) as i16),
                last_was_number: true,
                ..m
            },
        ),
{
    let d = ds[0];
    assert(m.cells[m.row][m.col + 0].digit_spec() == Some(ds[0]));
    assert(cur_cmd(m).digit_spec() == Some(d));
    lemma_extend_number_monotone(d, ds.drop_first());
    assert(extend_number(0, ds) == extend_number(d, ds.drop_first()));
    let pushed = ProcessorModel { stack: m.stack.push(d as i16), ..m };
    assert(exec_core_model(m) == Ok::<ProcessorModel, VMError>(pushed)) by {
        match cur_cmd(m) {
            Command::Zero | Command::One | Command::Two | Command::Three | Command::Four
                | Command::Five | Command::Six | Command::Seven | Command::Eight
                | Command::Nine => {
                assert(digit_model(m, d) == Ok::<ProcessorModel, VMError>(pushed));
            },
            _ => {
                assert(false);
            },
        }
    }
    let m1 = finish_model(pushed, true);
    assert(step_solo_model(m) == Ok::<ProcessorModel, VMError>(m1));
    assert(m1 =~= (ProcessorModel {
        col: m.col + 1,
        stack: m.stack.push(d as i16),
        last_was_number: true,
        ..m
    }));
    assert(digit_cells_at(m1, m1.row, m1.col, ds.drop_first())) by {
        assert forall|i: int| 0 <= i < ds.drop_first().len() implies (#[trigger] m1.cells[m1.row][
        m1.col + i]).digit_spec() == Some(ds.drop_first()[i]) by {
            assert(m.cells[m.row][m.col + (i + 1)].digit_spec() == Some(ds[i + 1]));
        }
    }
    lemma_digit_run(m1, ds.drop_first());
    assert(m1.stack.last() == d as i16);
    assert(m1.stack.drop_last() =~= m.stack);
    let m2 = ProcessorModel {
        col: m1.col + ds.drop_first().len(),
        stack: m1.stack.drop_last().push(
            extend_number(m1.stack.last() as int, ds.drop_first()) as i16,
        ),
        ..m1
    };
    assert(steps_solo_model(m1, ds.drop_first().len()) == Ok::<ProcessorModel, VMError>(m2));
    assert(m2 =~= (ProcessorModel {
        col: m.col + ds.len(),
        stack: m.stack.push(digits_value(ds) as i16),
        last_was_number: true,
        ..m
    }));
    assert(steps_solo_model(m, ds.len()) == steps_solo_model(m1, (ds.len() - 1) as nat));
    assert(ds.drop_first().len() == ds.len() - 1);
}

} // verus!
