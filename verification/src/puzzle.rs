//! One test case of a puzzle: validated input values and expected output
//! values for each processor.
//!
//! Construction validates every value against the representable range and
//! every sequence against the queue capacity; a puzzle that fails
//! validation is rejected with a descriptive error.

use vstd::prelude::*;

use crate::instruction::{VAL_MAX, VAL_MIN};
use crate::queue::PuzzleIO;

verus! {

/// Queue capacity of the single-processor configuration.
pub const MAX_PUZZLE_VALUES: usize = 15;

/// Queue capacity of the dual-processor configuration.
pub const PARALLEL_MAX_PUZZLE_VALUES: usize = 8;

/// Why a puzzle was rejected at construction.
#[derive(Debug, Clone, Copy, PartialEq, Eq, Structural)]
pub enum PuzzleError {
    TooManyInputs,
    TooManyOutputs,
    InputOutOfRange,
    OutputOutOfRange,
}

impl PuzzleError {
    /// Short human-readable description of the rejection.
    pub fn get_msg(&self) -> &'static str {
        match self {
            PuzzleError::TooManyInputs => "Too many input values",
            PuzzleError::TooManyOutputs => "Too many output values",
            PuzzleError::InputOutOfRange => "Input outside range [-999,999]",
            PuzzleError::OutputOutOfRange => "Output outside range [-999,999]",
        }
    }
}

/// Every value of the sequence lies in the representable range.
pub open spec fn all_in_range(s: Seq<i16>) -> bool {
    forall|i: int| 0 <= i < s.len() ==> VAL_MIN <= #[trigger] s[i] <= VAL_MAX
}

/// Check one sequence of values against the range.
fn check_in_range(values: &Vec<i16>) -> (r: bool)
    ensures
        r == all_in_range(values@),
{
    let mut i: usize = 0;
    while i < values.len()
        invariant
            i <= values@.len(),
            forall|j: int| 0 <= j < i ==> VAL_MIN <= #[trigger] values@[j] <= VAL_MAX,
        decreases values@.len() - i,
    {
        let v = values[i];
        if v < VAL_MIN || v > VAL_MAX {
            return false;
        }
        i += 1;
    }
    true
}

/// Fill a fresh queue of the given capacity with the values, in order.
fn fill_queue(values: &Vec<i16>, capacity: usize) -> (q: PuzzleIO)
    requires
        values@.len() <= capacity,
    ensures
        q@ == values@,
        q.cap() == capacity,
        q.wf(),
{
    let mut q = PuzzleIO::new(capacity);
    let mut i: usize = 0;
    while i < values.len()
        invariant
            i <= values@.len(),
            values@.len() <= capacity,
            q.cap() == capacity,
            q@ == values@.subrange(0, i as int),
        decreases values@.len() - i,
    {
        q.write(values[i]);
        proof {
            assert(values@.subrange(0, i + 1) =~= values@.subrange(0, i as int).push(
                values@[i as int],
            ));
        }
        i += 1;
    }
    proof {
        assert(values@.subrange(0, values@.len() as int) =~= values@);
    }
    q
}

/// The input and expected-output queues of one processor.
#[derive(Debug, Clone)]
pub struct ProcessorIO {
    inputs: PuzzleIO,
    outputs: PuzzleIO,
}

impl ProcessorIO {
    pub closed spec fn inputs_spec(&self) -> PuzzleIO {
        self.inputs
    }

    pub closed spec fn outputs_spec(&self) -> PuzzleIO {
        self.outputs
    }

    pub open spec fn wf(&self) -> bool {
        &&& self.inputs_spec().wf()
        &&& self.outputs_spec().wf()
        &&& all_in_range(self.inputs_spec()@)
        &&& all_in_range(self.outputs_spec()@)
    }

    /// Validate and package one processor's inputs and expected outputs.
    /// Succeeds exactly when both sequences fit the queue capacity and every
    /// value lies in the representable range; the first failed check names
    /// the error.
    pub fn new(inputs: Vec<i16>, outputs: Vec<i16>, capacity: usize) -> (r: Result<
        ProcessorIO,
        PuzzleError,
    >)
        ensures
            r is Ok <==> {
                &&& inputs@.len() <= capacity
                &&& outputs@.len() <= capacity
                &&& all_in_range(inputs@)
                &&& all_in_range(outputs@)
            },
            r matches Ok(p) ==> {
                &&& p.inputs_spec()@ == inputs@
                &&& p.outputs_spec()@ == outputs@
                &&& p.inputs_spec().cap() == capacity
                &&& p.outputs_spec().cap() == capacity
                &&& p.wf()
            },
            inputs@.len() > capacity ==> r == Err::<ProcessorIO, PuzzleError>(
                PuzzleError::TooManyInputs,
            ),
            inputs@.len() <= capacity && outputs@.len() > capacity ==> r == Err::<
                ProcessorIO,
                PuzzleError,
            >(PuzzleError::TooManyOutputs),
            inputs@.len() <= capacity && outputs@.len() <= capacity && !all_in_range(inputs@)
                ==> r == Err::<ProcessorIO, PuzzleError>(PuzzleError::InputOutOfRange),
            inputs@.len() <= capacity && outputs@.len() <= capacity && all_in_range(inputs@)
                && !all_in_range(outputs@) ==> r == Err::<ProcessorIO, PuzzleError>(
                PuzzleError::OutputOutOfRange,
            ),
    {
        if inputs.len() > capacity {
            return Err(PuzzleError::TooManyInputs);
        }
        if outputs.len() > capacity {
            return Err(PuzzleError::TooManyOutputs);
        }
        if !check_in_range(&inputs) {
            return Err(PuzzleError::InputOutOfRange);
        }
        if !check_in_range(&outputs) {
            return Err(PuzzleError::OutputOutOfRange);
        }
        let input_queue = fill_queue(&inputs, capacity);
        let output_queue = fill_queue(&outputs, capacity);
        Ok(ProcessorIO { inputs: input_queue, outputs: output_queue })
    }

    pub fn get_inputs(&self) -> (r: &PuzzleIO)
        ensures
            r == self.inputs_spec(),
    {
        &self.inputs
    }

    pub fn get_outputs(&self) -> (r: &PuzzleIO)
        ensures
            r == self.outputs_spec(),
    {
        &self.outputs
    }
}

/// One test case: the I/O of one processor, or of two in the dual-processor
/// configuration.
#[derive(Debug, Clone)]
pub struct Puzzle {
    p0: ProcessorIO,
    p1: Option<ProcessorIO>,
}

impl Puzzle {
    pub closed spec fn p0_spec(&self) -> ProcessorIO {
        self.p0
    }

    pub closed spec fn p1_spec(&self) -> Option<ProcessorIO> {
        self.p1
    }

    /// Whether this test case drives the dual-processor configuration.
    pub open spec fn is_parallel_spec(&self) -> bool {
        self.p1_spec() is Some
    }

    pub open spec fn wf(&self) -> bool {
        &&& self.p0_spec().wf()
        &&& self.p1_spec() matches Some(p) ==> p.wf()
    }

    /// Validate and package a single-processor test case.  The contract of
    /// `ProcessorIO::new` (with the single-processor queue capacity) carries
    /// over unchanged.
    pub fn new(inputs: Vec<i16>, outputs: Vec<i16>) -> (r: Result<Puzzle, PuzzleError>)
        ensures
            r is Ok <==> {
                &&& inputs@.len() <= MAX_PUZZLE_VALUES
                &&& outputs@.len() <= MAX_PUZZLE_VALUES
                &&& all_in_range(inputs@)
                &&& all_in_range(outputs@)
            },
            r matches Ok(p) ==> {
                &&& p.p0_spec().inputs_spec()@ == inputs@
                &&& p.p0_spec().outputs_spec()@ == outputs@
                &&& p.p0_spec().inputs_spec().cap() == MAX_PUZZLE_VALUES
                &&& p.p0_spec().outputs_spec().cap() == MAX_PUZZLE_VALUES
                &&& !p.is_parallel_spec()
                &&& p.wf()
            },
            inputs@.len() > MAX_PUZZLE_VALUES ==> r == Err::<Puzzle, PuzzleError>(
                PuzzleError::TooManyInputs,
            ),
            inputs@.len() <= MAX_PUZZLE_VALUES && outputs@.len() > MAX_PUZZLE_VALUES ==> r
                == Err::<Puzzle, PuzzleError>(PuzzleError::TooManyOutputs),
            inputs@.len() <= MAX_PUZZLE_VALUES && outputs@.len() <= MAX_PUZZLE_VALUES
                && !all_in_range(inputs@) ==> r == Err::<Puzzle, PuzzleError>(
                PuzzleError::InputOutOfRange,
            ),
            inputs@.len() <= MAX_PUZZLE_VALUES && outputs@.len() <= MAX_PUZZLE_VALUES
                && all_in_range(inputs@) && !all_in_range(outputs@) ==> r == Err::<
                Puzzle,
                PuzzleError,
            >(PuzzleError::OutputOutOfRange),
    {
        match ProcessorIO::new(inputs, outputs, MAX_PUZZLE_VALUES) {
            Ok(p0) => Ok(Puzzle { p0, p1: None }),
            Err(e) => Err(e),
        }
    }

    /// Package a dual-processor test case from two already-validated
    /// processor I/O sets.
    pub fn new_parallel(processor_0: ProcessorIO, processor_1: ProcessorIO) -> (r: Puzzle)
        ensures
            r.p0_spec() == processor_0,
            r.p1_spec() == Some(processor_1),
            r.is_parallel_spec(),
    {
        Puzzle { p0: processor_0, p1: Some(processor_1) }
    }

    pub fn is_parallel(&self) -> (r: bool)
        ensures
            r == self.is_parallel_spec(),
    {
        self.p1.is_some()
    }

    pub fn get_inputs(&self) -> (r: &PuzzleIO)
        ensures
            r == self.p0_spec().inputs_spec(),
    {
        self.p0.get_inputs()
    }

    pub fn get_outputs(&self) -> (r: &PuzzleIO)
        ensures
            r == self.p0_spec().outputs_spec(),
    {
        self.p0.get_outputs()
    }

    /// Give up the puzzle and keep the first processor's I/O set.
    pub fn into_processor_io(self) -> (r: ProcessorIO)
        ensures
            r == self.p0_spec(),
    {
        self.p0
    }

    /// Give up the puzzle and keep the two processors' I/O sets.
    pub fn into_processor_ios(self) -> (r: (ProcessorIO, ProcessorIO))
        requires
            self.is_parallel_spec(),
        ensures
            r.0 == self.p0_spec(),
            r.1 == self.p1_spec().unwrap(),
    {
        let p1 = self.p1.unwrap();
        (self.p0, p1)
    }
}

} // verus!
