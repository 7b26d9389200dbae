//! Core engine for a grid-based visual programming puzzle game.
//!
//! A player writes instruction symbols into a small two-dimensional grid; an
//! execution engine interprets that grid cycle by cycle as a token-pointer
//! automaton with a bounded stack and bounded input/output queues.  In the
//! dual-processor configuration two such automata run in lockstep and
//! exchange values through a rendezvous protocol with deadlock detection.

pub mod grid;
pub mod instruction;
pub mod level;
pub mod processor;
pub mod program;
pub mod puzzle;
pub mod queue;
mod random;
pub mod speed;
pub mod stack;
pub mod vm;

pub use grid::Grid;
pub use instruction::{Command, Direction, SendStatus, VMError, VAL_MAX, VAL_MIN};
pub use level::{LevelIndex, LevelType};
pub use processor::Processor;
pub use program::{Program, Solution};
pub use puzzle::{ProcessorIO, Puzzle, PuzzleError, MAX_PUZZLE_VALUES, PARALLEL_MAX_PUZZLE_VALUES};
pub use queue::PuzzleIO;
pub use speed::Speed;
pub use stack::Stack;
pub use vm::{VirtualMachine, MAX_STACK_ENTRIES, PARALLEL_MAX_STACK_ENTRIES};
