//! The instruction set: grid symbols, travel directions, the per-cycle
//! synchronization status of a processor, and the errors a run can raise.

use vstd::prelude::*;

verus! {

/// Smallest value a cell of the stack or a queue may hold.
pub const VAL_MIN: i16 = -999;
/// Largest value a cell of the stack or a queue may hold.
pub const VAL_MAX: i16 = 999;

/// Restriction of a mathematical value to the representable range.
pub open spec fn clamp_spec(v: int) -> int {
    if v < VAL_MIN as int {
        VAL_MIN as int
    } else if v > VAL_MAX as int {
        VAL_MAX as int
    } else {
        v
    }
}

/// Restrict `input` to the range `[VAL_MIN, VAL_MAX]`.
pub fn clamp(input: i16) -> (r: i16)
    ensures
        r as int == clamp_spec(input as int),
{
    if input < VAL_MIN {
        VAL_MIN
    } else if input > VAL_MAX {
        VAL_MAX
    } else {
        input
    }
}

/// Direction the execution pointer travels across the grid.
#[derive(Debug, Clone, Copy, PartialEq, Eq, Structural)]
pub enum Direction {
    Up,
    Down,
    Left,
    Right,
}

impl Direction {
    /// Arrow glyph used when rendering the execution pointer.
    pub open spec fn arrow_spec(self) -> char {
        match self {
            Direction::Up => '\u{25b2}',
            Direction::Down => '\u{25bc}',
            Direction::Left => '\u{25c4}',
            Direction::Right => '\u{25ba}',
        }
    }

    pub fn get_arrow(&self) -> (r: char)
        ensures
            r == self.arrow_spec(),
    {
        match self {
            Direction::Up => '\u{25b2}',
            Direction::Down => '\u{25bc}',
            Direction::Left => '\u{25c4}',
            Direction::Right => '\u{25ba}',
        }
    }
}

/// New travel direction after passing over a `/` mirror.
pub open spec fn mirror_slash(d: Direction) -> Direction {
    match d {
        Direction::Up => Direction::Right,
        Direction::Right => Direction::Up,
        Direction::Down => Direction::Left,
        Direction::Left => Direction::Down,
    }
}

/// New travel direction after passing over a `\` mirror.
pub open spec fn mirror_backslash(d: Direction) -> Direction {
    match d {
        Direction::Up => Direction::Left,
        Direction::Left => Direction::Up,
        Direction::Down => Direction::Right,
        Direction::Right => Direction::Down,
    }
}

/// One grid symbol.  The synchronization symbols (`Transmit`, `Receive`,
/// `TryTransmit`, `TryReceive`) and `Multiply` belong to the dual-processor
/// configuration only.
#[derive(Debug, Clone, Copy, PartialEq, Eq, Structural)]
pub enum Command {
    Empty,
    Up,
    Down,
    Left,
    Right,
    ForwardSlash,
    BackSlash,
    Zero,
    One,
    Two,
    Three,
    Four,
    Five,
    Six,
    Seven,
    Eight,
    Nine,
    Pop,
    Duplicate,
    SwapTop2,
    RotateDown,
    RotateUp,
    Add,
    Subtract,
    Multiply,
    IfLess,
    IfEqual,
    IfGreater,
    Skip,
    In,
    HasInput,
    Out,
    Transmit,
    Receive,
    TryTransmit,
    TryReceive,
}

impl Command {
    /// The digit a symbol stands for, if it is a digit symbol.
    pub open spec fn digit_spec(self) -> Option<int> {
        match self {
            Command::Zero => Some(0),
            Command::One => Some(1),
            Command::Two => Some(2),
            Command::Three => Some(3),
            Command::Four => Some(4),
            Command::Five => Some(5),
            Command::Six => Some(6),
            Command::Seven => Some(7),
            Command::Eight => Some(8),
            Command::Nine => Some(9),
            _ => None,
        }
    }

    /// The digit a symbol stands for, if it is a digit symbol.
    pub fn digit(&self) -> (r: Option<i16>)
        ensures
            r is Some <==> self.digit_spec() is Some,
            r matches Some(d) ==> self.digit_spec() == Some(d as int),
    {
        match self {
            Command::Zero => Some(0),
            Command::One => Some(1),
            Command::Two => Some(2),
            Command::Three => Some(3),
            Command::Four => Some(4),
            Command::Five => Some(5),
            Command::Six => Some(6),
            Command::Seven => Some(7),
            Command::Eight => Some(8),
            Command::Nine => Some(9),
            _ => None,
        }
    }

    /// Whether this symbol is one of the dual-processor synchronization
    /// instructions.
    pub open spec fn is_sync(self) -> bool {
        match self {
            Command::Transmit | Command::Receive | Command::TryTransmit
                | Command::TryReceive => true,
            _ => false,
        }
    }

    /// Display glyph of each symbol.
    pub open spec fn char_spec(self) -> char {
        match self {
            Command::Empty => ' ',
            Command::Up => '\u{2191}',
            Command::Down => '\u{2193}',
            Command::Left => '\u{2190}',
            Command::Right => '\u{2192}',
            Command::ForwardSlash => '/',
            Command::BackSlash => '\\',
            Command::Zero => '0',
            Command::One => '1',
            Command::Two => '2',
            Command::Three => '3',
            Command::Four => '4',
            Command::Five => '5',
            Command::Six => '6',
            Command::Seven => '7',
            Command::Eight => '8',
            Command::Nine => '9',
            Command::Pop => '\u{263c}',
            Command::Duplicate => '\u{a9}',
            Command::SwapTop2 => '\u{222b}',
            Command::RotateDown => 'u',
            Command::RotateUp => '\u{2229}',
            Command::Add => '+',
            Command::Subtract => '-',
            Command::Multiply => '\u{445}',
            Command::IfLess => '<',
            Command::IfEqual => '=',
            Command::IfGreater => '>',
            Command::Skip => '\u{bb}',
            Command::In => '\u{407}',
            Command::HasInput => '?',
            Command::Out => '\u{398}',
            Command::Transmit => '\u{3c4}',
            Command::Receive => '\u{44f}',
            Command::TryTransmit => '\u{164}',
            Command::TryReceive => '\u{158}',
        }
    }

    pub fn get_char(&self) -> (r: char)
        ensures
            r == self.char_spec(),
    {
        match self {
            Command::Empty => ' ',
            Command::Up => '\u{2191}',
            Command::Down => '\u{2193}',
            Command::Left => '\u{2190}',
            Command::Right => '\u{2192}',
            Command::ForwardSlash => '/',
            Command::BackSlash => '\\',
            Command::Zero => '0',
            Command::One => '1',
            Command::Two => '2',
            Command::Three => '3',
            Command::Four => '4',
            Command::Five => '5',
            Command::Six => '6',
            Command::Seven => '7',
            Command::Eight => '8',
            Command::Nine => '9',
            Command::Pop => '\u{263c}',
            Command::Duplicate => '\u{a9}',
            Command::SwapTop2 => '\u{222b}',
            Command::RotateDown => 'u',
            Command::RotateUp => '\u{2229}',
            Command::Add => '+',
            Command::Subtract => '-',
            Command::Multiply => '\u{445}',
            Command::IfLess => '<',
            Command::IfEqual => '=',
            Command::IfGreater => '>',
            Command::Skip => '\u{bb}',
            Command::In => '\u{407}',
            Command::HasInput => '?',
            Command::Out => '\u{398}',
            Command::Transmit => '\u{3c4}',
            Command::Receive => '\u{44f}',
            Command::TryTransmit => '\u{164}',
            Command::TryReceive => '\u{158}',
        }
    }
}

impl Default for Command {
    /// An unset grid cell holds the empty symbol.
    fn default() -> (r: Command)
        ensures
            r == Command::Empty,
    {
        Command::Empty
    }
}

/// Per-cycle classification of a processor's readiness to exchange a value,
/// recomputed from the symbol under its pointer before any instruction of
/// that cycle executes.
#[derive(Debug, Clone, Copy, PartialEq, Eq, Structural)]
pub enum SendStatus {
    Idle,
    Transmitting,
    TryTransmitting,
    Receiving,
    TryReceiving,
    Completed,
}

/// Status a processor announces for a cycle, given the symbol under its
/// pointer.
pub open spec fn send_status_of(c: Command) -> SendStatus {
    match c {
        Command::Transmit => SendStatus::Transmitting,
        Command::TryTransmit => SendStatus::TryTransmitting,
        Command::Receive => SendStatus::Receiving,
        Command::TryReceive => SendStatus::TryReceiving,
        _ => SendStatus::Idle,
    }
}

impl SendStatus {
    /// Whether a processor with this status busy-waits: only an unresolved
    /// blocking transmit or receive suppresses movement for the cycle.
    pub open spec fn is_blocking_spec(self) -> bool {
        self == SendStatus::Transmitting || self == SendStatus::Receiving
    }

    pub fn is_blocking(self) -> (r: bool)
        ensures
            r == self.is_blocking_spec(),
    {
        match self {
            SendStatus::Transmitting | SendStatus::Receiving => true,
            _ => false,
        }
    }
}

/// The errors that halt a run.  Each is fatal to the current run and is
/// surfaced to the caller exactly once.
#[derive(Debug, Clone, Copy, PartialEq, Eq, Structural)]
pub enum VMError {
    NumericOverflow,
    StackOverflow,
    StackUnderflow,
    NoInputs,
    TooManyOutputs,
    Deadlock,
}

impl VMError {
    /// Short human-readable description of the error.
    pub fn get_msg(&self) -> &'static str {
        match self {
            VMError::NumericOverflow => "Numeric overflow",
            VMError::StackOverflow => "Stack overflow",
            VMError::StackUnderflow => "Stack underflow",
            VMError::NoInputs => "No inputs left",
            VMError::TooManyOutputs => "Too many outputs",
            VMError::Deadlock => "Deadlock",
        }
    }
}

} // verus!
