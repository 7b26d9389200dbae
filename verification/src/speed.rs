//! Stepping speeds of the execution driver.  Each speed maps to a number of
//! machine cycles per tick of the driver; the faster speeds jitter the
//! count randomly inside a fixed band.

use vstd::prelude::*;

use crate::random::random_in_range;

verus! {

#[derive(Debug, Clone, Copy, PartialEq, Eq, Structural)]
pub enum Speed {
    Paused,
    Slow,
    Normal,
    Fast,
    ExtremelyFast,
    Turbo,
    SuperTurbo,
}

impl Speed {
    /// The band of cycle counts a speed may draw from each tick.
    pub open spec fn steps_range(self) -> (int, int) {
        match self {
            Speed::Paused => (0, 0),
            Speed::Slow => (1, 1),
            Speed::Normal => (4, 8),
            Speed::Fast => (20, 30),
            Speed::ExtremelyFast => (90, 110),
            Speed::Turbo => (900, 1100),
            Speed::SuperTurbo => (9000, 11000),
        }
    }

    /// How many machine cycles to run this tick: a count drawn from the
    /// speed's band.
    pub fn num_steps(self) -> (r: usize)
        ensures
            self.steps_range().0 <= r <= self.steps_range().1,
    {
        let (lo, hi): (i64, i64) = match self {
            Speed::Paused => (0, 0),
            Speed::Slow => (1, 1),
            Speed::Normal => (4, 8),
            Speed::Fast => (20, 30),
            Speed::ExtremelyFast => (90, 110),
            Speed::Turbo => (900, 1100),
            Speed::SuperTurbo => (9000, 11000),
        };
        let drawn = random_in_range(lo, hi);
        drawn as usize
    }
}

} // verus!
