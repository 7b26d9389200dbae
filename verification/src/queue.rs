//! Bounded FIFO queue used for puzzle inputs, expected outputs and produced
//! outputs.
//!
//! The view of a queue is the sequence of its values, front first: `read`
//! removes the first element and `write` appends at the back, failing when
//! the queue is full.  The queue itself performs no range clamping; range
//! validation happens when a puzzle is constructed.

use std::collections::VecDeque;
use vstd::prelude::*;

use crate::instruction::{VAL_MAX, VAL_MIN};
use crate::random::random_in_range;

verus! {

#[derive(Debug, Clone)]
pub struct PuzzleIO {
    values: VecDeque<i16>,
    capacity: usize,
}

impl View for PuzzleIO {
    type V = Seq<i16>;

    closed spec fn view(&self) -> Seq<i16> {
        self.values@
    }
}

impl PuzzleIO {
    /// Number of values the queue can hold at once.
    pub closed spec fn cap(&self) -> int {
        self.capacity as int
    }

    /// No more values than the capacity allows.
    pub open spec fn wf(&self) -> bool {
        self@.len() <= self.cap()
    }

    pub fn new(capacity: usize) -> (q: PuzzleIO)
        ensures
            q@ == Seq::<i16>::empty(),
            q.cap() == capacity,
            q.wf(),
    {
        PuzzleIO { values: VecDeque::new(), capacity }
    }

    /// A queue holding a random number of random values, for free-play
    /// puzzles.  At most ten values are drawn, each within the representable
    /// range, and never more than the capacity allows.
    pub fn new_random(capacity: usize) -> (q: PuzzleIO)
        ensures
            q.cap() == capacity,
            q.wf(),
            q@.len() <= 10,
            forall|i: int| 0 <= i < q@.len() ==> VAL_MIN <= #[trigger] q@[i] <= VAL_MAX,
    {
        let mut q = PuzzleIO::new(capacity);
        let drawn = random_in_range(0, 10);
        let mut n: usize = drawn as usize;
        if n > capacity {
            n = capacity;
        }
        let mut i: usize = 0;
        while i < n
            invariant
                i <= n,
                n <= 10,
                n <= q.cap(),
                q@.len() == i,
                q.cap() == capacity,
                forall|j: int| 0 <= j < q@.len() ==> VAL_MIN <= #[trigger] q@[j] <= VAL_MAX,
            decreases n - i,
        {
            let v = random_in_range(VAL_MIN as i64, VAL_MAX as i64);
            q.write(v as i16);
            i += 1;
        }
        q
    }

    /// An exact copy of the queue.
    pub fn clone_queue(&self) -> (r: PuzzleIO)
        ensures
            r@ == self@,
            r.cap() == self.cap(),
    {
        let values = self.values.clone();
        proof {
            assert forall|i: int| 0 <= i < self.values@.len() implies values@[i]
                == self.values@[i] by {
                assert(vstd::pervasive::cloned::<i16>(self.values@[i], values@[i]));
            }
            assert(values@ =~= self.values@);
        }
        PuzzleIO { values, capacity: self.capacity }
    }

    /// The value at `index`, counted from the front of the queue.
    pub fn get(&self, index: usize) -> (r: i16)
        requires
            index < self@.len(),
        ensures
            r == self@[index as int],
    {
        self.values[index]
    }

    /// Whether two queues hold exactly the same values in the same order.
    pub fn eq_values(&self, other: &PuzzleIO) -> (r: bool)
        ensures
            r == (self@ == other@),
    {
        if self.values.len() != other.values.len() {
            proof {
                assert(self@ != other@);
            }
            return false;
        }
        let n = self.values.len();
        let mut i: usize = 0;
        while i < n
            invariant
                i <= n,
                n == self@.len(),
                n == other@.len(),
                forall|j: int| 0 <= j < i ==> self@[j] == other@[j],
            decreases n - i,
        {
            if self.values[i] != other.values[i] {
                return false;
            }
            i += 1;
        }
        proof {
            assert(self@ =~= other@);
        }
        true
    }

    pub fn capacity(&self) -> (r: usize)
        ensures
            r == self.cap(),
    {
        self.capacity
    }

    pub fn len(&self) -> (r: usize)
        ensures
            r == self@.len(),
    {
        self.values.len()
    }

    /// Whether a `read` would return a value.
    pub fn can_read(&self) -> (r: bool)
        ensures
            r == (self@.len() > 0),
    {
        self.values.len() > 0
    }

    /// Remove and return the front of the queue; `None` when the queue is
    /// empty.
    pub fn read(&mut self) -> (r: Option<i16>)
        ensures
            final(self).cap() == old(self).cap(),
            old(self).wf() ==> final(self).wf(),
            old(self)@.len() == 0 ==> r is None && final(self)@ == old(self)@,
            old(self)@.len() > 0 ==> {
                &&& r == Some(old(self)@[0])
                &&& final(self)@ == old(self)@.drop_first()
            },
    {
        self.values.pop_front()
    }

    /// Append `val` at the back of the queue.  Returns false, leaving the
    /// queue unchanged, when the queue is already at capacity.
    pub fn write(&mut self, val: i16) -> (r: bool)
        ensures
            final(self).cap() == old(self).cap(),
            old(self).wf() ==> final(self).wf(),
            old(self)@.len() < old(self).cap() ==> {
                &&& r
                &&& final(self)@ == old(self)@.push(val)
            },
            old(self)@.len() >= old(self).cap() ==> {
                &&& !r
                &&& final(self)@ == old(self)@
            },
    {
        if self.values.len() < self.capacity {
            self.values.push_back(val);
            true
        } else {
            false
        }
    }
}

} // verus!
