//! Bounded LIFO stack of clamped values.
//!
//! The view of a stack is the sequence of its values, bottom first; the last
//! element of the sequence is the top of the stack.  Every stored value lies
//! in `[VAL_MIN, VAL_MAX]` and the length never exceeds the capacity fixed at
//! construction.

use std::collections::VecDeque;
use vstd::prelude::*;

use crate::instruction::{clamp, clamp_spec, VAL_MAX, VAL_MIN};

verus! {

#[derive(Debug, Clone)]
pub struct Stack {
    values: VecDeque<i16>,
    capacity: usize,
}

/// Stack order after the bottom value moves to the top.
pub open spec fn rotate_up_spec(s: Seq<i16>) -> Seq<i16> {
    s.subrange(1, s.len() as int).push(s[0])
}

/// Stack order after the top value moves to the bottom.
pub open spec fn rotate_down_spec(s: Seq<i16>) -> Seq<i16> {
    seq![s.last()] + s.drop_last()
}

/// The values returned by `n` successive pops from a stack holding `s`,
/// in the order they come out.
pub open spec fn pop_all(s: Seq<i16>, n: nat) -> Seq<i16>
    decreases n,
{
    if n == 0 {
        Seq::empty()
    } else {
        seq![s.last()] + pop_all(s.drop_last(), (n - 1) as nat)
    }
}

impl View for Stack {
    type V = Seq<i16>;

    closed spec fn view(&self) -> Seq<i16> {
        self.values@
    }
}

impl Stack {
    /// Number of values the stack can hold at once.
    pub closed spec fn cap(&self) -> int {
        self.capacity as int
    }

    /// Every value in range, and no more values than the capacity allows.
    pub open spec fn wf(&self) -> bool {
        &&& self@.len() <= self.cap()
        &&& forall|i: int|
            0 <= i < self@.len() ==> VAL_MIN <= #[trigger] self@[i] <= VAL_MAX
    }

    pub fn new(capacity: usize) -> (s: Stack)
        ensures
            s@ == Seq::<i16>::empty(),
            s.cap() == capacity,
            s.wf(),
    {
        Stack { values: VecDeque::new(), capacity }
    }

    pub fn capacity(&self) -> (r: usize)
        ensures
            r == self.cap(),
    {
        self.capacity
    }

    pub fn len(&self) -> (r: usize)
        ensures
            r == self@.len(),
    {
        self.values.len()
    }

    pub fn is_empty(&self) -> (r: bool)
        ensures
            r == (self@.len() == 0),
    {
        self.values.len() == 0
    }

    /// Push `val`, clamped to the representable range, onto the top of the
    /// stack.  Returns false, leaving the stack unchanged, when the stack is
    /// already at capacity.
    pub fn push(&mut self, val: i16) -> (r: bool)
        requires
            old(self).wf(),
        ensures
            final(self).cap() == old(self).cap(),
            final(self).wf(),
            old(self)@.len() < old(self).cap() ==> {
                &&& r
                &&& final(self)@ == old(self)@.push(clamp_spec(val as int) as i16)
            },
            old(self)@.len() >= old(self).cap() ==> {
                &&& !r
                &&& final(self)@ == old(self)@
            },
    {
        if self.values.len() < self.capacity {
            self.values.push_back(clamp(val));
            true
        } else {
            false
        }
    }

    /// Remove and return the top of the stack; `None` when the stack is
    /// empty.
    pub fn pop(&mut self) -> (r: Option<i16>)
        ensures
            final(self).cap() == old(self).cap(),
            old(self).wf() ==> final(self).wf(),
            old(self)@.len() == 0 ==> r is None && final(self)@ == old(self)@,
            old(self)@.len() > 0 ==> {
                &&& r == Some(old(self)@.last())
                &&& final(self)@ == old(self)@.drop_last()
            },
    {
        self.values.pop_back()
    }

    /// The value at `index`, counted from the bottom of the stack.
    pub fn get(&self, index: usize) -> (r: i16)
        requires
            index < self@.len(),
        ensures
            r == self@[index as int],
    {
        self.values[index]
    }

    /// The top of the stack without removing it.
    pub fn peek(&self) -> (r: Option<i16>)
        ensures
            self@.len() == 0 ==> r is None,
            self@.len() > 0 ==> r == Some(self@.last()),
    {
        let n = self.values.len();
        if n == 0 {
            None
        } else {
            Some(self.values[n - 1])
        }
    }

    /// Move the bottom value to the top; no-op when the stack is empty.
    pub fn rotate_up(&mut self)
        ensures
            final(self).cap() == old(self).cap(),
            old(self).wf() ==> final(self).wf(),
            old(self)@.len() == 0 ==> final(self)@ == old(self)@,
            old(self)@.len() > 0 ==> final(self)@ == rotate_up_spec(old(self)@),
    {
        match self.values.pop_front() {
            None => (),
            Some(v) => {
                self.values.push_back(v);
            },
        }
    }

    /// Move the top value to the bottom; no-op when the stack is empty.
    pub fn rotate_down(&mut self)
        ensures
            final(self).cap() == old(self).cap(),
            old(self).wf() ==> final(self).wf(),
            old(self)@.len() == 0 ==> final(self)@ == old(self)@,
            old(self)@.len() > 0 ==> final(self)@ == rotate_down_spec(old(self)@),
    {
        match self.values.pop_back() {
            None => (),
            Some(v) => {
                self.values.push_front(v);
            },
        }
    }
}

/// Values pop in reverse push order: after the values `vs` are pushed in
/// order onto a stack holding `s` (each push succeeding), popping `vs.len()`
/// times returns exactly `vs` reversed.
pub proof fn lemma_pop_reverses_pushes(s: Seq<i16>, vs: Seq<i16>)
    ensures
        pop_all(s + vs, vs.len()) == vs.reverse(),
    decreases vs.len(),
{
    if vs.len() == 0 {
        assert(s + vs =~= s);
        assert(pop_all(s + vs, 0) =~= vs.reverse());
    } else {
        let t = s + vs;
        assert(t.last() == vs.last());
        assert(t.drop_last() =~= s + vs.drop_last());
        lemma_pop_reverses_pushes(s, vs.drop_last());
        assert(vs.reverse() =~= seq![vs.last()] + vs.drop_last().reverse()) by {
            assert forall|i: int| 0 <= i < vs.len() implies vs.reverse()[i] == (
            seq![vs.last()] + vs.drop_last().reverse())[i] by {
                if i > 0 {
                    assert(vs.drop_last().reverse()[i - 1] == vs.drop_last()[vs.len() - 1 - i]);
                }
            }
        }
    }
}

/// Rotating the stack up and then down (or down and then up) restores the
/// original order, for any non-empty stack.
pub proof fn lemma_rotate_round_trip(s: Seq<i16>)
    requires
        s.len() > 0,
    ensures
        rotate_down_spec(rotate_up_spec(s)) == s,
        rotate_up_spec(rotate_down_spec(s)) == s,
{
    assert(rotate_down_spec(rotate_up_spec(s)) =~= s);
    assert(rotate_up_spec(rotate_down_spec(s)) =~= s);
}

} // verus!
