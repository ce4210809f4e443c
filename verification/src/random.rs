//! The supply of random numbers that the game draws from.
//!
//! The game never asks its host for randomness while it runs. The host
//! obtains the values beforehand and hands them over as a `RandomSource`;
//! the game takes them from the front, one at a time, and only when a
//! decision needs one. A test hands over a fixed script in the same way.

use vstd::prelude::*;

verus! {

/// The value that a 32-byte seed stands for: its first four bytes, read as
/// a little-endian number.
pub open spec fn seed_value(seed: Seq<u8>) -> int
    recommends
        seed.len() >= 4,
{
    seed[0] + 0x100 * seed[1] + 0x1_0000 * seed[2] + 0x100_0000 * seed[3]
}

/// Reads the 32-bit draw out of a seed returned by the host's randomness
/// oracle.
pub fn draw_from_seed(seed: &[u8; 32]) -> (draw: u32)
    ensures
        draw == seed_value(seed@),
{
    let b0: u32 = seed[0] as u32;
    let b1: u32 = seed[1] as u32;
    let b2: u32 = seed[2] as u32;
    let b3: u32 = seed[3] as u32;
    b0 + 0x100 * b1 + 0x1_0000 * b2 + 0x100_0000 * b3
}

/// A draw brought into the range `0..bound`: its remainder by `bound`.
pub open spec fn spec_bounded(draw: u32, bound: u32) -> u32
    recommends
        bound > 0,
{
    (draw % bound) as u32
}

/// A finite queue of 32-bit draws. Its view is the sequence of draws that
/// have not been taken yet, next one first.
#[derive(Debug)]
pub struct RandomSource {
    values: Vec<u32>,
    taken: usize,
}

impl View for RandomSource {
    type V = Seq<u32>;

    closed spec fn view(&self) -> Seq<u32> {
        self.values@.skip(self.taken as int)
    }
}

impl RandomSource {
    #[verifier::type_invariant]
    spec fn inv(self) -> bool {
        self.taken <= self.values.len()
    }

    /// A source that yields `values` in order and then runs dry.
    pub fn new(values: Vec<u32>) -> (source: RandomSource)
        ensures
            source@ == values@,
    {
        RandomSource { values, taken: 0 }
    }

    /// How many draws are left.
    pub fn remaining(&self) -> (n: usize)
        ensures
            n == self@.len(),
    {
        proof {
            use_type_invariant(self);
        }
        self.values.len() - self.taken
    }

    /// Takes the next draw. A source that has run dry yields `None` and
    /// stays as it is.
    pub fn next_u32(&mut self) -> (draw: Option<u32>)
        ensures
            old(self)@.len() == 0 ==> draw is None && final(self)@ == old(self)@,
            old(self)@.len() > 0 ==> {
                &&& draw == Some(old(self)@[0])
                &&& final(self)@ == old(self)@.skip(1)
            },
    {
        proof {
            use_type_invariant(&*self);
        }
        if self.taken < self.values.len() {
            let value: u32 = self.values[self.taken];
            self.taken = self.taken + 1;
            assert(self@ == old(self)@.skip(1));
            Some(value)
        } else {
            None
        }
    }

    /// Takes the next draw and brings it into the range `0..bound` by
    /// taking the remainder. This favours small numbers slightly where
    /// `bound` does not divide the number of 32-bit values; the bias is
    /// accepted.
    pub fn next_below(&mut self, bound: u32) -> (draw: Option<u32>)
        requires
            bound > 0,
        ensures
            old(self)@.len() == 0 ==> draw is None && final(self)@ == old(self)@,
            old(self)@.len() > 0 ==> {
                &&& draw == Some(spec_bounded(old(self)@[0], bound))
                &&& final(self)@ == old(self)@.skip(1)
            },
            draw matches Some(value) ==> value < bound,
    {
        match self.next_u32() {
            Some(value) => Some(value % bound),
            None => None,
        }
    }
}

} // verus!
