//! The Xorshift+ generator, as a source of its own.
use vstd::prelude::*;

use crate::sequence::Sequence;
use crate::source::Source;
use crate::value::Value;
use crate::xorshift::{lemma_step_nonzero, step, step_output, xorshift_step};

verus! {

/// The Xorshift+ algorithm [1].
///
/// It steps exactly as `Xorshift128Plus` does; its state is two 64-bit
/// words, never both zero.
///
/// 1. https://en.wikipedia.org/wiki/Xorshift#Xorshift.2B
pub struct XorshiftPlus {
    s0: u64,
    s1: u64,
}

impl XorshiftPlus {
    /// The two state words.
    pub closed spec fn state(&self) -> (u64, u64) {
        (self.s0, self.s1)
    }

    #[verifier::type_invariant]
    spec fn nonzero(&self) -> bool {
        self.s0 != 0 || self.s1 != 0
    }

    /// Create a generator.
    ///
    /// At least one bit of the seed must be nonzero.
    pub fn new(seed: [u64; 2]) -> (r: XorshiftPlus)
        requires
            seed[0] != 0 || seed[1] != 0,
        ensures
            r.state() == (seed[0], seed[1]),
    {
        XorshiftPlus { s0: seed[0], s1: seed[1] }
    }

    /// Read a random value.
    pub fn read<V: Value>(&mut self) -> (r: V)
        ensures
            r == V::from_u64(old(self).next_u64()),
            *final(self) == old(self).after_read(),
    {
        V::read(self)
    }

    /// Read a sequence of random values, drawn from this source.
    pub fn iter<V: Value>(&mut self) -> (r: Sequence<'_, Self, V>)
        ensures
            *r.source() == *old(self),
            *final(self) == *final(r.source()),
    {
        Sequence::from(self)
    }
}

impl Source for XorshiftPlus {
    closed spec fn next_u64(&self) -> u64 {
        step_output(self.s0, self.s1)
    }

    closed spec fn after_read(&self) -> Self {
        let n = step(self.s0, self.s1);
        XorshiftPlus { s0: n.0, s1: n.1 }
    }

    fn read_u64(&mut self) -> (r: u64) {
        proof {
            use_type_invariant(&*self);
            lemma_step_nonzero(self.s0, self.s1);
        }
        let (s0, s1, r) = xorshift_step(self.s0, self.s1);
        *self = XorshiftPlus { s0, s1 };
        r
    }
}

/// One read is one step of the Xorshift128+ algorithm, as for
/// `Xorshift128Plus`: it returns `step_output` of the state and leaves the
/// state `step` gives.
pub proof fn lemma_read_step(g: XorshiftPlus)
    ensures
        g.next_u64() == step_output(g.state().0, g.state().1),
        g.after_read().state() == step(g.state().0, g.state().1),
{
}

} // verus!
