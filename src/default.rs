//! The default source.
use vstd::prelude::*;

use crate::sequence::Sequence;
use crate::source::Source;
use crate::value::Value;
use crate::xorshift::{Xorshift128Plus, lemma_read_step as lemma_generator_read_step, step, step_output};

verus! {

/// An instance of the default source.
///
/// The default source is the Xorshift128+ algorithm. Each instance owns its
/// state; sharing one instance among several users is left to the caller.
pub struct Default {
    source: Xorshift128Plus,
}

impl Default {
    /// The two state words of the underlying generator.
    pub closed spec fn state(&self) -> (u64, u64) {
        self.source.state()
    }

    /// Create an instance of the default source, seeded with the default
    /// seed `[42, 69]`.
    pub fn new() -> (r: Default)
        ensures
            r.state() == (42u64, 69u64),
    {
        Default { source: Xorshift128Plus::new([42, 69]) }
    }

    /// Seed the source: its state is replaced by the seed.
    ///
    /// At least one bit of the seed must be nonzero.
    pub fn seed(self, seed: [u64; 2]) -> (r: Default)
        requires
            seed[0] != 0 || seed[1] != 0,
        ensures
            r.state() == (seed[0], seed[1]),
    {
        Default { source: Xorshift128Plus::new(seed) }
    }

    /// Read a random value.
    pub fn read<V: Value>(&mut self) -> (r: V)
        ensures
            r == V::from_u64(old(self).next_u64()),
            *final(self) == old(self).after_read(),
    {
        V::read(self)
    }

    /// Read a sequence of random values, drawn from this source.
    pub fn iter<V: Value>(&mut self) -> (r: Sequence<'_, Self, V>)
        ensures
            *r.source() == *old(self),
            *final(self) == *final(r.source()),
    {
        Sequence::from(self)
    }
}

impl Source for Default {
    closed spec fn next_u64(&self) -> u64 {
        self.source.next_u64()
    }

    closed spec fn after_read(&self) -> Self {
        Default { source: self.source.after_read() }
    }

    fn read_u64(&mut self) -> (r: u64) {
        self.source.read_u64()
    }
}

/// A read of the default source is a read of an `Xorshift128Plus` in the
/// same state: one step of the algorithm.
pub proof fn lemma_read_step(d: Default)
    ensures
        d.next_u64() == step_output(d.state().0, d.state().1),
        d.after_read().state() == step(d.state().0, d.state().1),
{
    lemma_generator_read_step(d.source);
}

} // verus!
