//! The Xorshift128+ generator.
use vstd::prelude::*;

use crate::sequence::Sequence;
use crate::source::{Source, advance, draws};
use crate::value::Value;

verus! {

/// The pair of words that follows `(s0, s1)` under one Xorshift128+ step.
pub open spec fn step(s0: u64, s1: u64) -> (u64, u64) {
    let x1 = s0 ^ (s0 << 23u64);
    let x2 = x1 ^ (x1 >> 17u64);
    (s1, x2 ^ s1 ^ (s1 >> 26u64))
}

/// The value returned by the step from `(s0, s1)`: the sum, modulo 2^64, of
/// the new second word and the old second word.
pub open spec fn step_output(s0: u64, s1: u64) -> u64 {
    vstd::wrapping::u64_specs::wrapping_add(step(s0, s1).1, s1)
}

/// One step maps a nonzero state to a nonzero state.
pub proof fn lemma_step_nonzero(s0: u64, s1: u64)
    requires
        s0 != 0 || s1 != 0,
    ensures
        step(s0, s1).0 != 0 || step(s0, s1).1 != 0,
{
    let x1 = s0 ^ (s0 << 23u64);
    let x2 = x1 ^ (x1 >> 17u64);
    assert(s0 != 0 ==> x1 != 0) by (bit_vector)
        requires
            x1 == s0 ^ (s0 << 23u64),
    ;
    assert(x1 != 0 ==> x2 != 0) by (bit_vector)
        requires
            x2 == x1 ^ (x1 >> 17u64),
    ;
    assert(s1 == 0 ==> x2 ^ s1 ^ (s1 >> 26u64) == x2) by (bit_vector);
}

/// One step from `(s0, s1)`: the next pair of words and the drawn value.
pub(crate) fn xorshift_step(s0: u64, s1: u64) -> (r: (u64, u64, u64))
    ensures
        (r.0, r.1) == step(s0, s1),
        r.2 == step_output(s0, s1),
{
    let (mut x, y) = (s0, s1);
    x = x ^ (x << 23u64);
    x = x ^ (x >> 17u64);
    x = x ^ y ^ (y >> 26u64);
    (y, x, x.wrapping_add(y))
}

/// The Xorshift128+ algorithm.
///
/// Its state is two 64-bit words, never both zero.
///
/// ## References
///
/// 1. Sebastiano Vigna, "Further Scramblings of Marsaglia's Xorshift
///    Generators," CoRR, 2014.
///
/// 2. https://en.wikipedia.org/wiki/Xorshift#Xorshift.2B
#[derive(Clone, Copy)]
pub struct Xorshift128Plus {
    s0: u64,
    s1: u64,
}

impl Xorshift128Plus {
    /// The two state words.
    pub closed spec fn state(&self) -> (u64, u64) {
        (self.s0, self.s1)
    }

    #[verifier::type_invariant]
    spec fn nonzero(&self) -> bool {
        self.s0 != 0 || self.s1 != 0
    }

    /// Create an instance of the algorithm.
    ///
    /// At least one bit of the seed must be nonzero: the all-zero state is
    /// a fixed point of the step.
    pub fn new(seed: [u64; 2]) -> (r: Xorshift128Plus)
        requires
            seed[0] != 0 || seed[1] != 0,
        ensures
            r.state() == (seed[0], seed[1]),
    {
        Xorshift128Plus { s0: seed[0], s1: seed[1] }
    }

    /// Read a random value.
    pub fn read<V: Value>(&mut self) -> (r: V)
        ensures
            r == V::from_u64(old(self).next_u64()),
            *final(self) == old(self).after_read(),
    {
        V::read(self)
    }

    /// Read a sequence of random values, drawn from this source.
    pub fn iter<V: Value>(&mut self) -> (r: Sequence<'_, Self, V>)
        ensures
            *r.source() == *old(self),
            *final(self) == *final(r.source()),
    {
        Sequence::from(self)
    }
}

impl Source for Xorshift128Plus {
    closed spec fn next_u64(&self) -> u64 {
        step_output(self.s0, self.s1)
    }

    closed spec fn after_read(&self) -> Self {
        let n = step(self.s0, self.s1);
        Xorshift128Plus { s0: n.0, s1: n.1 }
    }

    fn read_u64(&mut self) -> (r: u64) {
        proof {
            use_type_invariant(&*self);
            lemma_step_nonzero(self.s0, self.s1);
        }
        let (s0, s1, r) = xorshift_step(self.s0, self.s1);
        *self = Xorshift128Plus { s0, s1 };
        r
    }
}

/// The first `n` values drawn from the state `(s0, s1)`.
pub open spec fn stream(s0: u64, s1: u64, n: nat) -> Seq<u64>
    decreases n,
{
    if n == 0 {
        Seq::empty()
    } else {
        let next = step(s0, s1);
        seq![step_output(s0, s1)] + stream(next.0, next.1, (n - 1) as nat)
    }
}

/// Determinism: the raw draws of a generator are a function of its two state
/// words, so two generators made from one seed give the same draws.
pub proof fn lemma_deterministic(a: Xorshift128Plus, b: Xorshift128Plus, n: nat)
    requires
        a.state() == b.state(),
    ensures
        draws(a, n) == stream(a.state().0, a.state().1, n),
        draws(a, n) == draws(b, n),
    decreases n,
{
    if n > 0 {
        lemma_deterministic(a.after_read(), b.after_read(), (n - 1) as nat);
    }
}

/// The state never becomes all zero: from a nonzero state, every number of
/// reads leads to a nonzero state.
pub proof fn lemma_never_zero(g: Xorshift128Plus, n: nat)
    requires
        g.state() != (0u64, 0u64),
    ensures
        advance(g, n).state() != (0u64, 0u64),
    decreases n,
{
    if n > 0 {
        lemma_step_nonzero(g.s0, g.s1);
        lemma_never_zero(g.after_read(), (n - 1) as nat);
    }
}

/// One read is one step of the algorithm: it returns `step_output` of the
/// state and leaves the state `step` gives.
pub proof fn lemma_read_step(g: Xorshift128Plus)
    ensures
        g.next_u64() == step_output(g.state().0, g.state().1),
        g.after_read().state() == step(g.state().0, g.state().1),
{
}

} // verus!
