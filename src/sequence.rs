//! Lazy, unbounded sequences of random values.
use std::marker::PhantomData;

use vstd::prelude::*;

use crate::source::{Source, advance, draws, lemma_advance_split, lemma_draws_split};
use crate::value::Value;

verus! {

/// The values that the raw draws `raws` give, in order.
pub open spec fn values<V: Value>(raws: Seq<u64>) -> Seq<V> {
    raws.map_values(|raw: u64| V::from_u64(raw))
}

/// A random sequence.
///
/// It borrows a source and computes each element on demand; it never ends.
pub struct Sequence<'l, S, V> {
    source: &'l mut S,
    phantom: PhantomData<V>,
}

impl<'l, S: Source, V: Value> Sequence<'l, S, V> {
    /// The borrowed source.
    pub closed spec fn source(&self) -> &'l mut S {
        self.source
    }

    /// Create a sequence that draws from `source`.
    pub fn from(source: &'l mut S) -> (r: Self)
        ensures
            *r.source() == *old(source),
            *final(source) == *final(r.source()),
    {
        Sequence { source, phantom: PhantomData }
    }

    /// The next value: always present.
    pub fn next(&mut self) -> (r: Option<V>)
        ensures
            r == Some(V::from_u64(old(self).source().next_u64())),
            *final(self).source() == old(self).source().after_read(),
            *final(final(self).source()) == *final(old(self).source()),
    {
        Some(V::read(self.source))
    }

    /// The next `n` values, in order.
    pub fn take(&mut self, n: usize) -> (r: Vec<V>)
        ensures
            r@ == values::<V>(draws(*old(self).source(), n as nat)),
            *final(self).source() == advance(*old(self).source(), n as nat),
            *final(final(self).source()) == *final(old(self).source()),
    {
        let ghost start = *self.source;
        let mut r: Vec<V> = Vec::new();
        let mut i: usize = 0;
        while i < n
            invariant
                i <= n,
                r@ == values::<V>(draws(start, i as nat)),
                *self.source == advance(start, i as nat),
                *final(self.source) == *final(old(self).source),
            decreases n - i,
        {
            let ghost here = *self.source;
            proof {
                lemma_draws_split(start, i as nat, 1);
                lemma_advance_split(start, i as nat, 1);
                assert(draws(here.after_read(), 0) == Seq::<u64>::empty());
                assert(advance(here.after_read(), 0) == here.after_read());
                assert(draws(here, 1) =~= seq![here.next_u64()]);
                assert(advance(here, 1) == here.after_read());
            }
            let v = V::read(self.source);
            r.push(v);
            i = i + 1;
            assert(r@ =~= values::<V>(draws(start, i as nat)));
        }
        r
    }
}

/// Once a sequence is done with, its source holds what the sequence last
/// left in it: the source's state after the sequence is dropped is the state
/// the sequence's reads produced.
pub proof fn lemma_source_resolved<'l, S: Source, V: Value>(q: Sequence<'l, S, V>)
    requires
        has_resolved(q),
    ensures
        *final(q.source()) == *q.source(),
{
}

} // verus!
