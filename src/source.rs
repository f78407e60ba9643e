//! The interface shared by every source of raw 64-bit draws.
use vstd::prelude::*;

verus! {

/// A source of randomness.
///
/// A source is modelled by two spec functions: the value its next raw read
/// gives, and the source as it stands after that read.
pub trait Source: Sized {
    /// The value that the next call of `read_u64` returns.
    spec fn next_u64(&self) -> u64;

    /// The source as it stands after one call of `read_u64`.
    spec fn after_read(&self) -> Self;

    /// Read `u64` uniformly distributed over `{0, 1, ..., u64::MAX}`.
    fn read_u64(&mut self) -> (r: u64)
        ensures
            r == old(self).next_u64(),
            *final(self) == old(self).after_read(),
    ;
}

/// The source after `n` reads.
pub open spec fn advance<S: Source>(s: S, n: nat) -> S
    decreases n,
{
    if n == 0 {
        s
    } else {
        advance(s.after_read(), (n - 1) as nat)
    }
}

/// The first `n` raw values that `s` gives, in order.
pub open spec fn draws<S: Source>(s: S, n: nat) -> Seq<u64>
    decreases n,
{
    if n == 0 {
        Seq::empty()
    } else {
        seq![s.next_u64()] + draws(s.after_read(), (n - 1) as nat)
    }
}

/// Reading `n` values and then `m` more leaves the source where reading
/// `n + m` values at once leaves it.
pub proof fn lemma_advance_split<S: Source>(s: S, n: nat, m: nat)
    ensures
        advance(s, n + m) == advance(advance(s, n), m),
    decreases n,
{
    if n > 0 {
        lemma_advance_split(s.after_read(), (n - 1) as nat, m);
        assert((n + m - 1) as nat == (n - 1) as nat + m);
    }
}

/// A stream has no hidden position: the first `n + m` draws are the first
/// `n` draws followed by the first `m` draws of the source that those `n`
/// reads leave behind. So reading in pieces, through one sequence or
/// several, yields the same values as reading all at once.
pub proof fn lemma_draws_split<S: Source>(s: S, n: nat, m: nat)
    ensures
        draws(s, n + m) == draws(s, n) + draws(advance(s, n), m),
    decreases n,
{
    if n == 0 {
        assert(draws(s, 0) + draws(s, m) =~= draws(s, m));
    } else {
        lemma_draws_split(s.after_read(), (n - 1) as nat, m);
        assert((n + m - 1) as nat == (n - 1) as nat + m);
        assert(draws(s, n + m) =~= draws(s, n) + draws(advance(s, n), m));
    }
}

} // verus!
