//! Sources of randomness: the Xorshift128+ bit generator, typed values drawn
//! from its raw 64-bit output, and lazy sequences of such values.
use vstd::prelude::*;

pub mod default;
pub mod sequence;
pub mod source;
pub mod sources;
pub mod value;
pub mod xorshift;
pub mod ziggurat;

pub use sequence::Sequence;
pub use source::Source;
pub use value::Value;
pub use xorshift::Xorshift128Plus;

verus! {

/// Create an instance of the default source, seeded from one word: the
/// state is `[seed - 1, seed + 1]`, both modulo 2^64.
///
/// The two words differ by two, so they are never both zero.
pub fn default(seed: u64) -> (r: crate::default::Default)
    ensures
        r.state() == (
            vstd::wrapping::u64_specs::wrapping_sub(seed, 1),
            vstd::wrapping::u64_specs::wrapping_add(seed, 1),
        ),
{
    crate::default::Default::new().seed([seed.wrapping_sub(1), seed.wrapping_add(1)])
}

} // verus!
