//! Further sources of randomness.
pub mod xorshift;
