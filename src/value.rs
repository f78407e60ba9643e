//! Values that can be drawn from a source.
use vstd::prelude::*;

use crate::source::Source;

verus! {

/// A random value.
///
/// Each value type has one rule, `from_u64`, that turns a raw 64-bit draw
/// into a value of the type; reading a value consumes exactly one raw draw.
pub trait Value: Sized {
    /// The value that the raw draw `raw` gives.
    spec fn from_u64(raw: u64) -> Self;

    /// Read a random value.
    fn read<S: Source>(source: &mut S) -> (r: Self)
        ensures
            r == Self::from_u64(old(source).next_u64()),
            *final(source) == old(source).after_read(),
    ;

    /// Every value of the type is the value of some raw draw.
    proof fn lemma_covers(v: Self)
        ensures
            Self::from_u64(Self::to_u64(v)) == v,
    ;

    /// A raw draw that gives `v`.
    spec fn to_u64(v: Self) -> u64;

    /// The number of values of the type.
    spec fn modulus() -> nat;

    /// The draws that give `v` are exactly those congruent to `to_u64(v)`
    /// modulo the number of values: every value is given by equally many
    /// draws, so a uniform draw gives a uniform value.
    proof fn lemma_uniform(raw: u64, v: Self)
        ensures
            Self::modulus() > 0,
            Self::from_u64(raw) == v <==> raw as nat % Self::modulus() == Self::to_u64(v) as nat
                % Self::modulus(),
    ;
}

impl Value for i8 {
    /// The low bits of the draw, as a two's-complement value.
    open spec fn from_u64(raw: u64) -> i8 {
        raw as i8
    }

    open spec fn to_u64(v: i8) -> u64 {
        v as u64
    }

    fn read<S: Source>(source: &mut S) -> (r: i8) {
        #[verifier::truncate]
        (source.read_u64() as i8)
    }

    proof fn lemma_covers(v: i8) {
        assert((v as u64) as i8 == v) by (bit_vector);
    }

    open spec fn modulus() -> nat {
        0x100
    }

    proof fn lemma_uniform(raw: u64, v: i8) {
        assert(((raw as i8) == v) <==> (raw % 0x100u64 == (v as u64) % 0x100u64)) by (bit_vector);
    }
}

impl Value for i16 {
    /// The low bits of the draw, as a two's-complement value.
    open spec fn from_u64(raw: u64) -> i16 {
        raw as i16
    }

    open spec fn to_u64(v: i16) -> u64 {
        v as u64
    }

    fn read<S: Source>(source: &mut S) -> (r: i16) {
        #[verifier::truncate]
        (source.read_u64() as i16)
    }

    proof fn lemma_covers(v: i16) {
        assert((v as u64) as i16 == v) by (bit_vector);
    }

    open spec fn modulus() -> nat {
        0x1_0000
    }

    proof fn lemma_uniform(raw: u64, v: i16) {
        assert(((raw as i16) == v) <==> (raw % 0x10000u64 == (v as u64) % 0x10000u64)) by (bit_vector);
    }
}

impl Value for i32 {
    /// The low bits of the draw, as a two's-complement value.
    open spec fn from_u64(raw: u64) -> i32 {
        raw as i32
    }

    open spec fn to_u64(v: i32) -> u64 {
        v as u64
    }

    fn read<S: Source>(source: &mut S) -> (r: i32) {
        #[verifier::truncate]
        (source.read_u64() as i32)
    }

    proof fn lemma_covers(v: i32) {
        assert((v as u64) as i32 == v) by (bit_vector);
    }

    open spec fn modulus() -> nat {
        0x1_0000_0000
    }

    proof fn lemma_uniform(raw: u64, v: i32) {
        assert(((raw as i32) == v) <==> (raw % 0x100000000u64 == (v as u64) % 0x100000000u64)) by (bit_vector);
    }
}

impl Value for i64 {
    /// The low bits of the draw, as a two's-complement value.
    open spec fn from_u64(raw: u64) -> i64 {
        raw as i64
    }

    open spec fn to_u64(v: i64) -> u64 {
        v as u64
    }

    fn read<S: Source>(source: &mut S) -> (r: i64) {
        #[verifier::truncate]
        (source.read_u64() as i64)
    }

    proof fn lemma_covers(v: i64) {
        assert((v as u64) as i64 == v) by (bit_vector);
    }

    open spec fn modulus() -> nat {
        0x1_0000_0000_0000_0000
    }

    proof fn lemma_uniform(raw: u64, v: i64) {
        assert(((raw as i64) == v) <==> (raw == (v as u64))) by (bit_vector);
    }
}

impl Value for isize {
    /// The low bits of the draw, as a two's-complement value.
    open spec fn from_u64(raw: u64) -> isize {
        raw as isize
    }

    open spec fn to_u64(v: isize) -> u64 {
        v as u64
    }

    fn read<S: Source>(source: &mut S) -> (r: isize) {
        #[verifier::truncate]
        (source.read_u64() as isize)
    }

    proof fn lemma_covers(v: isize) {
        assert((v as u64) as isize == v) by (bit_vector);
    }

    /// 2^32 where the type is 32 bits wide (there 2^32 wraps to zero as a
    /// `usize`), else 2^64.
    open spec fn modulus() -> nat {
        if 0x1_0000_0000u64 as usize == 0 {
            0x1_0000_0000
        } else {
            0x1_0000_0000_0000_0000
        }
    }

    proof fn lemma_uniform(raw: u64, v: isize) {
        assert((0x1_0000_0000u64 as usize == 0) ==> (((raw as isize) == v) <==> (raw
            % 0x1_0000_0000u64 == (v as u64) % 0x1_0000_0000u64))) by (bit_vector);
        assert((0x1_0000_0000u64 as usize != 0) ==> (((raw as isize) == v) <==> (raw == (v
            as u64)))) by (bit_vector);
    }
}

impl Value for u8 {
    /// The low bits of the draw.
    open spec fn from_u64(raw: u64) -> u8 {
        raw as u8
    }

    open spec fn to_u64(v: u8) -> u64 {
        v as u64
    }

    fn read<S: Source>(source: &mut S) -> (r: u8) {
        #[verifier::truncate]
        (source.read_u64() as u8)
    }

    proof fn lemma_covers(v: u8) {
        assert((v as u64) as u8 == v) by (bit_vector);
    }

    open spec fn modulus() -> nat {
        0x100
    }

    proof fn lemma_uniform(raw: u64, v: u8) {
        assert(((raw as u8) == v) <==> (raw % 0x100u64 == (v as u64) % 0x100u64)) by (bit_vector);
    }
}

impl Value for u16 {
    /// The low bits of the draw.
    open spec fn from_u64(raw: u64) -> u16 {
        raw as u16
    }

    open spec fn to_u64(v: u16) -> u64 {
        v as u64
    }

    fn read<S: Source>(source: &mut S) -> (r: u16) {
        #[verifier::truncate]
        (source.read_u64() as u16)
    }

    proof fn lemma_covers(v: u16) {
        assert((v as u64) as u16 == v) by (bit_vector);
    }

    open spec fn modulus() -> nat {
        0x1_0000
    }

    proof fn lemma_uniform(raw: u64, v: u16) {
        assert(((raw as u16) == v) <==> (raw % 0x10000u64 == (v as u64) % 0x10000u64)) by (bit_vector);
    }
}

impl Value for u32 {
    /// The low bits of the draw.
    open spec fn from_u64(raw: u64) -> u32 {
        raw as u32
    }

    open spec fn to_u64(v: u32) -> u64 {
        v as u64
    }

    fn read<S: Source>(source: &mut S) -> (r: u32) {
        #[verifier::truncate]
        (source.read_u64() as u32)
    }

    proof fn lemma_covers(v: u32) {
        assert((v as u64) as u32 == v) by (bit_vector);
    }

    open spec fn modulus() -> nat {
        0x1_0000_0000
    }

    proof fn lemma_uniform(raw: u64, v: u32) {
        assert(((raw as u32) == v) <==> (raw % 0x100000000u64 == (v as u64) % 0x100000000u64)) by (bit_vector);
    }
}

impl Value for u64 {
    /// The draw itself.
    open spec fn from_u64(raw: u64) -> u64 {
        raw as u64
    }

    open spec fn to_u64(v: u64) -> u64 {
        v as u64
    }

    fn read<S: Source>(source: &mut S) -> (r: u64) {
        #[verifier::truncate]
        (source.read_u64() as u64)
    }

    proof fn lemma_covers(v: u64) {
        assert((v as u64) as u64 == v) by (bit_vector);
    }

    open spec fn modulus() -> nat {
        0x1_0000_0000_0000_0000
    }

    proof fn lemma_uniform(raw: u64, v: u64) {
        assert(((raw as u64) == v) <==> (raw == (v as u64))) by (bit_vector);
    }
}

impl Value for usize {
    /// The low bits of the draw.
    open spec fn from_u64(raw: u64) -> usize {
        raw as usize
    }

    open spec fn to_u64(v: usize) -> u64 {
        v as u64
    }

    fn read<S: Source>(source: &mut S) -> (r: usize) {
        #[verifier::truncate]
        (source.read_u64() as usize)
    }

    proof fn lemma_covers(v: usize) {
        assert((v as u64) as usize == v) by (bit_vector);
    }

    /// 2^32 where the type is 32 bits wide (there 2^32 wraps to zero as a
    /// `usize`), else 2^64.
    open spec fn modulus() -> nat {
        if 0x1_0000_0000u64 as usize == 0 {
            0x1_0000_0000
        } else {
            0x1_0000_0000_0000_0000
        }
    }

    proof fn lemma_uniform(raw: u64, v: usize) {
        assert((0x1_0000_0000u64 as usize == 0) ==> (((raw as usize) == v) <==> (raw
            % 0x1_0000_0000u64 == (v as u64) % 0x1_0000_0000u64))) by (bit_vector);
        assert((0x1_0000_0000u64 as usize != 0) ==> (((raw as usize) == v) <==> (raw == (v
            as u64)))) by (bit_vector);
    }
}

} // verus!
