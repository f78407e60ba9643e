//! The integer part of Ziggurat sampling: choosing a layer and a sign.
use vstd::prelude::*;

verus! {

/// The number of layers of the Ziggurat table.
pub const LAYERS: usize = 128;

/// Split a raw draw into a layer index and a sign: the index is the draw
/// modulo `LAYERS` (its seven low bits), and the sign is negative when the
/// next bit is set.
pub fn layer_and_sign(raw: u64) -> (r: (usize, bool))
    ensures
        r.0 == raw % (LAYERS as u64),
        r.0 < LAYERS,
        r.1 == ((raw / (LAYERS as u64)) % 2 == 1),
{
    let layer = raw & 127;
    let bit = (raw >> 7u64) & 1;
    assert(raw & 127 == raw % 128) by (bit_vector);
    assert((raw >> 7u64) & 1 == (raw / 128) % 2) by (bit_vector);
    (layer as usize, bit == 1)
}

} // verus!
