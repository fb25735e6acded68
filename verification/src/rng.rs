use vstd::prelude::*;

verus! {

/// What the generator adds to its seed.
pub const WYRNG_INCREMENT: u64 = 0xa076_1d64_78bd_642f;

/// What the generator masks its state with.
pub const WYRNG_MASK: u64 = 0xe703_7ed1_a0b4_28db;

/// The product of `a` and `b`, taken in 128 bits, with its upper half
/// xor-ed onto its lower half.
pub open spec fn folded_product(a: u64, b: u64) -> u64 {
    let product: u128 = (a * b) as u128;
    ((product >> 64) ^ product) as u64
}

/// The number that `wyhash::wyrng` makes of a seed: the seed is moved on by
/// the increment, wrapping, and the draw is the folded product of the
/// masked state and the state.
pub open spec fn wyrng_value(seed: u64) -> u64 {
    let state: u64 = ((seed + WYRNG_INCREMENT) % 0x1_0000_0000_0000_0000) as u64;
    folded_product(state ^ WYRNG_MASK, state)
}

/// `wyhash::wyrng`, called on a copy of `seed`. The function moves the seed
/// it is given on by a constant and computes its result from the new seed
/// alone, as `wyrng_value` says; the new seed is dropped here.
#[verifier::external_body]
pub(crate) fn wyrng(seed: u64) -> (draw: u64)
    ensures
        draw == wyrng_value(seed),
{
    let mut state = seed;
    wyhash::wyrng(&mut state)
}

} // verus!
