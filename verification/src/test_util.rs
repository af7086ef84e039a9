//! A small deterministic pseudo-random generator, for reproducible
//! randomized checks.
use vstd::prelude::*;

verus! {

/// One xorshift64 step: shift-and-xor by 13 left, 7 right, 17 left.
pub open spec fn xorshift_next(x: u64) -> u64 {
    let a = x ^ (x << 13u64);
    let b = a ^ (a >> 7u64);
    b ^ (b << 17u64)
}

/// Advances the xorshift64 state and returns the new state.
pub fn xorshift(state: &mut u64) -> (r: u64)
    ensures
        r == xorshift_next(*old(state)),
        *final(state) == r,
{
    let mut x = *state;
    x ^= x << 13;
    x ^= x >> 7;
    x ^= x << 17;
    *state = x;
    x
}

} // verus!
