//! Portable formulation of the SHR3 transition.
use vstd::prelude::*;

use crate::transition;

verus! {

/// The SHR3 transition on a 32-bit value, step by step.
pub fn shr3(state: u32) -> (r: u32)
    ensures
        r == transition(state),
{
    let mut state: u32 = state;
    state ^= state << 13u32;
    state ^= state >> 17u32;
    state ^= state << 5u32;
    state
}

} // verus!
