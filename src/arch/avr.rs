//! The SHR3 transition on two 16-bit halves, the way an 8-bit core with
//! register pairs computes it.
use vstd::prelude::*;

use crate::transition;

verus! {

/// The transition computed on the low half `ab` and the high half `cd`.
pub open spec fn halves_transition(state: u32) -> u32 {
    let ab0 = state as u16;
    let cd0 = (state >> 16u32) as u16;
    // y ^= y << 13
    let cd1 = cd0 ^ ((cd0 << 13u16) | (ab0 >> 3u16));
    let ab1 = ab0 ^ (ab0 << 13u16);
    // y ^= y >> 17
    let ab2 = ab1 ^ (cd1 >> 1u16);
    // y ^= y << 5
    let cd3 = cd1 ^ ((cd1 << 5u16) | (ab2 >> 11u16));
    let ab3 = ab2 ^ (ab2 << 5u16);
    (ab3 as u32) | ((cd3 as u32) << 16u32)
}

/// The formulation on 16-bit halves agrees with the portable transition on
/// every 32-bit input.
pub proof fn lemma_halves_agree(state: u32)
    ensures
        halves_transition(state) == transition(state),
{
    assert(halves_transition(state) == transition(state)) by (bit_vector);
}

/// The SHR3 transition on 16-bit register pairs.
pub fn shr3(state: u32) -> (r: u32)
    ensures
        r == halves_transition(state),
        r == transition(state),
{
    // Split the state into 16-bit pairs.
    #[verifier::truncate]
    let mut ab: u16 = state as u16;
    #[verifier::truncate]
    let mut cd: u16 = (state >> 16u32) as u16;

    // y ^= y << 13
    cd ^= (cd << 13u16) | (ab >> 3u16);
    ab ^= ab << 13u16;
    // y ^= y >> 17
    ab ^= cd >> 1u16;
    // y ^= y << 5
    cd ^= (cd << 5u16) | (ab >> 11u16);
    ab ^= ab << 5u16;

    proof {
        lemma_halves_agree(state);
    }
    // Combine the 16-bit pairs.
    (ab as u32) | ((cd as u32) << 16u32)
}

} // verus!
