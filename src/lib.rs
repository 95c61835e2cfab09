//! SHR3: a 3-shift register pseudo-random bit generator.
//!
//! The generator keeps a single non-zero 32-bit register. Every extracted bit
//! costs one application of the SHR3 transition; the least significant bit of
//! the new register is the output bit. The transition is a bijection of the
//! 32-bit space that keeps zero fixed, so a non-zero register never becomes
//! zero.
//!
//! The generator is not cryptographically secure.
use vstd::prelude::*;

pub mod arch;
pub mod base_ops;
pub mod generator;
pub mod prelude;
pub mod range;

pub use base_ops::{BaseOps, UnsignedOps};
pub use generator::{Shr3, Shr3Ops};
pub use range::RangeArg;

verus! {

/// The SHR3 transition, as the three xor-shift steps that define it.
pub open spec fn transition(state: u32) -> u32 {
    let a = state ^ (state << 13u32);
    let b = a ^ (a >> 17u32);
    b ^ (b << 5u32)
}

/// Each xor-shift step undoes to one input, so the transition is one-to-one
/// on the 32-bit values.
pub proof fn lemma_transition_injective(a: u32, b: u32)
    ensures
        transition(a) == transition(b) ==> a == b,
{
    assert(transition(a) == transition(b) ==> a == b) by (bit_vector);
}

/// Zero is the fixed point of the transition, and every non-zero value
/// goes to a non-zero value.
pub proof fn lemma_transition_nonzero(state: u32)
    ensures
        transition(0) == 0,
        state != 0 ==> transition(state) != 0,
{
    assert(transition(0) == 0) by (bit_vector);
    lemma_transition_injective(state, 0);
}

/// One round of the SHR3 shuffle function (the fixed variant with a full
/// `2**32 - 1` cycle, from George Marsaglia's KISS generator).
///
/// This uses the portable formulation; `arch::avr::shr3` computes the same
/// function on 16-bit register pairs.
pub fn shr3(state: u32) -> (r: u32)
    ensures
        r == transition(state),
{
    arch::generic::shr3(state)
}

} // verus!
