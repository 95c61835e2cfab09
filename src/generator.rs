//! The generator register and the operations that extract bits from it.
use vstd::arithmetic::div_mod::{
    lemma_add_mod_noop, lemma_mod_bound, lemma_mod_twice, lemma_small_mod, lemma_sub_mod_noop,
};
use vstd::arithmetic::power2::{lemma2_to64, lemma_pow2_strictly_increases, lemma_pow2_unfold, pow2};
use vstd::prelude::*;

use crate::base_ops::{
    fls_spec, from_bits, lemma_fls_bound, lemma_fls_covers, lemma_wrap_bits, modulus, BaseOps,
    UnsignedOps,
};
use crate::range::{bound_max, bound_min, end_convertible, RangeArg};
use crate::{lemma_transition_injective, lemma_transition_nonzero, shr3, transition};
use core::ops::Bound;

verus! {

/// Upper limit on the candidates that one range draw takes, so that the
/// rejection loop provably ends. Each candidate is accepted with probability
/// above one half, so the limit is never reached in practice; the register
/// sequence repeats with period `2**32 - 1`, so a draw that has not found an
/// acceptable candidate within this many tries would never find one. When it
/// is reached, the draw yields the lower end of the range.
pub const MAX_DRAWS: u64 = 0x1_0000_0000;

/// The register after `n` transitions.
pub open spec fn advance(state: u32, n: nat) -> u32
    decreases n,
{
    if n == 0 {
        state
    } else {
        transition(advance(state, (n - 1) as nat))
    }
}

/// The `n` bits extracted from `state`: the least significant bit of each
/// of the next `n` registers, the first one the most significant.
pub open spec fn extract(state: u32, n: nat) -> nat
    decreases n,
{
    if n == 0 {
        0
    } else {
        2 * extract(state, (n - 1) as nat) + (advance(state, n) as nat) % 2
    }
}

/// Rejection sampling of an offset in `[0, span]` from `bits`-bit
/// candidates, with at most `draws` candidates: the register afterwards and
/// the offset. When the last allowed candidate is rejected too the offset
/// is zero.
pub open spec fn sample(state: u32, bits: nat, span: nat, draws: nat) -> (u32, nat)
    decreases draws,
{
    let candidate = extract(state, bits);
    let next = advance(state, bits);
    if candidate <= span {
        (next, candidate)
    } else if draws <= 1 {
        (next, 0)
    } else {
        sample(next, bits, span, (draws - 1) as nat)
    }
}

/// Register and value that a draw in `[min, max]` yields from `state`.
pub open spec fn minmax_outcome(state: u32, min: int, max: int) -> (u32, int) {
    let span = (max - min) as nat;
    let (next, offset) = sample(state, fls_spec(span), span, MAX_DRAWS as nat);
    (next, min + offset)
}

/// SHR3 generator register state.
pub struct Shr3 {
    state: u32,
}

impl View for Shr3 {
    type V = u32;

    closed spec fn view(&self) -> u32 {
        self.state
    }
}

impl Shr3 {
    #[verifier::type_invariant]
    spec fn inv(&self) -> bool {
        self.state != 0
    }

    /// Create a new SHR3 instance with default initial `state = 1`.
    pub fn new() -> (r: Shr3)
        ensures
            r@ == 1,
    {
        Self::new_state(1)
    }

    /// Create a new SHR3 instance with user specified initial state.
    ///
    /// The state must not be 0: if 0 is passed, the state 0x7FFFFFFF is
    /// picked instead.
    pub fn new_state(state: u32) -> (r: Shr3)
        ensures
            r@ == (if state == 0 {
                0x7FFF_FFFFu32
            } else {
                state
            }),
    {
        Shr3 { state: if state == 0 { 0x7FFF_FFFF } else { state } }
    }

    /// The current register value; never zero.
    pub fn state(&self) -> (r: u32)
        ensures
            r == self@,
            r != 0,
    {
        proof {
            use_type_invariant(self);
        }
        self.state
    }
}

impl Default for Shr3 {
    /// Create a new SHR3 instance with default initial `state = 1`.
    fn default() -> (r: Self)
        ensures
            r@ == 1,
    {
        Self::new()
    }
}

/// The extracted bits fit in `n` bits.
pub proof fn lemma_extract_bound(state: u32, n: nat)
    ensures
        extract(state, n) < pow2(n),
    decreases n,
{
    lemma2_to64();
    if n > 0 {
        lemma_extract_bound(state, (n - 1) as nat);
        lemma_pow2_unfold(n);
    }
}

/// Drawing zero bits yields zero and leaves the register as it was.
pub proof fn lemma_zero_bit_draw(state: u32)
    ensures
        advance(state, 0) == state,
        extract(state, 0) == 0,
{
}

/// A non-zero register stays non-zero however many transitions it takes.
pub proof fn lemma_advance_nonzero(state: u32, n: nat)
    requires
        state != 0,
    ensures
        advance(state, n) != 0,
    decreases n,
{
    if n > 0 {
        lemma_advance_nonzero(state, (n - 1) as nat);
        lemma_transition_nonzero(advance(state, (n - 1) as nat));
    }
}

/// The register sequence is a pure cycle: when a register value comes
/// again after `j - i` more transitions, the start value comes again after
/// `j - i` transitions too, so no value repeats before the start does.
pub proof fn lemma_repeat_returns_to_start(state: u32, i: nat, j: nat)
    requires
        i <= j,
        advance(state, i) == advance(state, j),
    ensures
        advance(state, (j - i) as nat) == state,
    decreases i,
{
    if i > 0 {
        lemma_transition_injective(advance(state, (i - 1) as nat), advance(state, (j - 1) as nat));
        lemma_repeat_returns_to_start(state, (i - 1) as nat, (j - 1) as nat);
    }
}

/// A sampled offset never exceeds the span.
pub proof fn lemma_sample_bound(state: u32, bits: nat, span: nat, draws: nat)
    ensures
        sample(state, bits, span, draws).1 <= span,
    decreases draws,
{
    if extract(state, bits) > span && draws > 1 {
        lemma_sample_bound(advance(state, bits), bits, span, (draws - 1) as nat);
    }
}

/// A draw over `[0, span]` uses the fewest bits that cover `span`, so more
/// than half of its `2**bits` candidates are accepted.
pub proof fn lemma_acceptance_over_half(span: nat)
    ensures
        span < pow2(fls_spec(span)) < 2 * (span + 1),
{
    lemma_fls_covers(span);
    lemma2_to64();
    if span > 0 {
        lemma_pow2_unfold(fls_spec(span));
    }
}

/// The value of a `T` in `[lo, lo + m)` is picked by its residue.
proof fn lemma_wrap_unique(lo: int, m: int, n: int, v: int)
    requires
        0 < m,
        lo <= v < lo + m,
        n % m == v % m,
    ensures
        lo + (n - lo) % m == v,
{
    lemma_sub_mod_noop(n, lo, m);
    lemma_sub_mod_noop(v, lo, m);
    lemma_small_mod((v - lo) as nat, m as nat);
}

/// Main operations for extracting bits from the SHR3 generator.
///
/// The type `T` can be any of `u8`, `i8`, `u16`, `i16`, `u32`, `i32`,
/// `u64`, `i64`, `u128`, `i128`, `usize` or `isize`.
pub trait Shr3Ops<T: BaseOps>: View<V = u32> + Sized {
    /// Get `bitcount` bits from SHR3 and store them in the lower bits of the
    /// returned `T`. The register advances by `bitcount` transitions.
    fn get_bits(&mut self, bitcount: u8) -> (r: T)
        requires
            bitcount as nat <= T::U::width(),
        ensures
            final(self)@ == advance(old(self)@, bitcount as nat),
            r.int_value() == from_bits::<T>(extract(old(self)@, bitcount as nat) as int),
    ;

    /// Get as many bits from SHR3 as fit into `T`.
    fn get(&mut self) -> (r: T)
        ensures
            final(self)@ == advance(old(self)@, T::U::width()),
            r.int_value() == from_bits::<T>(extract(old(self)@, T::U::width()) as int),
    {
        proof {
            T::lemma_layout(T::MINVAL, T::MINVAL);
        }
        self.get_bits(T::NUMBITS)
    }

    /// Get a uniformly drawn value in `[min_value, max_value]`.
    ///
    /// Candidates of as many bits as the span of the range needs are drawn
    /// until one falls in the range; each is accepted with probability above
    /// one half. A range of one value consumes no bits.
    fn get_minmax(&mut self, min_value: T, max_value: T) -> (r: T)
        requires
            min_value.int_value() <= max_value.int_value(),
        ensures
            min_value.int_value() <= r.int_value() <= max_value.int_value(),
            (final(self)@, r.int_value()) == minmax_outcome(
                old(self)@,
                min_value.int_value(),
                max_value.int_value(),
            ),
            min_value == max_value ==> r == min_value && final(self)@ == old(self)@,
    {
        let ghost m = modulus::<T::U>();
        let ghost lo = T::min_int();
        let ghost span = (max_value.int_value() - min_value.int_value()) as nat;
        let ghost bits = fls_spec(span);
        let ghost target = sample(self@, bits, span, MAX_DRAWS as nat);
        proof {
            T::lemma_layout(min_value, max_value);
            T::lemma_layout(max_value, min_value);
            lemma2_to64();
        }
        let range = max_value.to_unsigned().sub_wrapped(min_value.to_unsigned());
        proof {
            lemma_sub_mod_noop(max_value.int_value(), min_value.int_value(), m);
            lemma_small_mod(span, m as nat);
            assert(range.nat_value() == span);
            lemma_wrap_bits::<T>(span as int);
            lemma_fls_bound(span, T::U::width());
        }
        let num_bits = T::from_unsigned(range).fls();
        assert(num_bits == bits);

        let mut draws: u64 = 0;
        let mut value = T::U::zero();
        loop
            invariant_except_break
                draws < MAX_DRAWS,
                target == sample(self@, bits, span, (MAX_DRAWS - draws) as nat),
            invariant
                range.nat_value() == span,
                num_bits == bits,
                bits <= T::U::width(),
                m == pow2(T::U::width()),
                span < m,
                lo == T::min_int(),
            ensures
                (self@, value.nat_value()) == target,
            decreases MAX_DRAWS - draws,
        {
            let ghost before = self@;
            let drawn: T = self.get_bits(num_bits);
            let candidate = drawn.to_unsigned();
            proof {
                let e = extract(before, bits);
                lemma_extract_bound(before, bits);
                if bits < T::U::width() {
                    lemma_pow2_strictly_increases(bits, T::U::width());
                }
                lemma_wrap_bits::<T>(e as int);
                assert(candidate.nat_value() == e);
            }
            draws = draws + 1;
            if candidate.at_most(&range) {
                value = candidate;
                break;
            }
            if draws == MAX_DRAWS {
                value = T::U::zero();
                break;
            }
        }
        proof {
            T::U::lemma_unsigned_layout(value, value);
            let off = value.nat_value();
            lemma_sample_bound(old(self)@, bits, span, MAX_DRAWS as nat);
            assert(off <= span);
            lemma_small_mod(off, m as nat);
            let n = (off + min_value.int_value() % m) % m;
            lemma_mod_bound(min_value.int_value(), m);
            lemma_add_mod_noop(off as int, min_value.int_value(), m);
            lemma_mod_twice(off + min_value.int_value() % m, m);
            lemma_wrap_unique(lo, m, n, min_value.int_value() + off);
        }
        let r = T::from_unsigned(value.add_wrapped(min_value.to_unsigned()));
        proof {
            T::lemma_layout(r, min_value);
        }
        r
    }

    /// Get a uniformly drawn value in the given range: `a..b`, `a..=b`,
    /// `a..`, `..b`, `..=b`, `..`, or a pair of bounds. An excluded end `b`
    /// stands for the included end `b - 1`; an excluded start stands for no
    /// start bound. An inclusive range that was iterated to exhaustion is not
    /// accepted.
    fn get_range<R: RangeArg<T>>(&mut self, range: R) -> (r: T)
        requires
            range.spec_usable(),
            end_convertible::<T>(range.spec_bounds().1),
            bound_min::<T>(range.spec_bounds().0) <= bound_max::<T>(range.spec_bounds().1),
        ensures
            bound_min::<T>(range.spec_bounds().0) <= r.int_value() <= bound_max::<T>(
                range.spec_bounds().1,
            ),
            (final(self)@, r.int_value()) == minmax_outcome(
                old(self)@,
                bound_min::<T>(range.spec_bounds().0),
                bound_max::<T>(range.spec_bounds().1),
            ),
    {
        let (start, end) = range.into_bounds();
        let min = match start {
            Bound::Included(x) => x,
            Bound::Excluded(_) | Bound::Unbounded => T::MINVAL,
        };
        let max = match end {
            Bound::Included(x) => x,
            Bound::Excluded(x) => {
                let ghost m = modulus::<T::U>();
                let ghost lo = T::min_int();
                proof {
                    T::lemma_layout(x, x);
                    lemma2_to64();
                    lemma_pow2_strictly_increases(2, T::U::width());
                    lemma_wrap_bits::<T>(1);
                    lemma_small_mod(1, m as nat);
                    lemma_sub_mod_noop(x.int_value(), 1, m);
                    lemma_mod_twice(x.int_value() - 1, m);
                    lemma_wrap_unique(lo, m, (x.int_value() - 1) % m, x.int_value() - 1);
                }
                // to included
                T::from_unsigned(x.to_unsigned().sub_wrapped(T::from_u8(1).to_unsigned()))
            },
            Bound::Unbounded => T::MAXVAL,
        };
        proof {
            T::lemma_layout(min, max);
        }
        self.get_minmax(min, max)
    }

    /// Get a uniformly drawn value in `[T::MINVAL, max_value]`.
    fn get_max(&mut self, max_value: T) -> (r: T)
        ensures
            T::min_int() <= r.int_value() <= max_value.int_value(),
            (final(self)@, r.int_value()) == minmax_outcome(
                old(self)@,
                T::min_int(),
                max_value.int_value(),
            ),
    {
        proof {
            T::lemma_layout(T::MINVAL, max_value);
            T::lemma_layout(max_value, T::MINVAL);
        }
        self.get_minmax(T::MINVAL, max_value)
    }
}

impl<T: BaseOps> Shr3Ops<T> for Shr3 {
    fn get_bits(&mut self, bitcount: u8) -> (r: T) {
        proof {
            use_type_invariant(&*self);
            lemma2_to64();
        }
        let ghost start = self@;
        let mut ret = T::U::zero();
        let mut i: u8 = 0;
        while i < bitcount
            invariant
                i <= bitcount,
                bitcount as nat <= T::U::width(),
                self@ == advance(start, i as nat),
                ret.nat_value() == extract(start, i as nat),
            decreases bitcount - i,
        {
            proof {
                use_type_invariant(&*self);
                lemma_transition_nonzero(self.state);
            }
            self.state = shr3(self.state);
            let low = self.state & 1;
            proof {
                let s = self.state;
                assert(s & 1 == s % 2) by (bit_vector);
                assert(low < 2);
                lemma_extract_bound(start, i as nat);
                lemma_pow2_unfold((i + 1) as nat);
                if i + 1 < T::U::width() {
                    lemma_pow2_strictly_increases((i + 1) as nat, T::U::width());
                }
                lemma_small_mod(extract(start, (i + 1) as nat), pow2(T::U::width()));
            }
            ret = ret.push_bit(low as u8);
            i = i + 1;
        }
        proof {
            T::U::lemma_unsigned_layout(ret, ret);
            lemma_wrap_bits::<T>(ret.nat_value() as int);
        }
        T::from_unsigned(ret)
    }
}

} // verus!
