//! Per-type facts about the output integer types: width, bounds, and the
//! reinterpretation as the unsigned companion type of the same width.
use vstd::arithmetic::div_mod::{
    lemma_mod_add_multiples_vanish, lemma_mod_sub_multiples_vanish, lemma_small_mod,
};
use vstd::arithmetic::power2::{lemma2_to64, lemma_pow2_adds, lemma_pow2_unfold, pow2};
use vstd::prelude::*;

verus! {

/// Position of the most significant set bit of `n`, counted from 1; zero
/// when no bit is set.
pub open spec fn fls_spec(n: nat) -> nat
    decreases n,
{
    if n == 0 {
        0
    } else {
        1 + fls_spec(n / 2)
    }
}

/// `2**width` of an unsigned companion type.
pub open spec fn modulus<U: UnsignedOps>() -> int {
    pow2(U::width()) as int
}

/// The value of type `T` whose bit pattern is `n`, for `0 <= n < 2**width`:
/// `n` itself when it fits, else `n - 2**width` (two's complement).
pub open spec fn from_bits<T: BaseOps>(n: int) -> int {
    if n <= T::max_int() {
        n
    } else {
        n - modulus::<T::U>()
    }
}

/// Reinterpreting a bit pattern through the residue gives the same value.
pub proof fn lemma_wrap_bits<T: BaseOps>(n: int)
    requires
        0 <= n < modulus::<T::U>(),
    ensures
        T::min_int() + (n - T::min_int()) % modulus::<T::U>() == from_bits::<T>(n),
        from_bits::<T>(n) % modulus::<T::U>() == n,
        T::min_int() <= from_bits::<T>(n) <= T::max_int(),
{
    T::lemma_layout(T::MINVAL, T::MINVAL);
    let m = modulus::<T::U>();
    lemma_mod_window(n - T::min_int(), m);
    lemma_mod_window(from_bits::<T>(n), m);
}

/// Arithmetic on an unsigned companion type, modulo `2**width`.
pub trait UnsignedOps: Copy + Sized {
    /// Number of bits of the type.
    spec fn width() -> nat;

    /// The value as a natural number.
    spec fn nat_value(&self) -> nat;

    /// The value range is `[0, 2**width)` and a value is determined by it.
    proof fn lemma_unsigned_layout(x: Self, y: Self)
        ensures
            8 <= Self::width() <= 128,
            x.nat_value() < (pow2(Self::width()) as int),
            x.nat_value() == y.nat_value() ==> x == y,
    ;

    /// Zero.
    fn zero() -> (r: Self)
        ensures
            r.nat_value() == 0,
    ;

    /// Shifts left by one and puts `bit` in the lowest position.
    fn push_bit(self, bit: u8) -> (r: Self)
        requires
            bit <= 1,
        ensures
            r.nat_value() == (2 * self.nat_value() + bit) % (pow2(Self::width()) as int),
    ;

    /// Addition modulo `2**width`.
    fn add_wrapped(self, other: Self) -> (r: Self)
        ensures
            r.nat_value() == (self.nat_value() as int + other.nat_value()) % (pow2(Self::width()) as int),
    ;

    /// Subtraction modulo `2**width`.
    fn sub_wrapped(self, other: Self) -> (r: Self)
        ensures
            r.nat_value() == (self.nat_value() as int - other.nat_value()) % (pow2(Self::width()) as int),
    ;

    /// Whether `self <= other`.
    fn at_most(&self, other: &Self) -> (r: bool)
        ensures
            r == (self.nat_value() <= other.nat_value()),
    ;
}

/// Basic operations on an output type.
pub trait BaseOps: Copy + Sized {
    /// Unsigned companion of `Self`, of the same width.
    type U: UnsignedOps;

    /// Number of bits in type `Self`.
    const NUMBITS: u8;
    /// Smallest possible value of type `Self`.
    const MINVAL: Self;
    /// Biggest possible value of type `Self`.
    const MAXVAL: Self;

    /// The value as a mathematical integer.
    spec fn int_value(&self) -> int;

    /// The smallest value of the type.
    spec fn min_int() -> int;

    /// The biggest value of the type.
    spec fn max_int() -> int;

    /// The type holds the `2**width` integers from its smallest to its
    /// biggest value, the smallest being zero (unsigned) or `-2**(width-1)`
    /// (two's complement), and a value is determined by its integer.
    proof fn lemma_layout(x: Self, y: Self)
        ensures
            Self::NUMBITS as nat == Self::U::width(),
            8 <= Self::U::width() <= 128,
            Self::MINVAL.int_value() == Self::min_int(),
            Self::MAXVAL.int_value() == Self::max_int(),
            Self::max_int() - Self::min_int() + 1 == (pow2(Self::U::width()) as int),
            Self::min_int() == 0 || 2 * Self::min_int() == -(pow2(Self::U::width()) as int),
            Self::min_int() <= x.int_value() <= Self::max_int(),
            x.int_value() == y.int_value() ==> x == y,
    ;

    /// Convert an `u8` to `Self` (modulo `2**width`).
    fn from_u8(v: u8) -> (r: Self)
        ensures
            r.int_value() == (Self::min_int() + (v as int - Self::min_int()) % (pow2(Self::U::width()) as int)),
    ;

    /// Convert an unsigned value to the bit-identical `Self`.
    fn from_unsigned(v: Self::U) -> (r: Self)
        ensures
            r.int_value() == (Self::min_int() + (v.nat_value() as int - Self::min_int()) % (pow2(Self::U::width()) as int)),
    ;

    /// Convert `self` to the bit-identical unsigned value.
    fn to_unsigned(&self) -> (r: Self::U)
        ensures
            r.nat_value() == self.int_value() % (pow2(Self::U::width()) as int),
    ;

    /// Find the last bit set in `self`: bit 0 gives 1, bit 1 gives 2, ...;
    /// no bit set gives 0.
    fn fls(&self) -> (r: u8)
        ensures
            r as nat == fls_spec((self.int_value() % (pow2(Self::U::width()) as int)) as nat),
    ;
}

/// `a % m` for `a` within one modulus of `[0, m)`.
proof fn lemma_mod_window(a: int, m: int)
    requires
        0 < m,
        -m <= a < 2 * m,
    ensures
        a % m == (if a < 0 {
            a + m
        } else if a >= m {
            a - m
        } else {
            a
        }),
{
    if a < 0 {
        lemma_mod_add_multiples_vanish(a, m);
        lemma_small_mod((m + a) as nat, m as nat);
    } else if a >= m {
        lemma_mod_sub_multiples_vanish(a, m);
        lemma_small_mod((a - m) as nat, m as nat);
    } else {
        lemma_small_mod(a as nat, m as nat);
    }
}

/// `fls_spec(n)` is at most `k` for `n < 2**k`.
pub proof fn lemma_fls_bound(n: nat, k: nat)
    requires
        n < pow2(k),
    ensures
        fls_spec(n) <= k,
    decreases k,
{
    if n > 0 {
        if k == 0 {
            lemma2_to64();
        } else {
            lemma_pow2_unfold(k);
            lemma_fls_bound(n / 2, (k - 1) as nat);
        }
    }
}

/// `2**fls_spec(n)` is the least power of two above `n`.
pub proof fn lemma_fls_covers(n: nat)
    ensures
        n < pow2(fls_spec(n)),
        n > 0 ==> pow2((fls_spec(n) - 1) as nat) <= n,
    decreases n,
{
    lemma2_to64();
    if n > 0 {
        lemma_fls_covers(n / 2);
        lemma_pow2_unfold(fls_spec(n));
        if n / 2 > 0 {
            lemma_pow2_unfold(fls_spec(n / 2));
        }
    }
}

proof fn lemma_pow2_128()
    ensures
        pow2(128) == 0x1_0000_0000_0000_0000_0000_0000_0000_0000,
{
    lemma2_to64();
    lemma_pow2_adds(64, 64);
}

proof fn lemma_pow2_usize()
    ensures
        pow2(usize::BITS as nat) == usize::MAX + 1,
        pow2((usize::BITS - 1) as nat) == isize::MAX + 1,
{
    lemma2_to64();
    vstd::arithmetic::power2::lemma2_to64_rest();
}

/// Highest set bit of a 128-bit value.
fn fls_u128(v: u128) -> (r: u8)
    ensures
        r as nat == fls_spec(v as nat),
{
    proof {
        lemma_pow2_128();
        lemma_fls_bound(v as nat, 128);
    }
    let mut x: u128 = v;
    let mut n: u8 = 0;
    while x != 0
        invariant
            n + fls_spec(x as nat) == fls_spec(v as nat),
            fls_spec(v as nat) <= 128,
        decreases x,
    {
        x = x / 2;
        n = n + 1;
    }
    n
}

impl UnsignedOps for u8 {
    open spec fn width() -> nat {
        8
    }

    open spec fn nat_value(&self) -> nat {
        *self as nat
    }

    proof fn lemma_unsigned_layout(x: Self, y: Self) {
        lemma2_to64();
    }

    fn zero() -> (r: Self) {
        0
    }

    fn push_bit(self, bit: u8) -> (r: Self) {
        proof {
            lemma2_to64();
            lemma_mod_window(2 * self + bit, 0x100);
        }
        self.wrapping_add(self) + bit as u8
    }

    fn add_wrapped(self, other: Self) -> (r: Self) {
        proof {
            lemma2_to64();
            lemma_mod_window(self + other, 0x100);
        }
        self.wrapping_add(other)
    }

    fn sub_wrapped(self, other: Self) -> (r: Self) {
        proof {
            lemma2_to64();
            lemma_mod_window(self - other, 0x100);
        }
        self.wrapping_sub(other)
    }

    fn at_most(&self, other: &Self) -> (r: bool) {
        *self <= *other
    }
}

impl BaseOps for u8 {
    type U = u8;

    const NUMBITS: u8 = 8;
    const MINVAL: u8 = u8::MIN;
    const MAXVAL: u8 = u8::MAX;

    open spec fn int_value(&self) -> int {
        *self as int
    }

    open spec fn min_int() -> int {
        u8::MIN as int
    }

    open spec fn max_int() -> int {
        u8::MAX as int
    }

    proof fn lemma_layout(x: Self, y: Self) {
        lemma2_to64();
    }

    fn from_u8(v: u8) -> (r: Self) {
        proof {
            lemma2_to64();
            lemma_mod_window(v as int, 0x100);
        }
        v as u8
    }

    fn from_unsigned(v: u8) -> (r: Self) {
        proof {
            lemma2_to64();
            lemma_mod_window(v as int, 0x100);
        }
        v
    }

    fn to_unsigned(&self) -> (r: u8) {
        proof {
            lemma2_to64();
            lemma_mod_window(*self as int, 0x100);
        }
        *self
    }

    fn fls(&self) -> (r: u8) {
        fls_u128(self.to_unsigned() as u128)
    }
}

impl BaseOps for i8 {
    type U = u8;

    const NUMBITS: u8 = 8;
    const MINVAL: i8 = i8::MIN;
    const MAXVAL: i8 = i8::MAX;

    open spec fn int_value(&self) -> int {
        *self as int
    }

    open spec fn min_int() -> int {
        i8::MIN as int
    }

    open spec fn max_int() -> int {
        i8::MAX as int
    }

    proof fn lemma_layout(x: Self, y: Self) {
        lemma2_to64();
    }

    fn from_u8(v: u8) -> (r: Self) {
        proof {
            lemma2_to64();
            lemma_mod_window(v - i8::MIN, 0x100);
        }
        0i8.wrapping_add_unsigned(v as u8)
    }

    fn from_unsigned(v: u8) -> (r: Self) {
        proof {
            lemma2_to64();
            lemma_mod_window(v - i8::MIN, 0x100);
        }
        0i8.wrapping_add_unsigned(v)
    }

    fn to_unsigned(&self) -> (r: u8) {
        proof {
            lemma2_to64();
            lemma_mod_window(*self as int, 0x100);
        }
        0u8.wrapping_add_signed(*self)
    }

    fn fls(&self) -> (r: u8) {
        fls_u128(self.to_unsigned() as u128)
    }
}

impl UnsignedOps for u16 {
    open spec fn width() -> nat {
        16
    }

    open spec fn nat_value(&self) -> nat {
        *self as nat
    }

    proof fn lemma_unsigned_layout(x: Self, y: Self) {
        lemma2_to64();
    }

    fn zero() -> (r: Self) {
        0
    }

    fn push_bit(self, bit: u8) -> (r: Self) {
        proof {
            lemma2_to64();
            lemma_mod_window(2 * self + bit, 0x1_0000);
        }
        self.wrapping_add(self) + bit as u16
    }

    fn add_wrapped(self, other: Self) -> (r: Self) {
        proof {
            lemma2_to64();
            lemma_mod_window(self + other, 0x1_0000);
        }
        self.wrapping_add(other)
    }

    fn sub_wrapped(self, other: Self) -> (r: Self) {
        proof {
            lemma2_to64();
            lemma_mod_window(self - other, 0x1_0000);
        }
        self.wrapping_sub(other)
    }

    fn at_most(&self, other: &Self) -> (r: bool) {
        *self <= *other
    }
}

impl BaseOps for u16 {
    type U = u16;

    const NUMBITS: u8 = 16;
    const MINVAL: u16 = u16::MIN;
    const MAXVAL: u16 = u16::MAX;

    open spec fn int_value(&self) -> int {
        *self as int
    }

    open spec fn min_int() -> int {
        u16::MIN as int
    }

    open spec fn max_int() -> int {
        u16::MAX as int
    }

    proof fn lemma_layout(x: Self, y: Self) {
        lemma2_to64();
    }

    fn from_u8(v: u8) -> (r: Self) {
        proof {
            lemma2_to64();
            lemma_mod_window(v as int, 0x1_0000);
        }
        v as u16
    }

    fn from_unsigned(v: u16) -> (r: Self) {
        proof {
            lemma2_to64();
            lemma_mod_window(v as int, 0x1_0000);
        }
        v
    }

    fn to_unsigned(&self) -> (r: u16) {
        proof {
            lemma2_to64();
            lemma_mod_window(*self as int, 0x1_0000);
        }
        *self
    }

    fn fls(&self) -> (r: u8) {
        fls_u128(self.to_unsigned() as u128)
    }
}

impl BaseOps for i16 {
    type U = u16;

    const NUMBITS: u8 = 16;
    const MINVAL: i16 = i16::MIN;
    const MAXVAL: i16 = i16::MAX;

    open spec fn int_value(&self) -> int {
        *self as int
    }

    open spec fn min_int() -> int {
        i16::MIN as int
    }

    open spec fn max_int() -> int {
        i16::MAX as int
    }

    proof fn lemma_layout(x: Self, y: Self) {
        lemma2_to64();
    }

    fn from_u8(v: u8) -> (r: Self) {
        proof {
            lemma2_to64();
            lemma_mod_window(v - i16::MIN, 0x1_0000);
        }
        0i16.wrapping_add_unsigned(v as u16)
    }

    fn from_unsigned(v: u16) -> (r: Self) {
        proof {
            lemma2_to64();
            lemma_mod_window(v - i16::MIN, 0x1_0000);
        }
        0i16.wrapping_add_unsigned(v)
    }

    fn to_unsigned(&self) -> (r: u16) {
        proof {
            lemma2_to64();
            lemma_mod_window(*self as int, 0x1_0000);
        }
        0u16.wrapping_add_signed(*self)
    }

    fn fls(&self) -> (r: u8) {
        fls_u128(self.to_unsigned() as u128)
    }
}

impl UnsignedOps for u32 {
    open spec fn width() -> nat {
        32
    }

    open spec fn nat_value(&self) -> nat {
        *self as nat
    }

    proof fn lemma_unsigned_layout(x: Self, y: Self) {
        lemma2_to64();
    }

    fn zero() -> (r: Self) {
        0
    }

    fn push_bit(self, bit: u8) -> (r: Self) {
        proof {
            lemma2_to64();
            lemma_mod_window(2 * self + bit, 0x1_0000_0000);
        }
        self.wrapping_add(self) + bit as u32
    }

    fn add_wrapped(self, other: Self) -> (r: Self) {
        proof {
            lemma2_to64();
            lemma_mod_window(self + other, 0x1_0000_0000);
        }
        self.wrapping_add(other)
    }

    fn sub_wrapped(self, other: Self) -> (r: Self) {
        proof {
            lemma2_to64();
            lemma_mod_window(self - other, 0x1_0000_0000);
        }
        self.wrapping_sub(other)
    }

    fn at_most(&self, other: &Self) -> (r: bool) {
        *self <= *other
    }
}

impl BaseOps for u32 {
    type U = u32;

    const NUMBITS: u8 = 32;
    const MINVAL: u32 = u32::MIN;
    const MAXVAL: u32 = u32::MAX;

    open spec fn int_value(&self) -> int {
        *self as int
    }

    open spec fn min_int() -> int {
        u32::MIN as int
    }

    open spec fn max_int() -> int {
        u32::MAX as int
    }

    proof fn lemma_layout(x: Self, y: Self) {
        lemma2_to64();
    }

    fn from_u8(v: u8) -> (r: Self) {
        proof {
            lemma2_to64();
            lemma_mod_window(v as int, 0x1_0000_0000);
        }
        v as u32
    }

    fn from_unsigned(v: u32) -> (r: Self) {
        proof {
            lemma2_to64();
            lemma_mod_window(v as int, 0x1_0000_0000);
        }
        v
    }

    fn to_unsigned(&self) -> (r: u32) {
        proof {
            lemma2_to64();
            lemma_mod_window(*self as int, 0x1_0000_0000);
        }
        *self
    }

    fn fls(&self) -> (r: u8) {
        fls_u128(self.to_unsigned() as u128)
    }
}

impl BaseOps for i32 {
    type U = u32;

    const NUMBITS: u8 = 32;
    const MINVAL: i32 = i32::MIN;
    const MAXVAL: i32 = i32::MAX;

    open spec fn int_value(&self) -> int {
        *self as int
    }

    open spec fn min_int() -> int {
        i32::MIN as int
    }

    open spec fn max_int() -> int {
        i32::MAX as int
    }

    proof fn lemma_layout(x: Self, y: Self) {
        lemma2_to64();
    }

    fn from_u8(v: u8) -> (r: Self) {
        proof {
            lemma2_to64();
            lemma_mod_window(v - i32::MIN, 0x1_0000_0000);
        }
        0i32.wrapping_add_unsigned(v as u32)
    }

    fn from_unsigned(v: u32) -> (r: Self) {
        proof {
            lemma2_to64();
            lemma_mod_window(v - i32::MIN, 0x1_0000_0000);
        }
        0i32.wrapping_add_unsigned(v)
    }

    fn to_unsigned(&self) -> (r: u32) {
        proof {
            lemma2_to64();
            lemma_mod_window(*self as int, 0x1_0000_0000);
        }
        0u32.wrapping_add_signed(*self)
    }

    fn fls(&self) -> (r: u8) {
        fls_u128(self.to_unsigned() as u128)
    }
}

impl UnsignedOps for u64 {
    open spec fn width() -> nat {
        64
    }

    open spec fn nat_value(&self) -> nat {
        *self as nat
    }

    proof fn lemma_unsigned_layout(x: Self, y: Self) {
        lemma2_to64();
    }

    fn zero() -> (r: Self) {
        0
    }

    fn push_bit(self, bit: u8) -> (r: Self) {
        proof {
            lemma2_to64();
            lemma_mod_window(2 * self + bit, 0x1_0000_0000_0000_0000);
        }
        self.wrapping_add(self) + bit as u64
    }

    fn add_wrapped(self, other: Self) -> (r: Self) {
        proof {
            lemma2_to64();
            lemma_mod_window(self + other, 0x1_0000_0000_0000_0000);
        }
        self.wrapping_add(other)
    }

    fn sub_wrapped(self, other: Self) -> (r: Self) {
        proof {
            lemma2_to64();
            lemma_mod_window(self - other, 0x1_0000_0000_0000_0000);
        }
        self.wrapping_sub(other)
    }

    fn at_most(&self, other: &Self) -> (r: bool) {
        *self <= *other
    }
}

impl BaseOps for u64 {
    type U = u64;

    const NUMBITS: u8 = 64;
    const MINVAL: u64 = u64::MIN;
    const MAXVAL: u64 = u64::MAX;

    open spec fn int_value(&self) -> int {
        *self as int
    }

    open spec fn min_int() -> int {
        u64::MIN as int
    }

    open spec fn max_int() -> int {
        u64::MAX as int
    }

    proof fn lemma_layout(x: Self, y: Self) {
        lemma2_to64();
    }

    fn from_u8(v: u8) -> (r: Self) {
        proof {
            lemma2_to64();
            lemma_mod_window(v as int, 0x1_0000_0000_0000_0000);
        }
        v as u64
    }

    fn from_unsigned(v: u64) -> (r: Self) {
        proof {
            lemma2_to64();
            lemma_mod_window(v as int, 0x1_0000_0000_0000_0000);
        }
        v
    }

    fn to_unsigned(&self) -> (r: u64) {
        proof {
            lemma2_to64();
            lemma_mod_window(*self as int, 0x1_0000_0000_0000_0000);
        }
        *self
    }

    fn fls(&self) -> (r: u8) {
        fls_u128(self.to_unsigned() as u128)
    }
}

impl BaseOps for i64 {
    type U = u64;

    const NUMBITS: u8 = 64;
    const MINVAL: i64 = i64::MIN;
    const MAXVAL: i64 = i64::MAX;

    open spec fn int_value(&self) -> int {
        *self as int
    }

    open spec fn min_int() -> int {
        i64::MIN as int
    }

    open spec fn max_int() -> int {
        i64::MAX as int
    }

    proof fn lemma_layout(x: Self, y: Self) {
        lemma2_to64();
    }

    fn from_u8(v: u8) -> (r: Self) {
        proof {
            lemma2_to64();
            lemma_mod_window(v - i64::MIN, 0x1_0000_0000_0000_0000);
        }
        0i64.wrapping_add_unsigned(v as u64)
    }

    fn from_unsigned(v: u64) -> (r: Self) {
        proof {
            lemma2_to64();
            lemma_mod_window(v - i64::MIN, 0x1_0000_0000_0000_0000);
        }
        0i64.wrapping_add_unsigned(v)
    }

    fn to_unsigned(&self) -> (r: u64) {
        proof {
            lemma2_to64();
            lemma_mod_window(*self as int, 0x1_0000_0000_0000_0000);
        }
        0u64.wrapping_add_signed(*self)
    }

    fn fls(&self) -> (r: u8) {
        fls_u128(self.to_unsigned() as u128)
    }
}

impl UnsignedOps for u128 {
    open spec fn width() -> nat {
        128
    }

    open spec fn nat_value(&self) -> nat {
        *self as nat
    }

    proof fn lemma_unsigned_layout(x: Self, y: Self) {
        lemma_pow2_128();
    }

    fn zero() -> (r: Self) {
        0
    }

    fn push_bit(self, bit: u8) -> (r: Self) {
        proof {
            lemma_pow2_128();
            lemma_mod_window(2 * self + bit, u128::MAX + 1);
        }
        self.wrapping_add(self) + bit as u128
    }

    fn add_wrapped(self, other: Self) -> (r: Self) {
        proof {
            lemma_pow2_128();
            lemma_mod_window(self + other, u128::MAX + 1);
        }
        self.wrapping_add(other)
    }

    fn sub_wrapped(self, other: Self) -> (r: Self) {
        proof {
            lemma_pow2_128();
            lemma_mod_window(self - other, u128::MAX + 1);
        }
        self.wrapping_sub(other)
    }

    fn at_most(&self, other: &Self) -> (r: bool) {
        *self <= *other
    }
}

impl BaseOps for u128 {
    type U = u128;

    const NUMBITS: u8 = 128;
    const MINVAL: u128 = u128::MIN;
    const MAXVAL: u128 = u128::MAX;

    open spec fn int_value(&self) -> int {
        *self as int
    }

    open spec fn min_int() -> int {
        u128::MIN as int
    }

    open spec fn max_int() -> int {
        u128::MAX as int
    }

    proof fn lemma_layout(x: Self, y: Self) {
        lemma_pow2_128();
    }

    fn from_u8(v: u8) -> (r: Self) {
        proof {
            lemma_pow2_128();
            lemma_mod_window(v as int, u128::MAX + 1);
        }
        v as u128
    }

    fn from_unsigned(v: u128) -> (r: Self) {
        proof {
            lemma_pow2_128();
            lemma_mod_window(v as int, u128::MAX + 1);
        }
        v
    }

    fn to_unsigned(&self) -> (r: u128) {
        proof {
            lemma_pow2_128();
            lemma_mod_window(*self as int, u128::MAX + 1);
        }
        *self
    }

    fn fls(&self) -> (r: u8) {
        fls_u128(self.to_unsigned() as u128)
    }
}

impl BaseOps for i128 {
    type U = u128;

    const NUMBITS: u8 = 128;
    const MINVAL: i128 = i128::MIN;
    const MAXVAL: i128 = i128::MAX;

    open spec fn int_value(&self) -> int {
        *self as int
    }

    open spec fn min_int() -> int {
        i128::MIN as int
    }

    open spec fn max_int() -> int {
        i128::MAX as int
    }

    proof fn lemma_layout(x: Self, y: Self) {
        lemma_pow2_128();
    }

    fn from_u8(v: u8) -> (r: Self) {
        proof {
            lemma_pow2_128();
            lemma_mod_window(v - i128::MIN, u128::MAX + 1);
        }
        0i128.wrapping_add_unsigned(v as u128)
    }

    fn from_unsigned(v: u128) -> (r: Self) {
        proof {
            lemma_pow2_128();
            lemma_mod_window(v - i128::MIN, u128::MAX + 1);
        }
        0i128.wrapping_add_unsigned(v)
    }

    fn to_unsigned(&self) -> (r: u128) {
        proof {
            lemma_pow2_128();
            lemma_mod_window(*self as int, u128::MAX + 1);
        }
        0u128.wrapping_add_signed(*self)
    }

    fn fls(&self) -> (r: u8) {
        fls_u128(self.to_unsigned() as u128)
    }
}

impl UnsignedOps for usize {
    open spec fn width() -> nat {
        usize::BITS as nat
    }

    open spec fn nat_value(&self) -> nat {
        *self as nat
    }

    proof fn lemma_unsigned_layout(x: Self, y: Self) {
        lemma_pow2_usize();
    }

    fn zero() -> (r: Self) {
        0
    }

    fn push_bit(self, bit: u8) -> (r: Self) {
        proof {
            lemma_pow2_usize();
            lemma_mod_window(2 * self + bit, usize::MAX + 1);
        }
        self.wrapping_add(self) + bit as usize
    }

    fn add_wrapped(self, other: Self) -> (r: Self) {
        proof {
            lemma_pow2_usize();
            lemma_mod_window(self + other, usize::MAX + 1);
        }
        self.wrapping_add(other)
    }

    fn sub_wrapped(self, other: Self) -> (r: Self) {
        proof {
            lemma_pow2_usize();
            lemma_mod_window(self - other, usize::MAX + 1);
        }
        self.wrapping_sub(other)
    }

    fn at_most(&self, other: &Self) -> (r: bool) {
        *self <= *other
    }
}

impl BaseOps for usize {
    type U = usize;

    const NUMBITS: u8 = usize::BITS as u8;
    const MINVAL: usize = usize::MIN;
    const MAXVAL: usize = usize::MAX;

    open spec fn int_value(&self) -> int {
        *self as int
    }

    open spec fn min_int() -> int {
        usize::MIN as int
    }

    open spec fn max_int() -> int {
        usize::MAX as int
    }

    proof fn lemma_layout(x: Self, y: Self) {
        lemma_pow2_usize();
    }

    fn from_u8(v: u8) -> (r: Self) {
        proof {
            lemma_pow2_usize();
            lemma_mod_window(v as int, usize::MAX + 1);
        }
        v as usize
    }

    fn from_unsigned(v: usize) -> (r: Self) {
        proof {
            lemma_pow2_usize();
            lemma_mod_window(v as int, usize::MAX + 1);
        }
        v
    }

    fn to_unsigned(&self) -> (r: usize) {
        proof {
            lemma_pow2_usize();
            lemma_mod_window(*self as int, usize::MAX + 1);
        }
        *self
    }

    fn fls(&self) -> (r: u8) {
        fls_u128(self.to_unsigned() as u128)
    }
}

impl BaseOps for isize {
    type U = usize;

    const NUMBITS: u8 = usize::BITS as u8;
    const MINVAL: isize = isize::MIN;
    const MAXVAL: isize = isize::MAX;

    open spec fn int_value(&self) -> int {
        *self as int
    }

    open spec fn min_int() -> int {
        isize::MIN as int
    }

    open spec fn max_int() -> int {
        isize::MAX as int
    }

    proof fn lemma_layout(x: Self, y: Self) {
        lemma_pow2_usize();
    }

    fn from_u8(v: u8) -> (r: Self) {
        proof {
            lemma_pow2_usize();
            lemma_mod_window(v - isize::MIN, usize::MAX + 1);
        }
        0isize.wrapping_add_unsigned(v as usize)
    }

    fn from_unsigned(v: usize) -> (r: Self) {
        proof {
            lemma_pow2_usize();
            lemma_mod_window(v - isize::MIN, usize::MAX + 1);
        }
        0isize.wrapping_add_unsigned(v)
    }

    fn to_unsigned(&self) -> (r: usize) {
        proof {
            lemma_pow2_usize();
            lemma_mod_window(*self as int, usize::MAX + 1);
        }
        0usize.wrapping_add_signed(*self)
    }

    fn fls(&self) -> (r: u8) {
        fls_u128(self.to_unsigned() as u128)
    }
}

} // verus!
