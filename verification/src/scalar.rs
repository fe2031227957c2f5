//! Single-precision numbers as the renderer's decisions see them.
//!
//! The arithmetic of a ray tracer is done in IEEE-754 binary32 by the
//! surrounding program. What the tracer decides from those numbers (which hit
//! is nearer, whether a slab interval is empty, on which side of a surface a
//! ray travels) depends only on how the numbers are ordered, and that order can
//! be read off the bit pattern. A `Scalar` is such a bit pattern, and this
//! module gives it the operations of binary32 that are exact and need no
//! rounding: comparison, the choice of the smaller or larger of two numbers,
//! the change of sign, and the cast to an unsigned integer.
//!
//! Two views of a `Scalar` serve the contracts. Its `rank` is an integer that
//! orders the patterns as binary32 orders the numbers. Its `scaled` value is
//! the number itself, in units of the smallest positive binary32 number;
//! `lemma_rank_orders_values` shows that the two agree.
use vstd::arithmetic::div_mod::{
    lemma_basic_div, lemma_div_denominator, lemma_div_multiples_vanish,
};
use vstd::arithmetic::power2::{
    lemma2_to64, lemma_pow2_adds, lemma_pow2_pos, lemma_pow2_strictly_increases, pow2,
};
use vstd::bits::{lemma_u64_shl_is_mul, lemma_u64_shr_is_div};
use vstd::prelude::*;

verus! {

/// The sign bit of a binary32 pattern.
pub const SIGN_BIT: u32 = 0x8000_0000;

/// The pattern of positive infinity; every larger magnitude is a NaN.
pub const INFINITY_BITS: u32 = 0x7f80_0000;

/// The number of patterns that share one exponent: two to the power of 23,
/// the width of the mantissa.
pub const MANTISSA_SPAN: u32 = 0x80_0000;

/// The exponent field of the numbers from one up to, not including, two.
pub const EXPONENT_BIAS: u32 = 127;

/// The pattern of the number one.
pub const ONE_BITS: u32 = 0x3f80_0000;

/// A binary32 number, held by its bit pattern. Two scalars are `==` when
/// their patterns are the same, which is finer than equality of numbers: the
/// two zeros differ, and a NaN equals itself.
#[derive(Clone, Copy, Debug, PartialEq, Eq, Structural)]
pub struct Scalar {
    pub bits: u32,
}

impl Scalar {
    /// The pattern without its sign bit.
    pub open spec fn magnitude(self) -> int {
        if self.bits >= SIGN_BIT {
            self.bits - SIGN_BIT
        } else {
            self.bits as int
        }
    }

    /// Whether the sign bit is set (true of negative zero and of some NaNs too).
    pub open spec fn sign_negative(self) -> bool {
        self.bits >= SIGN_BIT
    }

    /// Whether the pattern stands for no number.
    pub open spec fn spec_is_nan(self) -> bool {
        self.magnitude() > INFINITY_BITS
    }

    /// The place of a number in the numeric order: `a < b` as numbers exactly
    /// when `a.rank() < b.rank()`. Both zeros have rank 0, the infinities are
    /// the two ends. Meaningless for a NaN.
    pub open spec fn rank(self) -> int {
        if self.sign_negative() {
            -self.magnitude()
        } else {
            self.magnitude()
        }
    }

    /// Whether the pattern stands for a number that is neither a NaN nor an
    /// infinity.
    pub open spec fn is_finite(self) -> bool {
        self.magnitude() < INFINITY_BITS
    }

    /// The exponent field of the pattern.
    pub open spec fn exponent_field(self) -> int {
        self.magnitude() / (MANTISSA_SPAN as int)
    }

    /// The mantissa field of the pattern.
    pub open spec fn mantissa_field(self) -> int {
        self.magnitude() % (MANTISSA_SPAN as int)
    }

    /// The absolute value of a finite number, in units of two to the power
    /// of -149, the smallest positive binary32 number. Every finite binary32
    /// number is a whole multiple of that unit.
    pub open spec fn scaled_magnitude(self) -> int {
        if self.exponent_field() == 0 {
            self.mantissa_field()
        } else {
            (MANTISSA_SPAN + self.mantissa_field()) * pow2((self.exponent_field() - 1) as nat)
        }
    }

    /// The value of a finite number, in units of two to the power of -149.
    pub open spec fn scaled(self) -> int {
        if self.sign_negative() {
            -self.scaled_magnitude()
        } else {
            self.scaled_magnitude()
        }
    }

    /// The number as an unsigned integer, as a cast gives it: the fraction
    /// is dropped, what lies below zero becomes zero and what lies above the
    /// integers of 32 bits becomes the greatest of them. A NaN becomes zero.
    pub open spec fn spec_to_u32(self) -> u32 {
        if self.spec_is_nan() || self.sign_negative() {
            0
        } else if !self.is_finite() || self.scaled() / (pow2(149) as int) > u32::MAX {
            u32::MAX
        } else {
            (self.scaled() / (pow2(149) as int)) as u32
        }
    }

    /// The number as an integer of eight bits, as a cast gives it: as
    /// `to_u32`, with 255 for all that lies above.
    pub open spec fn spec_to_u8(self) -> u8 {
        if self.spec_to_u32() > u8::MAX {
            u8::MAX
        } else {
            self.spec_to_u32() as u8
        }
    }

    /// `self < other` as binary32 compares: false as soon as either is a NaN.
    pub open spec fn spec_lt(self, other: Scalar) -> bool {
        !self.spec_is_nan() && !other.spec_is_nan() && self.rank() < other.rank()
    }

    /// `self > other` as binary32 compares: false as soon as either is a NaN.
    pub open spec fn spec_gt(self, other: Scalar) -> bool {
        other.spec_lt(self)
    }

    /// The smaller of two numbers, a NaN giving way to the other operand.
    /// Of two equal numbers (the two zeros) it is `self`.
    pub open spec fn spec_min(self, other: Scalar) -> Scalar {
        if self.spec_is_nan() {
            other
        } else if other.spec_lt(self) {
            other
        } else {
            self
        }
    }

    /// The larger of two numbers, a NaN giving way to the other operand.
    /// Of two equal numbers (the two zeros) it is `self`.
    pub open spec fn spec_max(self, other: Scalar) -> Scalar {
        if self.spec_is_nan() {
            other
        } else if other.spec_gt(self) {
            other
        } else {
            self
        }
    }

    /// The number with its sign bit flipped.
    pub open spec fn spec_neg(self) -> Scalar {
        if self.bits >= SIGN_BIT {
            Scalar { bits: (self.bits - SIGN_BIT) as u32 }
        } else {
            Scalar { bits: (self.bits + SIGN_BIT) as u32 }
        }
    }

    /// The number with its sign bit cleared.
    pub open spec fn spec_abs(self) -> Scalar {
        Scalar { bits: self.magnitude() as u32 }
    }

    pub open spec fn spec_zero() -> Scalar {
        Scalar { bits: 0 }
    }

    pub open spec fn spec_one() -> Scalar {
        Scalar { bits: ONE_BITS }
    }

    pub open spec fn spec_infinity() -> Scalar {
        Scalar { bits: INFINITY_BITS }
    }

    pub fn from_bits(bits: u32) -> (s: Scalar)
        ensures
            s.bits == bits,
    {
        Scalar { bits }
    }

    pub fn to_bits(self) -> (bits: u32)
        ensures
            bits == self.bits,
    {
        self.bits
    }

    #[verifier::when_used_as_spec(spec_zero)]
    pub fn zero() -> (s: Scalar)
        ensures
            s == Scalar::spec_zero(),
    {
        Scalar { bits: 0 }
    }

    #[verifier::when_used_as_spec(spec_one)]
    pub fn one() -> (s: Scalar)
        ensures
            s == Scalar::spec_one(),
    {
        Scalar { bits: ONE_BITS }
    }

    #[verifier::when_used_as_spec(spec_infinity)]
    pub fn infinity() -> (s: Scalar)
        ensures
            s == Scalar::spec_infinity(),
    {
        Scalar { bits: INFINITY_BITS }
    }

    fn magnitude_bits(self) -> (m: u32)
        ensures
            m == self.magnitude(),
    {
        if self.bits >= SIGN_BIT {
            self.bits - SIGN_BIT
        } else {
            self.bits
        }
    }

    #[verifier::when_used_as_spec(spec_is_nan)]
    pub fn is_nan(self) -> (b: bool)
        ensures
            b == self.spec_is_nan(),
    {
        self.magnitude_bits() > INFINITY_BITS
    }

    #[verifier::when_used_as_spec(spec_lt)]
    pub fn lt(self, other: Scalar) -> (b: bool)
        ensures
            b == self.spec_lt(other),
    {
        if self.is_nan() || other.is_nan() {
            return false;
        }
        let a: u32 = self.magnitude_bits();
        let b: u32 = other.magnitude_bits();
        if self.bits >= SIGN_BIT {
            if other.bits >= SIGN_BIT {
                b < a
            } else {
                a > 0 || b > 0
            }
        } else {
            if other.bits >= SIGN_BIT {
                false
            } else {
                a < b
            }
        }
    }

    #[verifier::when_used_as_spec(spec_gt)]
    pub fn gt(self, other: Scalar) -> (b: bool)
        ensures
            b == self.spec_gt(other),
    {
        other.lt(self)
    }

    #[verifier::when_used_as_spec(spec_min)]
    pub fn min(self, other: Scalar) -> (m: Scalar)
        ensures
            m == self.spec_min(other),
    {
        if self.is_nan() {
            other
        } else if other.lt(self) {
            other
        } else {
            self
        }
    }

    #[verifier::when_used_as_spec(spec_max)]
    pub fn max(self, other: Scalar) -> (m: Scalar)
        ensures
            m == self.spec_max(other),
    {
        if self.is_nan() {
            other
        } else if other.gt(self) {
            other
        } else {
            self
        }
    }

    #[verifier::when_used_as_spec(spec_neg)]
    pub fn neg(self) -> (n: Scalar)
        ensures
            n == self.spec_neg(),
    {
        if self.bits >= SIGN_BIT {
            Scalar { bits: self.bits - SIGN_BIT }
        } else {
            Scalar { bits: self.bits + SIGN_BIT }
        }
    }

    #[verifier::when_used_as_spec(spec_abs)]
    pub fn abs(self) -> (a: Scalar)
        ensures
            a == self.spec_abs(),
    {
        Scalar { bits: self.magnitude_bits() }
    }

    #[verifier::when_used_as_spec(spec_to_u32)]
    pub fn to_u32(self) -> (n: u32)
        ensures
            n == self.spec_to_u32(),
    {
        if self.is_nan() || self.bits >= SIGN_BIT {
            return 0;
        }
        let exponent: u32 = self.bits / MANTISSA_SPAN;
        let mantissa: u32 = self.bits % MANTISSA_SPAN;
        let significand: u64 = (MANTISSA_SPAN + mantissa) as u64;
        proof {
            lemma_whole_part(self);
        }
        if exponent < EXPONENT_BIAS {
            0
        } else if exponent >= EXPONENT_BIAS + 32 {
            u32::MAX
        } else if exponent >= EXPONENT_BIAS + 23 {
            let shift: u64 = (exponent - (EXPONENT_BIAS + 23)) as u64;
            proof {
                let p = pow2(shift as nat) as int;
                lemma2_to64();
                lemma_pow2_pos(shift as nat);
                if shift < 8 {
                    lemma_pow2_strictly_increases(shift as nat, 8);
                }
                assert(significand * p <= 0xff_ffff * 0x100) by (nonlinear_arith)
                    requires
                        0 <= significand <= 0xff_ffff,
                        0 < p <= 0x100,
                ;
                lemma_u64_shl_is_mul(significand, shift);
            }
            (significand << shift) as u32
        } else {
            let shift: u64 = ((EXPONENT_BIAS + 23) - exponent) as u64;
            proof {
                let p = pow2(shift as nat) as int;
                lemma_pow2_pos(shift as nat);
                lemma_u64_shr_is_div(significand, shift);
                assert(0 <= significand as int / p <= significand) by (nonlinear_arith)
                    requires
                        0 <= significand,
                        0 < p,
                ;
            }
            (significand >> shift) as u32
        }
    }

    #[verifier::when_used_as_spec(spec_to_u8)]
    pub fn to_u8(self) -> (n: u8)
        ensures
            n == self.spec_to_u8(),
    {
        let wide: u32 = self.to_u32();
        if wide > 255 {
            255
        } else {
            wide as u8
        }
    }
}

/// The whole part of a finite number that is not negative, by its exponent
/// field: below the bias the number is less than one; from 32 above the bias
/// on it exceeds every integer of 32 bits; in between its significand is
/// shifted by the distance of the exponent from the width of the mantissa.
proof fn lemma_whole_part(a: Scalar)
    requires
        !a.spec_is_nan(),
    ensures
        a.exponent_field() < EXPONENT_BIAS ==> a.scaled_magnitude() / (pow2(149) as int) == 0,
        EXPONENT_BIAS + 32 <= a.exponent_field() && a.is_finite() ==> a.scaled_magnitude() / (pow2(
            149,
        ) as int) > u32::MAX,
        EXPONENT_BIAS + 23 <= a.exponent_field() < EXPONENT_BIAS + 32 ==> a.scaled_magnitude() / (
        pow2(149) as int) == (MANTISSA_SPAN + a.mantissa_field()) * pow2(
            (a.exponent_field() - 150) as nat,
        ),
        EXPONENT_BIAS <= a.exponent_field() < EXPONENT_BIAS + 23 ==> a.scaled_magnitude() / (pow2(
            149,
        ) as int) == (MANTISSA_SPAN + a.mantissa_field()) / (pow2(
            (150 - a.exponent_field()) as nat,
        ) as int),
{
    let e = a.exponent_field();
    let sig = MANTISSA_SPAN + a.mantissa_field();
    let unit = pow2(149) as int;
    lemma2_to64();
    lemma_pow2_pos(149);
    if e == 0 {
        lemma_pow2_strictly_increases(23, 149);
        lemma_basic_div(a.scaled_magnitude(), unit);
    } else if e < EXPONENT_BIAS {
        let p = pow2((e - 1) as nat) as int;
        lemma_pow2_adds(24, (e - 1) as nat);
        if e + 23 < 149 {
            lemma_pow2_strictly_increases((e + 23) as nat, 149);
        }
        lemma_pow2_pos((e - 1) as nat);
        assert(sig * p < 0x100_0000 * p) by (nonlinear_arith)
            requires
                0 <= sig < 0x100_0000,
                p > 0,
        ;
        assert(a.scaled_magnitude() < unit);
        assert(a.scaled_magnitude() >= 0) by (nonlinear_arith)
            requires
                a.scaled_magnitude() == sig * p,
                sig >= 0,
                p >= 0,
        ;
        lemma_basic_div(a.scaled_magnitude(), unit);
    } else if e >= EXPONENT_BIAS + 23 {
        let q = pow2((e - 150) as nat) as int;
        lemma_pow2_adds((e - 150) as nat, 149);
        lemma_pow2_pos((e - 150) as nat);
        assert(a.scaled_magnitude() == unit * (sig * q)) by (nonlinear_arith)
            requires
                a.scaled_magnitude() == sig * (q * unit),
        ;
        lemma_div_multiples_vanish(sig * q, unit);
        if e >= EXPONENT_BIAS + 32 {
            if e > 159 {
                lemma_pow2_strictly_increases(9, (e - 150) as nat);
            }
            assert(sig * q >= 0x80_0000 * 0x200) by (nonlinear_arith)
                requires
                    sig >= 0x80_0000,
                    q >= 0x200,
            ;
        }
    } else {
        let p = pow2((e - 1) as nat) as int;
        let q = pow2((150 - e) as nat) as int;
        lemma_pow2_adds((e - 1) as nat, (150 - e) as nat);
        lemma_pow2_pos((e - 1) as nat);
        lemma_pow2_pos((150 - e) as nat);
        assert(unit == p * q);
        lemma_div_denominator(sig * p, p, q);
        assert(sig * p == p * sig) by (nonlinear_arith);
        lemma_div_multiples_vanish(sig, p);
    }
}

/// Among finite numbers, a greater magnitude of the pattern is a greater
/// absolute value.
pub proof fn lemma_scaled_magnitude_increases(a: Scalar, b: Scalar)
    requires
        a.is_finite(),
        b.is_finite(),
        a.magnitude() < b.magnitude(),
    ensures
        0 <= a.scaled_magnitude() < b.scaled_magnitude(),
{
    let span = MANTISSA_SPAN as int;
    let (ea, ma) = (a.exponent_field(), a.mantissa_field());
    let (eb, mb) = (b.exponent_field(), b.mantissa_field());
    assert(a.magnitude() == ea * span + ma && 0 <= ma < span);
    assert(b.magnitude() == eb * span + mb && 0 <= mb < span);
    assert(ea < eb || (ea == eb && ma < mb));
    if eb > 0 {
        let pb = pow2((eb - 1) as nat) as int;
        lemma_pow2_pos((eb - 1) as nat);
        if ea == 0 {
            assert((span + mb) * pb >= span) by (nonlinear_arith)
                requires
                    mb >= 0,
                    pb >= 1,
                    span >= 0,
            ;
        } else {
            let pa = pow2((ea - 1) as nat) as int;
            lemma_pow2_pos((ea - 1) as nat);
            if ea < eb {
                lemma_pow2_adds(1, (ea - 1) as nat);
                lemma2_to64();
                if ea < eb - 1 {
                    lemma_pow2_strictly_increases(ea as nat, (eb - 1) as nat);
                }
                assert(2 * pa <= pb);
                assert((span + ma) * pa < (span + mb) * pb) by (nonlinear_arith)
                    requires
                        0 <= ma < span,
                        0 <= mb,
                        0 < pa,
                        2 * pa <= pb,
                ;
            } else {
                assert((span + ma) * pa < (span + mb) * pb) by (nonlinear_arith)
                    requires
                        0 <= ma < mb,
                        0 < span,
                        pa == pb,
                        0 < pa,
                ;
            }
            assert((span + ma) * pa >= 0) by (nonlinear_arith)
                requires
                    0 <= ma,
                    0 < span,
                    0 < pa,
            ;
        }
    }
}

/// The rank orders finite numbers as their values do: one number is below
/// another exactly when its rank is, and they are equal as numbers exactly
/// when their ranks are.
pub proof fn lemma_rank_orders_values(a: Scalar, b: Scalar)
    requires
        a.is_finite(),
        b.is_finite(),
    ensures
        a.rank() < b.rank() <==> a.scaled() < b.scaled(),
        a.rank() == b.rank() <==> a.scaled() == b.scaled(),
        a.spec_lt(b) <==> a.scaled() < b.scaled(),
{
    let zero = Scalar { bits: 0 };
    assert(zero.scaled_magnitude() == 0);
    if a.magnitude() < b.magnitude() {
        lemma_scaled_magnitude_increases(a, b);
    } else if b.magnitude() < a.magnitude() {
        lemma_scaled_magnitude_increases(b, a);
    }
    if 0 < a.magnitude() {
        lemma_scaled_magnitude_increases(zero, a);
    }
    if 0 < b.magnitude() {
        lemma_scaled_magnitude_increases(zero, b);
    }
}

/// Negation mirrors the order: it keeps the magnitude and whether the number
/// is a NaN, and turns the rank around.
pub proof fn lemma_neg_mirrors(a: Scalar)
    ensures
        a.spec_neg().magnitude() == a.magnitude(),
        a.spec_neg().spec_is_nan() == a.spec_is_nan(),
        a.spec_neg().rank() == -a.rank(),
        a.spec_neg().spec_neg() == a,
{
}

/// The absolute value is never below zero, and is the number itself or its
/// negation.
pub proof fn lemma_abs_nonnegative(a: Scalar)
    ensures
        a.spec_abs().rank() == a.magnitude(),
        a.spec_abs().rank() >= 0,
        a.spec_abs().spec_is_nan() == a.spec_is_nan(),
        a.spec_abs() == a || a.spec_abs() == a.spec_neg(),
{
}

/// Among numbers that are not NaN, `<` is a strict total order up to the two
/// zeros: irreflexive, transitive, and of two numbers of different rank one
/// is below the other.
pub proof fn lemma_lt_strict_order(a: Scalar, b: Scalar, c: Scalar)
    ensures
        !a.spec_lt(a),
        a.spec_lt(b) && b.spec_lt(c) ==> a.spec_lt(c),
        a.spec_lt(b) ==> !b.spec_lt(a),
        !a.spec_is_nan() && !b.spec_is_nan() ==> (a.spec_lt(b) || b.spec_lt(a) || a.rank()
            == b.rank()),
{
}

/// `min` and `max` return one of their operands, never a NaN unless both
/// operands are, and bound both operands from below and from above.
pub proof fn lemma_min_max_select(a: Scalar, b: Scalar)
    ensures
        a.spec_min(b) == a || a.spec_min(b) == b,
        a.spec_max(b) == a || a.spec_max(b) == b,
        a.spec_min(b).spec_is_nan() == (a.spec_is_nan() && b.spec_is_nan()),
        a.spec_max(b).spec_is_nan() == (a.spec_is_nan() && b.spec_is_nan()),
        !a.spec_is_nan() && !b.spec_is_nan() ==> a.spec_min(b).rank() <= a.rank() && a.spec_min(
            b,
        ).rank() <= b.rank(),
        !a.spec_is_nan() && !b.spec_is_nan() ==> a.spec_max(b).rank() >= a.rank() && a.spec_max(
            b,
        ).rank() >= b.rank(),
{
}

} // verus!
