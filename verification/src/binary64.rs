//! Coordinates as IEEE 754 binary64 bit patterns, with the comparisons that the
//! geometry rules need.
//!
//! A coordinate is carried as the 64 bits of its binary64 encoding: one sign bit,
//! eleven exponent bits and fifty-two fraction bits. Every finite binary64 number
//! is a whole multiple of 2^-1074, so its value is modelled exactly by the integer
//! [`Binary64::scaled`], the value multiplied by 2^1074. Comparisons are stated
//! over that integer and computed on the bits.
use vstd::arithmetic::mul::*;
use vstd::arithmetic::power2::*;
use vstd::prelude::*;

verus! {

/// The sign bit of a binary64 pattern.
pub const SIGN_BIT: u64 = 0x8000_0000_0000_0000;

/// The lowest exponent bit of a binary64 pattern, 2^52.
pub const EXPONENT_UNIT: u64 = 0x0010_0000_0000_0000;

/// The pattern of positive infinity: all exponent bits set, no fraction bit.
pub const INFINITY_BITS: u64 = 0x7ff0_0000_0000_0000;

/// The pattern of -0.5.
pub const NEG_HALF_BITS: u64 = 0xbfe0_0000_0000_0000;

/// The greatest `k` for which 2^k is a finite binary64 number.
pub const MAX_POWER: u32 = 1023;

/// The magnitude, times 2^1074, of the pattern whose bits below the sign are `m`.
///
/// With exponent field `e = m / 2^52` and fraction `f = m % 2^52` this is `f` for
/// a subnormal (`e == 0`) and `(2^52 + f) * 2^(e - 1)` otherwise. For the
/// infinity pattern it is 2^2098, above every finite magnitude.
pub open spec fn magnitude_of(m: int) -> int {
    let e = m / 0x0010_0000_0000_0000;
    let f = m % 0x0010_0000_0000_0000;
    if e == 0 {
        f
    } else {
        (0x0010_0000_0000_0000 + f) * pow2((e - 1) as nat)
    }
}

/// The magnitude grows strictly with the bits below the sign.
pub proof fn lemma_magnitude_increases(m1: int, m2: int)
    requires
        0 <= m1 < m2,
    ensures
        0 <= magnitude_of(m1) < magnitude_of(m2),
{
    let unit = 0x0010_0000_0000_0000int;
    let e1 = m1 / unit;
    let f1 = m1 % unit;
    let e2 = m2 / unit;
    let f2 = m2 % unit;
    assert(m1 == e1 * unit + f1 && m2 == e2 * unit + f2);
    assert(0 <= e1 <= e2);
    if e1 > 0 {
        lemma_pow2_pos((e1 - 1) as nat);
        lemma_mul_inequality(0, unit + f1, pow2((e1 - 1) as nat) as int);
    }
    if e1 == e2 {
        assert(f1 < f2);
        if e1 > 0 {
            lemma_mul_strict_inequality(unit + f1, unit + f2, pow2((e1 - 1) as nat) as int);
        }
    } else {
        let step_high = pow2((e2 - 1) as nat) as int;
        lemma_pow2_pos((e2 - 1) as nat);
        // magnitude_of(m2) is at least 2^52 * 2^(e2 - 1)
        lemma_mul_inequality(unit, unit + f2, step_high);
        if e1 == 0 {
            lemma_mul_inequality(1, step_high, unit);
            lemma_mul_is_commutative(unit, step_high);
        } else {
            let step_low = pow2((e1 - 1) as nat) as int;
            // magnitude_of(m1) is below 2^53 * 2^(e1 - 1) = 2^52 * 2^e1
            lemma_mul_strict_inequality(unit + f1, 2 * unit, step_low);
            lemma_pow2_unfold(e1 as nat);
            assert((2 * unit) * step_low == unit * (2 * step_low)) by (nonlinear_arith);
            if e1 < e2 - 1 {
                lemma_pow2_strictly_increases(e1 as nat, (e2 - 1) as nat);
            }
            lemma_mul_inequality(pow2(e1 as nat) as int, step_high, unit);
            lemma_mul_is_commutative(unit, step_high);
            lemma_mul_is_commutative(unit, pow2(e1 as nat) as int);
        }
    }
}

/// An IEEE 754 binary64 number, held as its bit pattern.
///
/// The derived `==` compares patterns: it tells `-0` from `+0` and finds a NaN
/// equal to itself. The numeric comparisons are [`Binary64::lt`],
/// [`Binary64::gt`] and [`Binary64::le`].
#[derive(Clone, Copy, Debug, PartialEq, Eq)]
pub struct Binary64 {
    pub bits: u64,
}

impl Binary64 {
    /// Whether the sign bit is set.
    pub open spec fn is_negative(self) -> bool {
        self.bits >= SIGN_BIT
    }

    /// The bits below the sign: exponent field and fraction.
    pub open spec fn magnitude_bits(self) -> int {
        if self.is_negative() {
            self.bits - SIGN_BIT
        } else {
            self.bits as int
        }
    }

    /// Not a number: all exponent bits set and some fraction bit.
    pub open spec fn is_nan(self) -> bool {
        self.magnitude_bits() > INFINITY_BITS
    }

    /// Positive or negative infinity.
    pub open spec fn is_infinite(self) -> bool {
        self.magnitude_bits() == INFINITY_BITS
    }

    /// The value times 2^1074, for a pattern that is a number. An infinity counts
    /// as plus or minus 2^2098, beyond every finite value.
    pub open spec fn scaled(self) -> int {
        if self.is_negative() {
            -magnitude_of(self.magnitude_bits())
        } else {
            magnitude_of(self.magnitude_bits())
        }
    }

    /// `self < other` as binary64 numbers: false where either is NaN.
    pub open spec fn is_lt(self, other: Binary64) -> bool {
        !self.is_nan() && !other.is_nan() && self.scaled() < other.scaled()
    }

    /// `self <= other` as binary64 numbers: false where either is NaN.
    pub open spec fn is_le(self, other: Binary64) -> bool {
        !self.is_nan() && !other.is_nan() && self.scaled() <= other.scaled()
    }

    /// Whether the difference `self - other` is a number that is zero or below.
    ///
    /// The difference of two numbers is zero only where they are equal, and has
    /// the sign of the comparison otherwise. Equal infinities have no difference.
    pub open spec fn difference_is_le_zero(self, other: Binary64) -> bool {
        self.is_le(other) && !(self.is_infinite() && self.bits == other.bits)
    }

    /// The number with the given pattern.
    pub fn from_bits(bits: u64) -> (r: Binary64)
        ensures
            r.bits == bits,
    {
        Binary64 { bits }
    }

    /// The pattern of the number.
    pub fn to_bits(&self) -> (bits: u64)
        ensures
            bits == self.bits,
    {
        self.bits
    }

    /// Zero, with the sign bit clear.
    pub fn zero() -> (r: Binary64)
        ensures
            r.bits == 0,
            !r.is_nan(),
            r.scaled() == 0,
    {
        Binary64 { bits: 0 }
    }

    /// The number -0.5.
    pub fn neg_half() -> (r: Binary64)
        ensures
            r.bits == NEG_HALF_BITS,
            !r.is_nan(),
            r.scaled() == -pow2(1073),
    {
        proof {
            lemma2_to64_rest();
            lemma_pow2_adds(52, 1021);
        }
        Binary64 { bits: NEG_HALF_BITS }
    }

    /// The number 2^k.
    pub fn power_of_two(k: u32) -> (r: Binary64)
        requires
            k <= MAX_POWER,
        ensures
            r.bits == (1023 + k) * EXPONENT_UNIT,
            !r.is_nan(),
            !r.is_negative(),
            r.scaled() == pow2((1074 + k) as nat),
    {
        let field: u64 = 1023 + k as u64;
        let bits: u64 = field * EXPONENT_UNIT;
        proof {
            lemma2_to64_rest();
            lemma_pow2_adds(52, (1022 + k) as nat);
            assert(bits as int / 0x0010_0000_0000_0000 == field);
            assert(bits as int % 0x0010_0000_0000_0000 == 0);
        }
        Binary64 { bits }
    }

    fn magnitude(&self) -> (m: u64)
        ensures
            m == self.magnitude_bits(),
            m < SIGN_BIT,
    {
        if self.bits >= SIGN_BIT {
            self.bits - SIGN_BIT
        } else {
            self.bits
        }
    }

    /// Whether the pattern is a NaN.
    pub fn nan(&self) -> (r: bool)
        ensures
            r == self.is_nan(),
    {
        self.magnitude() > INFINITY_BITS
    }

    /// Whether the pattern is an infinity.
    pub fn infinite(&self) -> (r: bool)
        ensures
            r == self.is_infinite(),
    {
        self.magnitude() == INFINITY_BITS
    }

    /// `self < other` as numbers.
    pub fn lt(&self, other: &Binary64) -> (r: bool)
        ensures
            r == self.is_lt(*other),
    {
        if self.nan() || other.nan() {
            return false;
        }
        let a: u64 = self.magnitude();
        let b: u64 = other.magnitude();
        proof {
            lemma_magnitude_order(a as int, b as int);
        }
        let a_negative = self.bits >= SIGN_BIT;
        let b_negative = other.bits >= SIGN_BIT;
        if a_negative {
            if b_negative {
                b < a
            } else {
                a != 0 || b != 0
            }
        } else {
            !b_negative && a < b
        }
    }

    /// `self > other` as numbers.
    pub fn gt(&self, other: &Binary64) -> (r: bool)
        ensures
            r == other.is_lt(*self),
    {
        other.lt(self)
    }

    /// `self <= other` as numbers.
    pub fn le(&self, other: &Binary64) -> (r: bool)
        ensures
            r == self.is_le(*other),
    {
        if self.nan() || other.nan() {
            return false;
        }
        !other.lt(self)
    }

    /// Whether `self - other` is a number that is zero or below.
    pub fn difference_le_zero(&self, other: &Binary64) -> (r: bool)
        ensures
            r == self.difference_is_le_zero(*other),
    {
        if self.infinite() && self.bits == other.bits {
            return false;
        }
        self.le(other)
    }
}

/// The magnitudes of two patterns compare as their bits below the sign do, and
/// only the zero pattern has magnitude zero.
pub proof fn lemma_magnitude_order(m1: int, m2: int)
    requires
        0 <= m1,
        0 <= m2,
    ensures
        m1 < m2 <==> magnitude_of(m1) < magnitude_of(m2),
        m1 == m2 <==> magnitude_of(m1) == magnitude_of(m2),
        0 <= magnitude_of(m1),
        m1 == 0 <==> magnitude_of(m1) == 0,
{
    if m1 < m2 {
        lemma_magnitude_increases(m1, m2);
    }
    if m2 < m1 {
        lemma_magnitude_increases(m2, m1);
    }
    if 0 < m1 {
        lemma_magnitude_increases(0, m1);
    }
    assert(magnitude_of(0) == 0);
}

/// The comparisons order the numbers as their values do. Nothing is below
/// itself; below is transitive and one-sided; at most means below or equal in
/// value; two numbers are ordered or equal in value; and two patterns hold the
/// same value only where they are the same pattern or both a zero.
pub proof fn lemma_order(a: Binary64, b: Binary64, c: Binary64)
    ensures
        !a.is_lt(a),
        a.is_lt(b) && b.is_lt(c) ==> a.is_lt(c),
        a.is_lt(b) ==> !b.is_lt(a),
        a.is_le(b) <==> a.is_lt(b) || (!a.is_nan() && !b.is_nan() && a.scaled() == b.scaled()),
        !a.is_nan() && !b.is_nan() ==> a.is_lt(b) || b.is_lt(a) || a.scaled() == b.scaled(),
        a.scaled() == b.scaled() <==> a.bits == b.bits || (a.magnitude_bits() == 0
            && b.magnitude_bits() == 0),
{
    lemma_magnitude_order(a.magnitude_bits(), b.magnitude_bits());
    lemma_magnitude_order(b.magnitude_bits(), a.magnitude_bits());
}

} // verus!
