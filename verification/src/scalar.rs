//! Binary64 numbers as bit patterns, with the number each pattern denotes.

use vstd::prelude::*;
use vstd::std_specs::cmp::PartialEqSpecImpl;
use vstd::std_specs::ops::NegSpecImpl;
use vstd::arithmetic::div_mod::{
    lemma_basic_div, lemma_div_is_ordered, lemma_div_multiples_vanish,
    lemma_div_multiples_vanish_quotient,
};
use vstd::arithmetic::power2::{
    lemma2_to64, lemma2_to64_rest, lemma_pow2_adds, lemma_pow2_pos, lemma_pow2_strictly_increases,
    lemma_pow2_unfold, pow2,
};
use vstd::bits::lemma_u64_shr_is_div;

verus! {

/// The pattern whose only set bit is the sign bit.
pub const SIGN_BIT: u64 = 0x8000_0000_0000_0000;

/// The pattern of positive infinity: all exponent bits set, no fraction bit.
pub const INFINITY_BITS: u64 = 0x7ff0_0000_0000_0000;

/// Two to the power 52: the weight of the lowest exponent bit, and the
/// implicit leading bit of a normal significand.
pub const HIDDEN_BIT: u64 = 0x0010_0000_0000_0000;

/// A binary64 number, held as its pattern: from the top, one sign bit,
/// eleven exponent bits and fifty-two fraction bits.
#[derive(Clone, Copy, Debug)]
pub struct Scalar {
    pub bits: u64,
}

impl Scalar {
    /// The sign bit is set. This holds of negative zero and of half the NaNs too.
    pub open spec fn sign_negative(self) -> bool {
        self.bits >= SIGN_BIT
    }

    /// The pattern without its sign bit.
    pub open spec fn magnitude_bits(self) -> u64 {
        if self.bits >= SIGN_BIT {
            (self.bits - SIGN_BIT) as u64
        } else {
            self.bits
        }
    }

    /// The exponent field, from 0 to 2047.
    pub open spec fn exponent(self) -> u64 {
        self.magnitude_bits() / HIDDEN_BIT
    }

    /// The fraction field, below two to the power 52.
    pub open spec fn fraction(self) -> u64 {
        self.magnitude_bits() % HIDDEN_BIT
    }

    /// Not a number: the exponent field is full and the fraction is not zero.
    pub open spec fn nan(self) -> bool {
        self.magnitude_bits() > INFINITY_BITS
    }

    /// The significand as an integer: the fraction, with the implicit
    /// leading bit unless the exponent field is zero.
    pub open spec fn significand(self) -> nat {
        if self.exponent() == 0 {
            self.fraction() as nat
        } else {
            (HIDDEN_BIT + self.fraction()) as nat
        }
    }

    /// The power of two by which the significand is multiplied in
    /// `magnitude`.
    pub open spec fn scale(self) -> nat {
        if self.exponent() == 0 {
            0
        } else {
            (self.exponent() - 1) as nat
        }
    }

    /// The absolute value of the number, in units of two to the power
    /// -1074, the smallest positive binary64 number. An infinity is given
    /// the value that its pattern would have as a finite number, which is
    /// above every finite magnitude. Not meaningful for a NaN.
    pub open spec fn magnitude(self) -> nat {
        self.significand() * pow2(self.scale())
    }

    /// The number itself in units of two to the power -1074, with the
    /// infinities placed beyond all finite numbers. Both zeros give 0.
    pub open spec fn scaled(self) -> int {
        if self.sign_negative() {
            -(self.magnitude() as int)
        } else {
            self.magnitude() as int
        }
    }

    /// Less than, as binary64 numbers compare: false when either is a NaN.
    pub open spec fn lt_spec(self, other: Scalar) -> bool {
        !self.nan() && !other.nan() && self.scaled() < other.scaled()
    }

    /// Equal, as binary64 numbers compare: a NaN equals nothing, itself
    /// included, and the two zeros are equal.
    pub open spec fn eq_value(self, other: Scalar) -> bool {
        !self.nan() && !other.nan() && self.scaled() == other.scaled()
    }

    /// Strictly inside the open interval from `low` to `high`: above `low`
    /// and below `high`, equal to neither. A NaN is inside no interval, and
    /// no number is inside an interval with a NaN for a bound.
    pub open spec fn strictly_between(self, low: Scalar, high: Scalar) -> bool {
        low.lt_spec(self) && self.lt_spec(high)
    }

    /// The number itself where it is greater than zero, else positive zero:
    /// the greater of zero and the number, with zero for a NaN.
    pub open spec fn positive_part(self) -> Scalar {
        if (Scalar { bits: 0 }).lt_spec(self) {
            self
        } else {
            Scalar { bits: 0 }
        }
    }

    /// The whole part of the number, held to the range of a byte: 0 for a
    /// NaN and for every number below 1, negative ones included; 255 for
    /// every number of 255 or more, infinity included; else the number
    /// with its fractional part cut off.
    pub open spec fn truncated_u8(self) -> nat {
        if self.nan() || self.sign_negative() {
            0
        } else {
            let whole = self.magnitude() / pow2(1074);
            if whole > 255 {
                255
            } else {
                whole
            }
        }
    }

    /// The number with the sign bit flipped and every other bit kept.
    pub open spec fn negated(self) -> Scalar {
        Scalar {
            bits: if self.bits >= SIGN_BIT {
                (self.bits - SIGN_BIT) as u64
            } else {
                (self.bits + SIGN_BIT) as u64
            },
        }
    }

    /// The number with the given pattern.
    pub fn from_bits(bits: u64) -> (r: Scalar)
        ensures
            r.bits == bits,
    {
        Scalar { bits }
    }

    /// The pattern of the number.
    pub fn to_bits(self) -> (r: u64)
        ensures
            r == self.bits,
    {
        self.bits
    }

    /// The pattern without its sign bit.
    fn magnitude_field(self) -> (r: u64)
        ensures
            r == self.magnitude_bits(),
            r < SIGN_BIT,
    {
        if self.bits >= SIGN_BIT {
            self.bits - SIGN_BIT
        } else {
            self.bits
        }
    }

    /// Whether the number is a NaN.
    pub fn is_nan(self) -> (r: bool)
        ensures
            r == self.nan(),
    {
        self.magnitude_field() > INFINITY_BITS
    }

    /// Whether `self` is less than `other`.
    pub fn lt(self, other: Scalar) -> (r: bool)
        ensures
            r == self.lt_spec(other),
    {
        if self.is_nan() || other.is_nan() {
            return false;
        }
        let a: u64 = self.magnitude_field();
        let b: u64 = other.magnitude_field();
        proof {
            lemma_magnitude_order(self, other);
            lemma_magnitude_order(other, self);
        }
        if self.bits >= SIGN_BIT {
            if other.bits >= SIGN_BIT {
                b < a
            } else {
                a != 0 || b != 0
            }
        } else {
            if other.bits >= SIGN_BIT {
                false
            } else {
                a < b
            }
        }
    }

    /// Whether `self` lies strictly inside the open interval from `low` to
    /// `high`.
    pub fn is_strictly_between(self, low: Scalar, high: Scalar) -> (r: bool)
        ensures
            r == self.strictly_between(low, high),
    {
        low.lt(self) && self.lt(high)
    }

    /// The greater of positive zero and `self`; positive zero when `self`
    /// is a NaN or either zero.
    pub fn max_zero(self) -> (r: Scalar)
        ensures
            r == self.positive_part(),
            !r.nan(),
            !r.sign_negative(),
    {
        let zero = Scalar { bits: 0 };
        if zero.lt(self) {
            self
        } else {
            zero
        }
    }

    /// The number as a byte: cut off towards zero and held to the range
    /// from 0 to 255, with 0 for a NaN.
    pub fn to_u8(self) -> (r: u8)
        ensures
            r == self.truncated_u8(),
    {
        let mag: u64 = self.magnitude_field();
        if self.bits >= SIGN_BIT || mag > INFINITY_BITS {
            return 0;
        }
        let e: u64 = mag / HIDDEN_BIT;
        proof {
            lemma_whole_part(self);
        }
        if e < 1023 {
            return 0;
        }
        if e >= 1031 {
            return 255;
        }
        let sig: u64 = HIDDEN_BIT + mag % HIDDEN_BIT;
        let shift: u64 = 1075 - e;
        let whole: u64 = sig >> shift;
        proof {
            lemma_u64_shr_is_div(sig, shift);
            assert(sig >> shift < 256) by (bit_vector)
                requires
                    sig < 0x0020_0000_0000_0000,
                    45 <= shift <= 52,
            ;
        }
        whole as u8
    }
}

impl PartialEq for Scalar {
    /// Equality of the numbers, not of the patterns.
    fn eq(&self, other: &Scalar) -> (r: bool) {
        if self.is_nan() || other.is_nan() {
            return false;
        }
        let a: u64 = self.magnitude_field();
        let b: u64 = other.magnitude_field();
        proof {
            lemma_magnitude_order(*self, *other);
        }
        self.bits == other.bits || (a == 0 && b == 0)
    }
}

impl PartialEqSpecImpl for Scalar {
    open spec fn obeys_eq_spec() -> bool {
        true
    }

    open spec fn eq_spec(&self, other: &Scalar) -> bool {
        self.eq_value(*other)
    }
}

impl core::ops::Neg for Scalar {
    type Output = Scalar;

    /// The opposite number. Only the sign bit changes, also for a zero, an
    /// infinity or a NaN.
    fn neg(self) -> (r: Scalar) {
        if self.bits >= SIGN_BIT {
            Scalar { bits: self.bits - SIGN_BIT }
        } else {
            Scalar { bits: self.bits + SIGN_BIT }
        }
    }
}

impl NegSpecImpl for Scalar {
    open spec fn obeys_neg_spec() -> bool {
        true
    }

    open spec fn neg_req(self) -> bool {
        true
    }

    open spec fn neg_spec(self) -> Scalar {
        self.negated()
    }
}

/// A larger pattern without sign denotes a larger magnitude.
pub proof fn lemma_magnitude_increases(a: Scalar, b: Scalar)
    requires
        a.magnitude_bits() < b.magnitude_bits(),
    ensures
        a.magnitude() < b.magnitude(),
{
    let h = HIDDEN_BIT as int;
    let sa = a.significand() as int;
    let sb = b.significand() as int;
    let pa = pow2(a.scale()) as int;
    let pb = pow2(b.scale()) as int;
    lemma_pow2_pos(a.scale());
    lemma_pow2_pos(b.scale());
    if a.exponent() == b.exponent() {
        // The same power of two, and the smaller fraction.
        assert(sa * pa < sb * pb) by (nonlinear_arith)
            requires
                sa < sb,
                pa == pb,
                pa > 0,
        ;
    } else if a.exponent() == 0 {
        // Below the smallest normal magnitude, which is two to the power 52.
        lemma2_to64();
        assert(sa * pa < sb * pb) by (nonlinear_arith)
            requires
                0 <= sa < h,
                pa == 1,
                h <= sb,
                1 <= pb,
        ;
    } else {
        // Below the start of the next binade, which `b` has reached.
        let next = pow2(a.exponent() as nat) as int;
        lemma_pow2_unfold(a.exponent() as nat);
        if a.exponent() < b.exponent() - 1 {
            lemma_pow2_strictly_increases(a.exponent() as nat, b.scale());
        }
        assert(sa * pa < sb * pb) by (nonlinear_arith)
            requires
                0 <= sa < 2 * h,
                pa > 0,
                next == 2 * pa,
                next <= pb,
                h <= sb,
        ;
    }
}

/// Patterns without sign and the magnitudes they denote are ordered alike,
/// and only a zero has magnitude zero.
pub proof fn lemma_magnitude_order(a: Scalar, b: Scalar)
    ensures
        a.magnitude_bits() < b.magnitude_bits() <==> a.magnitude() < b.magnitude(),
        a.magnitude_bits() == b.magnitude_bits() <==> a.magnitude() == b.magnitude(),
        a.magnitude_bits() == 0 <==> a.magnitude() == 0,
{
    if a.magnitude_bits() < b.magnitude_bits() {
        lemma_magnitude_increases(a, b);
    } else if b.magnitude_bits() < a.magnitude_bits() {
        lemma_magnitude_increases(b, a);
    }
    let zero = Scalar { bits: 0 };
    assert(zero.magnitude() == 0) by (nonlinear_arith)
        requires
            zero.significand() == 0,
            zero.magnitude() == zero.significand() * pow2(zero.scale()),
    ;
    if a.magnitude_bits() > 0 {
        lemma_magnitude_increases(zero, a);
    }
}

/// The whole part of a magnitude, by the size of the exponent field: none
/// below 1023, the significand without its low bits from there to 1074,
/// and 256 or more from 1031 on.
pub proof fn lemma_whole_part(a: Scalar)
    ensures
        a.exponent() < 1023 ==> a.magnitude() / pow2(1074) == 0,
        a.exponent() >= 1031 ==> a.magnitude() / pow2(1074) >= 256,
        1023 <= a.exponent() <= 1074 ==> a.magnitude() / pow2(1074) == a.significand() / pow2(
            (1075 - a.exponent()) as nat,
        ),
{
    let e = a.exponent();
    let sig = a.significand() as int;
    let p = pow2(a.scale()) as int;
    let unit = pow2(1074) as int;
    let h = HIDDEN_BIT as int;
    lemma2_to64();
    lemma2_to64_rest();
    lemma_pow2_pos(a.scale());
    lemma_pow2_pos(1074);
    if e < 1023 {
        // Below 2^53 * 2^1021, which is the unit.
        let top = pow2(1021) as int;
        if a.scale() < 1021 {
            lemma_pow2_strictly_increases(a.scale(), 1021);
        }
        lemma_pow2_adds(53, 1021);
        assert(sig * p < (2 * h) * top) by (nonlinear_arith)
            requires
                0 <= sig < 2 * h,
                0 < p <= top,
        ;
        lemma_basic_div(sig * p, unit);
    }
    if e >= 1031 {
        // At least 2^52 * 2^1030, which is 256 units.
        let bottom = pow2(1030) as int;
        if a.scale() > 1030 {
            lemma_pow2_strictly_increases(1030, a.scale());
        }
        lemma_pow2_adds(52, 1030);
        lemma_pow2_adds(8, 1074);
        assert(h * bottom <= sig * p) by (nonlinear_arith)
            requires
                0 < h <= sig,
                0 < bottom <= p,
        ;
        lemma_div_is_ordered(256 * unit, sig * p, unit);
        lemma_div_multiples_vanish(256, unit);
    }
    if 1023 <= e <= 1074 {
        // The unit is the power of two of the magnitude times that of the
        // shift, and the former cancels.
        let q = pow2((1075 - e) as nat) as int;
        lemma_pow2_pos((1075 - e) as nat);
        lemma_pow2_adds(a.scale(), (1075 - e) as nat);
        lemma_div_multiples_vanish_quotient(p, sig, q);
        assert(sig * p == p * sig) by (nonlinear_arith);
        assert((sig * p) / unit == (p * sig) / (p * q));
    }
}

/// Changing the sign keeps the magnitude and the kind of the number and
/// gives the opposite number; doing it twice gives the pattern back.
pub proof fn lemma_negated(a: Scalar)
    ensures
        a.negated().sign_negative() == !a.sign_negative(),
        a.negated().magnitude_bits() == a.magnitude_bits(),
        a.negated().nan() == a.nan(),
        a.negated().scaled() == -a.scaled(),
        a.negated().negated() == a,
{
}

/// What lies strictly between two bounds equals neither of them, and the
/// lower bound is below the upper one.
pub proof fn lemma_bounds_excluded(t: Scalar, low: Scalar, high: Scalar)
    requires
        t.strictly_between(low, high),
    ensures
        !t.eq_value(low),
        !t.eq_value(high),
        !t.lt_spec(low),
        !high.lt_spec(t),
        low.lt_spec(high),
{
}

} // verus!
