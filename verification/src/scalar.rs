use vstd::prelude::*;

verus! {

/// The weight of the sign bit in a binary64 bit pattern.
pub const SIGN_BIT: u64 = 0x8000_0000_0000_0000;

/// The weight of the lowest exponent bit, which is also the number of
/// distinct fraction fields.
pub const FRACTION_SPAN: u64 = 0x0010_0000_0000_0000;

/// The exponent field in which every bit is set: infinities and NaNs.
pub const EXPONENT_TOP: u64 = 0x7ff;

/// A real quantity, held as the bit pattern of an IEEE 754 binary64 number.
///
/// From the highest bit down the pattern holds one sign bit, eleven exponent
/// bits and fifty-two fraction bits. Every pattern is a valid value: NaNs and
/// infinities are carried like any other number.
#[derive(Clone, Copy, Debug, PartialEq, Eq, Structural)]
pub struct Scalar {
    pub bits: u64,
}

impl Scalar {
    /// Whether the sign bit is set.
    pub open spec fn sign(self) -> bool {
        self.bits >= SIGN_BIT
    }

    /// The eleven-bit exponent field.
    pub open spec fn exponent(self) -> u64 {
        (self.bits / FRACTION_SPAN) % 0x800
    }

    /// The fifty-two-bit fraction field.
    pub open spec fn fraction(self) -> u64 {
        self.bits % FRACTION_SPAN
    }

    /// The pattern stands for no number at all.
    pub open spec fn spec_is_nan(self) -> bool {
        self.exponent() == EXPONENT_TOP && self.fraction() != 0
    }

    /// The pattern stands for zero, of either sign.
    pub open spec fn spec_is_zero(self) -> bool {
        self.exponent() == 0 && self.fraction() == 0
    }

    /// The pattern stands for a number greater than zero; positive infinity
    /// counts, NaN and both zeros do not.
    pub open spec fn spec_is_positive(self) -> bool {
        !self.sign() && !self.spec_is_nan() && !self.spec_is_zero()
    }

    /// The place of a number on the line of all numbers: patterns without
    /// the sign bit count upwards from zero, patterns with it count downwards
    /// from zero, so that both zeros share one place and the infinities stand
    /// at the two ends. Of a NaN it says nothing.
    pub open spec fn ordinal(self) -> int {
        if self.sign() {
            SIGN_BIT - self.bits
        } else {
            self.bits as int
        }
    }

    /// The value is a number below `other`, itself a number. A NaN is below
    /// nothing and nothing is below it; the two zeros are equal.
    pub open spec fn spec_less_than(self, other: Scalar) -> bool {
        !self.spec_is_nan() && !other.spec_is_nan() && self.ordinal() < other.ordinal()
    }

    /// The same exponent and fraction under the opposite sign.
    pub open spec fn spec_negate(self) -> Scalar {
        if self.sign() {
            Scalar { bits: (self.bits - SIGN_BIT) as u64 }
        } else {
            Scalar { bits: (self.bits + SIGN_BIT) as u64 }
        }
    }

    /// The same exponent and fraction with the sign bit cleared.
    pub open spec fn spec_abs(self) -> Scalar {
        if self.sign() {
            Scalar { bits: (self.bits - SIGN_BIT) as u64 }
        } else {
            self
        }
    }

    /// Wraps a bit pattern.
    pub fn from_bits(bits: u64) -> (out: Scalar)
        ensures
            out.bits == bits,
    {
        Scalar { bits }
    }

    /// Tells whether the value is a NaN.
    #[verifier::when_used_as_spec(spec_is_nan)]
    pub fn is_nan(self) -> (out: bool)
        ensures
            out == self.spec_is_nan(),
    {
        let bits: u64 = self.bits;
        assert(((bits & 0x7ff0_0000_0000_0000) == 0x7ff0_0000_0000_0000 && (bits
            & 0x000f_ffff_ffff_ffff) != 0) == ((bits / 0x0010_0000_0000_0000) % 0x800 == 0x7ff
            && bits % 0x0010_0000_0000_0000 != 0)) by (bit_vector);
        (bits & 0x7ff0_0000_0000_0000) == 0x7ff0_0000_0000_0000 && (bits
            & 0x000f_ffff_ffff_ffff) != 0
    }

    /// Tells whether the value is zero, positive or negative.
    #[verifier::when_used_as_spec(spec_is_zero)]
    pub fn is_zero(self) -> (out: bool)
        ensures
            out == self.spec_is_zero(),
    {
        let bits: u64 = self.bits;
        assert(((bits & 0x7fff_ffff_ffff_ffff) == 0) == ((bits / 0x0010_0000_0000_0000) % 0x800
            == 0 && bits % 0x0010_0000_0000_0000 == 0)) by (bit_vector);
        (bits & 0x7fff_ffff_ffff_ffff) == 0
    }

    /// Tells whether the value is greater than zero.
    #[verifier::when_used_as_spec(spec_is_positive)]
    pub fn is_positive(self) -> (out: bool)
        ensures
            out == self.spec_is_positive(),
    {
        self.bits < SIGN_BIT && !self.is_nan() && !self.is_zero()
    }

    /// Tells whether the value is less than `other`.
    #[verifier::when_used_as_spec(spec_less_than)]
    pub fn less_than(self, other: Scalar) -> (out: bool)
        ensures
            out == self.spec_less_than(other),
    {
        if self.is_nan() || other.is_nan() {
            false
        } else if self.bits >= SIGN_BIT {
            if other.bits >= SIGN_BIT {
                self.bits > other.bits
            } else {
                self.bits > SIGN_BIT || other.bits > 0
            }
        } else {
            other.bits < SIGN_BIT && self.bits < other.bits
        }
    }

    /// The value with its sign flipped. This is exact for every pattern:
    /// zeros, infinities and NaNs change their sign bit and nothing else.
    #[verifier::when_used_as_spec(spec_negate)]
    pub fn negate(self) -> (out: Scalar)
        ensures
            out == self.spec_negate(),
    {
        let bits: u64 = self.bits;
        assert((bits ^ 0x8000_0000_0000_0000) == if bits >= 0x8000_0000_0000_0000 {
            (bits - 0x8000_0000_0000_0000) as u64
        } else {
            (bits + 0x8000_0000_0000_0000) as u64
        }) by (bit_vector);
        Scalar { bits: bits ^ 0x8000_0000_0000_0000 }
    }

    /// The value with its sign bit cleared.
    #[verifier::when_used_as_spec(spec_abs)]
    pub fn abs(self) -> (out: Scalar)
        ensures
            out == self.spec_abs(),
    {
        let bits: u64 = self.bits;
        assert((bits & 0x7fff_ffff_ffff_ffff) == if bits >= 0x8000_0000_0000_0000 {
            (bits - 0x8000_0000_0000_0000) as u64
        } else {
            bits
        }) by (bit_vector);
        Scalar { bits: bits & 0x7fff_ffff_ffff_ffff }
    }
}

/// Flipping the sign twice gives the value back, bit for bit.
pub proof fn negate_is_an_involution(x: Scalar)
    ensures
        x.spec_negate().spec_negate() == x,
{
}

/// Flipping the sign changes neither the exponent nor the fraction, so a NaN
/// stays a NaN and a zero stays a zero.
pub proof fn negate_keeps_the_class(x: Scalar)
    ensures
        x.spec_negate().sign() == !x.sign(),
        x.spec_negate().exponent() == x.exponent(),
        x.spec_negate().fraction() == x.fraction(),
        x.spec_negate().spec_is_nan() == x.spec_is_nan(),
        x.spec_negate().spec_is_zero() == x.spec_is_zero(),
{
    let bits: u64 = x.bits;
    assert(bits >= 0x8000_0000_0000_0000 ==> ((bits - 0x8000_0000_0000_0000) as u64
        / 0x0010_0000_0000_0000) % 0x800 == (bits / 0x0010_0000_0000_0000) % 0x800 && (bits
        - 0x8000_0000_0000_0000) as u64 % 0x0010_0000_0000_0000 == bits
        % 0x0010_0000_0000_0000) by (bit_vector);
    assert(bits < 0x8000_0000_0000_0000 ==> ((bits + 0x8000_0000_0000_0000) as u64
        / 0x0010_0000_0000_0000) % 0x800 == (bits / 0x0010_0000_0000_0000) % 0x800 && (bits
        + 0x8000_0000_0000_0000) as u64 % 0x0010_0000_0000_0000 == bits
        % 0x0010_0000_0000_0000) by (bit_vector);
}

/// To be positive is to stand above zero, whichever zero.
pub proof fn positive_is_above_zero(x: Scalar, zero: Scalar)
    requires
        zero.spec_is_zero(),
    ensures
        x.spec_is_positive() == zero.spec_less_than(x),
{
    let bits: u64 = zero.bits;
    assert(((bits / 0x0010_0000_0000_0000) % 0x800 == 0 && bits % 0x0010_0000_0000_0000 == 0)
        ==> (bits == 0 || bits == 0x8000_0000_0000_0000)) by (bit_vector);
    let bits: u64 = x.bits;
    assert(((bits / 0x0010_0000_0000_0000) % 0x800 == 0 && bits % 0x0010_0000_0000_0000 == 0)
        == (bits == 0 || bits == 0x8000_0000_0000_0000)) by (bit_vector);
}

/// Among numbers the order is strict and total up to the sign of zero: it
/// never holds both ways, it carries over a middle value, and of two numbers
/// with different places one is below the other.
pub proof fn less_than_is_an_order(a: Scalar, b: Scalar, c: Scalar)
    ensures
        !a.spec_less_than(a),
        a.spec_less_than(b) ==> !b.spec_less_than(a),
        a.spec_less_than(b) && b.spec_less_than(c) ==> a.spec_less_than(c),
        !a.spec_is_nan() && !b.spec_is_nan() && !a.spec_less_than(b) && !b.spec_less_than(a)
            ==> a.ordinal() == b.ordinal(),
{
}

/// The absolute value of anything but a NaN or a zero is positive.
pub proof fn abs_is_positive(x: Scalar)
    requires
        !x.spec_is_nan(),
        !x.spec_is_zero(),
    ensures
        x.spec_abs().spec_is_positive(),
        x.spec_is_positive() ==> x.spec_abs() == x,
        !x.spec_is_positive() ==> x.spec_abs() == x.spec_negate(),
{
    let bits: u64 = x.bits;
    assert(bits >= 0x8000_0000_0000_0000 ==> ((bits - 0x8000_0000_0000_0000) as u64
        / 0x0010_0000_0000_0000) % 0x800 == (bits / 0x0010_0000_0000_0000) % 0x800 && (bits
        - 0x8000_0000_0000_0000) as u64 % 0x0010_0000_0000_0000 == bits
        % 0x0010_0000_0000_0000) by (bit_vector);
}

} // verus!
