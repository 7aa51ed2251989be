//! Single-precision numbers held by their IEEE-754 bit patterns.
//!
//! Every operation here is exact on the bit pattern: negation flips the sign
//! bit, and equality is the numeric one (a NaN equals nothing, the two zeros
//! equal each other).

use vstd::prelude::*;

verus! {

/// Bit pattern of `+0.0`.
pub const ZERO_BITS: u32 = 0;

/// Bit pattern of `1.0`.
pub const ONE_BITS: u32 = 0x3f80_0000;

/// The sign bit.
pub const SIGN_MASK: u32 = 0x8000_0000;

/// Everything but the sign bit.
pub const MAGNITUDE_MASK: u32 = 0x7fff_ffff;

/// Magnitude of an infinity; every larger magnitude is a NaN.
pub const INFINITY_BITS: u32 = 0x7f80_0000;

/// The biased exponent field of a bit pattern, 0 to 255.
pub open spec fn exponent_of(bits: u32) -> u32 {
    (bits >> 23) & 0xff
}

/// The fraction field of a bit pattern, 23 bits.
pub open spec fn fraction_of(bits: u32) -> u32 {
    bits & 0x7f_ffff
}

/// The sign field of a bit pattern: `true` for a set sign bit.
pub open spec fn sign_of(bits: u32) -> bool {
    bits >> 31 == 1
}

/// A NaN has the largest exponent and a fraction other than zero.
pub open spec fn is_nan_bits(bits: u32) -> bool {
    exponent_of(bits) == 0xff && fraction_of(bits) != 0
}

/// A finite number has any exponent but the largest.
pub open spec fn is_finite_bits(bits: u32) -> bool {
    exponent_of(bits) != 0xff
}

/// The two zeros: exponent and fraction are zero, the sign is free.
pub open spec fn is_zero_bits(bits: u32) -> bool {
    exponent_of(bits) == 0 && fraction_of(bits) == 0
}

/// Negation: the sign bit flipped, exponent and fraction kept.
pub open spec fn negated_bits(bits: u32) -> u32 {
    bits ^ 0x8000_0000
}

/// Numeric equality of two bit patterns.
pub open spec fn same_number(a: u32, b: u32) -> bool {
    !is_nan_bits(a) && !is_nan_bits(b) && (a == b || (is_zero_bits(a) && is_zero_bits(b)))
}

/// A single-precision number.
#[derive(Clone, Copy, Debug)]
pub struct Scalar {
    pub bits: u32,
}

impl Scalar {
    pub open spec fn spec_zero() -> Scalar {
        Scalar { bits: ZERO_BITS }
    }

    /// Positive zero.
    #[verifier::when_used_as_spec(spec_zero)]
    pub fn zero() -> (s: Scalar)
        ensures
            s == Scalar::spec_zero(),
    {
        Scalar { bits: ZERO_BITS }
    }

    pub open spec fn spec_one() -> Scalar {
        Scalar { bits: ONE_BITS }
    }

    /// One.
    #[verifier::when_used_as_spec(spec_one)]
    pub fn one() -> (s: Scalar)
        ensures
            s == Scalar::spec_one(),
    {
        Scalar { bits: ONE_BITS }
    }

    /// The number with the given bit pattern.
    pub fn from_bits(bits: u32) -> (s: Scalar)
        ensures
            s.bits == bits,
    {
        Scalar { bits }
    }

    /// The bit pattern of this number.
    pub fn to_bits(self) -> (bits: u32)
        ensures
            bits == self.bits,
    {
        self.bits
    }

    pub open spec fn spec_neg(self) -> Scalar {
        Scalar { bits: negated_bits(self.bits) }
    }

    /// The negated number. Defined on every pattern, NaN included.
    pub fn neg(self) -> (s: Scalar)
        ensures
            s == self.spec_neg(),
            sign_of(s.bits) != sign_of(self.bits),
            exponent_of(s.bits) == exponent_of(self.bits),
            fraction_of(s.bits) == fraction_of(self.bits),
    {
        let bits: u32 = self.bits;
        assert(sign_of(negated_bits(bits)) != sign_of(bits)
            && exponent_of(negated_bits(bits)) == exponent_of(bits)
            && fraction_of(negated_bits(bits)) == fraction_of(bits)) by {
            lemma_negation_fields(bits);
        }
        Scalar { bits: bits ^ SIGN_MASK }
    }

    pub open spec fn spec_is_nan(self) -> bool {
        is_nan_bits(self.bits)
    }

    /// Whether this is a NaN.
    #[verifier::when_used_as_spec(spec_is_nan)]
    pub fn is_nan(self) -> (b: bool)
        ensures
            b == self.spec_is_nan(),
    {
        let bits: u32 = self.bits;
        assert(((bits & 0x7fff_ffff) > 0x7f80_0000) == (((bits >> 23) & 0xff) == 0xff && (bits
            & 0x7f_ffff) != 0)) by (bit_vector);
        (bits & MAGNITUDE_MASK) > INFINITY_BITS
    }

    pub open spec fn spec_is_finite(self) -> bool {
        is_finite_bits(self.bits)
    }

    /// Whether this is neither an infinity nor a NaN.
    #[verifier::when_used_as_spec(spec_is_finite)]
    pub fn is_finite(self) -> (b: bool)
        ensures
            b == self.spec_is_finite(),
    {
        let bits: u32 = self.bits;
        assert(((bits & 0x7f80_0000) != 0x7f80_0000) == (((bits >> 23) & 0xff) != 0xff))
            by (bit_vector);
        (bits & INFINITY_BITS) != INFINITY_BITS
    }

    pub open spec fn spec_is_zero(self) -> bool {
        is_zero_bits(self.bits)
    }

    /// Whether this is one of the two zeros.
    #[verifier::when_used_as_spec(spec_is_zero)]
    pub fn is_zero(self) -> (b: bool)
        ensures
            b == self.spec_is_zero(),
    {
        let bits: u32 = self.bits;
        assert(((bits & 0x7fff_ffff) == 0) == (((bits >> 23) & 0xff) == 0 && (bits & 0x7f_ffff)
            == 0)) by (bit_vector);
        (bits & MAGNITUDE_MASK) == 0
    }

    /// Numeric equality, in contracts.
    pub open spec fn same(self, other: Scalar) -> bool {
        same_number(self.bits, other.bits)
    }
}

impl PartialEq for Scalar {
    /// Numeric equality: false where either side is a NaN, true of the two
    /// zeros, and otherwise equality of the bit patterns.
    fn eq(&self, other: &Scalar) -> (b: bool) {
        if self.is_nan() || other.is_nan() {
            false
        } else if self.bits == other.bits {
            true
        } else {
            self.is_zero() && other.is_zero()
        }
    }
}

impl vstd::std_specs::cmp::PartialEqSpecImpl for Scalar {
    open spec fn obeys_eq_spec() -> bool {
        true
    }

    open spec fn eq_spec(&self, other: &Scalar) -> bool {
        self.same(*other)
    }
}

/// What flipping the sign bit does to the three fields.
pub proof fn lemma_negation_fields(bits: u32)
    ensures
        sign_of(negated_bits(bits)) != sign_of(bits),
        exponent_of(negated_bits(bits)) == exponent_of(bits),
        fraction_of(negated_bits(bits)) == fraction_of(bits),
        is_nan_bits(negated_bits(bits)) == is_nan_bits(bits),
        is_finite_bits(negated_bits(bits)) == is_finite_bits(bits),
        is_zero_bits(negated_bits(bits)) == is_zero_bits(bits),
{
    assert(((bits ^ 0x8000_0000) >> 31 == 1) != (bits >> 31 == 1)) by (bit_vector);
    assert(((bits ^ 0x8000_0000) >> 23) & 0xff == (bits >> 23) & 0xff) by (bit_vector);
    assert((bits ^ 0x8000_0000) & 0x7f_ffff == bits & 0x7f_ffff) by (bit_vector);
}

/// Negating twice gives the bit pattern back.
pub proof fn lemma_negation_involution(s: Scalar)
    ensures
        s.spec_neg().spec_neg() == s,
{
    let bits = s.bits;
    assert((bits ^ 0x8000_0000) ^ 0x8000_0000 == bits) by (bit_vector);
}

/// Zero and its negation are the same number; neither zero nor one is a
/// NaN, and they differ.
pub proof fn lemma_negated_zero_same()
    ensures
        Scalar::zero().spec_neg().same(Scalar::zero()),
        !Scalar::zero().is_nan(),
        !Scalar::one().is_nan(),
        !Scalar::one().same(Scalar::zero()),
{
    assert(exponent_of(0u32) == 0 && fraction_of(0u32) == 0) by (bit_vector);
    assert(exponent_of(0x3f80_0000u32) == 127 && fraction_of(0x3f80_0000u32) == 0)
        by (bit_vector);
    lemma_negation_fields(0u32);
}

} // verus!
