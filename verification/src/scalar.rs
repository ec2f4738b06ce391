//! Single-precision numbers, held by their IEEE 754 binary32 bit patterns.
//!
//! Widths, heights, offsets and colour components travel through this crate
//! as [`Scalar`] values. Nothing here does arithmetic on them; the crate only
//! classifies a pattern (not-a-number, zero, strictly positive) and picks one
//! representative pattern for each number, so that numbers can key a table.

use vstd::prelude::*;

verus! {

/// Bit pattern of positive zero.
pub const ZERO_BITS: u32 = 0;

/// Bit pattern of one.
pub const ONE_BITS: u32 = 0x3f80_0000;

/// Bit pattern of negative zero; also the mask of the sign bit.
pub const NEGATIVE_ZERO_BITS: u32 = 0x8000_0000;

/// Bit pattern of positive infinity; also the mask of the exponent field.
pub const INFINITY_BITS: u32 = 0x7f80_0000;

/// The pattern that stands for every not-a-number value.
pub const CANONICAL_NAN_BITS: u32 = 0x7fc0_0000;

/// The sign bit of a pattern: 1 for negative numbers, 0 otherwise.
pub open spec fn sign_field(bits: u32) -> int {
    bits as int / 0x8000_0000
}

/// The eight exponent bits of a pattern.
pub open spec fn exponent_field(bits: u32) -> int {
    (bits as int / 0x80_0000) % 0x100
}

/// The twenty-three fraction bits of a pattern.
pub open spec fn fraction_field(bits: u32) -> int {
    bits as int % 0x80_0000
}

/// A binary32 number, identified by its bit pattern.
///
/// `==` on `Scalar` compares patterns. Numeric sameness, under which the two
/// zeros agree and all not-a-number patterns agree, is [`Scalar::same_number`].
#[derive(Debug, Clone, Copy, PartialEq, Eq, Structural)]
pub struct Scalar {
    pub bits: u32,
}

impl Scalar {
    /// The pattern is a not-a-number: all exponent bits set, fraction non-zero.
    pub open spec fn spec_is_nan(self) -> bool {
        exponent_field(self.bits) == 0xff && fraction_field(self.bits) != 0
    }

    /// The pattern is one of the two zeros.
    pub open spec fn spec_is_zero(self) -> bool {
        exponent_field(self.bits) == 0 && fraction_field(self.bits) == 0
    }

    /// The number is strictly greater than zero: sign clear, not zero, not a
    /// not-a-number. Positive infinity counts.
    pub open spec fn spec_is_positive(self) -> bool {
        sign_field(self.bits) == 0 && !self.spec_is_zero() && !self.spec_is_nan()
    }

    /// The representative pattern of the number: every not-a-number maps to
    /// [`CANONICAL_NAN_BITS`], both zeros map to positive zero, and every
    /// other pattern stands for itself.
    pub open spec fn spec_canonical_bits(self) -> u32 {
        if self.spec_is_nan() {
            CANONICAL_NAN_BITS
        } else if self.spec_is_zero() {
            ZERO_BITS
        } else {
            self.bits
        }
    }

    /// Total equality of numbers: not-a-numbers are all the same, the two
    /// zeros are the same, and any other two numbers are the same exactly when
    /// their patterns are.
    pub open spec fn spec_same_number(self, other: Scalar) -> bool {
        if self.spec_is_nan() {
            other.spec_is_nan()
        } else if self.spec_is_zero() {
            other.spec_is_zero()
        } else {
            self.bits == other.bits
        }
    }

    /// Positive zero.
    pub fn zero() -> (r: Scalar)
        ensures
            r.bits == ZERO_BITS,
            r.spec_is_zero(),
    {
        Scalar { bits: ZERO_BITS }
    }

    /// The number with the given pattern.
    pub fn from_bits(bits: u32) -> (r: Scalar)
        ensures
            r.bits == bits,
    {
        Scalar { bits }
    }

    /// The pattern of the number.
    pub fn to_bits(self) -> (bits: u32)
        ensures
            bits == self.bits,
    {
        self.bits
    }

    #[verifier::when_used_as_spec(spec_is_nan)]
    pub fn is_nan(self) -> (r: bool)
        ensures
            r == self.spec_is_nan(),
    {
        proof {
            lemma_classes_as_ranges(self.bits);
        }
        let magnitude: u32 = if self.bits >= NEGATIVE_ZERO_BITS {
            self.bits - NEGATIVE_ZERO_BITS
        } else {
            self.bits
        };
        magnitude > INFINITY_BITS
    }

    #[verifier::when_used_as_spec(spec_is_zero)]
    pub fn is_zero(self) -> (r: bool)
        ensures
            r == self.spec_is_zero(),
    {
        proof {
            lemma_classes_as_ranges(self.bits);
        }
        self.bits == ZERO_BITS || self.bits == NEGATIVE_ZERO_BITS
    }

    #[verifier::when_used_as_spec(spec_is_positive)]
    pub fn is_positive(self) -> (r: bool)
        ensures
            r == self.spec_is_positive(),
    {
        proof {
            lemma_classes_as_ranges(self.bits);
        }
        ZERO_BITS < self.bits && self.bits <= INFINITY_BITS
    }

    #[verifier::when_used_as_spec(spec_canonical_bits)]
    pub fn canonical_bits(self) -> (bits: u32)
        ensures
            bits == self.spec_canonical_bits(),
    {
        if self.is_nan() {
            CANONICAL_NAN_BITS
        } else if self.is_zero() {
            ZERO_BITS
        } else {
            self.bits
        }
    }

    #[verifier::when_used_as_spec(spec_same_number)]
    pub fn same_number(self, other: Scalar) -> (r: bool)
        ensures
            r == self.spec_same_number(other),
    {
        proof {
            lemma_same_number_is_same_canonical_bits(self, other);
        }
        self.canonical_bits() == other.canonical_bits()
    }
}

/// The three classes of patterns, read off the pattern as an integer: the
/// magnitude (the pattern without its sign bit) lies above that of infinity
/// for a not-a-number and is nought for a zero; a strictly positive number
/// has a pattern from 1 up to that of positive infinity.
pub proof fn lemma_classes_as_ranges(bits: u32)
    ensures
        (Scalar { bits }).spec_is_nan() <==> bits as int % 0x8000_0000 > INFINITY_BITS,
        (Scalar { bits }).spec_is_zero() <==> bits == ZERO_BITS || bits == NEGATIVE_ZERO_BITS,
        (Scalar { bits }).spec_is_positive() <==> ZERO_BITS < bits <= INFINITY_BITS,
{
}

/// Two numbers are the same exactly when their representative patterns are
/// equal, so the representative pattern can stand for the number as a key.
pub proof fn lemma_same_number_is_same_canonical_bits(a: Scalar, b: Scalar)
    ensures
        a.spec_same_number(b) <==> a.spec_canonical_bits() == b.spec_canonical_bits(),
{
    lemma_classes_as_ranges(a.bits);
    lemma_classes_as_ranges(b.bits);
    lemma_classes_as_ranges(CANONICAL_NAN_BITS);
}

/// Sameness of numbers is an equivalence relation.
pub proof fn lemma_same_number_is_equivalence(a: Scalar, b: Scalar, c: Scalar)
    ensures
        a.spec_same_number(a),
        a.spec_same_number(b) ==> b.spec_same_number(a),
        a.spec_same_number(b) && b.spec_same_number(c) ==> a.spec_same_number(c),
{
    lemma_same_number_is_same_canonical_bits(a, a);
    lemma_same_number_is_same_canonical_bits(a, b);
    lemma_same_number_is_same_canonical_bits(b, a);
    lemma_same_number_is_same_canonical_bits(b, c);
    lemma_same_number_is_same_canonical_bits(a, c);
}

/// The representative pattern is its own representative, and stands for the
/// same number as the pattern it was taken from.
pub proof fn lemma_canonical_bits_is_idempotent(a: Scalar)
    ensures
        (Scalar { bits: a.spec_canonical_bits() }).spec_canonical_bits() == a.spec_canonical_bits(),
        a.spec_same_number(Scalar { bits: a.spec_canonical_bits() }),
{
    lemma_classes_as_ranges(a.bits);
    lemma_classes_as_ranges(CANONICAL_NAN_BITS);
    lemma_classes_as_ranges(ZERO_BITS);
}

} // verus!
