//! Single-precision numbers as bit patterns.
//!
//! The library never does arithmetic on real numbers. It carries them through
//! as their IEEE-754 binary32 encodings and, where a rule depends on one,
//! compares two encodings by the order of the numbers they stand for.

use vstd::prelude::*;

verus! {

/// A single-precision number, held as its IEEE-754 binary32 bit pattern.
#[derive(Clone, Copy, Debug, PartialEq, Eq, Structural, Hash)]
pub struct Scalar {
    pub bits: u32,
}

/// Two to the power 31: the weight of the sign bit.
pub const SIGN_BIT: u32 = 0x8000_0000;

/// The magnitude bits of positive infinity; larger magnitudes encode no number.
pub const INFINITY_BITS: u32 = 0x7f80_0000;

impl Scalar {
    /// The encoding without its sign bit.
    pub open spec fn magnitude(self) -> int {
        (self.bits % SIGN_BIT) as int
    }

    /// Whether the sign bit is set.
    pub open spec fn is_negative(self) -> bool {
        self.bits >= SIGN_BIT
    }

    /// Whether the encoding stands for no number at all.
    pub open spec fn is_nan(self) -> bool {
        self.magnitude() > INFINITY_BITS
    }

    /// An integer that orders encodings as the numbers they stand for are
    /// ordered. Both zeros map to zero; infinities are included.
    pub open spec fn order_key(self) -> int {
        if self.is_negative() {
            -self.magnitude()
        } else {
            self.magnitude()
        }
    }

    /// The comparison `self > other` of the two numbers. It is false whenever
    /// either side is not a number.
    pub open spec fn gt(self, other: Scalar) -> bool {
        !self.is_nan() && !other.is_nan() && self.order_key() > other.order_key()
    }

    /// The number with the given encoding.
    pub fn from_bits(bits: u32) -> (scalar: Scalar)
        ensures
            scalar.bits == bits,
    {
        Scalar { bits }
    }

    /// The encoding of the number.
    pub fn to_bits(self) -> (bits: u32)
        ensures
            bits == self.bits,
    {
        self.bits
    }

    /// Sign, magnitude and whether the encoding is a number, computed on the bits.
    fn parts(self) -> (parts: (bool, u32, bool))
        ensures
            parts.0 == self.is_negative(),
            parts.1 == self.magnitude(),
            parts.2 == self.is_nan(),
    {
        let bits: u32 = self.bits;
        let magnitude: u32 = bits & 0x7fff_ffff;
        let negative: bool = (bits & 0x8000_0000) != 0;
        assert(bits & 0x7fff_ffff == bits % 0x8000_0000) by (bit_vector);
        assert(((bits & 0x8000_0000) != 0) == (bits >= 0x8000_0000)) by (bit_vector);
        (negative, magnitude, magnitude > INFINITY_BITS)
    }

    /// Decides `self > other` as the numbers compare.
    pub fn is_greater_than(self, other: Scalar) -> (greater: bool)
        ensures
            greater == self.gt(other),
    {
        let (neg_a, mag_a, nan_a) = self.parts();
        let (neg_b, mag_b, nan_b) = other.parts();
        if nan_a || nan_b {
            false
        } else if neg_a {
            if neg_b {
                mag_a < mag_b
            } else {
                false
            }
        } else {
            if neg_b {
                mag_a > 0 || mag_b > 0
            } else {
                mag_a > mag_b
            }
        }
    }
}

/// On numbers, `gt` is a strict order: nothing exceeds itself, and the
/// relation is transitive.
pub proof fn lemma_gt_strict_order(a: Scalar, b: Scalar, c: Scalar)
    ensures
        !a.gt(a),
        a.gt(b) ==> !b.gt(a),
        a.gt(b) && b.gt(c) ==> a.gt(c),
{
}

} // verus!
