//! Plain carriers for the numeric values that flow through the pipeline.
//!
//! A `Double` is the bit pattern of an IEEE-754 binary64 number. The verified
//! code copies, stores and encodes such values, so equality here is equality
//! of representation. Of the operations on numbers it has only those that
//! are exact and can be read off the pattern: comparison and doubling.
//!
//! A pattern is a sign bit, eleven bits of biased exponent and fifty-two
//! bits of fraction. With the sign bit cleared, the patterns up to that of
//! infinity are ordered as the magnitudes they stand for; the patterns above
//! it stand for no number.

use vstd::prelude::*;

verus! {

/// An IEEE-754 binary64 number, held as its 64-bit pattern.
#[derive(Clone, Copy, Debug, PartialEq, Eq, Structural)]
pub struct Double {
    pub bits: u64,
}

/// Bit pattern of positive zero.
pub const ZERO_BITS: u64 = 0;

/// Bit pattern of one: sign 0, biased exponent 1023, fraction 0.
pub const ONE_BITS: u64 = 0x3FF0_0000_0000_0000;

/// Bit pattern of negative zero: the sign bit alone.
pub const NEGATIVE_ZERO_BITS: u64 = 0x8000_0000_0000_0000;

/// Bit pattern of positive infinity: sign 0, biased exponent 2047, fraction 0.
pub const INFINITY_BITS: u64 = 0x7FF0_0000_0000_0000;

/// The sign bit.
pub const SIGN_BIT: u64 = 0x8000_0000_0000_0000;

/// One step of the exponent: the lowest bit above the fraction.
pub const EXPONENT_STEP: u64 = 0x0010_0000_0000_0000;

impl Double {
    pub fn from_bits(bits: u64) -> (d: Double)
        ensures
            d.bits == bits,
    {
        Double { bits }
    }

    pub fn to_bits(self) -> (bits: u64)
        ensures
            bits == self.bits,
    {
        self.bits
    }

    pub open spec fn spec_zero() -> Double {
        Double { bits: ZERO_BITS }
    }

    pub open spec fn spec_one() -> Double {
        Double { bits: ONE_BITS }
    }

    /// Whether the sign bit is set.
    pub open spec fn sign(self) -> bool {
        self.bits >= SIGN_BIT
    }

    /// The pattern with the sign bit cleared.
    pub open spec fn magnitude(self) -> u64 {
        if self.bits >= SIGN_BIT {
            (self.bits - SIGN_BIT) as u64
        } else {
            self.bits
        }
    }

    /// Whether the pattern stands for no number.
    pub open spec fn spec_is_nan(self) -> bool {
        self.magnitude() > INFINITY_BITS
    }

    /// The place of a number in the order of all numbers: its magnitude's
    /// pattern, negated where the sign bit is set. Both zeros have place
    /// zero.
    pub open spec fn ordinal(self) -> int {
        if self.sign() {
            -(self.magnitude() as int)
        } else {
            self.magnitude() as int
        }
    }

    /// Whether this number is less than or equal to `other`. False where
    /// either stands for no number.
    pub open spec fn spec_le(self, other: Double) -> bool {
        !self.spec_is_nan() && !other.spec_is_nan() && self.ordinal() <= other.ordinal()
    }

    /// Whether this number is greater than `other`. False where either
    /// stands for no number.
    pub open spec fn spec_gt(self, other: Double) -> bool {
        !self.spec_is_nan() && !other.spec_is_nan() && self.ordinal() > other.ordinal()
    }

    /// Whether the number is at least zero and at most one.
    pub open spec fn spec_is_in_unit_interval(self) -> bool {
        self.bits <= ONE_BITS || self.bits == NEGATIVE_ZERO_BITS
    }

    /// Whether the number is greater than zero; infinity is.
    pub open spec fn spec_is_positive(self) -> bool {
        0 < self.bits <= INFINITY_BITS
    }

    /// Twice a magnitude. The fraction of a number too small to have an
    /// exponent doubles; another number gains one step of exponent, and
    /// where there is no step left the result is infinity.
    pub open spec fn doubled_magnitude(magnitude: u64) -> u64 {
        if magnitude < EXPONENT_STEP {
            (2 * magnitude) as u64
        } else if magnitude < INFINITY_BITS - EXPONENT_STEP {
            (magnitude + EXPONENT_STEP) as u64
        } else {
            INFINITY_BITS
        }
    }

    /// Twice the number: the sign stays and the magnitude doubles. What
    /// stands for no number stays as it is.
    pub open spec fn spec_doubled(self) -> Double {
        if self.spec_is_nan() {
            self
        } else if self.sign() {
            Double { bits: (Double::doubled_magnitude(self.magnitude()) + SIGN_BIT) as u64 }
        } else {
            Double { bits: Double::doubled_magnitude(self.magnitude()) }
        }
    }

    #[verifier::when_used_as_spec(spec_is_nan)]
    pub fn is_nan(self) -> (b: bool)
        ensures
            b == self.spec_is_nan(),
    {
        let magnitude: u64 = if self.bits >= SIGN_BIT {
            self.bits - SIGN_BIT
        } else {
            self.bits
        };
        magnitude > INFINITY_BITS
    }

    #[verifier::when_used_as_spec(spec_le)]
    pub fn le(self, other: Double) -> (b: bool)
        ensures
            b == self.spec_le(other),
    {
        if self.is_nan() || other.is_nan() {
            return false;
        }
        let negative = self.bits >= SIGN_BIT;
        let other_negative = other.bits >= SIGN_BIT;
        if negative && other_negative {
            self.bits >= other.bits
        } else if negative {
            true
        } else if other_negative {
            self.bits == 0 && other.bits == SIGN_BIT
        } else {
            self.bits <= other.bits
        }
    }

    #[verifier::when_used_as_spec(spec_gt)]
    pub fn gt(self, other: Double) -> (b: bool)
        ensures
            b == self.spec_gt(other),
    {
        if self.is_nan() || other.is_nan() {
            return false;
        }
        !self.le(other)
    }

    /// Twice the number.
    #[verifier::when_used_as_spec(spec_doubled)]
    pub fn doubled(self) -> (d: Double)
        ensures
            d == self.spec_doubled(),
    {
        let negative = self.bits >= SIGN_BIT;
        let magnitude: u64 = if negative {
            self.bits - SIGN_BIT
        } else {
            self.bits
        };
        if magnitude > INFINITY_BITS {
            return self;
        }
        let twice: u64 = if magnitude < EXPONENT_STEP {
            2 * magnitude
        } else if magnitude < INFINITY_BITS - EXPONENT_STEP {
            magnitude + EXPONENT_STEP
        } else {
            INFINITY_BITS
        };
        if negative {
            Double { bits: twice + SIGN_BIT }
        } else {
            Double { bits: twice }
        }
    }

    #[verifier::when_used_as_spec(spec_is_in_unit_interval)]
    pub fn is_in_unit_interval(self) -> (b: bool)
        ensures
            b == self.spec_is_in_unit_interval(),
            b == (Double::spec_zero().spec_le(self) && self.spec_le(Double::spec_one())),
    {
        self.bits <= ONE_BITS || self.bits == NEGATIVE_ZERO_BITS
    }

    #[verifier::when_used_as_spec(spec_is_positive)]
    pub fn is_positive(self) -> (b: bool)
        ensures
            b == self.spec_is_positive(),
            b == self.spec_gt(Double::spec_zero()),
    {
        0 < self.bits && self.bits <= INFINITY_BITS
    }

    #[verifier::when_used_as_spec(spec_zero)]
    pub fn zero() -> (d: Double)
        ensures
            d == Double::spec_zero(),
    {
        Double { bits: ZERO_BITS }
    }

    #[verifier::when_used_as_spec(spec_one)]
    pub fn one() -> (d: Double)
        ensures
            d == Double::spec_one(),
    {
        Double { bits: ONE_BITS }
    }
}

/// Among numbers, each is less than or equal to itself, of two either the
/// one is less than or equal to the other or it is greater, and the order
/// goes through. What stands for no number is in no order with anything.
pub proof fn law_order(a: Double, b: Double, c: Double)
    ensures
        a.spec_le(a) <==> !a.spec_is_nan(),
        !a.spec_is_nan() && !b.spec_is_nan() ==> (a.spec_le(b) <==> !a.spec_gt(b)),
        a.spec_le(b) && b.spec_le(c) ==> a.spec_le(c),
        a.spec_is_nan() || b.spec_is_nan() ==> !a.spec_le(b) && !a.spec_gt(b),
{
}

/// Doubling keeps the sign and the order of numbers, keeps a positive number
/// positive, and moves no number towards zero. Zero and infinity are their
/// own doubles, and no other number is.
pub proof fn law_doubled(a: Double, b: Double)
    ensures
        a.spec_doubled().sign() == a.sign(),
        a.spec_doubled().spec_is_nan() == a.spec_is_nan(),
        a.spec_le(b) ==> a.spec_doubled().spec_le(b.spec_doubled()),
        a.spec_is_positive() ==> a.spec_doubled().spec_is_positive() && a.spec_le(
            a.spec_doubled(),
        ),
        !a.spec_is_nan() ==> (a.spec_doubled() == a <==> a.magnitude() == 0 || a.magnitude()
            == INFINITY_BITS),
{
}

/// A displacement in three dimensions.
#[derive(Clone, Copy, Debug, PartialEq, Eq, Structural)]
pub struct Vector3 {
    pub x: Double,
    pub y: Double,
    pub z: Double,
}

impl Vector3 {
    pub fn new(x: Double, y: Double, z: Double) -> (v: Vector3)
        ensures
            v == (Vector3 { x, y, z }),
    {
        Vector3 { x, y, z }
    }

    pub open spec fn spec_zeros() -> Vector3 {
        Vector3 { x: Double::spec_zero(), y: Double::spec_zero(), z: Double::spec_zero() }
    }

    /// The vector whose three components are positive zero.
    #[verifier::when_used_as_spec(spec_zeros)]
    pub fn zeros() -> (v: Vector3)
        ensures
            v == Vector3::spec_zeros(),
    {
        Vector3 { x: Double::zero(), y: Double::zero(), z: Double::zero() }
    }
}

/// A location in three dimensions.
#[derive(Clone, Copy, Debug, PartialEq, Eq, Structural)]
pub struct Point3 {
    pub x: Double,
    pub y: Double,
    pub z: Double,
}

impl Point3 {
    pub fn new(x: Double, y: Double, z: Double) -> (p: Point3)
        ensures
            p == (Point3 { x, y, z }),
    {
        Point3 { x, y, z }
    }

    pub open spec fn spec_origin() -> Point3 {
        Point3 { x: Double::spec_zero(), y: Double::spec_zero(), z: Double::spec_zero() }
    }

    /// The point whose three coordinates are positive zero.
    #[verifier::when_used_as_spec(spec_origin)]
    pub fn origin() -> (p: Point3)
        ensures
            p == Point3::spec_origin(),
    {
        Point3 { x: Double::zero(), y: Double::zero(), z: Double::zero() }
    }
}

/// A quaternion `w + i + j + k`, scalar part first.
#[derive(Clone, Copy, Debug, PartialEq, Eq, Structural)]
pub struct Quaternion {
    pub w: Double,
    pub i: Double,
    pub j: Double,
    pub k: Double,
}

impl Quaternion {
    pub fn new(w: Double, i: Double, j: Double, k: Double) -> (q: Quaternion)
        ensures
            q == (Quaternion { w, i, j, k }),
    {
        Quaternion { w, i, j, k }
    }

    pub open spec fn spec_identity() -> Quaternion {
        Quaternion {
            w: Double::spec_one(),
            i: Double::spec_zero(),
            j: Double::spec_zero(),
            k: Double::spec_zero(),
        }
    }

    /// The quaternion of the rotation that moves nothing.
    #[verifier::when_used_as_spec(spec_identity)]
    pub fn identity() -> (q: Quaternion)
        ensures
            q == Quaternion::spec_identity(),
    {
        Quaternion { w: Double::one(), i: Double::zero(), j: Double::zero(), k: Double::zero() }
    }
}

/// A rotation as a three-by-three matrix, `mRC` being row `R`, column `C`.
#[derive(Clone, Copy, Debug, PartialEq, Eq, Structural)]
pub struct Rotation3 {
    pub m11: Double,
    pub m12: Double,
    pub m13: Double,
    pub m21: Double,
    pub m22: Double,
    pub m23: Double,
    pub m31: Double,
    pub m32: Double,
    pub m33: Double,
}

impl Rotation3 {
    pub open spec fn spec_identity() -> Rotation3 {
        Rotation3 {
            m11: Double::spec_one(),
            m12: Double::spec_zero(),
            m13: Double::spec_zero(),
            m21: Double::spec_zero(),
            m22: Double::spec_one(),
            m23: Double::spec_zero(),
            m31: Double::spec_zero(),
            m32: Double::spec_zero(),
            m33: Double::spec_one(),
        }
    }

    /// The matrix of the rotation that moves nothing.
    #[verifier::when_used_as_spec(spec_identity)]
    pub fn identity() -> (r: Rotation3)
        ensures
            r == Rotation3::spec_identity(),
    {
        Rotation3 {
            m11: Double::one(),
            m12: Double::zero(),
            m13: Double::zero(),
            m21: Double::zero(),
            m22: Double::one(),
            m23: Double::zero(),
            m31: Double::zero(),
            m32: Double::zero(),
            m33: Double::one(),
        }
    }
}

} // verus!
