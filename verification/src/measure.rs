//! Measured quantities: millimeters, millimeters per second, 0..1 strengths.
//!
//! The tracking service reports them as IEEE 754 doubles. The recognizer never computes new
//! quantities; it orders them, takes absolute values and flips signs. All of that is decided by
//! the bit pattern alone, so a quantity is carried here as its bit pattern.

use vstd::prelude::*;

verus! {

/// The bit that holds the sign.
pub const SIGN_BIT: u64 = 0x8000_0000_0000_0000;

/// Bit pattern of positive infinity. A larger magnitude is not a number.
pub const INFINITY_BITS: u64 = 0x7FF0_0000_0000_0000;

/// Bit pattern of 1.0.
pub const ONE_BITS: u64 = 0x3FF0_0000_0000_0000;

/// A measured quantity, held as the bit pattern of a double.
///
/// `==` compares bit patterns; the comparisons below compare the numbers.
#[derive(Debug, Clone, Copy, PartialEq, Eq, Structural)]
pub struct Measure {
    pub bits: u64,
}

impl Measure {
    /// The sign bit is set.
    pub open spec fn negative(self) -> bool {
        self.bits >= SIGN_BIT
    }

    /// The pattern without the sign bit. It grows with the absolute value of the number.
    pub open spec fn magnitude(self) -> int {
        if self.negative() {
            self.bits - SIGN_BIT
        } else {
            self.bits as int
        }
    }

    /// The pattern stands for no number.
    pub open spec fn nan(self) -> bool {
        self.magnitude() > INFINITY_BITS
    }

    /// Position of the number among all numbers: one number is below another exactly when its
    /// rank is, and both zeros have rank 0.
    pub open spec fn rank(self) -> int {
        if self.negative() {
            -self.magnitude()
        } else {
            self.magnitude()
        }
    }

    /// Both patterns stand for numbers. No comparison holds otherwise.
    pub open spec fn comparable(self, other: Measure) -> bool {
        !self.nan() && !other.nan()
    }

    /// `self >= other`.
    pub open spec fn ge(self, other: Measure) -> bool {
        self.comparable(other) && self.rank() >= other.rank()
    }

    /// `self > other`.
    pub open spec fn gt(self, other: Measure) -> bool {
        self.comparable(other) && self.rank() > other.rank()
    }

    /// `self == other`, as numbers.
    pub open spec fn same(self, other: Measure) -> bool {
        self.comparable(other) && self.rank() == other.rank()
    }

    /// The number with the sign flipped.
    pub open spec fn flipped(self) -> Measure {
        if self.negative() {
            Measure { bits: (self.bits - SIGN_BIT) as u64 }
        } else {
            Measure { bits: (self.bits + SIGN_BIT) as u64 }
        }
    }

    /// The number without its sign.
    pub open spec fn unsigned(self) -> Measure {
        Measure { bits: self.magnitude() as u64 }
    }

    pub fn from_bits(bits: u64) -> (m: Measure)
        ensures
            m.bits == bits,
    {
        Measure { bits }
    }

    pub fn zero() -> (m: Measure)
        ensures
            m == (Measure { bits: 0 }),
    {
        Measure { bits: 0 }
    }

    pub fn one() -> (m: Measure)
        ensures
            m == (Measure { bits: ONE_BITS }),
            m.bits == 0x3FF0_0000_0000_0000,
    {
        Measure { bits: ONE_BITS }
    }

    pub fn is_nan(self) -> (r: bool)
        ensures
            r == self.nan(),
    {
        if self.bits >= SIGN_BIT {
            self.bits - SIGN_BIT > INFINITY_BITS
        } else {
            self.bits > INFINITY_BITS
        }
    }

    /// `self >= other`; false if either is not a number.
    pub fn at_least(self, other: Measure) -> (r: bool)
        ensures
            r == self.ge(other),
    {
        self.is_nan() == false && other.is_nan() == false && self.order_key() >= other.order_key()
    }

    /// `self > other`; false if either is not a number.
    pub fn above(self, other: Measure) -> (r: bool)
        ensures
            r == self.gt(other),
    {
        self.is_nan() == false && other.is_nan() == false && self.order_key() > other.order_key()
    }

    /// `self <= other`; false if either is not a number.
    pub fn at_most(self, other: Measure) -> (r: bool)
        ensures
            r == other.ge(self),
    {
        other.at_least(self)
    }

    /// `self == other` as numbers; false if either is not a number.
    pub fn equals(self, other: Measure) -> (r: bool)
        ensures
            r == self.same(other),
    {
        self.is_nan() == false && other.is_nan() == false && self.order_key() == other.order_key()
    }

    /// The number's rank as a machine integer.
    fn order_key(self) -> (k: i64)
        ensures
            k == self.rank(),
    {
        if self.bits >= SIGN_BIT {
            -((self.bits - SIGN_BIT) as i64)
        } else {
            self.bits as i64
        }
    }

    /// The absolute value.
    pub fn abs(self) -> (m: Measure)
        ensures
            m == self.unsigned(),
    {
        if self.bits >= SIGN_BIT {
            Measure { bits: self.bits - SIGN_BIT }
        } else {
            self
        }
    }

    /// The number with the sign flipped.
    pub fn neg(self) -> (m: Measure)
        ensures
            m == self.flipped(),
    {
        if self.bits >= SIGN_BIT {
            Measure { bits: self.bits - SIGN_BIT }
        } else {
            Measure { bits: self.bits + SIGN_BIT }
        }
    }
}

/// Flipping a sign mirrors the order, and flipping it twice changes nothing.
pub proof fn flip_mirrors_order(a: Measure, b: Measure)
    ensures
        a.gt(b) == b.flipped().gt(a.flipped()),
        a.ge(b) == b.flipped().ge(a.flipped()),
        a.flipped().flipped() == a,
        a.flipped().rank() == -a.rank(),
{
}

/// Of two numbers exactly one of below, equal and above holds; if either is not a number, none
/// does.
pub proof fn comparisons_are_exclusive(a: Measure, b: Measure)
    ensures
        a.comparable(b) ==> a.gt(b) || a.same(b) || b.gt(a),
        a.gt(b) ==> !a.same(b) && !b.gt(a),
        !a.comparable(b) ==> !a.gt(b) && !a.ge(b) && !a.same(b) && !b.gt(a) && !b.ge(a),
        a.ge(b) == (a.gt(b) || a.same(b)),
{
}

/// Patterns order as the doubles they stand for: positive numbers as their patterns, negative
/// numbers the other way round and below all positive ones, with both zeros equal. Patterns past
/// that of infinity stand for no number.
pub proof fn patterns_order_as_doubles(a: Measure, b: Measure)
    ensures
        a.nan() <==> 0x7FF0_0000_0000_0000 < a.bits < 0x8000_0000_0000_0000 || a.bits
            > 0xFFF0_0000_0000_0000,
        a.bits < 0x8000_0000_0000_0000 && b.bits < 0x8000_0000_0000_0000 ==> (a.rank() < b.rank()
            <==> a.bits < b.bits),
        a.bits >= 0x8000_0000_0000_0000 && b.bits >= 0x8000_0000_0000_0000 ==> (a.rank() < b.rank()
            <==> a.bits > b.bits),
        a.bits > 0x8000_0000_0000_0000 && b.bits < 0x8000_0000_0000_0000 ==> a.rank() < b.rank(),
        a.bits == 0 || a.bits == 0x8000_0000_0000_0000 <==> a.rank() == 0,
        a.gt(b) <==> !a.nan() && !b.nan() && a.rank() > b.rank(),
        a.ge(b) <==> !a.nan() && !b.nan() && a.rank() >= b.rank(),
        a.same(b) <==> !a.nan() && !b.nan() && a.rank() == b.rank(),
{
}

/// The absolute value lies as far from zero, on the positive side; what is no number stays none.
pub proof fn unsigned_drops_the_sign(a: Measure)
    ensures
        a.unsigned().bits < 0x8000_0000_0000_0000,
        a.unsigned().rank() == a.rank() || a.unsigned().rank() == -a.rank(),
        a.unsigned().rank() >= 0,
        a.unsigned().nan() == a.nan(),
        a.unsigned() == a.flipped().unsigned(),
        a.bits < 0x8000_0000_0000_0000 ==> a.unsigned() == a,
{
}

/// Flipping a sign changes the sign bit and nothing else.
pub proof fn flip_changes_the_sign_bit(a: Measure)
    ensures
        a.flipped().nan() == a.nan(),
        a.flipped().bits - a.bits == 0x8000_0000_0000_0000 || a.bits - a.flipped().bits
            == 0x8000_0000_0000_0000,
{
}

} // verus!
