//! Coordinates carried as IEEE 754 binary64 bit patterns, with the orders
//! that the format defines on them.

use vstd::prelude::*;

verus! {

/// The bit that holds the sign of a binary64 number.
pub const SIGN_BIT: u64 = 0x8000_0000_0000_0000;

/// The pattern of positive infinity; larger magnitudes are not numbers.
pub const INFINITY_BITS: u64 = 0x7ff0_0000_0000_0000;

/// The pattern of the number one.
pub const ONE_BITS: u64 = 0x3ff0_0000_0000_0000;

/// A binary64 number, held as its bit pattern.
///
/// `==` compares patterns; the comparisons of the numbers themselves are
/// [`Scalar::less_than`], [`Scalar::at_most`] and [`Scalar::equals`].
#[derive(Clone, Copy, Debug, PartialEq, Eq, Structural)]
pub struct Scalar {
    pub bits: u64,
}

impl Scalar {
    /// The pattern without its sign.
    pub open spec fn magnitude(self) -> int {
        if self.bits < SIGN_BIT {
            self.bits as int
        } else {
            self.bits - SIGN_BIT
        }
    }

    /// Whether the pattern stands for no number.
    pub open spec fn nan(self) -> bool {
        self.magnitude() > INFINITY_BITS
    }

    /// A whole number that grows with the number that the pattern stands for;
    /// both zeros share the rank zero.
    pub open spec fn rank(self) -> int {
        if self.bits < SIGN_BIT {
            self.magnitude()
        } else {
            -self.magnitude()
        }
    }

    /// The place of the pattern in the total order of all patterns: negative
    /// ones first, the greater magnitude before the lesser, then the positive
    /// ones, the lesser magnitude before the greater.
    pub open spec fn total_rank(self) -> int {
        if self.bits < SIGN_BIT {
            self.magnitude()
        } else {
            -self.magnitude() - 1
        }
    }

    /// The IEEE relation "less than": false as soon as one side is no number.
    pub open spec fn lt(self, other: Scalar) -> bool {
        !self.nan() && !other.nan() && self.rank() < other.rank()
    }

    /// The IEEE relation "less than or equal".
    pub open spec fn le(self, other: Scalar) -> bool {
        !self.nan() && !other.nan() && self.rank() <= other.rank()
    }

    /// The IEEE relation "equal".
    pub open spec fn same_number(self, other: Scalar) -> bool {
        !self.nan() && !other.nan() && self.rank() == other.rank()
    }

    /// The number zero, with the positive sign.
    pub open spec fn spec_zero() -> Scalar {
        Scalar { bits: 0 }
    }

    /// The number one.
    pub open spec fn spec_one() -> Scalar {
        Scalar { bits: ONE_BITS }
    }

    /// The greater of `self` and `bound`, and `bound` where `self` is no
    /// number.
    pub open spec fn at_least(self, bound: Scalar) -> Scalar {
        if bound.lt(self) {
            self
        } else {
            bound
        }
    }

    /// The number with the given pattern.
    pub fn from_bits(bits: u64) -> (r: Scalar)
        ensures
            r == (Scalar { bits }),
    {
        Scalar { bits }
    }

    /// The number zero, with the positive sign.
    #[verifier::when_used_as_spec(spec_zero)]
    pub fn zero() -> (r: Scalar)
        ensures
            r == Scalar::spec_zero(),
    {
        Scalar { bits: 0 }
    }

    /// The number one.
    #[verifier::when_used_as_spec(spec_one)]
    pub fn one() -> (r: Scalar)
        ensures
            r == Scalar::spec_one(),
    {
        Scalar { bits: ONE_BITS }
    }

    /// The greater of `self` and `bound`, and `bound` where `self` is no
    /// number.
    pub fn raised_to(self, bound: Scalar) -> (r: Scalar)
        ensures
            r == self.at_least(bound),
    {
        if bound.less_than(self) {
            self
        } else {
            bound
        }
    }

    /// Whether the pattern stands for no number.
    pub fn is_nan(self) -> (r: bool)
        ensures
            r == self.nan(),
    {
        if self.bits < SIGN_BIT {
            self.bits > INFINITY_BITS
        } else {
            self.bits - SIGN_BIT > INFINITY_BITS
        }
    }

    /// The comparison `self < other` of the two numbers.
    pub fn less_than(self, other: Scalar) -> (r: bool)
        ensures
            r == self.lt(other),
    {
        if self.is_nan() || other.is_nan() {
            false
        } else {
            self.signed_magnitude() < other.signed_magnitude()
        }
    }

    /// The comparison `self <= other` of the two numbers.
    pub fn at_most(self, other: Scalar) -> (r: bool)
        ensures
            r == self.le(other),
    {
        if self.is_nan() || other.is_nan() {
            false
        } else {
            self.signed_magnitude() <= other.signed_magnitude()
        }
    }

    /// The comparison `self == other` of the two numbers: both zeros are
    /// equal, and what is no number equals nothing.
    pub fn equals(self, other: Scalar) -> (r: bool)
        ensures
            r == self.same_number(other),
    {
        if self.is_nan() || other.is_nan() {
            false
        } else {
            self.signed_magnitude() == other.signed_magnitude()
        }
    }

    /// Whether `self` stands strictly before `other` in the total order of all
    /// patterns.
    pub fn sorts_before(self, other: Scalar) -> (r: bool)
        ensures
            r == (self.total_rank() < other.total_rank()),
    {
        if self.bits < SIGN_BIT {
            other.bits < SIGN_BIT && self.bits < other.bits
        } else {
            other.bits < SIGN_BIT || self.bits > other.bits
        }
    }

    fn signed_magnitude(self) -> (r: i128)
        ensures
            r == self.rank(),
    {
        if self.bits < SIGN_BIT {
            self.bits as i128
        } else {
            -((self.bits - SIGN_BIT) as i128)
        }
    }
}

/// Among numbers exactly one of "less", "equal" and "greater" holds.
pub proof fn law_numbers_are_ordered(a: Scalar, b: Scalar)
    requires
        !a.nan(),
        !b.nan(),
    ensures
        a.lt(b) || a.same_number(b) || b.lt(a),
        !(a.lt(b) && b.lt(a)),
        !(a.lt(b) && a.same_number(b)),
        a.le(b) <==> a.lt(b) || a.same_number(b),
{
}

/// What is no number compares false with everything, itself included.
pub proof fn law_nan_is_unordered(a: Scalar, b: Scalar)
    requires
        a.nan(),
    ensures
        !a.lt(b) && !b.lt(a),
        !a.le(b) && !b.le(a),
        !a.same_number(b) && !b.same_number(a),
{
}

/// The total order tells any two different patterns apart, and on numbers it
/// agrees with "less than".
pub proof fn law_total_order(a: Scalar, b: Scalar)
    ensures
        a.total_rank() == b.total_rank() <==> a == b,
        a.lt(b) ==> a.total_rank() < b.total_rank(),
{
}

/// At the ends of the total order stand the patterns that are no numbers, by
/// their sign, and the negative zero comes before the positive one.
pub proof fn law_ends_of_the_total_order(a: Scalar, number: Scalar)
    requires
        a.nan(),
        !number.nan(),
    ensures
        a.bits < SIGN_BIT ==> number.total_rank() < a.total_rank(),
        a.bits >= SIGN_BIT ==> a.total_rank() < number.total_rank(),
        (Scalar { bits: SIGN_BIT }).total_rank() < Scalar::spec_zero().total_rank(),
{
}

/// What is raised to a bound is itself where it is greater, and else the bound,
/// also where it is no number.
pub proof fn law_raised_to_a_bound(a: Scalar, bound: Scalar)
    requires
        !bound.nan(),
    ensures
        bound.lt(a) ==> a.at_least(bound) == a,
        a.le(bound) || a.nan() ==> a.at_least(bound) == bound,
{
}

/// Which patterns are no numbers, and which are the infinities, zero and one.
pub proof fn law_patterns(a: Scalar)
    ensures
        a.nan() <==> 0x7ff0_0000_0000_0000 < a.bits < 0x8000_0000_0000_0000 || a.bits
            > 0xfff0_0000_0000_0000,
        Scalar::spec_zero().bits == 0,
        Scalar::spec_one().bits == 0x3ff0_0000_0000_0000,
{
}

} // verus!
