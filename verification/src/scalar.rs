//! Real numbers as the library carries them.
//!
//! Every voltage, current and parameter is an IEEE 754 binary64 number. The
//! library stores such a number by its 64-bit pattern, moves it around and
//! compares it, but never does arithmetic on it: wherever a number has to be
//! computed the library hands out the formula (see [`crate::expr::Expr`]).
use vstd::prelude::*;

verus! {

/// The bit that holds the sign of a binary64 number.
pub const SIGN_BIT: u64 = 0x8000_0000_0000_0000;

/// The pattern of positive infinity; every larger magnitude is a NaN.
pub const INFINITY_BITS: u64 = 0x7FF0_0000_0000_0000;

/// The pattern of `1.0`.
pub const ONE_BITS: u64 = 0x3FF0_0000_0000_0000;

/// An IEEE 754 binary64 number, held by its bit pattern.
///
/// Two of them are equal when their patterns are: `+0.0` and `-0.0` differ,
/// and a NaN equals itself. The order of the numbers is given by
/// [`Scalar::is_less_than`] and [`Scalar::is_at_most`].
#[derive(Clone, Copy, Debug, PartialEq, Eq, Structural)]
pub struct Scalar {
    pub bits: u64,
}

impl Scalar {
    /// The pattern without its sign bit.
    pub open spec fn magnitude(self) -> u64 {
        if self.bits >= SIGN_BIT {
            (self.bits - SIGN_BIT) as u64
        } else {
            self.bits
        }
    }

    /// The sign bit is set. This holds of `-0.0` and of half of the NaNs too.
    pub open spec fn sign_is_set(self) -> bool {
        self.bits >= SIGN_BIT
    }

    /// The pattern is one of the NaNs.
    pub open spec fn is_nan_spec(self) -> bool {
        self.magnitude() > INFINITY_BITS
    }

    /// Where the number stands on the line, for a pattern that is no NaN:
    /// patterns of one sign are ordered as their magnitudes are, and both
    /// zeros stand at 0.
    pub open spec fn rank(self) -> int {
        if self.sign_is_set() {
            -(self.magnitude() as int)
        } else {
            self.magnitude() as int
        }
    }

    /// `self < other` as IEEE 754 orders binary64 numbers: false as soon as
    /// one side is a NaN.
    pub open spec fn lt_spec(self, other: Scalar) -> bool {
        !self.is_nan_spec() && !other.is_nan_spec() && self.rank() < other.rank()
    }

    /// `self <= other` as IEEE 754 orders binary64 numbers.
    pub open spec fn le_spec(self, other: Scalar) -> bool {
        !self.is_nan_spec() && !other.is_nan_spec() && self.rank() <= other.rank()
    }

    /// The number without its sign.
    pub open spec fn abs_spec(self) -> Scalar {
        Scalar { bits: self.magnitude() }
    }

    /// The number `+0.0`.
    pub open spec fn zero_spec() -> Scalar {
        Scalar { bits: 0 }
    }

    /// The number `1.0`.
    pub open spec fn one_spec() -> Scalar {
        Scalar { bits: ONE_BITS }
    }

    pub fn from_bits(bits: u64) -> (s: Scalar)
        ensures
            s.bits == bits,
    {
        Scalar { bits }
    }

    pub fn to_bits(self) -> (bits: u64)
        ensures
            bits == self.bits,
    {
        self.bits
    }

    pub fn zero() -> (s: Scalar)
        ensures
            s == Scalar::zero_spec(),
    {
        Scalar { bits: 0 }
    }

    pub fn one() -> (s: Scalar)
        ensures
            s == Scalar::one_spec(),
    {
        Scalar { bits: ONE_BITS }
    }

    fn magnitude_bits(self) -> (m: u64)
        ensures
            m == self.magnitude(),
    {
        if self.bits >= SIGN_BIT {
            self.bits - SIGN_BIT
        } else {
            self.bits
        }
    }

    /// The absolute value: the same pattern with the sign bit cleared.
    pub fn abs(self) -> (r: Scalar)
        ensures
            r == self.abs_spec(),
    {
        Scalar { bits: self.magnitude_bits() }
    }

    pub fn is_nan(self) -> (r: bool)
        ensures
            r == self.is_nan_spec(),
    {
        self.magnitude_bits() > INFINITY_BITS
    }

    /// Whether `self < other`.
    pub fn is_less_than(self, other: Scalar) -> (r: bool)
        ensures
            r == self.lt_spec(other),
    {
        if self.is_nan() || other.is_nan() {
            return false;
        }
        let a: u64 = self.magnitude_bits();
        let b: u64 = other.magnitude_bits();
        if self.bits >= SIGN_BIT {
            if other.bits >= SIGN_BIT {
                b < a
            } else {
                a > 0 || b > 0
            }
        } else {
            if other.bits >= SIGN_BIT {
                false
            } else {
                a < b
            }
        }
    }

    /// Whether `self <= other`.
    pub fn is_at_most(self, other: Scalar) -> (r: bool)
        ensures
            r == self.le_spec(other),
    {
        if self.is_nan() || other.is_nan() {
            return false;
        }
        let a: u64 = self.magnitude_bits();
        let b: u64 = other.magnitude_bits();
        if self.bits >= SIGN_BIT {
            if other.bits >= SIGN_BIT {
                b <= a
            } else {
                true
            }
        } else {
            if other.bits >= SIGN_BIT {
                a == 0 && b == 0
            } else {
                a <= b
            }
        }
    }
}

/// A vector of `size` entries `+0.0`.
pub fn zeros(size: usize) -> (x: Vec<Scalar>)
    ensures
        x@ == Seq::new(size as nat, |i: int| Scalar::zero_spec()),
{
    let mut x: Vec<Scalar> = Vec::new();
    let mut i: usize = 0;
    while i < size
        invariant
            i <= size,
            x@ == Seq::new(i as nat, |k: int| Scalar::zero_spec()),
        decreases size - i,
    {
        x.push(Scalar::zero());
        assert(x@ =~= Seq::new((i + 1) as nat, |k: int| Scalar::zero_spec()));
        i += 1;
    }
    x
}

} // verus!
