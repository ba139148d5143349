//! Single-precision values held by their binary32 bit pattern, and the
//! arithmetic on them, supplied by the caller.

use vstd::prelude::*;
use crate::scalar::Scalar;

verus! {

/// Bit of the sign.
pub const SINGLE_SIGN_BIT: u32 = 0x8000_0000;

/// Magnitude bits of infinity; larger magnitudes are NaN.
pub const SINGLE_INF_BITS: u32 = 0x7F80_0000;

/// A binary32 value; `==` compares bit patterns.
#[derive(Clone, Copy, Debug, PartialEq, Eq, Structural)]
pub struct Single {
    /// The bit pattern.
    pub bits: u32,
}

impl Single {
    /// The bit pattern without its sign bit, as an integer.
    pub open spec fn magnitude(self) -> int {
        if self.bits >= SINGLE_SIGN_BIT {
            self.bits - SINGLE_SIGN_BIT
        } else {
            self.bits as int
        }
    }

    /// Not a number.
    pub open spec fn is_nan_spec(self) -> bool {
        self.magnitude() > SINGLE_INF_BITS
    }

    /// Neither infinite nor NaN.
    pub open spec fn is_finite_spec(self) -> bool {
        self.magnitude() < SINGLE_INF_BITS
    }

    /// The integer whose order is the order of the values that are numbers.
    pub open spec fn rank(self) -> int {
        if self.bits >= SINGLE_SIGN_BIT {
            -self.magnitude()
        } else {
            self.magnitude()
        }
    }

    /// `self <= other` on values: false when either is NaN.
    pub open spec fn le_spec(self, other: Single) -> bool {
        !self.is_nan_spec() && !other.is_nan_spec() && self.rank() <= other.rank()
    }

    /// `|self| > limit` on values: false when either is NaN.
    pub open spec fn exceeds_spec(self, limit: Single) -> bool {
        !self.is_nan_spec() && !limit.is_nan_spec() && self.magnitude() > limit.rank()
    }

    /// Neither infinite nor NaN.
    pub fn is_finite(self) -> (r: bool)
        ensures
            r == self.is_finite_spec(),
    {
        if self.bits >= SINGLE_SIGN_BIT {
            self.bits - SINGLE_SIGN_BIT < SINGLE_INF_BITS
        } else {
            self.bits < SINGLE_INF_BITS
        }
    }

    /// Not a number.
    pub fn is_nan(self) -> (r: bool)
        ensures
            r == self.is_nan_spec(),
    {
        if self.bits >= SINGLE_SIGN_BIT {
            self.bits - SINGLE_SIGN_BIT > SINGLE_INF_BITS
        } else {
            self.bits > SINGLE_INF_BITS
        }
    }

    /// Whether `self <= other`.
    pub fn le(self, other: Single) -> (r: bool)
        ensures
            r == self.le_spec(other),
    {
        if self.is_nan() || other.is_nan() {
            return false;
        }
        let a_neg = self.bits >= SINGLE_SIGN_BIT;
        let b_neg = other.bits >= SINGLE_SIGN_BIT;
        if a_neg {
            if b_neg {
                other.bits <= self.bits
            } else {
                true
            }
        } else if b_neg {
            self.bits == 0 && other.bits == SINGLE_SIGN_BIT
        } else {
            self.bits <= other.bits
        }
    }

    /// Whether `|self| > limit`.
    pub fn exceeds(self, limit: Single) -> (r: bool)
        ensures
            r == self.exceeds_spec(limit),
    {
        let size: u32 = if self.bits >= SINGLE_SIGN_BIT {
            self.bits - SINGLE_SIGN_BIT
        } else {
            self.bits
        };
        !self.is_nan() && !limit.is_nan() && !(Single { bits: size }).le(limit)
    }
}

/// The operations of a binary32 unit, and the conversions between the two
/// precisions.
pub trait SingleArithmetic {
    /// `a + b`.
    fn single_plus(&self, a: Single, b: Single) -> Single;

    /// `a - b`.
    fn single_minus(&self, a: Single, b: Single) -> Single;

    /// `a * b`.
    fn single_times(&self, a: Single, b: Single) -> Single;

    /// The square root of `a`.
    fn single_sqrt(&self, a: Single) -> Single;

    /// The nearest binary32 value.
    fn narrow(&self, a: Scalar) -> Single;

    /// The same value as binary64.
    fn widen(&self, a: Single) -> Scalar;
}

/// The value given for `a + b`.
pub open spec fn single_sum<B: SingleArithmetic>(sa: &B, a: Single, b: Single) -> Single {
    choose|r: Single| call_ensures(B::single_plus, (sa, a, b), r)
}

/// The value given for `a - b`.
pub open spec fn single_difference<B: SingleArithmetic>(sa: &B, a: Single, b: Single) -> Single {
    choose|r: Single| call_ensures(B::single_minus, (sa, a, b), r)
}

/// The value given for `a * b`.
pub open spec fn single_product<B: SingleArithmetic>(sa: &B, a: Single, b: Single) -> Single {
    choose|r: Single| call_ensures(B::single_times, (sa, a, b), r)
}

/// The value given for the square root of `a`.
pub open spec fn single_root<B: SingleArithmetic>(sa: &B, a: Single) -> Single {
    choose|r: Single| call_ensures(B::single_sqrt, (sa, a), r)
}

/// The value given for `a` in single precision.
pub open spec fn narrowed<B: SingleArithmetic>(sa: &B, a: Scalar) -> Single {
    choose|r: Single| call_ensures(B::narrow, (sa, a), r)
}

/// The value given for `a` in double precision.
pub open spec fn widened<B: SingleArithmetic>(sa: &B, a: Single) -> Scalar {
    choose|r: Scalar| call_ensures(B::widen, (sa, a), r)
}

/// Every operation is a function of its operands.
pub open spec fn single_deterministic<B: SingleArithmetic>(sa: &B) -> bool {
    &&& forall|a: Single, b: Single, r: Single| #[trigger]
        call_ensures(B::single_plus, (sa, a, b), r) ==> r == single_sum(sa, a, b)
    &&& forall|a: Single, b: Single, r: Single| #[trigger]
        call_ensures(B::single_minus, (sa, a, b), r) ==> r == single_difference(sa, a, b)
    &&& forall|a: Single, b: Single, r: Single| #[trigger]
        call_ensures(B::single_times, (sa, a, b), r) ==> r == single_product(sa, a, b)
    &&& forall|a: Single, r: Single| #[trigger]
        call_ensures(B::single_sqrt, (sa, a), r) ==> r == single_root(sa, a)
    &&& forall|a: Scalar, r: Single| #[trigger]
        call_ensures(B::narrow, (sa, a), r) ==> r == narrowed(sa, a)
    &&& forall|a: Single, r: Scalar| #[trigger]
        call_ensures(B::widen, (sa, a), r) ==> r == widened(sa, a)
}

} // verus!
