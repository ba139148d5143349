//! Scalars held by their binary64 bit pattern.
//!
//! The order of binary64 values is the order of their sign-magnitude integers,
//! so comparisons, negation, absolute value and clamping are integer
//! operations. Every function states its result through [`Scalar::rank`],
//! [`Scalar::magnitude`] and [`Scalar::is_nan_spec`].

use vstd::prelude::*;

verus! {

/// Bit of the sign.
pub const SIGN_BIT: u64 = 0x8000_0000_0000_0000;

/// Magnitude bits of infinity; larger magnitudes are NaN.
pub const INF_BITS: u64 = 0x7FF0_0000_0000_0000;

/// Bits of one.
pub const ONE_BITS: u64 = 0x3FF0_0000_0000_0000;

/// Bits of the quiet NaN with an empty payload.
pub const NAN_BITS: u64 = 0x7FF8_0000_0000_0000;

/// A binary64 value.
///
/// `==` compares bit patterns; [`Scalar::eq_value`] compares values.
#[derive(Clone, Copy, Debug, PartialEq, Eq, Structural)]
pub struct Scalar {
    /// The bit pattern.
    pub bits: u64,
}

impl Scalar {
    /// Whether the sign bit is set.
    pub open spec fn is_signed(self) -> bool {
        self.bits >= SIGN_BIT
    }

    /// The bit pattern without its sign bit, as an integer.
    pub open spec fn magnitude(self) -> int {
        if self.bits >= SIGN_BIT {
            self.bits - SIGN_BIT
        } else {
            self.bits as int
        }
    }

    /// Not a number.
    pub open spec fn is_nan_spec(self) -> bool {
        self.magnitude() > INF_BITS
    }

    /// Neither infinite nor NaN.
    pub open spec fn is_finite_spec(self) -> bool {
        self.magnitude() < INF_BITS
    }

    /// The integer whose order is the order of the values that are numbers.
    pub open spec fn rank(self) -> int {
        if self.is_signed() {
            -self.magnitude()
        } else {
            self.magnitude()
        }
    }

    /// `self < other` on values: false when either is NaN.
    pub open spec fn lt_spec(self, other: Scalar) -> bool {
        !self.is_nan_spec() && !other.is_nan_spec() && self.rank() < other.rank()
    }

    /// `self <= other` on values: false when either is NaN.
    pub open spec fn le_spec(self, other: Scalar) -> bool {
        !self.is_nan_spec() && !other.is_nan_spec() && self.rank() <= other.rank()
    }

    /// `self == other` on values: false when either is NaN, true for the two zeros.
    pub open spec fn eq_spec_value(self, other: Scalar) -> bool {
        !self.is_nan_spec() && !other.is_nan_spec() && self.rank() == other.rank()
    }

    /// `-self`: the same bits with the sign flipped.
    pub open spec fn neg_spec(self) -> Scalar {
        if self.bits >= SIGN_BIT {
            Scalar { bits: (self.bits - SIGN_BIT) as u64 }
        } else {
            Scalar { bits: (self.bits + SIGN_BIT) as u64 }
        }
    }

    /// `|self|`: the same bits without the sign.
    pub open spec fn abs_spec(self) -> Scalar {
        Scalar { bits: self.magnitude() as u64 }
    }

    /// The smaller of two values; the other one when one is NaN.
    pub open spec fn min_spec(self, other: Scalar) -> Scalar {
        if self.is_nan_spec() || other.lt_spec(self) {
            other
        } else {
            self
        }
    }

    /// The larger of two values; the other one when one is NaN.
    pub open spec fn max_spec(self, other: Scalar) -> Scalar {
        if self.is_nan_spec() || self.lt_spec(other) {
            other
        } else {
            self
        }
    }

    /// `self` restricted to `[lo, hi]`; NaN stays NaN.
    pub open spec fn clamp_spec(self, lo: Scalar, hi: Scalar) -> Scalar {
        if self.lt_spec(lo) {
            lo
        } else if hi.lt_spec(self) {
            hi
        } else {
            self
        }
    }

    /// The value with the given bit pattern.
    pub fn from_bits(bits: u64) -> (r: Scalar)
        ensures
            r.bits == bits,
    {
        Scalar { bits }
    }

    /// The bit pattern.
    pub fn to_bits(self) -> (bits: u64)
        ensures
            bits == self.bits,
    {
        self.bits
    }

    fn magnitude_bits(self) -> (m: u64)
        ensures
            m == self.magnitude(),
    {
        if self.bits >= SIGN_BIT {
            self.bits - SIGN_BIT
        } else {
            self.bits
        }
    }

    /// Whether the value is NaN.
    pub fn is_nan(self) -> (b: bool)
        ensures
            b == self.is_nan_spec(),
    {
        self.magnitude_bits() > INF_BITS
    }

    /// Whether the value is neither infinite nor NaN.
    pub fn is_finite(self) -> (b: bool)
        ensures
            b == self.is_finite_spec(),
    {
        self.magnitude_bits() < INF_BITS
    }

    /// `self < other` on values.
    pub fn lt(self, other: Scalar) -> (b: bool)
        ensures
            b == self.lt_spec(other),
    {
        let a: u64 = self.magnitude_bits();
        let c: u64 = other.magnitude_bits();
        if a > INF_BITS || c > INF_BITS {
            false
        } else if self.bits >= SIGN_BIT {
            if other.bits >= SIGN_BIT {
                c < a
            } else {
                a != 0 || c != 0
            }
        } else if other.bits >= SIGN_BIT {
            false
        } else {
            a < c
        }
    }

    /// `self <= other` on values.
    pub fn le(self, other: Scalar) -> (b: bool)
        ensures
            b == self.le_spec(other),
    {
        !self.is_nan() && !other.is_nan() && !other.lt(self)
    }

    /// `self == other` on values.
    pub fn eq_value(self, other: Scalar) -> (b: bool)
        ensures
            b == self.eq_spec_value(other),
    {
        self.le(other) && other.le(self)
    }

    /// `-self`.
    pub fn neg(self) -> (r: Scalar)
        ensures
            r == self.neg_spec(),
    {
        if self.bits >= SIGN_BIT {
            Scalar { bits: self.bits - SIGN_BIT }
        } else {
            Scalar { bits: self.bits + SIGN_BIT }
        }
    }

    /// `|self|`.
    pub fn abs(self) -> (r: Scalar)
        ensures
            r == self.abs_spec(),
    {
        Scalar { bits: self.magnitude_bits() }
    }

    /// The smaller of two values; the other one when one is NaN.
    pub fn min(self, other: Scalar) -> (r: Scalar)
        ensures
            r == self.min_spec(other),
    {
        if self.is_nan() || other.lt(self) {
            other
        } else {
            self
        }
    }

    /// The larger of two values; the other one when one is NaN.
    pub fn max(self, other: Scalar) -> (r: Scalar)
        ensures
            r == self.max_spec(other),
    {
        if self.is_nan() || self.lt(other) {
            other
        } else {
            self
        }
    }

    /// `self` restricted to `[lo, hi]`; NaN stays NaN.
    pub fn clamp(self, lo: Scalar, hi: Scalar) -> (r: Scalar)
        requires
            lo.le_spec(hi),
        ensures
            r == self.clamp_spec(lo, hi),
    {
        if self.lt(lo) {
            lo
        } else if hi.lt(self) {
            hi
        } else {
            self
        }
    }

    /// `self` restricted to `[lo, hi]` without asking that the interval be in
    /// order; with `lo > hi` a value below `lo` gives `lo`.
    pub fn bounded(self, lo: Scalar, hi: Scalar) -> (r: Scalar)
        ensures
            r == self.clamp_spec(lo, hi),
    {
        if self.lt(lo) {
            lo
        } else if hi.lt(self) {
            hi
        } else {
            self
        }
    }

    /// One with the sign of `self`; NaN for NaN.
    pub open spec fn signum_spec(self) -> Scalar {
        if self.is_nan_spec() {
            self
        } else if self.is_signed() {
            minus_one()
        } else {
            one()
        }
    }

    /// One with the sign of `self`; NaN for NaN.
    pub fn signum(self) -> (r: Scalar)
        ensures
            r == self.signum_spec(),
    {
        if self.is_nan() {
            self
        } else if self.bits >= SIGN_BIT {
            minus_one()
        } else {
            one()
        }
    }
}

/// Three scalars along x (forward), y (left) and z (up).
#[derive(Clone, Copy, Debug, PartialEq, Eq, Structural)]
pub struct Vec3 {
    /// Forward component.
    pub x: Scalar,
    /// Left component.
    pub y: Scalar,
    /// Up component.
    pub z: Scalar,
}

impl Vec3 {
    /// A vector from its components.
    #[verifier::allow_in_spec]
    pub fn new(x: Scalar, y: Scalar, z: Scalar) -> Vec3
        returns
            (Vec3 { x, y, z }),
    {
        Vec3 { x, y, z }
    }

    /// The zero vector.
    #[verifier::allow_in_spec]
    pub fn zeros() -> Vec3
        returns
            (Vec3 { x: zero(), y: zero(), z: zero() }),
    {
        Vec3 { x: zero(), y: zero(), z: zero() }
    }
}

impl Vec3 {
    /// Component 0, 1 or 2.
    pub open spec fn at(self, j: int) -> Scalar {
        if j == 0 {
            self.x
        } else if j == 1 {
            self.y
        } else {
            self.z
        }
    }

    /// Component 0, 1 or 2.
    pub fn get(self, j: usize) -> (r: Scalar)
        requires
            j < 3,
        ensures
            r == self.at(j as int),
    {
        if j == 0 {
            self.x
        } else if j == 1 {
            self.y
        } else {
            self.z
        }
    }
}

/// A three by three matrix by its rows.
#[derive(Clone, Copy, Debug, PartialEq, Eq, Structural)]
pub struct Mat3 {
    /// First row.
    pub x: Vec3,
    /// Second row.
    pub y: Vec3,
    /// Third row.
    pub z: Vec3,
}

impl Mat3 {
    /// Entry in row `i` and column `j`.
    pub open spec fn at(self, i: int, j: int) -> Scalar {
        if i == 0 {
            self.x.at(j)
        } else if i == 1 {
            self.y.at(j)
        } else {
            self.z.at(j)
        }
    }

    /// Entry in row `i` and column `j`.
    pub fn get(self, i: usize, j: usize) -> (r: Scalar)
        requires
            i < 3,
            j < 3,
        ensures
            r == self.at(i as int, j as int),
    {
        if i == 0 {
            self.x.get(j)
        } else if i == 1 {
            self.y.get(j)
        } else {
            self.z.get(j)
        }
    }

    /// The matrix with the given diagonal.
    #[verifier::allow_in_spec]
    pub fn diagonal(d: Vec3) -> Mat3
        returns
            (Mat3 {
                x: Vec3 { x: d.x, y: zero(), z: zero() },
                y: Vec3 { x: zero(), y: d.y, z: zero() },
                z: Vec3 { x: zero(), y: zero(), z: d.z },
            }),
    {
        Mat3 {
            x: Vec3 { x: d.x, y: zero(), z: zero() },
            y: Vec3 { x: zero(), y: d.y, z: zero() },
            z: Vec3 { x: zero(), y: zero(), z: d.z },
        }
    }

    /// Rows and columns exchanged.
    pub open spec fn transposed(self) -> Mat3 {
        Mat3 {
            x: Vec3 { x: self.x.x, y: self.y.x, z: self.z.x },
            y: Vec3 { x: self.x.y, y: self.y.y, z: self.z.y },
            z: Vec3 { x: self.x.z, y: self.y.z, z: self.z.z },
        }
    }

    /// Rows and columns exchanged.
    pub fn transpose(self) -> (r: Mat3)
        ensures
            r == self.transposed(),
            forall|i: int, j: int|
                0 <= i < 3 && 0 <= j < 3 ==> #[trigger] r.at(i, j) == self.at(j, i),
    {
        Mat3 {
            x: Vec3 { x: self.x.x, y: self.y.x, z: self.z.x },
            y: Vec3 { x: self.x.y, y: self.y.y, z: self.z.y },
            z: Vec3 { x: self.x.z, y: self.y.z, z: self.z.z },
        }
    }
}

/// The matrix that takes `w` to the cross product of `v` with `w`.
#[verifier::allow_in_spec]
pub fn skew_3(v: Vec3) -> Mat3
    returns
        (Mat3 {
            x: Vec3 { x: zero(), y: v.z.neg_spec(), z: v.y },
            y: Vec3 { x: v.z, y: zero(), z: v.x.neg_spec() },
            z: Vec3 { x: v.y.neg_spec(), y: v.x, z: zero() },
        }),
{
    Mat3 {
        x: Vec3 { x: zero(), y: v.z.neg(), z: v.y },
        y: Vec3 { x: v.z, y: zero(), z: v.x.neg() },
        z: Vec3 { x: v.y.neg(), y: v.x, z: zero() },
    }
}

/// The rotation about z by an angle given by its sine and cosine.
#[verifier::allow_in_spec]
pub fn yaw_rotation(sin: Scalar, cos: Scalar) -> Mat3
    returns
        (Mat3 {
            x: Vec3 { x: cos, y: sin.neg_spec(), z: zero() },
            y: Vec3 { x: sin, y: cos, z: zero() },
            z: Vec3 { x: zero(), y: zero(), z: one() },
        }),
{
    Mat3 {
        x: Vec3 { x: cos, y: sin.neg(), z: zero() },
        y: Vec3 { x: sin, y: cos, z: zero() },
        z: Vec3 { x: zero(), y: zero(), z: one() },
    }
}

/// A skew matrix is antisymmetric off its zero diagonal.
pub proof fn skew_is_antisymmetric(v: Vec3, i: int, j: int)
    requires
        0 <= i < 3,
        0 <= j < 3,
        i != j,
    ensures
        skew_3(v).at(i, j) == skew_3(v).at(j, i).neg_spec(),
        skew_3(v).at(i, i) == zero(),
{
}

/// Positive zero.
#[verifier::allow_in_spec]
pub fn zero() -> Scalar
    returns
        (Scalar { bits: 0 }),
{
    Scalar { bits: 0 }
}

/// One.
#[verifier::allow_in_spec]
pub fn one() -> Scalar
    returns
        (Scalar { bits: ONE_BITS }),
{
    Scalar { bits: ONE_BITS }
}

/// Minus one.
#[verifier::allow_in_spec]
pub fn minus_one() -> Scalar
    returns
        (Scalar { bits: 0xBFF0_0000_0000_0000 }),
{
    Scalar { bits: 0xBFF0_0000_0000_0000 }
}

/// Positive infinity.
#[verifier::allow_in_spec]
pub fn infinity() -> Scalar
    returns
        (Scalar { bits: INF_BITS }),
{
    Scalar { bits: INF_BITS }
}

/// A quiet NaN.
#[verifier::allow_in_spec]
pub fn nan() -> Scalar
    returns
        (Scalar { bits: NAN_BITS }),
{
    Scalar { bits: NAN_BITS }
}

/// Of two numbers, exactly one of `<`, `==` and `>` holds.
pub proof fn order_is_total(a: Scalar, b: Scalar)
    requires
        !a.is_nan_spec(),
        !b.is_nan_spec(),
    ensures
        a.lt_spec(b) || a.eq_spec_value(b) || b.lt_spec(a),
        !(a.lt_spec(b) && b.lt_spec(a)),
        !(a.lt_spec(b) && a.eq_spec_value(b)),
        a.le_spec(b) <==> (a.lt_spec(b) || a.eq_spec_value(b)),
{
}

/// Negating twice gives the value back, and negation reverses the order.
pub proof fn negation_reverses_order(a: Scalar, b: Scalar)
    ensures
        a.neg_spec().neg_spec() == a,
        a.neg_spec().rank() == -a.rank(),
        a.lt_spec(b) <==> b.neg_spec().lt_spec(a.neg_spec()),
        a.neg_spec().abs_spec() == a.abs_spec(),
{
}

/// A number clamped to an interval lies in it, one inside is unchanged, and
/// clamping again changes nothing.
pub proof fn clamp_lands_in_interval(a: Scalar, lo: Scalar, hi: Scalar)
    requires
        lo.le_spec(hi),
    ensures
        !a.is_nan_spec() ==> lo.le_spec(a.clamp_spec(lo, hi)) && a.clamp_spec(lo, hi).le_spec(hi),
        lo.le_spec(a) && a.le_spec(hi) ==> a.clamp_spec(lo, hi) == a,
        a.clamp_spec(lo, hi).clamp_spec(lo, hi) == a.clamp_spec(lo, hi),
        a.is_nan_spec() ==> a.clamp_spec(lo, hi) == a,
{
}

} // verus!
