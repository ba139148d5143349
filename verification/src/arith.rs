//! Arithmetic on scalars, supplied by the caller.
//!
//! The library decides and arranges; the caller rounds. A function that
//! computes takes an [`Arithmetic`] and states its result over the values named
//! below: `sum(ar, a, b)` is the value `ar` gives for `a + b`. Nothing is
//! assumed of these values. A formula over them describes the result whenever
//! every operation is a function of its operands ([`deterministic`]).

use vstd::prelude::*;
use crate::scalar::{one, zero, Scalar, Vec3};

verus! {

/// The operations of a binary64 unit.
pub trait Arithmetic {
    /// `a + b`.
    fn plus(&self, a: Scalar, b: Scalar) -> Scalar;

    /// `a - b`.
    fn minus(&self, a: Scalar, b: Scalar) -> Scalar;

    /// `a * b`.
    fn times(&self, a: Scalar, b: Scalar) -> Scalar;

    /// `a / b`.
    fn over(&self, a: Scalar, b: Scalar) -> Scalar;

    /// The square root of `a`.
    fn sqrt(&self, a: Scalar) -> Scalar;

    /// The sine of `a`.
    fn sin(&self, a: Scalar) -> Scalar;

    /// The cosine of `a`.
    fn cos(&self, a: Scalar) -> Scalar;

    /// The angle of the point `(x, y)`.
    fn atan2(&self, y: Scalar, x: Scalar) -> Scalar;

    /// The angle with cosine `a`.
    fn acos(&self, a: Scalar) -> Scalar;

    /// The remainder of `a` on division by `period`, not negative.
    fn wrap(&self, a: Scalar, period: Scalar) -> Scalar;

    /// The largest whole number that is at most `a`.
    fn floor(&self, a: Scalar) -> Scalar;

    /// `n` as a scalar.
    fn from_count(&self, n: usize) -> Scalar;

    /// The count nearest to `a`, zero for negative `a` and NaN.
    fn round_to_count(&self, a: Scalar) -> usize;
}

/// The value given for `a + b`.
pub open spec fn sum<A: Arithmetic>(ar: &A, a: Scalar, b: Scalar) -> Scalar {
    choose|r: Scalar| call_ensures(A::plus, (ar, a, b), r)
}

/// The value given for `a - b`.
pub open spec fn difference<A: Arithmetic>(ar: &A, a: Scalar, b: Scalar) -> Scalar {
    choose|r: Scalar| call_ensures(A::minus, (ar, a, b), r)
}

/// The value given for `a * b`.
pub open spec fn product<A: Arithmetic>(ar: &A, a: Scalar, b: Scalar) -> Scalar {
    choose|r: Scalar| call_ensures(A::times, (ar, a, b), r)
}

/// The value given for `a / b`.
pub open spec fn quotient<A: Arithmetic>(ar: &A, a: Scalar, b: Scalar) -> Scalar {
    choose|r: Scalar| call_ensures(A::over, (ar, a, b), r)
}

/// The value given for the square root of `a`.
pub open spec fn root<A: Arithmetic>(ar: &A, a: Scalar) -> Scalar {
    choose|r: Scalar| call_ensures(A::sqrt, (ar, a), r)
}

/// The value given for the sine of `a`.
pub open spec fn sine<A: Arithmetic>(ar: &A, a: Scalar) -> Scalar {
    choose|r: Scalar| call_ensures(A::sin, (ar, a), r)
}

/// The value given for the cosine of `a`.
pub open spec fn cosine<A: Arithmetic>(ar: &A, a: Scalar) -> Scalar {
    choose|r: Scalar| call_ensures(A::cos, (ar, a), r)
}

/// The value given for the angle of `(x, y)`.
pub open spec fn angle<A: Arithmetic>(ar: &A, y: Scalar, x: Scalar) -> Scalar {
    choose|r: Scalar| call_ensures(A::atan2, (ar, y, x), r)
}

/// The value given for the angle with cosine `a`.
pub open spec fn arc_cosine<A: Arithmetic>(ar: &A, a: Scalar) -> Scalar {
    choose|r: Scalar| call_ensures(A::acos, (ar, a), r)
}

/// The value given for the remainder of `a` by `period`.
pub open spec fn remainder<A: Arithmetic>(ar: &A, a: Scalar, period: Scalar) -> Scalar {
    choose|r: Scalar| call_ensures(A::wrap, (ar, a, period), r)
}

/// The value given for the largest whole number that is at most `a`.
pub open spec fn whole_part<A: Arithmetic>(ar: &A, a: Scalar) -> Scalar {
    choose|r: Scalar| call_ensures(A::floor, (ar, a), r)
}

/// The value given for `n`.
pub open spec fn counted<A: Arithmetic>(ar: &A, n: usize) -> Scalar {
    choose|r: Scalar| call_ensures(A::from_count, (ar, n), r)
}

/// The count given as nearest to `a`.
pub open spec fn nearest<A: Arithmetic>(ar: &A, a: Scalar) -> usize {
    choose|n: usize| call_ensures(A::round_to_count, (ar, a), n)
}

/// Every operation is a function of its operands.
pub open spec fn deterministic<A: Arithmetic>(ar: &A) -> bool {
    &&& forall|a: Scalar, b: Scalar, r: Scalar| #[trigger]
        call_ensures(A::plus, (ar, a, b), r) ==> r == sum(ar, a, b)
    &&& forall|a: Scalar, b: Scalar, r: Scalar| #[trigger]
        call_ensures(A::minus, (ar, a, b), r) ==> r == difference(ar, a, b)
    &&& forall|a: Scalar, b: Scalar, r: Scalar| #[trigger]
        call_ensures(A::times, (ar, a, b), r) ==> r == product(ar, a, b)
    &&& forall|a: Scalar, b: Scalar, r: Scalar| #[trigger]
        call_ensures(A::over, (ar, a, b), r) ==> r == quotient(ar, a, b)
    &&& forall|a: Scalar, r: Scalar| #[trigger]
        call_ensures(A::sqrt, (ar, a), r) ==> r == root(ar, a)
    &&& forall|a: Scalar, r: Scalar| #[trigger]
        call_ensures(A::sin, (ar, a), r) ==> r == sine(ar, a)
    &&& forall|a: Scalar, r: Scalar| #[trigger]
        call_ensures(A::cos, (ar, a), r) ==> r == cosine(ar, a)
    &&& forall|y: Scalar, x: Scalar, r: Scalar| #[trigger]
        call_ensures(A::atan2, (ar, y, x), r) ==> r == angle(ar, y, x)
    &&& forall|a: Scalar, r: Scalar| #[trigger]
        call_ensures(A::acos, (ar, a), r) ==> r == arc_cosine(ar, a)
    &&& forall|a: Scalar, period: Scalar, r: Scalar| #[trigger]
        call_ensures(A::wrap, (ar, a, period), r) ==> r == remainder(ar, a, period)
    &&& forall|a: Scalar, r: Scalar| #[trigger]
        call_ensures(A::floor, (ar, a), r) ==> r == whole_part(ar, a)
    &&& forall|n: usize, r: Scalar| #[trigger]
        call_ensures(A::from_count, (ar, n), r) ==> r == counted(ar, n)
    &&& forall|a: Scalar, n: usize| #[trigger]
        call_ensures(A::round_to_count, (ar, a), n) ==> n == nearest(ar, a)
}

/// What every rounding keeps: a NaN operand gives NaN; a product of finite
/// values that are not negative is not negative; a sum with a value that is not
/// negative is not below its finite first term.
pub open spec fn keeps_signs<A: Arithmetic>(ar: &A) -> bool {
    &&& forall|a: Scalar, b: Scalar|
        a.is_nan_spec() || b.is_nan_spec() ==> (#[trigger] sum(ar, a, b)).is_nan_spec()
    &&& forall|a: Scalar, b: Scalar|
        a.is_nan_spec() || b.is_nan_spec() ==> (#[trigger] product(ar, a, b)).is_nan_spec()
    &&& forall|a: Scalar, b: Scalar|
        a.is_finite_spec() && b.is_finite_spec() && zero().le_spec(a) && zero().le_spec(b)
            ==> zero().le_spec(#[trigger] product(ar, a, b))
    &&& forall|a: Scalar, b: Scalar|
        a.is_finite_spec() && zero().le_spec(b) ==> a.le_spec(#[trigger] sum(ar, a, b))
}

/// What every rounding keeps of the order of finite values: sums and products
/// with a factor that is not negative grow with each operand, a difference of a
/// value and one that is not above it is not negative, and one is neutral.
pub open spec fn keeps_order<A: Arithmetic>(ar: &A) -> bool {
    &&& forall|a: Scalar, b: Scalar, c: Scalar|
        c.is_finite_spec() && a.is_finite_spec() && b.is_finite_spec() && a.le_spec(b) ==> (
        #[trigger] sum(ar, a, c)).le_spec(#[trigger] sum(ar, b, c))
    &&& forall|a: Scalar, b: Scalar, c: Scalar|
        c.is_finite_spec() && a.is_finite_spec() && b.is_finite_spec() && a.le_spec(b) ==> (
        #[trigger] sum(ar, c, a)).le_spec(#[trigger] sum(ar, c, b))
    &&& forall|k: Scalar, a: Scalar, b: Scalar|
        k.is_finite_spec() && a.is_finite_spec() && b.is_finite_spec() && zero().le_spec(k)
            && a.le_spec(b) ==> (#[trigger] product(ar, k, a)).le_spec(
            #[trigger] product(ar, k, b),
        )
    &&& forall|a: Scalar, b: Scalar|
        a.is_finite_spec() && b.is_finite_spec() && a.le_spec(b) ==> zero().le_spec(
            #[trigger] difference(ar, b, a),
        )
    &&& forall|a: Scalar|
        !a.is_nan_spec() ==> #[trigger] product(ar, a, one()) == a
}

/// A quotient of a number by a positive finite value is a number.
pub open spec fn divides<A: Arithmetic>(ar: &A) -> bool {
    forall|a: Scalar, b: Scalar|
        !a.is_nan_spec() && b.is_finite_spec() && zero().lt_spec(b) ==> !(
        #[trigger] quotient(ar, a, b)).is_nan_spec()
}

/// What every rounding to nearest keeps of signs: a product that is a number
/// changes its sign with its second factor, a quotient with its dividend.
pub open spec fn mirrors<A: Arithmetic>(ar: &A) -> bool {
    &&& forall|a: Scalar, b: Scalar|
        !product(ar, a, b).is_nan_spec() ==> #[trigger] product(ar, a, b.neg_spec()) == product(
            ar,
            a,
            b,
        ).neg_spec()
    &&& forall|a: Scalar, b: Scalar|
        !quotient(ar, a, b).is_nan_spec() ==> #[trigger] quotient(ar, a.neg_spec(), b)
            == quotient(ar, a, b).neg_spec()
}

/// `a + b`, component by component.
pub open spec fn vec_sum<A: Arithmetic>(ar: &A, a: Vec3, b: Vec3) -> Vec3 {
    Vec3 { x: sum(ar, a.x, b.x), y: sum(ar, a.y, b.y), z: sum(ar, a.z, b.z) }
}

/// `a - b`, component by component.
pub open spec fn vec_difference<A: Arithmetic>(ar: &A, a: Vec3, b: Vec3) -> Vec3 {
    Vec3 {
        x: difference(ar, a.x, b.x),
        y: difference(ar, a.y, b.y),
        z: difference(ar, a.z, b.z),
    }
}

/// `a * k`, component by component.
pub open spec fn vec_scaled<A: Arithmetic>(ar: &A, a: Vec3, k: Scalar) -> Vec3 {
    Vec3 { x: product(ar, a.x, k), y: product(ar, a.y, k), z: product(ar, a.z, k) }
}

/// Sum of the squares of the components.
pub open spec fn norm_squared<A: Arithmetic>(ar: &A, a: Vec3) -> Scalar {
    sum(
        ar,
        sum(ar, product(ar, a.x, a.x), product(ar, a.y, a.y)),
        product(ar, a.z, a.z),
    )
}

/// Length of a vector.
pub open spec fn norm<A: Arithmetic>(ar: &A, a: Vec3) -> Scalar {
    root(ar, norm_squared(ar, a))
}

/// Cross product.
pub open spec fn cross<A: Arithmetic>(ar: &A, a: Vec3, b: Vec3) -> Vec3 {
    Vec3 {
        x: difference(ar, product(ar, a.y, b.z), product(ar, a.z, b.y)),
        y: difference(ar, product(ar, a.z, b.x), product(ar, a.x, b.z)),
        z: difference(ar, product(ar, a.x, b.y), product(ar, a.y, b.x)),
    }
}

/// `a + b`.
pub fn vec_plus<A: Arithmetic>(ar: &A, a: Vec3, b: Vec3) -> (r: Vec3)
    ensures
        deterministic(ar) ==> r == vec_sum(ar, a, b),
{
    Vec3 { x: ar.plus(a.x, b.x), y: ar.plus(a.y, b.y), z: ar.plus(a.z, b.z) }
}

/// `a - b`.
pub fn vec_minus<A: Arithmetic>(ar: &A, a: Vec3, b: Vec3) -> (r: Vec3)
    ensures
        deterministic(ar) ==> r == vec_difference(ar, a, b),
{
    Vec3 { x: ar.minus(a.x, b.x), y: ar.minus(a.y, b.y), z: ar.minus(a.z, b.z) }
}

/// `a * k`.
pub fn vec_times<A: Arithmetic>(ar: &A, a: Vec3, k: Scalar) -> (r: Vec3)
    ensures
        deterministic(ar) ==> r == vec_scaled(ar, a, k),
{
    Vec3 { x: ar.times(a.x, k), y: ar.times(a.y, k), z: ar.times(a.z, k) }
}

/// Length of a vector.
pub fn vec_norm<A: Arithmetic>(ar: &A, a: Vec3) -> (r: Scalar)
    ensures
        deterministic(ar) ==> r == norm(ar, a),
{
    let xy = ar.plus(ar.times(a.x, a.x), ar.times(a.y, a.y));
    ar.sqrt(ar.plus(xy, ar.times(a.z, a.z)))
}

/// Cross product.
pub fn vec_cross<A: Arithmetic>(ar: &A, a: Vec3, b: Vec3) -> (r: Vec3)
    ensures
        deterministic(ar) ==> r == cross(ar, a, b),
{
    Vec3 {
        x: ar.minus(ar.times(a.y, b.z), ar.times(a.z, b.y)),
        y: ar.minus(ar.times(a.z, b.x), ar.times(a.x, b.z)),
        z: ar.minus(ar.times(a.x, b.y), ar.times(a.y, b.x)),
    }
}

} // verus!
