//! Steps of an arithmetic that do not round.
//!
//! A reading takes scalars to real numbers. Of a step on given operands these
//! predicates say that its result reads as the real result. Laws of geometry and
//! mechanics are stated where the steps they rest on are exact.

use vstd::prelude::*;
use crate::arith::{
    cosine, difference, product, quotient, sine, sum, Arithmetic,
};
use crate::reals::{
    associates, commutes, distributes, distributes_left, one_is_neutral, subtracts_left, times,
};
use crate::scalar::{Mat3, Scalar, Vec3};

verus! {

/// `a + b` is exact.
pub open spec fn adds<A: Arithmetic>(
    ar: &A,
    val: spec_fn(Scalar) -> real,
    a: Scalar,
    b: Scalar,
) -> bool {
    val(sum(ar, a, b)) == val(a) + val(b)
}

/// `a - b` is exact.
pub open spec fn takes<A: Arithmetic>(
    ar: &A,
    val: spec_fn(Scalar) -> real,
    a: Scalar,
    b: Scalar,
) -> bool {
    val(difference(ar, a, b)) == val(a) - val(b)
}

/// `a b` is exact.
pub open spec fn multiplies<A: Arithmetic>(
    ar: &A,
    val: spec_fn(Scalar) -> real,
    a: Scalar,
    b: Scalar,
) -> bool {
    val(product(ar, a, b)) == times(val(a), val(b))
}

/// `a / b` is exact.
pub open spec fn shares<A: Arithmetic>(
    ar: &A,
    val: spec_fn(Scalar) -> real,
    a: Scalar,
    b: Scalar,
) -> bool {
    times(val(quotient(ar, a, b)), val(b)) == val(a)
}

/// `a b + c d` is exact, step by step.
pub open spec fn adds_products<A: Arithmetic>(
    ar: &A,
    val: spec_fn(Scalar) -> real,
    a: Scalar,
    b: Scalar,
    c: Scalar,
    d: Scalar,
) -> bool {
    &&& multiplies(ar, val, a, b)
    &&& multiplies(ar, val, c, d)
    &&& adds(ar, val, product(ar, a, b), product(ar, c, d))
}

/// `a b - c d` is exact, step by step.
pub open spec fn takes_products<A: Arithmetic>(
    ar: &A,
    val: spec_fn(Scalar) -> real,
    a: Scalar,
    b: Scalar,
    c: Scalar,
    d: Scalar,
) -> bool {
    &&& multiplies(ar, val, a, b)
    &&& multiplies(ar, val, c, d)
    &&& takes(ar, val, product(ar, a, b), product(ar, c, d))
}

/// `a + b c` is exact, step by step.
pub open spec fn adds_product<A: Arithmetic>(
    ar: &A,
    val: spec_fn(Scalar) -> real,
    a: Scalar,
    b: Scalar,
    c: Scalar,
) -> bool {
    multiplies(ar, val, b, c) && adds(ar, val, a, product(ar, b, c))
}

/// A vector of real numbers.
pub struct RealVec {
    /// Forward.
    pub x: real,
    /// To the left.
    pub y: real,
    /// Up.
    pub z: real,
}

/// A vector as `val` reads it.
pub open spec fn read(val: spec_fn(Scalar) -> real, v: Vec3) -> RealVec {
    RealVec { x: val(v.x), y: val(v.y), z: val(v.z) }
}

/// Sum of the products of the parts.
pub open spec fn inner(a: RealVec, b: RealVec) -> real {
    times(a.x, b.x) + times(a.y, b.y) + times(a.z, b.z)
}

/// Cross product.
pub open spec fn crossed(a: RealVec, b: RealVec) -> RealVec {
    RealVec {
        x: times(a.y, b.z) - times(a.z, b.y),
        y: times(a.z, b.x) - times(a.x, b.z),
        z: times(a.x, b.y) - times(a.y, b.x),
    }
}

/// A matrix times a vector.
pub open spec fn mapped(val: spec_fn(Scalar) -> real, m: Mat3, v: RealVec) -> RealVec {
    RealVec {
        x: inner(read(val, m.x), v),
        y: inner(read(val, m.y), v),
        z: inner(read(val, m.z), v),
    }
}

/// The sine and the cosine of an angle are those of a turn.
pub open spec fn turns<A: Arithmetic>(ar: &A, val: spec_fn(Scalar) -> real, a: Scalar) -> bool {
    let s = val(sine(ar, a));
    let c = val(cosine(ar, a));
    times(c, c) + times(s, s) == 1real
}

/// The part of a world vector along the heading of a yaw.
pub open spec fn ahead<A: Arithmetic>(
    ar: &A,
    val: spec_fn(Scalar) -> real,
    yaw: Scalar,
    x: real,
    y: real,
) -> real {
    times(x, val(cosine(ar, yaw))) + times(y, val(sine(ar, yaw)))
}

/// The part of a world vector to the left of the heading of a yaw.
pub open spec fn aside<A: Arithmetic>(
    ar: &A,
    val: spec_fn(Scalar) -> real,
    yaw: Scalar,
    x: real,
    y: real,
) -> real {
    times(y, val(cosine(ar, yaw))) - times(x, val(sine(ar, yaw)))
}

/// A vector with parts `x` ahead and `y` aside of a heading has these parts.
pub proof fn heading_parts(c: real, s: real, x: real, y: real)
    requires
        times(c, c) + times(s, s) == 1real,
    ensures
        ({
            let u = times(x, c) - times(y, s);
            let v = times(x, s) + times(y, c);
            &&& times(u, c) + times(v, s) == x
            &&& times(v, c) - times(u, s) == y
        }),
{
    subtracts_left(c, times(x, c), times(y, s));
    distributes_left(s, times(x, s), times(y, c));
    associates(x, c, c);
    associates(y, s, c);
    associates(x, s, s);
    associates(y, c, s);
    commutes(s, c);
    distributes(x, times(c, c), times(s, s));
    one_is_neutral(x);
    distributes_left(c, times(x, s), times(y, c));
    subtracts_left(s, times(x, c), times(y, s));
    associates(x, s, c);
    associates(y, c, c);
    associates(x, c, s);
    associates(y, s, s);
    distributes(y, times(c, c), times(s, s));
    one_is_neutral(y);
}

} // verus!
