//! Products of real numbers, and readings of scalars as real numbers.
//!
//! A product is kept folded, so that proofs over products go by the few laws here
//! and stay linear.

use vstd::prelude::*;
use crate::scalar::{zero, Scalar};

verus! {

/// The product of two real numbers.
#[verifier::opaque]
pub open spec fn times(a: real, b: real) -> real {
    a * b
}

/// The size of a real number.
pub open spec fn size(x: real) -> real {
    if x < 0real {
        -x
    } else {
        x
    }
}

/// The order of the factors does not matter.
pub proof fn commutes(a: real, b: real)
    ensures
        times(a, b) == times(b, a),
{
    reveal(times);
    assert(a * b == b * a) by (nonlinear_arith);
}

/// The grouping of the factors does not matter.
pub proof fn associates(a: real, b: real, c: real)
    ensures
        times(times(a, b), c) == times(a, times(b, c)),
{
    reveal(times);
    assert((a * b) * c == a * (b * c)) by (nonlinear_arith);
}

/// A product with a sum is the sum of the products.
pub proof fn distributes(a: real, b: real, c: real)
    ensures
        times(a, b + c) == times(a, b) + times(a, c),
{
    reveal(times);
    assert(a * (b + c) == a * b + a * c) by (nonlinear_arith);
}

/// One is neutral.
pub proof fn one_is_neutral(a: real)
    ensures
        times(a, 1real) == a,
{
    reveal(times);
    assert(a * 1real == a) by (nonlinear_arith);
}

/// A product of positive numbers is positive.
pub proof fn positive(a: real, b: real)
    requires
        a > 0real,
        b > 0real,
    ensures
        times(a, b) > 0real,
{
    reveal(times);
    assert(a * b > 0real) by (nonlinear_arith)
        requires
            a > 0real,
            b > 0real,
    ;
}

/// A product with zero is zero.
pub proof fn vanishes(a: real)
    ensures
        times(a, 0real) == 0real,
{
    distributes(a, 0real, 0real);
}

/// A product changes its sign with a factor.
pub proof fn negates(a: real, b: real)
    ensures
        times(a, -b) == -times(a, b),
        times(-a, b) == -times(a, b),
{
    distributes(a, b, -b);
    vanishes(a);
    distributes(b, a, -a);
    vanishes(b);
    commutes(a, b);
    commutes(-a, b);
    assert(b + (-b) == 0real);
    assert(a + (-a) == 0real);
}

/// A product with a difference is the difference of the products.
pub proof fn subtracts(a: real, b: real, c: real)
    ensures
        times(a, b - c) == times(a, b) - times(a, c),
{
    distributes(a, b, -c);
    negates(a, c);
    assert(b + (-c) == b - c);
}

/// The same with the difference as the first factor.
pub proof fn subtracts_left(a: real, b: real, c: real)
    ensures
        times(b - c, a) == times(b, a) - times(c, a),
{
    subtracts(a, b, c);
    commutes(a, b - c);
    commutes(a, b);
    commutes(a, c);
}

/// The same with a sum as the first factor.
pub proof fn distributes_left(a: real, b: real, c: real)
    ensures
        times(b + c, a) == times(b, a) + times(c, a),
{
    distributes(a, b, c);
    commutes(a, b + c);
    commutes(a, b);
    commutes(a, c);
}

/// A factor moves past another.
pub proof fn swaps(a: real, b: real, c: real)
    ensures
        times(a, times(b, c)) == times(b, times(a, c)),
{
    associates(a, b, c);
    associates(b, a, c);
    commutes(a, b);
}

/// A product of numbers that are not negative is not negative.
pub proof fn not_negative(a: real, b: real)
    requires
        a >= 0real,
        b >= 0real,
    ensures
        times(a, b) >= 0real,
{
    if a > 0real && b > 0real {
        positive(a, b);
    } else if a == 0real {
        vanishes(b);
        commutes(a, b);
    } else {
        vanishes(a);
    }
}

/// A square is not negative.
pub proof fn square_is_not_negative(a: real)
    ensures
        times(a, a) >= 0real,
{
    if a >= 0real {
        not_negative(a, a);
    } else {
        not_negative(-a, -a);
        negates(-a, a);
        negates(a, a);
    }
}

/// A positive factor cancels.
pub proof fn cancels(a: real, b: real, c: real)
    requires
        a > 0real,
        times(a, b) == times(a, c),
    ensures
        b == c,
{
    subtracts(a, b, c);
    subtracts(a, c, b);
    if b > c {
        positive(a, b - c);
    }
    if c > b {
        positive(a, c - b);
    }
}

/// Numbers that are not negative are equal when their squares are.
pub proof fn same_square(a: real, b: real)
    requires
        a >= 0real,
        b >= 0real,
        times(a, a) == times(b, b),
    ensures
        a == b,
{
    subtracts_left(a + b, a, b);
    subtracts_left(a + b, b, a);
    distributes(a, a, b);
    distributes(b, a, b);
    commutes(a, b);
    if a > b {
        positive(a - b, a + b);
    }
    if b > a {
        positive(b - a, a + b);
    }
}

/// The square of a product is the product of the squares.
pub proof fn square_of_product(a: real, b: real)
    ensures
        times(times(a, b), times(a, b)) == times(times(a, a), times(b, b)),
{
    associates(a, b, times(a, b));
    swaps(b, a, b);
    associates(a, a, times(b, b));
}

/// The square of a difference.
pub proof fn square_of_difference(a: real, b: real)
    ensures
        times(a - b, a - b) == times(a, a) - 2real * times(a, b) + times(b, b),
{
    subtracts_left(a - b, a, b);
    subtracts(a, a, b);
    subtracts(b, a, b);
    commutes(a, b);
}

/// The square of a sum.
pub proof fn square_of_sum(a: real, b: real)
    ensures
        times(a + b, a + b) == times(a, a) + 2real * times(a, b) + times(b, b),
{
    distributes_left(a + b, a, b);
    distributes(a, a, b);
    distributes(b, a, b);
    commutes(a, b);
}

/// The first factors of two products change places.
pub proof fn exchanges(a: real, b: real, c: real, d: real)
    ensures
        times(times(a, b), times(c, d)) == times(times(c, b), times(a, d)),
{
    associates(a, b, times(c, d));
    swaps(b, c, d);
    swaps(a, c, times(b, d));
    associates(c, b, times(a, d));
    swaps(b, a, d);
}

/// A product grows with its second factor.
pub proof fn grows(k: real, a: real, b: real)
    requires
        k >= 0real,
        a <= b,
    ensures
        times(k, a) <= times(k, b),
{
    not_negative(k, b - a);
    subtracts(k, b, a);
}

/// The larger in size has the larger square.
pub proof fn squares_grow(a: real, b: real)
    requires
        size(a) <= size(b),
    ensures
        times(a, a) <= times(b, b),
{
    let x = size(a);
    let y = size(b);
    grows(x, x, y);
    grows(y, x, y);
    commutes(x, y);
    negates(a, a);
    negates(-a, a);
    negates(b, b);
    negates(-b, b);
}

/// Turning a vector by an angle keeps the sum of the squares of its parts.
pub proof fn turning_keeps_the_length(c: real, s: real, x: real, y: real)
    requires
        times(c, c) + times(s, s) == 1real,
    ensures
        ({
            let u = times(c, x) + times(s, y);
            let v = times(c, y) - times(s, x);
            times(u, u) + times(v, v) == times(x, x) + times(y, y)
        }),
{
    square_of_sum(times(c, x), times(s, y));
    square_of_difference(times(c, y), times(s, x));
    square_of_product(c, x);
    square_of_product(s, y);
    square_of_product(c, y);
    square_of_product(s, x);
    exchanges(c, x, s, y);
    commutes(times(s, x), times(c, y));
    let xx = times(x, x);
    let yy = times(y, y);
    distributes_left(xx, times(c, c), times(s, s));
    distributes_left(yy, times(c, c), times(s, s));
    one_is_neutral(xx);
    one_is_neutral(yy);
    commutes(1real, xx);
    commutes(1real, yy);
}

/// `val` reads scalars as real numbers: it keeps the order of numbers, and
/// negation negates.
pub open spec fn is_reading(val: spec_fn(Scalar) -> real) -> bool {
    &&& val(zero()) == 0real
    &&& forall|a: Scalar, b: Scalar|
        !a.is_nan_spec() && !b.is_nan_spec() ==> (#[trigger] a.lt_spec(b) <==> val(a) < val(b))
    &&& forall|a: Scalar| val(#[trigger] a.neg_spec()) == -val(a)
}

/// A reading reads `|a|` as the size of `a`.
pub proof fn size_is_read(val: spec_fn(Scalar) -> real, a: Scalar)
    requires
        is_reading(val),
        !a.is_nan_spec(),
    ensures
        val(a.abs_spec()) == size(val(a)),
        !a.abs_spec().is_nan_spec(),
{
    if a.is_signed() {
        assert(a.abs_spec() == a.neg_spec());
        assert(!zero().lt_spec(a));
    } else {
        assert(a.abs_spec() == a);
        assert(!a.lt_spec(zero()));
    }
}

} // verus!
