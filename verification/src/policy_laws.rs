//! Laws of the policy's probes and checks: what a drawn observation and a measured gravity
//! are.
//!
//! Each law is stated for a reading of scalars as real numbers under which the steps
//! that it rests on are exact.

use vstd::prelude::*;
use crate::arith::{counted, difference, product, quotient, root, sum, Arithmetic};
use crate::exact::{adds, adds_product, adds_products, multiplies, shares, takes};
use crate::policy::gravity_norm;
use crate::policy_probe::{
    draw, gravity_length, probe_entry, uniform, LEAST_LENGTH_BITS, TWO_32_BITS, TWO_52_BITS,
};
use crate::reals::{
    cancels, commutes, distributes_left, is_reading, not_negative, one_is_neutral, positive,
    square_of_product, times,
};
use crate::scalar::{one, zero, Scalar};
use crate::single::{single_product, single_root, single_sum, Single, SingleArithmetic};

verus! {

/// The length of a gravity is the root of the sum of the squares of its parts.
pub proof fn the_gravity_norm_is_its_length<B: SingleArithmetic>(
    sa: &B,
    sval: spec_fn(Single) -> real,
    obs: Seq<Single>,
)
    requires
        ({
            let x = single_product(sa, obs[3], obs[3]);
            let y = single_product(sa, obs[4], obs[4]);
            let z = single_product(sa, obs[5], obs[5]);
            let xy = single_sum(sa, x, y);
            let xyz = single_sum(sa, xy, z);
            let n = sval(single_root(sa, xyz));
            &&& sval(x) == times(sval(obs[3]), sval(obs[3]))
            &&& sval(y) == times(sval(obs[4]), sval(obs[4]))
            &&& sval(z) == times(sval(obs[5]), sval(obs[5]))
            &&& sval(xy) == sval(x) + sval(y)
            &&& sval(xyz) == sval(xy) + sval(z)
            &&& n >= 0real
            &&& times(n, n) == sval(xyz)
        }),
    ensures
        ({
            let n = sval(gravity_norm(sa, obs));
            &&& n >= 0real
            &&& times(n, n) == times(sval(obs[3]), sval(obs[3])) + times(
                sval(obs[4]),
                sval(obs[4]),
            ) + times(sval(obs[5]), sval(obs[5]))
        }),
{
}

/// A seed is spread over the numbers from minus one on: one more than the number, times two to
/// the 52nd, is made of the upper and the lower bits.
pub proof fn a_seed_is_spread_evenly<A: Arithmetic>(
    ar: &A,
    val: spec_fn(Scalar) -> real,
    seed: u64,
)
    requires
        val(one()) == 1real,
        ({
            let high = counted(ar, (seed >> 43u64) as usize);
            let low = counted(ar, ((seed >> 11u64) & 0xffff_ffffu64) as usize);
            let all = sum(ar, product(ar, high, Scalar { bits: TWO_32_BITS }), low);
            &&& multiplies(ar, val, high, Scalar { bits: TWO_32_BITS })
            &&& adds(ar, val, product(ar, high, Scalar { bits: TWO_32_BITS }), low)
            &&& shares(ar, val, all, Scalar { bits: TWO_52_BITS })
            &&& takes(ar, val, quotient(ar, all, Scalar { bits: TWO_52_BITS }), one())
        }),
    ensures
        ({
            let high = val(counted(ar, (seed >> 43u64) as usize));
            let low = val(counted(ar, ((seed >> 11u64) & 0xffff_ffffu64) as usize));
            times(val(uniform(ar, seed)) + 1real, val(Scalar { bits: TWO_52_BITS })) == times(
                high,
                val(Scalar { bits: TWO_32_BITS }),
            ) + low
        }),
{
}

/// The gravity of a probe is a direction that points down: it is one long, and its vertical
/// part is not above nothing when the draw is below one.
pub proof fn a_probe_is_pulled_down<A: Arithmetic>(
    ar: &A,
    val: spec_fn(Scalar) -> real,
    seed: u64,
)
    requires
        is_reading(val),
        val(one()) == 1real,
        val(draw(ar, seed, 5)) < 1real,
        ({
            let x = draw(ar, seed, 3);
            let y = draw(ar, seed, 4);
            let z = difference(ar, draw(ar, seed, 5), one());
            let xy = sum(ar, product(ar, x, x), product(ar, y, y));
            let n = root(ar, sum(ar, xy, product(ar, z, z)));
            &&& takes(ar, val, draw(ar, seed, 5), one())
            &&& adds_products(ar, val, x, x, y, y)
            &&& adds_product(ar, val, xy, z, z)
            &&& !n.is_nan_spec()
            &&& !n.lt_spec(Scalar { bits: LEAST_LENGTH_BITS })
            &&& times(val(n), val(n)) == val(sum(ar, xy, product(ar, z, z)))
            &&& shares(ar, val, x, n)
            &&& shares(ar, val, y, n)
            &&& shares(ar, val, z, n)
        }),
    ensures
        ({
            let x = val(probe_entry(ar, seed, 3));
            let y = val(probe_entry(ar, seed, 4));
            let z = val(probe_entry(ar, seed, 5));
            &&& times(x, x) + times(y, y) + times(z, z) == 1real
            &&& z < 0real
        }),
{
    let x = draw(ar, seed, 3);
    let y = draw(ar, seed, 4);
    let z = difference(ar, draw(ar, seed, 5), one());
    let n = val(gravity_length(ar, x, y, z));
    let least = Scalar { bits: LEAST_LENGTH_BITS };
    assert(zero().lt_spec(least));
    assert(!zero().is_nan_spec() && !least.is_nan_spec());
    assert(n > 0real);
    let a = val(probe_entry(ar, seed, 3));
    let b = val(probe_entry(ar, seed, 4));
    let c = val(probe_entry(ar, seed, 5));
    square_of_product(a, n);
    square_of_product(b, n);
    square_of_product(c, n);
    let nn = times(n, n);
    let s = times(a, a) + times(b, b) + times(c, c);
    distributes_left(nn, times(a, a), times(b, b));
    distributes_left(nn, times(a, a) + times(b, b), times(c, c));
    positive(n, n);
    one_is_neutral(nn);
    commutes(nn, s);
    cancels(nn, s, 1real);
    if c >= 0real {
        not_negative(c, n);
    }
}

} // verus!
