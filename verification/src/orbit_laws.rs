//! Laws of the periodic bound: what its steps, its search and its table owe to the planar
//! body.
//!
//! Each law is stated for a reading of scalars as real numbers under which the steps
//! that it rests on are exact.

use vstd::prelude::*;
use crate::arith::{counted, difference, product, quotient, sum, Arithmetic};
use crate::bound_laws::{
    a_step_takes_the_mean_of_a_bending_rate, few_times, planar_rate_is_exact, reads_numbers,
    the_pairs_move_the_planar_body, two_halves,
};
use crate::bound_orbit_search::{damped_entry, margin_with, probe, seed, slope, SMALL_BITS};
use crate::bound_periodic_orbit::{
    body_penalties, flight_time, forces, height_sum, moved, openings, pair_penalties, part_time,
    positive_part, quadratic, rate, residual_values, rk4, stance_of, stance_time, state_after,
    PairForces, PeriodicBoundParams, Planar, Stance, BOUND_WEIGHT_BITS, CLOSE_WEIGHT_BITS,
    CONE_WEIGHT_BITS, LEAST_HEIGHT_BITS, PITCH_WEIGHT_BITS, SEARCH_PARTS, SIX_BITS,
};
use crate::bound_reference::GRAVITY_BITS;
use crate::config::HALF_BITS;
use crate::exact::{adds, adds_product, multiplies, shares, takes};
use crate::full_centroidal_footstep::{first_above, interpolated, LEAST_SPAN_BITS};
use crate::ik::TWO_BITS;
use crate::reals::{
    associates, cancels, commutes, distributes, distributes_left, is_reading, negates, not_negative,
    one_is_neutral, positive, size, size_is_read, subtracts_left, times, vanishes,
};
use crate::scalar::{one, zero, Scalar};

verus! {

/// Two stances and two flights make up the cycle.
pub proof fn stances_and_flights_make_up_the_cycle<A: Arithmetic>(
    ar: &A,
    val: spec_fn(Scalar) -> real,
    p: PeriodicBoundParams,
)
    requires
        val(Scalar { bits: HALF_BITS }) + val(Scalar { bits: HALF_BITS }) == 1real,
        multiplies(ar, val, p.duty_factor, p.cycle_period_s),
        multiplies(ar, val, Scalar { bits: HALF_BITS }, p.cycle_period_s),
        takes(
            ar,
            val,
            product(ar, Scalar { bits: HALF_BITS }, p.cycle_period_s),
            product(ar, p.duty_factor, p.cycle_period_s),
        ),
    ensures
        ({
            let s = val(stance_time(ar, p));
            let f = val(flight_time(ar, p));
            &&& s == times(val(p.duty_factor), val(p.cycle_period_s))
            &&& s + f + s + f == val(p.cycle_period_s)
        }),
{
    two_halves(val(Scalar { bits: HALF_BITS }), val(p.cycle_period_s));
}

/// A force follows its quadratic over a stance.
pub proof fn a_force_follows_its_quadratic<A: Arithmetic>(
    ar: &A,
    val: spec_fn(Scalar) -> real,
    c: Seq<Scalar>,
    i: int,
    t: Scalar,
)
    requires
        adds_product(ar, val, c[i], c[i + 1], t),
        multiplies(ar, val, c[i + 2], t),
        adds_product(
            ar,
            val,
            sum(ar, c[i], product(ar, c[i + 1], t)),
            product(ar, c[i + 2], t),
            t,
        ),
    ensures
        ({
            let x = val(t);
            val(quadratic(ar, c, i, t)) == val(c[i]) + times(val(c[i + 1]), x) + times(
                val(c[i + 2]),
                times(x, x),
            )
        }),
{
    associates(val(c[i + 2]), val(t), val(t));
}

/// Only the pair on the ground pushes, each force by the coefficients that are its own.
pub proof fn only_the_pair_on_the_ground_pushes<A: Arithmetic>(ar: &A, t: Scalar, c: Seq<Scalar>)
    ensures
        ({
            let f = forces(ar, Stance::Front, t, c);
            let r = forces(ar, Stance::Rear, t, c);
            let o = forces(ar, Stance::Flight, t, c);
            &&& f.rx == zero() && f.rz == zero()
            &&& r.fx == zero() && r.fz == zero()
            &&& o == (PairForces { fx: zero(), fz: zero(), rx: zero(), rz: zero() })
            &&& f.fx == quadratic(ar, c, 5, t) && f.fz == quadratic(ar, c, 8, t)
            &&& r.rx == quadratic(ar, c, 11, t) && r.rz == quadratic(ar, c, 14, t)
        }),
{
}

/// The steps that move a planar state are exact.
pub open spec fn moving_is_exact<A: Arithmetic>(
    ar: &A,
    val: spec_fn(Scalar) -> real,
    s: Planar,
    k: Planar,
    h: Scalar,
) -> bool {
    &&& adds_product(ar, val, s.x, h, k.x)
    &&& adds_product(ar, val, s.z, h, k.z)
    &&& adds_product(ar, val, s.th, h, k.th)
    &&& adds_product(ar, val, s.vx, h, k.vx)
    &&& adds_product(ar, val, s.vz, h, k.vz)
    &&& adds_product(ar, val, s.w, h, k.w)
}

/// A planar state moves by its rate times the time.
pub proof fn a_planar_state_moves_by_its_rate<A: Arithmetic>(
    ar: &A,
    val: spec_fn(Scalar) -> real,
    s: Planar,
    k: Planar,
    h: Scalar,
)
    requires
        moving_is_exact(ar, val, s, k, h),
    ensures
        ({
            let r = moved(ar, s, k, h);
            let t = val(h);
            &&& val(r.x) - val(s.x) == times(t, val(k.x))
            &&& val(r.z) - val(s.z) == times(t, val(k.z))
            &&& val(r.th) - val(s.th) == times(t, val(k.th))
            &&& val(r.vx) - val(s.vx) == times(t, val(k.vx))
            &&& val(r.vz) - val(s.vz) == times(t, val(k.vz))
            &&& val(r.w) - val(s.w) == times(t, val(k.w))
        }),
{
}

/// The steps of a weighed mean of four rates are exact.
pub open spec fn blending_is_exact<A: Arithmetic>(
    ar: &A,
    val: spec_fn(Scalar) -> real,
    s: Scalar,
    h: Scalar,
    a: Scalar,
    b: Scalar,
    c: Scalar,
    d: Scalar,
) -> bool {
    let two = Scalar { bits: TWO_BITS };
    let ab = sum(ar, a, product(ar, two, b));
    let abc = sum(ar, ab, product(ar, two, c));
    &&& adds_product(ar, val, a, two, b)
    &&& adds_product(ar, val, ab, two, c)
    &&& adds(ar, val, abc, d)
    &&& adds_product(ar, val, s, h, sum(ar, abc, d))
}

/// The rate of a planar body in flight.
proof fn free_rate<A: Arithmetic>(
    ar: &A,
    val: spec_fn(Scalar) -> real,
    p: PeriodicBoundParams,
    s: Planar,
    xf: Scalar,
    xr: Scalar,
)
    requires
        is_reading(val),
        val(p.mass_kg) > 0real,
        val(p.inertia_yy) > 0real,
        planar_rate_is_exact(ar, val, p, s, no_force(), xf, xr),
    ensures
        ({
            let r = rate(ar, p, s, no_force(), xf, xr);
            &&& val(r.x) == val(s.vx) && val(r.z) == val(s.vz) && val(r.th) == val(s.w)
            &&& val(r.vx) == 0real
            &&& val(r.vz) == -val(Scalar { bits: GRAVITY_BITS })
            &&& val(r.w) == 0real
        }),
{
    let r = rate(ar, p, s, no_force(), xf, xr);
    let m = val(p.mass_kg);
    let j = val(p.inertia_yy);
    let g = val(Scalar { bits: GRAVITY_BITS });
    the_pairs_move_the_planar_body(ar, val, p, s, no_force(), xf, xr);
    vanishes(val(xf) - val(s.x));
    vanishes(val(xr) - val(s.x));
    vanishes(val(s.z));
    vanishes(m);
    vanishes(j);
    commutes(m, val(r.vx));
    commutes(m, val(r.vz) + g);
    commutes(j, val(r.w));
    cancels(m, val(r.vx), 0real);
    cancels(m, val(r.vz) + g, 0real);
    cancels(j, val(r.w), 0real);
}

/// No force on either pair.
pub open spec fn no_force() -> PairForces {
    PairForces { fx: zero(), fz: zero(), rx: zero(), rz: zero() }
}

/// The states and rates that a step over part of a flight passes through.
pub open spec fn flight_is_exact<A: Arithmetic>(
    ar: &A,
    val: spec_fn(Scalar) -> real,
    p: PeriodicBoundParams,
    c: Seq<Scalar>,
    phase: int,
    n: usize,
    s: Planar,
) -> bool {
    let h = part_time(ar, p, phase, n);
    let half_h = product(ar, Scalar { bits: HALF_BITS }, h);
    let h6 = quotient(ar, h, Scalar { bits: SIX_BITS });
    let o = no_force();
    let k1 = rate(ar, p, s, o, c[17], c[18]);
    let s2 = moved(ar, s, k1, half_h);
    let k2 = rate(ar, p, s2, o, c[17], c[18]);
    let s3 = moved(ar, s, k2, half_h);
    let k3 = rate(ar, p, s3, o, c[17], c[18]);
    let s4 = moved(ar, s, k3, h);
    let k4 = rate(ar, p, s4, o, c[17], c[18]);
    &&& multiplies(ar, val, Scalar { bits: HALF_BITS }, h)
    &&& shares(ar, val, h, Scalar { bits: SIX_BITS })
    &&& planar_rate_is_exact(ar, val, p, s, o, c[17], c[18])
    &&& planar_rate_is_exact(ar, val, p, s2, o, c[17], c[18])
    &&& planar_rate_is_exact(ar, val, p, s3, o, c[17], c[18])
    &&& planar_rate_is_exact(ar, val, p, s4, o, c[17], c[18])
    &&& moving_is_exact(ar, val, s, k1, half_h)
    &&& moving_is_exact(ar, val, s, k2, half_h)
    &&& moving_is_exact(ar, val, s, k3, h)
    &&& blending_is_exact(ar, val, s.x, h6, k1.x, k2.x, k3.x, k4.x)
    &&& blending_is_exact(ar, val, s.z, h6, k1.z, k2.z, k3.z, k4.z)
    &&& blending_is_exact(ar, val, s.th, h6, k1.th, k2.th, k3.th, k4.th)
    &&& blending_is_exact(ar, val, s.vx, h6, k1.vx, k2.vx, k3.vx, k4.vx)
    &&& blending_is_exact(ar, val, s.vz, h6, k1.vz, k2.vz, k3.vz, k4.vz)
    &&& blending_is_exact(ar, val, s.w, h6, k1.w, k2.w, k3.w, k4.w)
}

/// Six sixths of a step make it up.
proof fn six_sixths(h6: real, h: real, x: real)
    requires
        times(h6, 6real) == h,
    ensures
        times(h6, 6real * x) == times(h, x),
{
    few_times(x);
    associates(h6, 6real, x);
}

/// A step over part of a flight is a throw: the body goes on at its speed, turns at its
/// rate, and rises and falls under gravity alone.
pub proof fn a_flight_is_a_throw<A: Arithmetic>(
    ar: &A,
    val: spec_fn(Scalar) -> real,
    p: PeriodicBoundParams,
    c: Seq<Scalar>,
    phase: int,
    i: usize,
    n: usize,
    s: Planar,
)
    requires
        is_reading(val),
        reads_numbers(val),
        val(Scalar { bits: SIX_BITS }) == 6real,
        val(p.mass_kg) > 0real,
        val(p.inertia_yy) > 0real,
        stance_of(phase) == Stance::Flight,
        flight_is_exact(ar, val, p, c, phase, n, s),
    ensures
        ({
            let r = rk4(ar, p, c, phase, i, n, s);
            let h = val(part_time(ar, p, phase, n));
            let g = val(Scalar { bits: GRAVITY_BITS });
            let v = val(s.vz);
            &&& val(r.x) - val(s.x) == times(h, val(s.vx))
            &&& val(r.th) - val(s.th) == times(h, val(s.w))
            &&& val(r.vx) == val(s.vx)
            &&& val(r.w) == val(s.w)
            &&& val(r.vz) - v == times(h, -g)
            &&& 2real * (val(r.z) - val(s.z)) == times(h, 2real * v - times(h, g))
        }),
{
    reveal(rk4);
    let h = part_time(ar, p, phase, n);
    let half_h = product(ar, Scalar { bits: HALF_BITS }, h);
    let h6 = quotient(ar, h, Scalar { bits: SIX_BITS });
    let o = no_force();
    let k1 = rate(ar, p, s, o, c[17], c[18]);
    let s2 = moved(ar, s, k1, half_h);
    let k2 = rate(ar, p, s2, o, c[17], c[18]);
    let s3 = moved(ar, s, k2, half_h);
    let k3 = rate(ar, p, s3, o, c[17], c[18]);
    let s4 = moved(ar, s, k3, h);
    let k4 = rate(ar, p, s4, o, c[17], c[18]);
    let g = val(Scalar { bits: GRAVITY_BITS });
    let t = val(h);
    let u = val(half_h);
    let v = val(s.vz);
    let fall = times(t, g);
    free_rate(ar, val, p, s, c[17], c[18]);
    free_rate(ar, val, p, s2, c[17], c[18]);
    free_rate(ar, val, p, s3, c[17], c[18]);
    free_rate(ar, val, p, s4, c[17], c[18]);
    vanishes(u);
    vanishes(t);
    negates(u, g);
    negates(t, g);
    two_halves(val(Scalar { bits: HALF_BITS }), t);
    distributes_left(g, u, u);
    assert(times(u, g) + times(u, g) == fall);
    let vx = val(s.vx);
    let w = val(s.w);
    a_step_takes_the_mean_of_a_bending_rate(
        ar, val, s.x, h6, k1.x, k2.x, k3.x, k4.x, vx, 0real, 0real,
    );
    a_step_takes_the_mean_of_a_bending_rate(
        ar, val, s.th, h6, k1.th, k2.th, k3.th, k4.th, w, 0real, 0real,
    );
    a_step_takes_the_mean_of_a_bending_rate(
        ar, val, s.z, h6, k1.z, k2.z, k3.z, k4.z, v, -fall, 0real,
    );
    a_step_takes_the_mean_of_a_bending_rate(
        ar, val, s.vx, h6, k1.vx, k2.vx, k3.vx, k4.vx, 0real, 0real, 0real,
    );
    a_step_takes_the_mean_of_a_bending_rate(
        ar, val, s.vz, h6, k1.vz, k2.vz, k3.vz, k4.vz, -g, 0real, 0real,
    );
    a_step_takes_the_mean_of_a_bending_rate(
        ar, val, s.w, h6, k1.w, k2.w, k3.w, k4.w, 0real, 0real, 0real,
    );
    let q = val(h6);
    six_sixths(q, t, vx);
    six_sixths(q, t, w);
    six_sixths(q, t, -g);
    vanishes(q);
    let rise = 6real * v + 3real * (-fall);
    distributes(q, rise, rise);
    assert(rise + rise == 6real * (2real * v - fall));
    six_sixths(q, t, 2real * v - fall);
}

/// A part that is not positive costs nothing.
proof fn a_part_reads(val: spec_fn(Scalar) -> real, a: Scalar)
    requires
        is_reading(val),
        !a.is_nan_spec(),
    ensures
        val(positive_part(a)) == (if val(a) > 0real { val(a) } else { 0real }),
{
    assert(!zero().is_nan_spec());
    assert(zero().lt_spec(a) <==> val(zero()) < val(a));
}

/// A pair on the ground is penalised exactly for pulling, for slipping and for a foot out of
/// reach, each by how much.
pub proof fn a_pair_pays_for_what_it_exceeds<A: Arithmetic>(
    ar: &A,
    val: spec_fn(Scalar) -> real,
    p: PeriodicBoundParams,
    fx: Scalar,
    fz: Scalar,
    foot: Scalar,
    x: Scalar,
)
    requires
        is_reading(val),
        !fx.is_nan_spec(),
        !fz.is_nan_spec(),
        !difference(ar, foot, x).is_nan_spec(),
        ({
            let mg = product(ar, p.mass_kg, Scalar { bits: GRAVITY_BITS });
            let bound = Scalar { bits: BOUND_WEIGHT_BITS };
            let cone = Scalar { bits: CONE_WEIGHT_BITS };
            let reach = product(ar, p.friction_mu, fz);
            let slip = difference(ar, fx.abs_spec(), reach);
            let far = difference(ar, difference(ar, foot, x).abs_spec(), p.reach);
            &&& !slip.is_nan_spec()
            &&& !far.is_nan_spec()
            &&& multiplies(ar, val, p.mass_kg, Scalar { bits: GRAVITY_BITS })
            &&& multiplies(ar, val, bound, positive_part(fz.neg_spec()))
            &&& shares(ar, val, product(ar, bound, positive_part(fz.neg_spec())), mg)
            &&& multiplies(ar, val, p.friction_mu, fz)
            &&& takes(ar, val, fx.abs_spec(), reach)
            &&& multiplies(ar, val, cone, positive_part(slip))
            &&& shares(ar, val, product(ar, cone, positive_part(slip)), mg)
            &&& takes(ar, val, foot, x)
            &&& takes(ar, val, difference(ar, foot, x).abs_spec(), p.reach)
            &&& multiplies(ar, val, bound, positive_part(far))
        }),
    ensures
        ({
            let r = pair_penalties(ar, p, fx, fz, foot, x);
            let weight = times(val(p.mass_kg), val(Scalar { bits: GRAVITY_BITS }));
            let bound = val(Scalar { bits: BOUND_WEIGHT_BITS });
            let cone = val(Scalar { bits: CONE_WEIGHT_BITS });
            let pull = -val(fz);
            let slip = size(val(fx)) - times(val(p.friction_mu), val(fz));
            let far = size(val(foot) - val(x)) - val(p.reach);
            &&& bound > 0real && cone > 0real
            &&& times(val(r[0]), weight) == times(bound, if pull > 0real { pull } else { 0real })
            &&& times(val(r[1]), weight) == times(cone, if slip > 0real { slip } else { 0real })
            &&& val(r[2]) == times(bound, if far > 0real { far } else { 0real })
        }),
{
    let bound = Scalar { bits: BOUND_WEIGHT_BITS };
    let cone = Scalar { bits: CONE_WEIGHT_BITS };
    assert(zero().lt_spec(bound) && zero().lt_spec(cone));
    assert(!zero().is_nan_spec() && !bound.is_nan_spec() && !cone.is_nan_spec());
    assert(val(fz.neg_spec()) == -val(fz));
    assert(!fz.neg_spec().is_nan_spec());
    a_part_reads(val, fz.neg_spec());
    size_is_read(val, fx);
    size_is_read(val, difference(ar, foot, x));
    a_part_reads(val, difference(ar, fx.abs_spec(), product(ar, p.friction_mu, fz)));
    a_part_reads(val, difference(ar, difference(ar, foot, x).abs_spec(), p.reach));
}

/// A derivative of the residuals is a secant: times its step it is what the residual changes
/// by when the unknown grows by the step.
pub proof fn a_slope_is_a_secant<A: Arithmetic>(
    ar: &A,
    val: spec_fn(Scalar) -> real,
    p: PeriodicBoundParams,
    c: Seq<Scalar>,
    r0: Seq<Scalar>,
    i: int,
    row: int,
)
    requires
        ({
            let h = probe(ar, c[i]);
            let r = residual_values(ar, p, c.update(i, sum(ar, c[i], h)))[row];
            &&& takes(ar, val, r, r0[row])
            &&& shares(ar, val, difference(ar, r, r0[row]), h)
        }),
    ensures
        ({
            let h = probe(ar, c[i]);
            let r = residual_values(ar, p, c.update(i, sum(ar, c[i], h)))[row];
            times(val(slope(ar, p, c, r0, i, row)), val(h)) == val(r) - val(r0[row])
        }),
{
}

/// The step of a secant is small and positive, and grows with the unknown.
pub proof fn a_secant_steps_forward<A: Arithmetic>(
    ar: &A,
    val: spec_fn(Scalar) -> real,
    x: Scalar,
)
    requires
        is_reading(val),
        val(one()) == 1real,
        !x.is_nan_spec(),
        adds(ar, val, one(), x.abs_spec()),
        multiplies(ar, val, Scalar { bits: SMALL_BITS }, sum(ar, one(), x.abs_spec())),
    ensures
        val(probe(ar, x)) == times(val(Scalar { bits: SMALL_BITS }), 1real + size(val(x))),
        val(probe(ar, x)) > 0real,
{
    let small = Scalar { bits: SMALL_BITS };
    assert(zero().lt_spec(small));
    assert(!zero().is_nan_spec() && !small.is_nan_spec());
    size_is_read(val, x);
    positive(val(small), 1real + size(val(x)));
}

/// Damping raises the diagonal and leaves the rest.
pub proof fn damping_raises_the_diagonal<A: Arithmetic>(
    ar: &A,
    val: spec_fn(Scalar) -> real,
    a: Seq<Vec<Scalar>>,
    lambda: Scalar,
    i: int,
    j: int,
)
    requires
        val(one()) == 1real,
        adds(ar, val, one(), a[i]@[i]),
        adds_product(ar, val, a[i]@[i], lambda, sum(ar, one(), a[i]@[i])),
    ensures
        val(damped_entry(ar, a, lambda, i, j)) - val(a[i]@[j]) == (if i == j {
            times(val(lambda), 1real + val(a[i]@[i]))
        } else {
            0real
        }),
{
}

/// The margin leaves room: with it taken off the friction, the tangential force of a pair
/// that presses is still within the cone.
pub proof fn the_margin_leaves_room<A: Arithmetic>(
    ar: &A,
    val: spec_fn(Scalar) -> real,
    mu: Scalar,
    so_far: Scalar,
    fx: Scalar,
    fz: Scalar,
)
    requires
        is_reading(val),
        !fx.is_nan_spec(),
        !fz.is_nan_spec(),
        !so_far.is_nan_spec(),
        (Scalar { bits: SMALL_BITS }).lt_spec(fz),
        ({
            let used = quotient(ar, fx.abs_spec(), fz);
            &&& shares(ar, val, fx.abs_spec(), fz)
            &&& takes(ar, val, mu, used)
            &&& !difference(ar, mu, used).is_nan_spec()
        }),
    ensures
        ({
            let m = val(margin_with(ar, mu, so_far, fx, fz));
            &&& m <= val(so_far)
            &&& size(val(fx)) <= times(val(mu) - m, val(fz))
        }),
{
    let small = Scalar { bits: SMALL_BITS };
    assert(zero().lt_spec(small));
    assert(!zero().is_nan_spec() && !small.is_nan_spec());
    assert(val(fz) > 0real);
    size_is_read(val, fx);
    let used = quotient(ar, fx.abs_spec(), fz);
    let left = difference(ar, mu, used);
    let m = margin_with(ar, mu, so_far, fx, fz);
    assert(so_far.lt_spec(left) <==> val(so_far) < val(left));
    assert(left.lt_spec(so_far) <==> val(left) < val(so_far));
    assert(val(m) <= val(left));
    let room = val(mu) - val(m);
    assert(room >= val(used));
    subtracts_left(val(fz), room, val(used));
    not_negative(room - val(used), val(fz));
}

/// A search starts from a body that is level and at the target speed, on feet that stand one
/// ahead and one behind, each pressed by the weight over its duty.
pub proof fn a_seed_stands_on_its_weight<A: Arithmetic>(
    ar: &A,
    val: spec_fn(Scalar) -> real,
    p: PeriodicBoundParams,
    vz0: Scalar,
)
    requires
        is_reading(val),
        multiplies(ar, val, p.mass_kg, Scalar { bits: GRAVITY_BITS }),
        shares(ar, val, product(ar, p.mass_kg, Scalar { bits: GRAVITY_BITS }), p.duty_factor),
    ensures
        ({
            let c = seed(ar, p, vz0);
            let weight = times(val(p.mass_kg), val(Scalar { bits: GRAVITY_BITS }));
            &&& c[0] == p.h0 && c[1] == zero() && c[2] == p.vx_target && c[3] == vz0
            &&& times(val(c[8]), val(p.duty_factor)) == weight
            &&& times(val(c[14]), val(p.duty_factor)) == weight
            &&& val(c[17]) == val(p.r_x) && val(c[17]) + val(c[18]) == 0real
        }),
{
    assert(val(p.r_x.neg_spec()) == -val(p.r_x));
}

/// The phase at which a row of a table stands next to a phase: the rows are those before and
/// after it, and past either end of the table they are a cycle apart.
pub open spec fn around(
    val: spec_fn(Scalar) -> real,
    table: Seq<[Scalar; 6]>,
    ph: Scalar,
) -> (int, real, int, real) {
    let n = table.len() as int;
    let hi = first_above(table, ph);
    if hi == 0 {
        (n - 1, val(table[n - 1]@[0]) - 1real, 0, val(table[0]@[0]))
    } else if hi == n {
        (n - 1, val(table[n - 1]@[0]), 0, val(table[0]@[0]) + 1real)
    } else {
        (hi - 1, val(table[hi - 1]@[0]), hi, val(table[hi]@[0]))
    }
}

/// A table is read on the line between the rows around a phase.
pub proof fn a_table_is_read_on_a_line<A: Arithmetic>(
    ar: &A,
    val: spec_fn(Scalar) -> real,
    table: Seq<[Scalar; 6]>,
    ph: Scalar,
    j: int,
)
    requires
        is_reading(val),
        val(one()) == 1real,
        table.len() > 0,
        0 <= first_above(table, ph) <= table.len(),
        ({
            let n = table.len() as int;
            let hi = first_above(table, ph);
            let a = if hi == 0 || hi == n { table[n - 1]@ } else { table[hi - 1]@ };
            let b = if hi == 0 || hi == n { table[0]@ } else { table[hi]@ };
            let from = if hi == 0 { difference(ar, a[0], one()) } else { a[0] };
            let to = if hi == n && hi != 0 { sum(ar, b[0], one()) } else { b[0] };
            let span = difference(ar, to, from);
            let frac = quotient(ar, difference(ar, ph, from), span);
            &&& takes(ar, val, a[0], one())
            &&& adds(ar, val, b[0], one())
            &&& takes(ar, val, to, from)
            &&& takes(ar, val, ph, from)
            &&& !span.lt_spec(Scalar { bits: LEAST_SPAN_BITS })
            &&& !span.is_nan_spec()
            &&& shares(ar, val, difference(ar, ph, from), span)
            &&& !frac.lt_spec(zero())
            &&& !one().lt_spec(frac)
            &&& takes(ar, val, b[j], a[j])
            &&& adds_product(ar, val, a[j], frac, difference(ar, b[j], a[j]))
        }),
    ensures
        ({
            let (low, from, high, to) = around(val, table, ph);
            let r = val(interpolated(ar, table, ph, j));
            let a = val(table[low]@[j]);
            let b = val(table[high]@[j]);
            times(r - a, to - from) == times(b - a, val(ph) - from)
        }),
{
    let n = table.len() as int;
    let hi = first_above(table, ph);
    let a = if hi == 0 || hi == n { table[n - 1]@ } else { table[hi - 1]@ };
    let b = if hi == 0 || hi == n { table[0]@ } else { table[hi]@ };
    let from = if hi == 0 { difference(ar, a[0], one()) } else { a[0] };
    let to = if hi == n && hi != 0 { sum(ar, b[0], one()) } else { b[0] };
    let span = difference(ar, to, from);
    let frac = val(quotient(ar, difference(ar, ph, from), span));
    let d = val(b[j]) - val(a[j]);
    commutes(frac, d);
    associates(d, frac, val(span));
}

/// The residuals weigh what is not closed, each opening by the weight of the closing, and end
/// with what the mean height is above the one asked for.
pub proof fn the_residuals_weigh_what_is_not_closed<A: Arithmetic>(
    ar: &A,
    val: spec_fn(Scalar) -> real,
    p: PeriodicBoundParams,
    c: Seq<Scalar>,
    i: int,
)
    requires
        val(one()) == 1real,
        0 <= i < 6,
        ({
            let o = openings(ar, p, c, state_after(ar, p, c, SEARCH_PARTS, 160));
            let all = height_sum(ar, p, c, 160);
            let mean = quotient(ar, all, counted(ar, 160));
            &&& multiplies(ar, val, Scalar { bits: CLOSE_WEIGHT_BITS }, o[i])
            &&& shares(ar, val, all, counted(ar, 160))
            &&& takes(ar, val, mean, p.h0)
            &&& multiplies(ar, val, one(), difference(ar, mean, p.h0))
        }),
    ensures
        ({
            let r = residual_values(ar, p, c);
            let o = openings(ar, p, c, state_after(ar, p, c, SEARCH_PARTS, 160));
            &&& val(r[i]) == times(val(Scalar { bits: CLOSE_WEIGHT_BITS }), val(o[i]))
            &&& times(val(r.last()) + val(p.h0), val(counted(ar, 160))) == val(
                height_sum(ar, p, c, 160),
            )
        }),
{
    let mean = quotient(ar, height_sum(ar, p, c, 160), counted(ar, 160));
    let d = val(difference(ar, mean, p.h0));
    one_is_neutral(d);
    commutes(1real, d);
    let r = residual_values(ar, p, c);
    assert(r.last() == product(ar, one(), difference(ar, mean, p.h0)));
    assert(i == 0 || i == 1 || i == 2 || i == 3 || i == 4 || i == 5);
}

/// The mean height gathers the heights of the parts of the cycle.
pub proof fn the_heights_add_up<A: Arithmetic>(
    ar: &A,
    val: spec_fn(Scalar) -> real,
    p: PeriodicBoundParams,
    c: Seq<Scalar>,
    m: int,
)
    requires
        is_reading(val),
        0 <= m,
        adds(ar, val, height_sum(ar, p, c, m), state_after(ar, p, c, SEARCH_PARTS, m).z),
    ensures
        val(height_sum(ar, p, c, 0)) == 0real,
        val(height_sum(ar, p, c, m + 1)) - val(height_sum(ar, p, c, m)) == val(
            state_after(ar, p, c, SEARCH_PARTS, m).z,
        ),
{
}

/// A body pays for pitching past its bound and for sinking below the least height, each by how
/// much, and lightly for any pitch.
pub proof fn a_body_pays_for_what_it_exceeds<A: Arithmetic>(
    ar: &A,
    val: spec_fn(Scalar) -> real,
    p: PeriodicBoundParams,
    s: Planar,
)
    requires
        is_reading(val),
        !s.th.is_nan_spec(),
        ({
            let bound = Scalar { bits: BOUND_WEIGHT_BITS };
            let least = Scalar { bits: LEAST_HEIGHT_BITS };
            let over = difference(ar, s.th.abs_spec(), p.pitch_max);
            let under = difference(ar, least, s.z);
            &&& !over.is_nan_spec()
            &&& !under.is_nan_spec()
            &&& takes(ar, val, s.th.abs_spec(), p.pitch_max)
            &&& takes(ar, val, least, s.z)
            &&& multiplies(ar, val, bound, positive_part(over))
            &&& multiplies(ar, val, bound, positive_part(under))
            &&& multiplies(ar, val, Scalar { bits: PITCH_WEIGHT_BITS }, s.th)
        }),
    ensures
        ({
            let r = body_penalties(ar, p, s);
            let bound = val(Scalar { bits: BOUND_WEIGHT_BITS });
            let over = size(val(s.th)) - val(p.pitch_max);
            let under = val(Scalar { bits: LEAST_HEIGHT_BITS }) - val(s.z);
            &&& val(r[0]) == times(bound, if over > 0real { over } else { 0real })
            &&& val(r[1]) == times(bound, if under > 0real { under } else { 0real })
            &&& val(r[2]) == times(val(Scalar { bits: PITCH_WEIGHT_BITS }), val(s.th))
        }),
{
    size_is_read(val, s.th);
    a_part_reads(val, difference(ar, s.th.abs_spec(), p.pitch_max));
    a_part_reads(val, difference(ar, Scalar { bits: LEAST_HEIGHT_BITS }, s.z));
}

} // verus!
