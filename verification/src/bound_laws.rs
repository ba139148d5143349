//! Laws of the bounding gait: what its closed form and its orbit owe to a body that
//! two pairs of legs push in turn.
//!
//! Each law is stated for a reading of scalars as real numbers under which the steps
//! that it rests on are exact.

use vstd::prelude::*;
use crate::arith::{difference, product, quotient, sum, Arithmetic};
use crate::bound_periodic_orbit::{blend, openings, rate, PairForces, PeriodicBoundParams, Planar};
use crate::bound_reference::{BoundTrimConfig, FOUR_BITS, GRAVITY_BITS};
use crate::config::HALF_BITS;
use crate::exact::{adds, adds_product, multiplies, shares, takes, takes_products};
use crate::ik::TWO_BITS;
use crate::reals::{
    associates, cancels, commutes, distributes, distributes_left, is_reading, negates,
    one_is_neutral, size, size_is_read, subtracts, subtracts_left, swaps, times,
};
use crate::scalar::{zero, Scalar};

verus! {

/// The reading knows the small numbers that the closed form is made of.
pub open spec fn reads_numbers(val: spec_fn(Scalar) -> real) -> bool {
    &&& val(Scalar { bits: HALF_BITS }) + val(Scalar { bits: HALF_BITS }) == 1real
    &&& val(Scalar { bits: TWO_BITS }) == 2real
    &&& val(Scalar { bits: FOUR_BITS }) == 4real
}

/// Twice, four and six times a number, folded and not.
pub proof fn few_times(x: real)
    ensures
        times(2real, x) == 2real * x,
        times(x, 2real) == 2real * x,
        times(4real, x) == 4real * x,
        times(x, 4real) == 4real * x,
        times(6real, x) == 6real * x,
{
    one_is_neutral(x);
    distributes(x, 1real, 1real);
    distributes(x, 2real, 2real);
    distributes(x, 2real, 4real);
    commutes(2real, x);
    commutes(4real, x);
    commutes(6real, x);
}

/// Two halves of a number make it up.
pub proof fn two_halves(k: real, x: real)
    requires
        k + k == 1real,
    ensures
        times(k, x) + times(k, x) == x,
{
    one_is_neutral(x);
    distributes(x, k, k);
    commutes(k, x);
}

/// Each pair on the ground pushes up so hard that the two stances of a cycle make up for
/// the weight over the whole cycle.
pub proof fn two_stances_carry_the_weight<A: Arithmetic>(
    ar: &A,
    val: spec_fn(Scalar) -> real,
    trim: BoundTrimConfig,
)
    requires
        reads_numbers(val),
        ({
            let g = Scalar { bits: GRAVITY_BITS };
            let two = Scalar { bits: TWO_BITS };
            &&& multiplies(ar, val, trim.mass_kg, g)
            &&& multiplies(ar, val, two, trim.duty())
            &&& shares(ar, val, product(ar, trim.mass_kg, g), product(ar, two, trim.duty()))
            &&& multiplies(ar, val, trim.cycle_period_s, trim.duty())
        }),
    ensures
        ({
            let weight = times(val(trim.mass_kg), val(Scalar { bits: GRAVITY_BITS }));
            let push = times(val(trim.vertical_force(ar)), val(trim.stance_time(ar)));
            push + push == times(weight, val(trim.cycle_period_s))
        }),
{
    let f = val(trim.vertical_force(ar));
    let t = val(trim.cycle_period_s);
    let d = val(trim.duty());
    few_times(d);
    distributes(f, d, d);
    swaps(f, t, d);
    distributes(t, times(f, d), times(f, d));
    commutes(t, times(f, d + d));
    assert(d + d == 2real * d);
}

/// The trim force leaves no torque about the body: what it does at the height of the
/// body cancels what the vertical force does at its distance.
pub proof fn the_trim_force_leaves_no_torque<A: Arithmetic>(
    ar: &A,
    val: spec_fn(Scalar) -> real,
    trim: BoundTrimConfig,
)
    requires
        is_reading(val),
        multiplies(ar, val, trim.r_x.neg_spec(), trim.vertical_force(ar)),
        shares(ar, val, product(ar, trim.r_x.neg_spec(), trim.vertical_force(ar)), trim.h0),
    ensures
        times(val(trim.trim_force(ar)), val(trim.h0)) + times(
            val(trim.r_x),
            val(trim.vertical_force(ar)),
        ) == 0real,
{
    assert(val(trim.r_x.neg_spec()) == -val(trim.r_x));
    negates(val(trim.r_x), val(trim.vertical_force(ar)));
}

/// The pitch acceleration takes up the torques of both forces.
pub proof fn the_forces_pitch_the_body<A: Arithmetic>(
    ar: &A,
    val: spec_fn(Scalar) -> real,
    trim: BoundTrimConfig,
    f_x: Scalar,
)
    requires
        is_reading(val),
        takes_products(ar, val, trim.h0.neg_spec(), f_x, trim.r_x, trim.vertical_force(ar)),
        shares(
            ar,
            val,
            difference(
                ar,
                product(ar, trim.h0.neg_spec(), f_x),
                product(ar, trim.r_x, trim.vertical_force(ar)),
            ),
            trim.inertia_yy,
        ),
    ensures
        times(val(trim.pitch_acceleration(ar, f_x)), val(trim.inertia_yy)) + times(
            val(trim.h0),
            val(f_x),
        ) + times(val(trim.r_x), val(trim.vertical_force(ar))) == 0real,
{
    assert(val(trim.h0.neg_spec()) == -val(trim.h0));
    negates(val(trim.h0), val(f_x));
}

/// The steps to the pitch and its rate at touch-down are exact.
pub open spec fn touchdown_is_exact<A: Arithmetic>(
    ar: &A,
    val: spec_fn(Scalar) -> real,
    trim: BoundTrimConfig,
    f_x: Scalar,
) -> bool {
    let back = trim.pitch_acceleration(ar, f_x).neg_spec();
    let turn = product(ar, back, trim.stance_time(ar));
    &&& multiplies(ar, val, back, trim.stance_time(ar))
    &&& shares(ar, val, turn, Scalar { bits: TWO_BITS })
    &&& multiplies(ar, val, turn, trim.flight_time(ar))
    &&& shares(ar, val, product(ar, turn, trim.flight_time(ar)), Scalar { bits: FOUR_BITS })
}

/// The steps of `p + v s + a s^2 / 2` are exact.
pub open spec fn parabola_is_exact<A: Arithmetic>(
    ar: &A,
    val: spec_fn(Scalar) -> real,
    p: Scalar,
    v: Scalar,
    a: Scalar,
    s: Scalar,
) -> bool {
    let half = Scalar { bits: HALF_BITS };
    let bend = product(ar, product(ar, half, a), s);
    &&& adds_product(ar, val, p, v, s)
    &&& multiplies(ar, val, half, a)
    &&& multiplies(ar, val, product(ar, half, a), s)
    &&& multiplies(ar, val, bend, s)
    &&& adds(ar, val, sum(ar, p, product(ar, v, s)), product(ar, bend, s))
}

/// A half cycle mirrors the pitch: whatever the fore-aft force, stance leaves the pitch
/// as it was with its rate turned round, and at the end of the flight the pitch is the
/// mirror of what it was at touch-down. So the other half starts where this one ends.
pub proof fn a_half_cycle_mirrors_the_pitch<A: Arithmetic>(
    ar: &A,
    val: spec_fn(Scalar) -> real,
    trim: BoundTrimConfig,
    s: Scalar,
)
    requires
        is_reading(val),
        reads_numbers(val),
        touchdown_is_exact(ar, val, trim, trim.used_force(ar)),
        !s.lt_spec(trim.stance_time(ar)),
        val(s) == val(trim.stance_time(ar)) + val(trim.flight_time(ar)),
        ({
            let f = trim.used_force(ar);
            let t = trim.stance_time(ar);
            let a = trim.pitch_acceleration(ar, f);
            let p = trim.touchdown_pitch(ar, f);
            let v = trim.touchdown_rate(ar, f);
            let leaving = sum(ar, v, product(ar, a, t));
            &&& parabola_is_exact(ar, val, p, v, a, t)
            &&& adds_product(ar, val, v, a, t)
            &&& takes(ar, val, s, t)
            &&& adds_product(ar, val, trim.stance_pitch(ar, f, t), leaving, difference(ar, s, t))
        }),
    ensures
        ({
            let f = trim.used_force(ar);
            let h = trim.front_half(ar, s);
            &&& val(trim.stance_pitch(ar, f, trim.stance_time(ar))) == val(
                trim.touchdown_pitch(ar, f),
            )
            &&& val(h.theta_dot) == -val(trim.touchdown_rate(ar, f))
            &&& val(h.theta) == -val(trim.touchdown_pitch(ar, f))
        }),
{
    let f = trim.used_force(ar);
    let a = val(trim.pitch_acceleration(ar, f));
    let t = val(trim.stance_time(ar));
    let l = val(trim.flight_time(ar));
    let p = val(trim.touchdown_pitch(ar, f));
    let v = val(trim.touchdown_rate(ar, f));
    assert(val(trim.pitch_acceleration(ar, f).neg_spec()) == -a);
    negates(a, t);
    negates(times(a, t), l);
    few_times(v);
    few_times(p);
    few_times(a);
    few_times(times(a, t));
    let k = val(Scalar { bits: HALF_BITS });
    associates(k, a, t);
    two_halves(k, times(a, t));
    assert(times(k, times(a, t)) == -v);
    negates(v, t);
    assert(v + times(a, t) == -v);
    negates(v, l);
    assert(-times(a, t) == 2real * v);
    few_times(times(v, l));
    associates(2real, v, l);
    few_times(v);
}

/// The pitch rate in stance is the slope of the pitch: between two times of stance the
/// pitch changes by the mean of the two rates times the time.
pub proof fn the_pitch_rate_is_the_slope_of_the_pitch<A: Arithmetic>(
    ar: &A,
    val: spec_fn(Scalar) -> real,
    trim: BoundTrimConfig,
    s: Scalar,
    later: Scalar,
)
    requires
        reads_numbers(val),
        s.lt_spec(trim.stance_time(ar)),
        later.lt_spec(trim.stance_time(ar)),
        ({
            let f = trim.used_force(ar);
            let a = trim.pitch_acceleration(ar, f);
            let p = trim.touchdown_pitch(ar, f);
            let v = trim.touchdown_rate(ar, f);
            &&& parabola_is_exact(ar, val, p, v, a, s)
            &&& parabola_is_exact(ar, val, p, v, a, later)
            &&& adds_product(ar, val, v, a, s)
            &&& adds_product(ar, val, v, a, later)
        }),
    ensures
        ({
            let h = trim.front_half(ar, s);
            let l = trim.front_half(ar, later);
            2real * (val(l.theta) - val(h.theta)) == times(
                val(h.theta_dot) + val(l.theta_dot),
                val(later) - val(s),
            )
        }),
{
    let f = trim.used_force(ar);
    let a = val(trim.pitch_acceleration(ar, f));
    let v = val(trim.touchdown_rate(ar, f));
    let k = val(Scalar { bits: HALF_BITS });
    let x = val(s);
    let y = val(later);
    let u = v + times(a, x);
    let w = v + times(a, y);
    subtracts(u + w, y, x);
    distributes_left(y, u, w);
    distributes_left(x, u, w);
    distributes_left(y, v, times(a, x));
    distributes_left(y, v, times(a, y));
    distributes_left(x, v, times(a, x));
    distributes_left(x, v, times(a, y));
    associates(a, x, y);
    associates(a, y, x);
    commutes(x, y);
    associates(k, a, x);
    associates(k, times(a, x), x);
    two_halves(k, times(times(a, x), x));
    associates(k, a, y);
    associates(k, times(a, y), y);
    two_halves(k, times(times(a, y), y));
}

/// Pitch and pitch rate go on through the cycle: where the front half ends the rear one
/// begins, for either sign of the pitch.
pub proof fn the_rear_half_begins_where_the_front_one_ends<A: Arithmetic>(
    ar: &A,
    val: spec_fn(Scalar) -> real,
    trim: BoundTrimConfig,
    start: Scalar,
    end: Scalar,
)
    requires
        is_reading(val),
        val(trim.front_half(ar, end).theta) == -val(trim.front_half(ar, start).theta),
        val(trim.front_half(ar, end).theta_dot) == -val(trim.front_half(ar, start).theta_dot),
        ({
            let h = trim.front_half(ar, start);
            let e = trim.front_half(ar, end);
            &&& multiplies(ar, val, trim.sign, e.theta)
            &&& multiplies(ar, val, trim.sign, e.theta_dot)
            &&& multiplies(ar, val, trim.sign, h.theta.neg_spec())
            &&& multiplies(ar, val, trim.sign, h.theta_dot.neg_spec())
        }),
    ensures
        ({
            let before = trim.half_sample(ar, true, end);
            let after = trim.half_sample(ar, false, start);
            &&& val(after.pitch) == val(before.pitch)
            &&& val(after.pitch_rate) == val(before.pitch_rate)
        }),
{
    let h = trim.front_half(ar, start);
    assert(val(h.theta.neg_spec()) == -val(h.theta));
    assert(val(h.theta_dot.neg_spec()) == -val(h.theta_dot));
}

/// The rear pair pushes against the front one: at the same time of the other half, the
/// forward force of a leg is reversed and the vertical one is the same.
pub proof fn the_pairs_push_against_each_other<A: Arithmetic>(
    ar: &A,
    val: spec_fn(Scalar) -> real,
    trim: BoundTrimConfig,
    s: Scalar,
)
    requires
        is_reading(val),
        reads_numbers(val),
        ({
            let f = trim.front_half(ar, s).f_x;
            let two = Scalar { bits: TWO_BITS };
            &&& multiplies(ar, val, trim.sign, f)
            &&& multiplies(ar, val, trim.sign, f.neg_spec())
            &&& shares(ar, val, product(ar, trim.sign, f), two)
            &&& shares(ar, val, product(ar, trim.sign, f.neg_spec()), two)
            &&& shares(ar, val, trim.front_half(ar, s).f_z, two)
        }),
    ensures
        ({
            let front = trim.half_sample(ar, true, s);
            let rear = trim.half_sample(ar, false, s);
            let pair = trim.front_half(ar, s);
            &&& val(front.f_x_per_leg) + val(rear.f_x_per_leg) == 0real
            &&& val(front.f_x_per_leg) + val(front.f_x_per_leg) == times(
                val(trim.sign),
                val(pair.f_x),
            )
            &&& val(front.f_z_per_leg) + val(front.f_z_per_leg) == val(pair.f_z)
            &&& rear.f_z_per_leg == front.f_z_per_leg
        }),
{
    let f = trim.front_half(ar, s).f_x;
    let front = trim.half_sample(ar, true, s);
    let rear = trim.half_sample(ar, false, s);
    assert(val(f.neg_spec()) == -val(f));
    negates(val(trim.sign), val(f));
    few_times(val(front.f_x_per_leg));
    few_times(val(rear.f_x_per_leg));
    few_times(val(front.f_z_per_leg));
}

/// The steps of the vertical velocity at a time of a half cycle with flight are exact.
pub open spec fn bounce_is_exact<A: Arithmetic>(
    ar: &A,
    val: spec_fn(Scalar) -> real,
    trim: BoundTrimConfig,
    s: Scalar,
) -> bool {
    let g = Scalar { bits: GRAVITY_BITS };
    let half = Scalar { bits: HALF_BITS };
    let flight = trim.flight_time(ar);
    let t = trim.stance_time(ar);
    let leaving = product(ar, product(ar, half, g), flight);
    let push = quotient(ar, product(ar, g, flight), t);
    &&& multiplies(ar, val, half, g)
    &&& multiplies(ar, val, product(ar, half, g), flight)
    &&& multiplies(ar, val, g, flight)
    &&& shares(ar, val, product(ar, g, flight), t)
    &&& adds_product(ar, val, leaving.neg_spec(), push, s)
    &&& takes(ar, val, s, t)
    &&& multiplies(ar, val, g, difference(ar, s, t))
    &&& takes(ar, val, leaving, product(ar, g, difference(ar, s, t)))
}

/// In flight nothing but gravity changes the vertical velocity.
pub proof fn gravity_alone_acts_in_flight<A: Arithmetic>(
    ar: &A,
    val: spec_fn(Scalar) -> real,
    trim: BoundTrimConfig,
    s: Scalar,
    later: Scalar,
)
    requires
        zero().lt_spec(trim.flight_time(ar)),
        zero().lt_spec(trim.stance_time(ar)),
        !s.lt_spec(trim.stance_time(ar)),
        !later.lt_spec(trim.stance_time(ar)),
        bounce_is_exact(ar, val, trim, s),
        bounce_is_exact(ar, val, trim, later),
    ensures
        val(trim.bounce(ar, later)) - val(trim.bounce(ar, s)) == -times(
            val(Scalar { bits: GRAVITY_BITS }),
            val(later) - val(s),
        ),
{
    let g = val(Scalar { bits: GRAVITY_BITS });
    let t = val(trim.stance_time(ar));
    subtracts(g, val(later), t);
    subtracts(g, val(s), t);
    subtracts(g, val(later), val(s));
}

/// In stance the pair pushes the body up against gravity: mass times the change of the
/// vertical velocity is the force left over the weight, times the time.
pub proof fn the_pair_throws_the_body_up<A: Arithmetic>(
    ar: &A,
    val: spec_fn(Scalar) -> real,
    trim: BoundTrimConfig,
    s: Scalar,
    later: Scalar,
)
    requires
        is_reading(val),
        reads_numbers(val),
        zero().lt_spec(trim.flight_time(ar)),
        zero().lt_spec(trim.stance_time(ar)),
        !trim.stance_time(ar).is_nan_spec(),
        s.lt_spec(trim.stance_time(ar)),
        later.lt_spec(trim.stance_time(ar)),
        trim.duty() == trim.duty_factor,
        bounce_is_exact(ar, val, trim, s),
        bounce_is_exact(ar, val, trim, later),
        ({
            let g = Scalar { bits: GRAVITY_BITS };
            let two = Scalar { bits: TWO_BITS };
            let half = Scalar { bits: HALF_BITS };
            let air = difference(ar, half, trim.duty_factor);
            &&& multiplies(ar, val, trim.mass_kg, g)
            &&& multiplies(ar, val, two, trim.duty())
            &&& shares(ar, val, product(ar, trim.mass_kg, g), product(ar, two, trim.duty()))
            &&& multiplies(ar, val, trim.cycle_period_s, trim.duty())
            &&& takes(ar, val, half, trim.duty_factor)
            &&& !air.lt_spec(zero())
            &&& !air.is_nan_spec()
            &&& multiplies(ar, val, air, trim.cycle_period_s)
        }),
    ensures
        ({
            let m = val(trim.mass_kg);
            let weight = times(m, val(Scalar { bits: GRAVITY_BITS }));
            times(m, val(trim.bounce(ar, later)) - val(trim.bounce(ar, s))) == times(
                val(trim.vertical_force(ar)) - weight,
                val(later) - val(s),
            )
        }),
{
    let g = val(Scalar { bits: GRAVITY_BITS });
    let m = val(trim.mass_kg);
    let d = val(trim.duty_factor);
    let period = val(trim.cycle_period_s);
    let t = val(trim.stance_time(ar));
    let flight = val(trim.flight_time(ar));
    let f = val(trim.vertical_force(ar));
    let w = times(m, g);
    let push = val(
        quotient(
            ar,
            product(ar, Scalar { bits: GRAVITY_BITS }, trim.flight_time(ar)),
            trim.stance_time(ar),
        ),
    );
    two_stances_carry_the_weight(ar, val, trim);
    assert(!zero().is_nan_spec());
    assert(t > 0real);
    subtracts(push, val(later), val(s));
    associates(m, push, val(later) - val(s));
    let k = val(Scalar { bits: HALF_BITS });
    let h = times(k, period);
    assert(flight == times(k - d, period));
    subtracts_left(period, k, d);
    two_halves(k, period);
    commutes(d, period);
    assert(flight == h - t);
    associates(m, push, t);
    associates(m, g, flight);
    assert(times(times(m, push), t) == times(w, flight));
    subtracts(w, h, t);
    distributes(w, h, h);
    subtracts_left(t, f, w);
    assert(times(f - w, t) == times(times(m, push), t));
    commutes(f - w, t);
    commutes(times(m, push), t);
    cancels(t, f - w, times(m, push));
}

/// The steps of the planar rate are exact.
pub open spec fn planar_rate_is_exact<A: Arithmetic>(
    ar: &A,
    val: spec_fn(Scalar) -> real,
    p: PeriodicBoundParams,
    s: Planar,
    f: PairForces,
    xf: Scalar,
    xr: Scalar,
) -> bool {
    let df = difference(ar, xf, s.x);
    let dr = difference(ar, xr, s.x);
    let front = sum(ar, product(ar, df, f.fz), product(ar, s.z, f.fx));
    let three = sum(ar, front, product(ar, dr, f.rz));
    let all = sum(ar, three, product(ar, s.z, f.rx));
    let up = quotient(ar, sum(ar, f.fz, f.rz), p.mass_kg);
    &&& takes(ar, val, xf, s.x)
    &&& takes(ar, val, xr, s.x)
    &&& multiplies(ar, val, df, f.fz)
    &&& adds_product(ar, val, product(ar, df, f.fz), s.z, f.fx)
    &&& adds_product(ar, val, front, dr, f.rz)
    &&& adds_product(ar, val, three, s.z, f.rx)
    &&& shares(ar, val, all, p.inertia_yy)
    &&& adds(ar, val, f.fx, f.rx)
    &&& adds(ar, val, f.fz, f.rz)
    &&& shares(ar, val, sum(ar, f.fx, f.rx), p.mass_kg)
    &&& shares(ar, val, sum(ar, f.fz, f.rz), p.mass_kg)
    &&& takes(ar, val, up, Scalar { bits: GRAVITY_BITS })
}

/// The planar body obeys Newton and Euler: the forces accelerate the mass against
/// gravity, and each foot on the ground, below the body by its height, turns it by its
/// lever arms. The pose changes at the velocities.
pub proof fn the_pairs_move_the_planar_body<A: Arithmetic>(
    ar: &A,
    val: spec_fn(Scalar) -> real,
    p: PeriodicBoundParams,
    s: Planar,
    f: PairForces,
    xf: Scalar,
    xr: Scalar,
)
    requires
        planar_rate_is_exact(ar, val, p, s, f, xf, xr),
    ensures
        ({
            let r = rate(ar, p, s, f, xf, xr);
            let m = val(p.mass_kg);
            let g = val(Scalar { bits: GRAVITY_BITS });
            let ahead = val(xf) - val(s.x);
            let behind = val(xr) - val(s.x);
            &&& r.x == s.vx && r.z == s.vz && r.th == s.w
            &&& times(val(r.vx), m) == val(f.fx) + val(f.rx)
            &&& times(val(r.vz) + g, m) == val(f.fz) + val(f.rz)
            &&& times(val(r.w), val(p.inertia_yy)) == times(ahead, val(f.fz)) + times(
                behind,
                val(f.rz),
            ) + times(val(s.z), val(f.fx) + val(f.rx))
        }),
{
    distributes(val(s.z), val(f.fx), val(f.rx));
}

/// A step follows a rate that bends: of a rate `p + v t + q t^2` over the step, with `t`
/// from zero to one, it takes the mean exactly.
pub proof fn a_step_takes_the_mean_of_a_bending_rate<A: Arithmetic>(
    ar: &A,
    val: spec_fn(Scalar) -> real,
    s: Scalar,
    h: Scalar,
    a: Scalar,
    b: Scalar,
    c: Scalar,
    d: Scalar,
    p: real,
    v: real,
    q: real,
)
    requires
        reads_numbers(val),
        val(a) == p,
        4real * val(b) == 4real * p + 2real * v + q,
        val(c) == val(b),
        val(d) == p + v + q,
        ({
            let two = Scalar { bits: TWO_BITS };
            let ab = sum(ar, a, product(ar, two, b));
            let abc = sum(ar, ab, product(ar, two, c));
            &&& adds_product(ar, val, a, two, b)
            &&& adds_product(ar, val, ab, two, c)
            &&& adds(ar, val, abc, d)
            &&& adds_product(ar, val, s, h, sum(ar, abc, d))
        }),
    ensures
        val(blend(ar, s, h, a, b, c, d)) == val(s) + times(
            val(h),
            6real * p + 3real * v + 2real * q,
        ),
{
    few_times(val(b));
    few_times(val(c));
}

/// A cycle that closes is one that ends as it began, a stride further on: there all the
/// openings vanish, and nowhere else.
pub proof fn a_closed_cycle_has_no_openings<A: Arithmetic>(
    ar: &A,
    val: spec_fn(Scalar) -> real,
    p: PeriodicBoundParams,
    c: Seq<Scalar>,
    last: Planar,
)
    requires
        is_reading(val),
        takes(ar, val, last.z, c[0]),
        takes(ar, val, last.th, c[1]),
        takes(ar, val, last.vx, c[2]),
        takes(ar, val, last.vz, c[3]),
        takes(ar, val, last.w, c[4]),
        takes(ar, val, last.x, zero()),
        multiplies(ar, val, p.vx_target, p.cycle_period_s),
        takes(
            ar,
            val,
            difference(ar, last.x, zero()),
            product(ar, p.vx_target, p.cycle_period_s),
        ),
    ensures
        (forall|i: int| 0 <= i < 6 ==> val(#[trigger] openings(ar, p, c, last)[i]) == 0real) <==> {
            &&& val(last.z) == val(c[0])
            &&& val(last.th) == val(c[1])
            &&& val(last.vx) == val(c[2])
            &&& val(last.vz) == val(c[3])
            &&& val(last.w) == val(c[4])
            &&& val(last.x) == times(val(p.vx_target), val(p.cycle_period_s))
        },
{
    reveal(openings);
    let o = openings(ar, p, c, last);
    assert(o.len() == 6);
    assert(val(o[0]) == val(last.z) - val(c[0]));
    assert(val(o[1]) == val(last.th) - val(c[1]));
    assert(val(o[2]) == val(last.vx) - val(c[2]));
    assert(val(o[3]) == val(last.vz) - val(c[3]));
    assert(val(o[4]) == val(last.w) - val(c[4]));
    assert(val(o[5]) == val(last.x) - times(val(p.vx_target), val(p.cycle_period_s)));
}

/// The thrust that is used pushes the way of the trim. Without a ripple it is the trim force,
/// kept within the friction on either side, times the thrust scale.
pub proof fn the_thrust_stays_within_the_friction<A: Arithmetic>(
    ar: &A,
    val: spec_fn(Scalar) -> real,
    trim: BoundTrimConfig,
)
    requires
        is_reading(val),
        trim.velocity_ripple_fraction is None,
        !trim.trim_force(ar).is_nan_spec(),
        !trim.friction_bound(ar).is_nan_spec(),
        val(trim.friction_bound(ar)) >= 0real,
        multiplies(ar, val, trim.friction_mu, trim.vertical_force(ar)),
        multiplies(ar, val, trim.thrust_scale, trim.clipped_force(ar)),
    ensures
        ({
            let f = val(trim.trim_force(ar));
            let most = times(val(trim.friction_mu), val(trim.vertical_force(ar)));
            val(trim.used_force(ar)) == times(
                val(trim.thrust_scale),
                if f > most {
                    most
                } else if f < -most {
                    -most
                } else {
                    f
                },
            )
        }),
{
    let f = trim.trim_force(ar);
    let b = trim.friction_bound(ar);
    assert(val(b.neg_spec()) == -val(b));
    assert(!b.neg_spec().is_nan_spec());
    assert(f.lt_spec(b.neg_spec()) <==> val(f) < val(b.neg_spec()));
    assert(b.lt_spec(f) <==> val(b) < val(f));
}

/// With a ripple the thrust, while the friction allows it, gives the mass in a stance the
/// change of velocity that was asked for, the way of the trim.
pub proof fn the_thrust_gives_the_ripple<A: Arithmetic>(
    ar: &A,
    val: spec_fn(Scalar) -> real,
    trim: BoundTrimConfig,
)
    requires
        is_reading(val),
        trim.velocity_ripple_fraction is Some,
        !trim.cmd_vx_mps.is_nan_spec(),
        ({
            let fraction = trim.velocity_ripple_fraction->0;
            let ripple = product(ar, fraction, trim.cmd_vx_mps.abs_spec());
            let push = product(ar, trim.mass_kg, ripple);
            let force = quotient(ar, push, trim.stance_time(ar));
            &&& multiplies(ar, val, fraction, trim.cmd_vx_mps.abs_spec())
            &&& multiplies(ar, val, trim.mass_kg, ripple)
            &&& shares(ar, val, push, trim.stance_time(ar))
            &&& !force.is_nan_spec()
            &&& !trim.friction_bound(ar).is_nan_spec()
            &&& !trim.friction_bound(ar).lt_spec(force)
            &&& multiplies(ar, val, force, trim.trim_force(ar).signum_spec())
        }),
    ensures
        ({
            let v = times(
                val(trim.velocity_ripple_fraction->0),
                size(val(trim.cmd_vx_mps)),
            );
            times(val(trim.used_force(ar)), val(trim.stance_time(ar))) == times(
                times(val(trim.mass_kg), v),
                val(trim.trim_force(ar).signum_spec()),
            )
        }),
{
    size_is_read(val, trim.cmd_vx_mps);
    let fraction = trim.velocity_ripple_fraction->0;
    let ripple = product(ar, fraction, trim.cmd_vx_mps.abs_spec());
    let push = product(ar, trim.mass_kg, ripple);
    let force = quotient(ar, push, trim.stance_time(ar));
    let s = val(trim.trim_force(ar).signum_spec());
    let t = val(trim.stance_time(ar));
    assert(force.lt_spec(trim.friction_bound(ar)) <==> val(force) < val(trim.friction_bound(ar)));
    assert(trim.friction_bound(ar).lt_spec(force) <==> val(trim.friction_bound(ar)) < val(force));
    associates(val(force), s, t);
    commutes(s, t);
    associates(val(force), t, s);
}

} // verus!
