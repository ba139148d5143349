//! Laws of estimation: what attitude, odometry and filter owe to a robot that moves.
//!
//! Each law is stated for a reading of scalars as real numbers under which the steps
//! that it rests on are exact.

use vstd::prelude::*;
use crate::arith::{difference, product, quotient, root, sum, Arithmetic};
use crate::attitude_estimator::{
    accel_squared, corrected_rate, gradient, length, misfit, moved, rate, times_scalar, updated,
    MadgwickAhrs, Quat, FOUR_BITS, LEAST_ACCEL_BITS, LEAST_NORM_BITS, MINUS_TWO_BITS,
};
use crate::config::HALF_BITS;
use crate::exact::{
    adds, adds_products, inner, multiplies, read, shares, takes, takes_products, RealVec,
};
use crate::ik::TWO_BITS;
use crate::linear_kalman::{KalmanSystem, LinearKalmanEstimator, LinearKalmanInputs};
use crate::reals::{
    associates, cancels, commutes, distributes, distributes_left, is_reading, negates,
    one_is_neutral, positive, square_of_product, subtracts, subtracts_left, swaps, times, vanishes,
};
use crate::scalar::{minus_one, one, zero, Scalar, Vec3};

verus! {

/// Sum of the first `n` coefficients times the parts of a state.
pub open spec fn row_sum(
    val: spec_fn(Scalar) -> real,
    f: Seq<Scalar>,
    x: Seq<Scalar>,
    n: int,
) -> real
    decreases n,
{
    if n <= 0 {
        0real
    } else {
        row_sum(val, f, x, n - 1) + times(val(f[n - 1]), val(x[n - 1]))
    }
}

/// A row with at most two coefficients that are not zero.
proof fn row_picks(
    val: spec_fn(Scalar) -> real,
    f: Seq<Scalar>,
    x: Seq<Scalar>,
    n: int,
    a: int,
    b: int,
)
    requires
        is_reading(val),
        0 <= n <= f.len(),
        n <= x.len(),
        0 <= a,
        a < b,
        forall|j: int| 0 <= j < n && j != a && j != b ==> #[trigger] f[j] == zero(),
    ensures
        row_sum(val, f, x, n) == (if a < n {
            times(val(f[a]), val(x[a]))
        } else {
            0real
        }) + (if b < n {
            times(val(f[b]), val(x[b]))
        } else {
            0real
        }),
    decreases n,
{
    if n > 0 {
        row_picks(val, f, x, n - 1, a, b);
        if n - 1 != a && n - 1 != b {
            assert(f[n - 1] == zero());
            vanishes(val(x[n - 1]));
            commutes(0real, val(x[n - 1]));
        }
    }
}

proof fn one_times(val: spec_fn(Scalar) -> real, x: real)
    requires
        is_reading(val),
        val(one()) == 1real,
    ensures
        times(val(one()), x) == x,
        val(minus_one()) == -1real,
        times(val(minus_one()), x) == -x,
{
    one_is_neutral(x);
    commutes(1real, x);
    assert(minus_one() == one().neg_spec());
    negates(1real, x);
}

/// The observation agrees with the model on velocity: for feet that stand still in the
/// world, so that each moves against the body at its velocity along every axis, the
/// velocity rows of the observation are those of the observation matrix times a state with
/// that velocity.
pub proof fn standing_feet_observe_the_velocity<A: Arithmetic>(
    ar: &A,
    val: spec_fn(Scalar) -> real,
    e: LinearKalmanEstimator,
    inputs: LinearKalmanInputs,
    sys: KalmanSystem,
    x: Seq<Scalar>,
    i: int,
)
    requires
        is_reading(val),
        val(one()) == 1real,
        sys.wf(),
        sys.is_for(ar, e, inputs),
        x.len() == 18,
        12 <= i < 24,
        forall|slot: int, ax: int|
            0 <= slot < 4 && 0 <= ax < 3 ==> val(
                #[trigger] inputs.foot_vel_world@[slot].at(ax),
            ) == -val(x[3 + ax]),
    ensures
        val(sys.y@[i]) == row_sum(val, sys.c@[i]@, x, 18),
{
    let slot = (i - 12) / 3;
    let ax = i % 3;
    assert((i - 12) % 3 == ax);
    let v = inputs.foot_vel_world@[slot].at(ax);
    assert(val(v) == -val(x[3 + ax]));
    assert(sys.y@[i] == e.y_value(ar, inputs, i));
    let f = sys.c@[i]@;
    assert forall|j: int| 0 <= j < 18 && j != 3 + ax && j != 18 implies #[trigger] f[j]
        == zero() by {
        assert(sys.c@[i]@[j] == crate::linear_kalman::c_entry(i, j));
    }
    assert(sys.c@[i]@[3 + ax] == crate::linear_kalman::c_entry(i, 3 + ax));
    row_picks(val, f, x, 18, 3 + ax, 18);
    one_times(val, val(x[3 + ax]));
}

/// The observation agrees with the model on position: for feet that are where a state has
/// them, seen from the body a foot radius higher, the position rows of the observation are
/// those of the observation matrix times that state.
pub proof fn feet_in_place_observe_the_position<A: Arithmetic>(
    ar: &A,
    val: spec_fn(Scalar) -> real,
    e: LinearKalmanEstimator,
    inputs: LinearKalmanInputs,
    sys: KalmanSystem,
    x: Seq<Scalar>,
    i: int,
)
    requires
        is_reading(val),
        val(one()) == 1real,
        sys.wf(),
        sys.is_for(ar, e, inputs),
        x.len() == 18,
        0 <= i < 12,
        forall|slot: int, ax: int|
            0 <= slot < 4 && 0 <= ax < 3 ==> val(
                #[trigger] inputs.foot_pos_world_offset@[slot].at(ax),
            ) == val(x[6 + 3 * slot + ax]) - val(x[ax]) + (if ax == 2 {
                val(e.foot_radius)
            } else {
                0real
            }),
        adds(
            ar,
            val,
            inputs.foot_pos_world_offset@[i / 3].at(i % 3).neg_spec(),
            e.foot_radius,
        ),
    ensures
        val(sys.y@[i]) == row_sum(val, sys.c@[i]@, x, 18),
{
    let slot = i / 3;
    let ax = i % 3;
    let o = inputs.foot_pos_world_offset@[slot].at(ax);
    assert(6 + 3 * slot + ax == 6 + i);
    assert(val(o) == val(x[6 + i]) - val(x[ax]) + (if ax == 2 {
        val(e.foot_radius)
    } else {
        0real
    }));
    assert(sys.y@[i] == e.y_value(ar, inputs, i));
    let f = sys.c@[i]@;
    assert forall|j: int| 0 <= j < 18 && j != ax && j != 6 + i implies #[trigger] f[j]
        == zero() by {
        assert(sys.c@[i]@[j] == crate::linear_kalman::c_entry(i, j));
    }
    assert(sys.c@[i]@[ax] == crate::linear_kalman::c_entry(i, ax));
    assert(sys.c@[i]@[6 + i] == crate::linear_kalman::c_entry(i, 6 + i));
    row_picks(val, f, x, 18, ax, 6 + i);
    one_times(val, val(x[ax]));
    one_times(val, val(x[6 + i]));
}

/// The observation agrees with the model on height: for feet on the ground the height rows
/// of the observation are those of the observation matrix times the state.
pub proof fn feet_on_the_ground_observe_the_height<A: Arithmetic>(
    ar: &A,
    val: spec_fn(Scalar) -> real,
    e: LinearKalmanEstimator,
    inputs: LinearKalmanInputs,
    sys: KalmanSystem,
    x: Seq<Scalar>,
    slot: int,
)
    requires
        is_reading(val),
        val(one()) == 1real,
        sys.wf(),
        sys.is_for(ar, e, inputs),
        x.len() == 18,
        0 <= slot < 4,
        val(x[8 + 3 * slot]) == 0real,
    ensures
        val(sys.y@[24 + slot]) == row_sum(val, sys.c@[24 + slot]@, x, 18),
{
    let i = 24 + slot;
    let at = 8 + 3 * slot;
    assert(sys.y@[i] == e.y_value(ar, inputs, i));
    let f = sys.c@[i]@;
    assert forall|j: int| 0 <= j < 18 && j != at && j != 18 implies #[trigger] f[j]
        == zero() by {
        assert(sys.c@[i]@[j] == crate::linear_kalman::c_entry(i, j));
    }
    assert(sys.c@[i]@[at] == crate::linear_kalman::c_entry(i, at));
    row_picks(val, f, x, 18, at, 18);
    one_times(val, val(x[at]));
}

/// The model moves a body as its velocity and acceleration do: a position gains the
/// velocity times the period and half the acceleration times the period squared, a velocity
/// gains the acceleration times the period, and feet stay.
pub proof fn the_model_moves_the_body<A: Arithmetic>(
    ar: &A,
    val: spec_fn(Scalar) -> real,
    e: LinearKalmanEstimator,
    inputs: LinearKalmanInputs,
    sys: KalmanSystem,
    x: Seq<Scalar>,
    u: Seq<Scalar>,
    i: int,
)
    requires
        is_reading(val),
        val(one()) == 1real,
        sys.wf(),
        sys.is_for(ar, e, inputs),
        x.len() == 18,
        u.len() == 3,
        0 <= i < 18,
        zero().lt_spec(inputs.dt),
        val(Scalar { bits: HALF_BITS }) == 1real / 2real,
        multiplies(ar, val, Scalar { bits: HALF_BITS }, inputs.dt),
        multiplies(ar, val, product(ar, Scalar { bits: HALF_BITS }, inputs.dt), inputs.dt),
    ensures
        ({
            let dt = val(inputs.dt);
            let next = row_sum(val, sys.a@[i]@, x, 18) + row_sum(val, sys.b@[i]@, u, 3);
            if i < 3 {
                2real * (next - val(x[i]) - times(dt, val(x[i + 3]))) == times(
                    times(dt, dt),
                    val(u[i]),
                )
            } else if i < 6 {
                next - val(x[i]) == times(dt, val(u[i - 3]))
            } else {
                next == val(x[i])
            }
        }),
{
    let dt = inputs.dt;
    let half = Scalar { bits: HALF_BITS };
    let h = product(ar, product(ar, half, dt), dt);
    assert(inputs.dt.max_spec(zero()) == dt);
    let f = sys.a@[i]@;
    let b = if i < 3 {
        i + 3
    } else {
        18
    };
    assert forall|j: int| 0 <= j < 18 && j != i && j != b implies #[trigger] f[j] == zero() by {
        assert(sys.a@[i]@[j] == crate::linear_kalman::a_entry(dt, i, j));
    }
    assert(sys.a@[i]@[i] == crate::linear_kalman::a_entry(dt, i, i));
    if i < 3 {
        assert(sys.a@[i]@[i + 3] == crate::linear_kalman::a_entry(dt, i, i + 3));
    }
    row_picks(val, f, x, 18, i, b);
    one_times(val, val(x[i]));
    let g = sys.b@[i]@;
    let at = if i < 3 {
        i
    } else if i < 6 {
        i - 3
    } else {
        3
    };
    assert forall|j: int| 0 <= j < 3 && j != at && j != 4 implies #[trigger] g[j] == zero() by {
        assert(sys.b@[i]@[j] == crate::linear_kalman::b_entry(h, dt, i, j));
    }
    if i < 6 {
        assert(sys.b@[i]@[at] == crate::linear_kalman::b_entry(h, dt, i, at));
    }
    row_picks(val, g, u, 3, at, 4);
    if i < 3 {
        let d = val(dt);
        associates(1real / 2real, d, d);
        associates(1real / 2real, times(d, d), val(u[i]));
        distributes_left(times(times(d, d), val(u[i])), 1real / 2real, 1real / 2real);
        one_is_neutral(times(times(d, d), val(u[i])));
        commutes(1real, times(times(d, d), val(u[i])));
        assert(1real / 2real + 1real / 2real == 1real);
    }
}

/// A quaternion of real numbers.
pub struct RealQuat {
    /// Scalar part.
    pub w: real,
    /// Vector part, first.
    pub x: real,
    /// Vector part, second.
    pub y: real,
    /// Vector part, third.
    pub z: real,
}

/// A quaternion as `val` reads it.
pub open spec fn read_quat(val: spec_fn(Scalar) -> real, q: Quat) -> RealQuat {
    RealQuat { w: val(q.w), x: val(q.x), y: val(q.y), z: val(q.z) }
}

/// The product of quaternions.
pub open spec fn composed(a: RealQuat, b: RealQuat) -> RealQuat {
    RealQuat {
        w: times(a.w, b.w) - times(a.x, b.x) - times(a.y, b.y) - times(a.z, b.z),
        x: times(a.w, b.x) + times(a.x, b.w) + times(a.y, b.z) - times(a.z, b.y),
        y: times(a.w, b.y) - times(a.x, b.z) + times(a.y, b.w) + times(a.z, b.x),
        z: times(a.w, b.z) + times(a.x, b.y) - times(a.y, b.x) + times(a.z, b.w),
    }
}

/// The conjugate of a quaternion.
pub open spec fn conjugate(q: RealQuat) -> RealQuat {
    RealQuat { w: q.w, x: -q.x, y: -q.y, z: -q.z }
}

/// Sum of the products of the parts.
pub open spec fn quat_inner(a: RealQuat, b: RealQuat) -> real {
    times(a.w, b.w) + times(a.x, b.x) + times(a.y, b.y) + times(a.z, b.z)
}

/// The world's up direction as a sensor at attitude `q` sees it: turned back by the
/// attitude.
pub open spec fn up_seen(q: RealQuat) -> RealVec {
    let up = RealQuat { w: 0real, x: 0real, y: 0real, z: 1real };
    let r = composed(conjugate(q), composed(up, q));
    RealVec { x: r.x, y: r.y, z: r.z }
}

pub proof fn up_formula(q: RealQuat)
    ensures
        ({
            let u = up_seen(q);
            &&& u.x == 2real * (times(q.x, q.z) - times(q.w, q.y))
            &&& u.y == 2real * (times(q.w, q.x) + times(q.y, q.z))
            &&& u.z == times(q.w, q.w) - times(q.x, q.x) - times(q.y, q.y) + times(q.z, q.z)
        }),
{
    let up = RealQuat { w: 0real, x: 0real, y: 0real, z: 1real };
    let t = composed(up, q);
    vanishes(q.w);
    vanishes(q.x);
    vanishes(q.y);
    vanishes(q.z);
    commutes(0real, q.w);
    commutes(0real, q.x);
    commutes(0real, q.y);
    commutes(0real, q.z);
    one_is_neutral(q.w);
    one_is_neutral(q.x);
    one_is_neutral(q.y);
    one_is_neutral(q.z);
    commutes(1real, q.w);
    commutes(1real, q.x);
    commutes(1real, q.y);
    commutes(1real, q.z);
    assert(t == RealQuat { w: -q.z, x: -q.y, y: q.x, z: q.w });
    negates(q.w, q.y);
    negates(-q.x, q.z);
    negates(q.x, q.z);
    negates(q.y, q.w);
    commutes(q.y, q.w);
    negates(q.z, q.x);
    commutes(q.z, q.x);
    negates(q.x, q.w);
    commutes(q.x, q.w);
    negates(-q.y, q.z);
    negates(q.y, q.z);
    negates(-q.z, q.y);
    negates(q.z, q.y);
    commutes(q.z, q.y);
    negates(q.x, q.x);
    negates(-q.y, q.y);
    negates(q.y, q.y);
    negates(-q.z, q.z);
    negates(q.z, q.z);
}

/// The misfit is exact, step by step.
pub open spec fn misfit_is_exact<A: Arithmetic>(
    ar: &A,
    val: spec_fn(Scalar) -> real,
    q: Quat,
    a: Vec3,
) -> bool {
    let two = Scalar { bits: TWO_BITS };
    let half = Scalar { bits: HALF_BITS };
    let mx = difference(ar, product(ar, q.x, q.z), product(ar, q.w, q.y));
    let my = sum(ar, product(ar, q.w, q.x), product(ar, q.y, q.z));
    let hx = difference(ar, half, product(ar, q.x, q.x));
    let mz = difference(ar, hx, product(ar, q.y, q.y));
    &&& val(two) == 2real
    &&& val(half) == 1real / 2real
    &&& takes_products(ar, val, q.x, q.z, q.w, q.y)
    &&& multiplies(ar, val, two, mx) && takes(ar, val, product(ar, two, mx), a.x)
    &&& adds_products(ar, val, q.w, q.x, q.y, q.z)
    &&& multiplies(ar, val, two, my) && takes(ar, val, product(ar, two, my), a.y)
    &&& multiplies(ar, val, q.x, q.x) && takes(ar, val, half, product(ar, q.x, q.x))
    &&& multiplies(ar, val, q.y, q.y) && takes(ar, val, hx, product(ar, q.y, q.y))
    &&& multiplies(ar, val, two, mz) && takes(ar, val, product(ar, two, mz), a.z)
}

/// For a unit attitude the misfit is the world's up direction as the sensor would see it,
/// less the direction that was measured; so it vanishes exactly for a sensor at rest at
/// that attitude.
pub proof fn the_misfit_compares_up_with_what_is_measured<A: Arithmetic>(
    ar: &A,
    val: spec_fn(Scalar) -> real,
    q: Quat,
    a: Vec3,
)
    requires
        misfit_is_exact(ar, val, q, a),
        quat_inner(read_quat(val, q), read_quat(val, q)) == 1real,
    ensures
        ({
            let f = read(val, misfit(ar, q, a));
            let up = up_seen(read_quat(val, q));
            let m = read(val, a);
            &&& f.x == up.x - m.x
            &&& f.y == up.y - m.y
            &&& f.z == up.z - m.z
            &&& (f.x == 0real && f.y == 0real && f.z == 0real) <==> up == m
        }),
{
    up_formula(read_quat(val, q));
    doubles(val(q.x), val(q.z), val(q.w), val(q.y));
    let x = times(val(q.x), val(q.z)) - times(val(q.w), val(q.y));
    let y = times(val(q.w), val(q.x)) + times(val(q.y), val(q.z));
    let z = 1real / 2real - times(val(q.x), val(q.x)) - times(val(q.y), val(q.y));
    two_times(x);
    two_times(y);
    two_times(z);
}

proof fn doubles(a: real, b: real, c: real, d: real)
    ensures
        times(2real, times(a, b) - times(c, d)) == 2real * (times(a, b) - times(c, d)),
{
    two_times(times(a, b) - times(c, d));
}

proof fn two_times(x: real)
    ensures
        times(2real, x) == 2real * x,
{
    distributes_left(x, 1real, 1real);
    one_is_neutral(x);
    commutes(1real, x);
    assert(1real + 1real == 2real);
}

/// The rate of the attitude is exact, step by step.
pub open spec fn rate_is_exact<A: Arithmetic>(
    ar: &A,
    val: spec_fn(Scalar) -> real,
    q: Quat,
    g: Vec3,
) -> bool {
    let half = Scalar { bits: HALF_BITS };
    let w2 = difference(ar, product(ar, q.x.neg_spec(), g.x), product(ar, q.y, g.y));
    let x2 = sum(ar, product(ar, q.w, g.x), product(ar, q.y, g.z));
    let y2 = difference(ar, product(ar, q.w, g.y), product(ar, q.x, g.z));
    let z2 = sum(ar, product(ar, q.w, g.z), product(ar, q.x, g.y));
    &&& val(half) == 1real / 2real
    &&& takes_products(ar, val, q.x.neg_spec(), g.x, q.y, g.y)
    &&& multiplies(ar, val, q.z, g.z) && takes(ar, val, w2, product(ar, q.z, g.z))
    &&& multiplies(ar, val, half, difference(ar, w2, product(ar, q.z, g.z)))
    &&& adds_products(ar, val, q.w, g.x, q.y, g.z)
    &&& multiplies(ar, val, q.z, g.y) && takes(ar, val, x2, product(ar, q.z, g.y))
    &&& multiplies(ar, val, half, difference(ar, x2, product(ar, q.z, g.y)))
    &&& takes_products(ar, val, q.w, g.y, q.x, g.z)
    &&& multiplies(ar, val, q.z, g.x) && adds(ar, val, y2, product(ar, q.z, g.x))
    &&& multiplies(ar, val, half, sum(ar, y2, product(ar, q.z, g.x)))
    &&& adds_products(ar, val, q.w, g.z, q.x, g.y)
    &&& multiplies(ar, val, q.y, g.x) && takes(ar, val, z2, product(ar, q.y, g.x))
    &&& multiplies(ar, val, half, difference(ar, z2, product(ar, q.y, g.x)))
}

/// The gyroscope turns the attitude in the sensor frame: twice the rate is the attitude
/// times the angular velocity as a quaternion.
pub proof fn the_gyroscope_turns_the_attitude<A: Arithmetic>(
    ar: &A,
    val: spec_fn(Scalar) -> real,
    q: Quat,
    g: Vec3,
)
    requires
        is_reading(val),
        rate_is_exact(ar, val, q, g),
    ensures
        ({
            let d = read_quat(val, rate(ar, q, g));
            let w = RealQuat { w: 0real, x: val(g.x), y: val(g.y), z: val(g.z) };
            let r = composed(read_quat(val, q), w);
            &&& 2real * d.w == r.w
            &&& 2real * d.x == r.x
            &&& 2real * d.y == r.y
            &&& 2real * d.z == r.z
        }),
{
    let a = read_quat(val, q);
    let v = read(val, g);
    vanishes(a.w);
    vanishes(a.x);
    vanishes(a.y);
    vanishes(a.z);
    negates(a.x, v.x);
    assert(val(q.x.neg_spec()) == -a.x);
    halves(-times(a.x, v.x) - times(a.y, v.y) - times(a.z, v.z));
    halves(times(a.w, v.x) + times(a.y, v.z) - times(a.z, v.y));
    halves(times(a.w, v.y) - times(a.x, v.z) + times(a.z, v.x));
    halves(times(a.w, v.z) + times(a.x, v.y) - times(a.y, v.x));
}

proof fn halves(x: real)
    ensures
        2real * times(1real / 2real, x) == x,
{
    distributes_left(x, 1real / 2real, 1real / 2real);
    one_is_neutral(x);
    commutes(1real, x);
    assert(1real / 2real + 1real / 2real == 1real);
}

/// The gradient is exact, step by step.
pub open spec fn gradient_is_exact<A: Arithmetic>(
    ar: &A,
    val: spec_fn(Scalar) -> real,
    q: Quat,
    f: Vec3,
) -> bool {
    let m = Scalar { bits: MINUS_TWO_BITS };
    let t = Scalar { bits: TWO_BITS };
    let r = Scalar { bits: FOUR_BITS };
    let scaling = |k: Scalar, a: Scalar, b: Scalar|
        multiplies(ar, val, k, a) && multiplies(ar, val, product(ar, k, a), b);
    let yx = product(ar, product(ar, m, q.y), f.x);
    let xy = product(ar, product(ar, t, q.x), f.y);
    let zx = product(ar, product(ar, t, q.z), f.x);
    let wy = product(ar, product(ar, t, q.w), f.y);
    let xz = product(ar, product(ar, r, q.x), f.z);
    let wx = product(ar, product(ar, m, q.w), f.x);
    let zy = product(ar, product(ar, t, q.z), f.y);
    let yz = product(ar, product(ar, r, q.y), f.z);
    let xx = product(ar, product(ar, t, q.x), f.x);
    let yy = product(ar, product(ar, t, q.y), f.y);
    &&& val(m) == -2real && val(t) == 2real && val(r) == 4real
    &&& scaling(m, q.y, f.x) && scaling(t, q.x, f.y) && adds(ar, val, yx, xy)
    &&& scaling(t, q.z, f.x) && scaling(t, q.w, f.y) && scaling(r, q.x, f.z)
    &&& adds(ar, val, zx, wy) && takes(ar, val, sum(ar, zx, wy), xz)
    &&& scaling(m, q.w, f.x) && scaling(t, q.z, f.y) && scaling(r, q.y, f.z)
    &&& adds(ar, val, wx, zy) && takes(ar, val, sum(ar, wx, zy), yz)
    &&& scaling(t, q.x, f.x) && scaling(t, q.y, f.y) && adds(ar, val, xx, yy)
}

/// The gradient tells how the squared misfit changes with the attitude: along every
/// direction `d` that keeps the length of the attitude, twice its part along `d` is the
/// misfit times the change of the up direction seen, from one step back to one step ahead.
pub proof fn the_gradient_points_uphill<A: Arithmetic>(
    ar: &A,
    val: spec_fn(Scalar) -> real,
    q: Quat,
    f: Vec3,
    d: RealQuat,
)
    requires
        gradient_is_exact(ar, val, q, f),
        quat_inner(read_quat(val, q), d) == 0real,
    ensures
        ({
            let s = read_quat(val, gradient(ar, q, f));
            let a = read_quat(val, q);
            let m = read(val, f);
            let on = up_seen(RealQuat { w: a.w + d.w, x: a.x + d.x, y: a.y + d.y, z: a.z + d.z });
            let off = up_seen(RealQuat { w: a.w - d.w, x: a.x - d.x, y: a.y - d.y, z: a.z - d.z });
            let change = RealVec { x: on.x - off.x, y: on.y - off.y, z: on.z - off.z };
            2real * quat_inner(s, d) == inner(m, change)
        }),
{
    let a = read_quat(val, q);
    let m = read(val, f);
    let on = RealQuat { w: a.w + d.w, x: a.x + d.x, y: a.y + d.y, z: a.z + d.z };
    let off = RealQuat { w: a.w - d.w, x: a.x - d.x, y: a.y - d.y, z: a.z - d.z };
    up_formula(on);
    up_formula(off);
    polar(a.x, d.x, a.z, d.z);
    polar(a.w, d.w, a.y, d.y);
    polar(a.w, d.w, a.x, d.x);
    polar(a.y, d.y, a.z, d.z);
    polar(a.w, d.w, a.w, d.w);
    polar(a.x, d.x, a.x, d.x);
    polar(a.y, d.y, a.y, d.y);
    polar(a.z, d.z, a.z, d.z);
    commutes(d.w, a.w);
    commutes(d.x, a.x);
    commutes(d.y, a.y);
    commutes(d.z, a.z);
    let cx = times(a.x, d.z) + times(d.x, a.z) - times(a.w, d.y) - times(d.w, a.y);
    let cy = times(a.w, d.x) + times(d.w, a.x) + times(a.y, d.z) + times(d.y, a.z);
    let cz = times(a.x, d.x) + times(a.y, d.y);
    let up_on = up_seen(on);
    let up_off = up_seen(off);
    assert(up_on.x - up_off.x == 4real * cx);
    assert(up_on.y - up_off.y == 4real * cy);
    assert(up_on.z - up_off.z == -(8real * cz));
    let s = read_quat(val, gradient(ar, q, f));
    k_times(-2real, a.y, m.x);
    k_times(2real, a.x, m.y);
    k_times(2real, a.z, m.x);
    k_times(2real, a.w, m.y);
    k_times(4real, a.x, m.z);
    k_times(-2real, a.w, m.x);
    k_times(2real, a.z, m.y);
    k_times(4real, a.y, m.z);
    k_times(2real, a.x, m.x);
    k_times(2real, a.y, m.y);
    assert(s.w == -2real * times(a.y, m.x) + 2real * times(a.x, m.y));
    assert(s.x == 2real * times(a.z, m.x) + 2real * times(a.w, m.y) - 4real * times(a.x, m.z));
    assert(s.y == -2real * times(a.w, m.x) + 2real * times(a.z, m.y) - 4real * times(a.y, m.z));
    assert(s.z == 2real * times(a.x, m.x) + 2real * times(a.y, m.y));
    combine(-2real, times(a.y, m.x), 2real, times(a.x, m.y), 0real, 0real, d.w);
    combine(2real, times(a.z, m.x), 2real, times(a.w, m.y), -4real, times(a.x, m.z), d.x);
    combine(-2real, times(a.w, m.x), 2real, times(a.z, m.y), -4real, times(a.y, m.z), d.y);
    combine(2real, times(a.x, m.x), 2real, times(a.y, m.y), 0real, 0real, d.z);
    vanishes(d.w);
    commutes(0real, d.w);
    vanishes(d.z);
    commutes(0real, d.z);
    moves(a.y, m.x, d.w);
    moves(a.x, m.y, d.w);
    moves(a.z, m.x, d.x);
    moves(a.w, m.y, d.x);
    moves(a.x, m.z, d.x);
    moves(a.w, m.x, d.y);
    moves(a.z, m.y, d.y);
    moves(a.y, m.z, d.y);
    moves(a.x, m.x, d.z);
    moves(a.y, m.y, d.z);
    commutes(d.x, a.z);
    commutes(d.w, a.y);
    commutes(d.w, a.x);
    commutes(d.y, a.z);
    spread4(m.x, times(a.x, d.z), times(d.x, a.z), times(a.w, d.y), times(d.w, a.y));
    spread4(m.y, times(a.w, d.x), times(d.w, a.x), times(a.y, d.z), times(d.y, a.z));
    distributes(m.z, times(a.x, d.x), times(a.y, d.y));
    scale_inside(m.x, 4real, cx);
    scale_inside(m.y, 4real, cy);
    scale_inside(m.z, -8real, cz);
}

/// `(a + b)(c + d) - (a - b)(c - d)`.
proof fn polar(a: real, b: real, c: real, d: real)
    ensures
        times(a + b, c + d) - times(a - b, c - d) == 2real * (times(a, d) + times(b, c)),
{
    distributes_left(c + d, a, b);
    distributes(a, c, d);
    distributes(b, c, d);
    subtracts_left(c - d, a, b);
    subtracts(a, c, d);
    subtracts(b, c, d);
}

/// A whole number of times a product, for the few numbers that occur.
proof fn scale_inside(a: real, k: real, b: real)
    requires
        k == 2real || k == -2real || k == 4real || k == -4real || k == -8real || k == 0real,
    ensures
        times(a, k * b) == k * times(a, b),
        times(k, b) == k * b,
{
    distributes(a, b, b);
    distributes(a, b + b, b + b);
    distributes(a, b + b + b + b, b + b + b + b);
    negates(a, b + b);
    negates(a, b + b + b + b);
    negates(a, b + b + b + b + b + b + b + b);
    vanishes(a);
    one_is_neutral(b);
    commutes(b, 1real);
    commutes(b, k);
    distributes(b, 1real, 1real);
    distributes(b, 2real, 2real);
    distributes(b, 4real, 4real);
    negates(b, 2real);
    negates(b, 4real);
    negates(b, 8real);
    vanishes(b);
    assert(b + b == 2real * b);
    assert(b + b + b + b == 4real * b);
    assert(b + b + b + b + b + b + b + b == 8real * b);
}

proof fn k_times(k: real, a: real, m: real)
    requires
        k == 2real || k == -2real || k == 4real,
    ensures
        times(times(k, a), m) == k * times(a, m),
{
    associates(k, a, m);
    scale_inside(1real, k, times(a, m));
}

proof fn combine(k: real, a: real, l: real, b: real, n: real, c: real, d: real)
    requires
        k == 2real || k == -2real,
        l == 2real,
        n == -4real || n == 0real,
    ensures
        times(k * a + l * b + n * c, d) == k * times(a, d) + l * times(b, d) + n * times(c, d),
{
    distributes_left(d, k * a + l * b, n * c);
    distributes_left(d, k * a, l * b);
    commutes(k * a, d);
    commutes(l * b, d);
    commutes(n * c, d);
    scale_inside(d, k, a);
    scale_inside(d, l, b);
    scale_inside(d, n, c);
    commutes(a, d);
    commutes(b, d);
    commutes(c, d);
}

proof fn moves(a: real, m: real, d: real)
    ensures
        times(times(a, m), d) == times(m, times(a, d)),
{
    associates(a, m, d);
    swaps(a, m, d);
}

proof fn spread4(k: real, a: real, b: real, c: real, d: real)
    ensures
        times(k, a + b - c - d) == times(k, a) + times(k, b) - times(k, c) - times(k, d),
        times(k, a + b + c + d) == times(k, a) + times(k, b) + times(k, c) + times(k, d),
{
    distributes(k, a, b);
    subtracts(k, a + b, c);
    subtracts(k, a + b - c, d);
    distributes(k, a + b, c);
    distributes(k, a + b + c, d);
}

/// The sum of the squares of the parts of a quaternion, as its length takes it.
pub open spec fn squares<A: Arithmetic>(ar: &A, q: Quat) -> Scalar {
    let wx = sum(ar, product(ar, q.w, q.w), product(ar, q.x, q.x));
    sum(ar, sum(ar, wx, product(ar, q.y, q.y)), product(ar, q.z, q.z))
}

/// The steps of a quaternion's length are exact, its root among them.
pub open spec fn length_is_exact<A: Arithmetic>(
    ar: &A,
    val: spec_fn(Scalar) -> real,
    q: Quat,
) -> bool {
    let wx = sum(ar, product(ar, q.w, q.w), product(ar, q.x, q.x));
    let n = val(root(ar, squares(ar, q)));
    &&& adds_products(ar, val, q.w, q.w, q.x, q.x)
    &&& multiplies(ar, val, q.y, q.y)
    &&& multiplies(ar, val, q.z, q.z)
    &&& adds(ar, val, wx, product(ar, q.y, q.y))
    &&& adds(ar, val, sum(ar, wx, product(ar, q.y, q.y)), product(ar, q.z, q.z))
    &&& n >= 0real
    &&& times(n, n) == val(squares(ar, q))
}

/// The length of a quaternion is the root of the sum of the squares of its parts.
pub proof fn the_length_is_that_of_the_parts<A: Arithmetic>(
    ar: &A,
    val: spec_fn(Scalar) -> real,
    q: Quat,
)
    requires
        length_is_exact(ar, val, q),
    ensures
        val(length(ar, q)) >= 0real,
        times(val(length(ar, q)), val(length(ar, q))) == quat_inner(
            read_quat(val, q),
            read_quat(val, q),
        ),
{
}

/// The acceleration over its length, as the correction takes it.
pub open spec fn accel_direction<A: Arithmetic>(ar: &A, accel: Vec3) -> Vec3 {
    let inv = quotient(ar, one(), root(ar, accel_squared(ar, accel)));
    Vec3 {
        x: product(ar, accel.x, inv),
        y: product(ar, accel.y, inv),
        z: product(ar, accel.z, inv),
    }
}

/// The steps of the correction are exact: one part of the rate less the gain times
/// the same part of the unit gradient.
pub open spec fn correction_is_exact<A: Arithmetic>(
    ar: &A,
    val: spec_fn(Scalar) -> real,
    beta: Scalar,
    d: Scalar,
    s: Scalar,
    n: Scalar,
) -> bool {
    let inv = quotient(ar, one(), n);
    &&& shares(ar, val, one(), n)
    &&& multiplies(ar, val, beta, s)
    &&& multiplies(ar, val, product(ar, beta, s), inv)
    &&& takes(ar, val, d, product(ar, product(ar, beta, s), inv))
}

proof fn correction_part<A: Arithmetic>(
    ar: &A,
    val: spec_fn(Scalar) -> real,
    beta: Scalar,
    d: Scalar,
    s: Scalar,
    n: Scalar,
)
    requires
        val(one()) == 1real,
        correction_is_exact(ar, val, beta, d, s, n),
    ensures
        ({
            let inv = quotient(ar, one(), n);
            let r = val(difference(ar, d, product(ar, product(ar, beta, s), inv)));
            times(r - val(d), val(n)) == -times(val(beta), val(s))
        }),
{
    let inv = val(quotient(ar, one(), n));
    let k = times(val(beta), val(s));
    associates(k, inv, val(n));
    one_is_neutral(k);
    negates(times(k, inv), val(n));
}

/// Against gravity that is measured, the rate is drawn downhill: what it differs by from
/// the rate that the gyroscope gives points against the gradient of the misfit, and is
/// the gain long. Where the gradient is all but nothing, or the acceleration, it does
/// not differ.
pub proof fn the_correction_goes_downhill<A: Arithmetic>(
    ar: &A,
    val: spec_fn(Scalar) -> real,
    beta: Scalar,
    q: Quat,
    gyro: Vec3,
    accel: Vec3,
)
    requires
        val(one()) == 1real,
        ({
            let d = rate(ar, q, gyro);
            let s = gradient(ar, q, misfit(ar, q, accel_direction(ar, accel)));
            let n = length(ar, s);
            &&& correction_is_exact(ar, val, beta, d.w, s.w, n)
            &&& correction_is_exact(ar, val, beta, d.x, s.x, n)
            &&& correction_is_exact(ar, val, beta, d.y, s.y, n)
            &&& correction_is_exact(ar, val, beta, d.z, s.z, n)
        }),
    ensures
        ({
            let d = read_quat(val, rate(ar, q, gyro));
            let g = gradient(ar, q, misfit(ar, q, accel_direction(ar, accel)));
            let s = read_quat(val, g);
            let n = val(length(ar, g));
            let b = val(beta);
            let r = corrected_rate(ar, beta, q, gyro, accel);
            let c = read_quat(val, r);
            if (Scalar { bits: LEAST_ACCEL_BITS }).lt_spec(accel_squared(ar, accel))
                && (Scalar { bits: LEAST_NORM_BITS }).lt_spec(length(ar, g)) {
                &&& times(c.w - d.w, n) == -times(b, s.w)
                &&& times(c.x - d.x, n) == -times(b, s.x)
                &&& times(c.y - d.y, n) == -times(b, s.y)
                &&& times(c.z - d.z, n) == -times(b, s.z)
            } else {
                r == rate(ar, q, gyro)
            }
        }),
{
    let d = rate(ar, q, gyro);
    let s = gradient(ar, q, misfit(ar, q, accel_direction(ar, accel)));
    let n = length(ar, s);
    correction_part(ar, val, beta, d.w, s.w, n);
    correction_part(ar, val, beta, d.x, s.x, n);
    correction_part(ar, val, beta, d.y, s.y, n);
    correction_part(ar, val, beta, d.z, s.z, n);
}

/// The steps of the direction of an acceleration are exact.
pub open spec fn direction_is_exact<A: Arithmetic>(
    ar: &A,
    val: spec_fn(Scalar) -> real,
    a: Vec3,
) -> bool {
    let squared = sum(
        ar,
        sum(ar, product(ar, a.x, a.x), product(ar, a.y, a.y)),
        product(ar, a.z, a.z),
    );
    let n = root(ar, squared);
    let inv = quotient(ar, one(), n);
    &&& adds_products(ar, val, a.x, a.x, a.y, a.y)
    &&& multiplies(ar, val, a.z, a.z)
    &&& adds(
        ar,
        val,
        sum(ar, product(ar, a.x, a.x), product(ar, a.y, a.y)),
        product(ar, a.z, a.z),
    )
    &&& val(n) > 0real
    &&& times(val(n), val(n)) == val(squared)
    &&& shares(ar, val, one(), n)
    &&& multiplies(ar, val, a.x, inv)
    &&& multiplies(ar, val, a.y, inv)
    &&& multiplies(ar, val, a.z, inv)
}

/// The measured acceleration is compared by its direction alone: the vector that the
/// correction takes points along the acceleration and is one long.
pub proof fn gravity_is_compared_by_its_direction<A: Arithmetic>(
    ar: &A,
    val: spec_fn(Scalar) -> real,
    accel: Vec3,
)
    requires
        val(one()) == 1real,
        direction_is_exact(ar, val, accel),
    ensures
        ({
            let u = read(val, accel_direction(ar, accel));
            let n = val(root(ar, accel_squared(ar, accel)));
            let a = read(val, accel);
            &&& n > 0real
            &&& times(u.x, n) == a.x
            &&& times(u.y, n) == a.y
            &&& times(u.z, n) == a.z
            &&& inner(u, u) == 1real
        }),
{
    let u = read(val, accel_direction(ar, accel));
    let n = val(root(ar, accel_squared(ar, accel)));
    let a = read(val, accel);
    let inv = val(quotient(ar, one(), root(ar, accel_squared(ar, accel))));
    associates(a.x, inv, n);
    associates(a.y, inv, n);
    associates(a.z, inv, n);
    one_is_neutral(a.x);
    one_is_neutral(a.y);
    one_is_neutral(a.z);
    square_of_product(u.x, n);
    square_of_product(u.y, n);
    square_of_product(u.z, n);
    let nn = times(n, n);
    distributes_left(nn, times(u.x, u.x), times(u.y, u.y));
    distributes_left(nn, times(u.x, u.x) + times(u.y, u.y), times(u.z, u.z));
    positive(n, n);
    one_is_neutral(nn);
    commutes(nn, inner(u, u));
    cancels(nn, inner(u, u), 1real);
}

/// The sample moves the attitude by its rate times the time step, and the result has
/// the same direction: times the two lengths that it was divided by, it is the attitude
/// so moved.
pub proof fn a_sample_moves_the_attitude<A: Arithmetic>(
    ar: &A,
    val: spec_fn(Scalar) -> real,
    e: MadgwickAhrs,
    gyro: Vec3,
    accel: Vec3,
    dt: Scalar,
)
    requires
        val(one()) == 1real,
        ({
            let d = corrected_rate(ar, e.beta, e.q, gyro, accel);
            let q = moved(ar, e.q, d, dt);
            let n = length(ar, q);
            &&& moving_is_exact(ar, val, e.q.w, d.w, dt, n, unit_divisor(ar, q))
            &&& moving_is_exact(ar, val, e.q.x, d.x, dt, n, unit_divisor(ar, q))
            &&& moving_is_exact(ar, val, e.q.y, d.y, dt, n, unit_divisor(ar, q))
            &&& moving_is_exact(ar, val, e.q.z, d.z, dt, n, unit_divisor(ar, q))
        }),
    ensures
        ({
            let d = read_quat(val, corrected_rate(ar, e.beta, e.q, gyro, accel));
            let q = moved(ar, e.q, corrected_rate(ar, e.beta, e.q, gyro, accel), dt);
            let n = val(length(ar, q));
            let m = val(unit_divisor(ar, q));
            let t = val(dt);
            let r = updated(ar, e, gyro, accel, dt);
            let u = read_quat(val, r);
            let a = read_quat(val, e.q);
            if (Scalar { bits: LEAST_NORM_BITS }).lt_spec(length(ar, q)) {
                &&& times(times(u.w, m), n) == a.w + times(d.w, t)
                &&& times(times(u.x, m), n) == a.x + times(d.x, t)
                &&& times(times(u.y, m), n) == a.y + times(d.y, t)
                &&& times(times(u.z, m), n) == a.z + times(d.z, t)
            } else {
                r == e.q
            }
        }),
{
    let d = corrected_rate(ar, e.beta, e.q, gyro, accel);
    let q = moved(ar, e.q, d, dt);
    let n = length(ar, q);
    let m = unit_divisor(ar, q);
    moving_part(ar, val, e.q.w, d.w, dt, n, m);
    moving_part(ar, val, e.q.x, d.x, dt, n, m);
    moving_part(ar, val, e.q.y, d.y, dt, n, m);
    moving_part(ar, val, e.q.z, d.z, dt, n, m);
}

/// The length by which a quaternion, divided by its length, is divided once more.
pub open spec fn unit_divisor<A: Arithmetic>(ar: &A, q: Quat) -> Scalar {
    let u = times_scalar(ar, q, quotient(ar, one(), length(ar, q)));
    root(
        ar,
        sum(
            ar,
            sum(ar, product(ar, u.x, u.x), product(ar, u.z, u.z)),
            sum(ar, product(ar, u.y, u.y), product(ar, u.w, u.w)),
        ),
    )
}

/// The steps that move one part of a quaternion and bring it back to unit length are
/// exact.
pub open spec fn moving_is_exact<A: Arithmetic>(
    ar: &A,
    val: spec_fn(Scalar) -> real,
    q: Scalar,
    d: Scalar,
    t: Scalar,
    n: Scalar,
    m: Scalar,
) -> bool {
    let far = sum(ar, q, product(ar, d, t));
    let inv = quotient(ar, one(), n);
    &&& multiplies(ar, val, d, t)
    &&& adds(ar, val, q, product(ar, d, t))
    &&& shares(ar, val, one(), n)
    &&& multiplies(ar, val, far, inv)
    &&& shares(ar, val, product(ar, far, inv), m)
}

proof fn moving_part<A: Arithmetic>(
    ar: &A,
    val: spec_fn(Scalar) -> real,
    q: Scalar,
    d: Scalar,
    t: Scalar,
    n: Scalar,
    m: Scalar,
)
    requires
        val(one()) == 1real,
        moving_is_exact(ar, val, q, d, t, n, m),
    ensures
        ({
            let far = sum(ar, q, product(ar, d, t));
            let r = val(quotient(ar, product(ar, far, quotient(ar, one(), n)), m));
            times(times(r, val(m)), val(n)) == val(q) + times(val(d), val(t))
        }),
{
    let far = val(sum(ar, q, product(ar, d, t)));
    let inv = val(quotient(ar, one(), n));
    associates(far, inv, val(n));
    one_is_neutral(far);
}

} // verus!
