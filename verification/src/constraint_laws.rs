//! Laws of constraints and weights: what the rows of a program ask of a solution, how the
//! weight is shared out, and how a filter trusts its feet.
//!
//! Each law is stated for a reading of scalars as real numbers under which the steps
//! that it rests on are exact.

use vstd::prelude::*;
use crate::arith::{difference, product, quotient, sum, Arithmetic};
use crate::bound_laws::few_times;
use crate::centroidal_mpc::pyramid_row;
use crate::estimation_laws::row_sum;
use crate::exact::{adds, adds_product, multiplies, shares, takes};
use crate::foot_cost::{is_tiny, term_entry, term_q, FootTerm};
use crate::full_centroidal_footstep::LEAST_SPAN_BITS;
use crate::full_centroidal_mpc::FullCentroidalMpcConfig;
use crate::full_centroidal_qp::{friction_row, stance_cone_rows, unit_row};
use crate::full_centroidal_reference::{leg_force, pair_gain, weight_sum, ForceShaping};
use crate::ik::TWO_BITS;
use crate::linear_kalman::{
    symmetrised, LinearKalmanEstimator, G_BITS, HIGH_SUSPECT_BITS, TWENTY_BITS,
};
use crate::reals::{
    associates, commutes, distributes, distributes_left, is_reading, negates, one_is_neutral, size,
    times, vanishes,
};
use crate::rows::Row;
use crate::scalar::{minus_one, one, zero, Scalar};

verus! {

/// The reading knows one and minus one.
pub open spec fn reads_units(val: spec_fn(Scalar) -> real) -> bool {
    val(one()) == 1real && val(minus_one()) == -1real
}

/// A row with at most three coefficients that are not zero.
proof fn row_picks_three(
    val: spec_fn(Scalar) -> real,
    f: Seq<Scalar>,
    x: Seq<Scalar>,
    n: int,
    a: int,
    b: int,
    c: int,
)
    requires
        is_reading(val),
        0 <= n <= f.len(),
        n <= x.len(),
        a != b,
        b != c,
        a != c,
        0 <= a,
        0 <= b,
        0 <= c,
        forall|j: int| 0 <= j < n && j != a && j != b && j != c ==> #[trigger] f[j] == zero(),
    ensures
        row_sum(val, f, x, n) == (if a < n {
            times(val(f[a]), val(x[a]))
        } else {
            0real
        }) + (if b < n {
            times(val(f[b]), val(x[b]))
        } else {
            0real
        }) + (if c < n {
            times(val(f[c]), val(x[c]))
        } else {
            0real
        }),
    decreases n,
{
    if n > 0 {
        row_picks_three(val, f, x, n - 1, a, b, c);
        let j = n - 1;
        if j != a && j != b && j != c {
            assert(f[j] == zero());
            vanishes(val(x[j]));
            commutes(0real, val(x[j]));
        }
    }
}

/// A solution meets an inequality row.
pub open spec fn meets(val: spec_fn(Scalar) -> real, r: Row, x: Seq<Scalar>) -> bool {
    row_sum(val, r.coef, x, r.coef.len() as int) <= val(r.rhs)
}

proof fn units(x: real)
    ensures
        times(1real, x) == x,
        times(-1real, x) == -x,
{
    one_is_neutral(x);
    commutes(1real, x);
    negates(1real, x);
}

/// The row of a friction bound keeps a tangential force on one side within the friction of
/// the vertical one, with the slack when the cone is soft.
pub proof fn a_friction_row_bounds_the_tangential_force(
    val: spec_fn(Scalar) -> real,
    cfg: FullCentroidalMpcConfig,
    width: int,
    t: int,
    z: int,
    left: bool,
    slack: int,
    x: Seq<Scalar>,
)
    requires
        is_reading(val),
        reads_units(val),
        x.len() == width,
        0 <= t < width,
        0 <= z < width,
        0 <= slack,
        cfg.friction_cone_soft ==> slack < width,
        t != z,
        slack != t,
        slack != z,
    ensures
        ({
            let sign = if left { one() } else { minus_one() };
            let side = if left { val(x[t]) } else { -val(x[t]) };
            let give = if cfg.friction_cone_soft { val(x[slack]) } else { 0real };
            meets(val, friction_row(cfg, width, t, z, sign, slack), x) <==> side <= times(
                val(cfg.friction_mu),
                val(x[z]),
            ) + give
        }),
{
    let sign = if left { one() } else { minus_one() };
    let r = friction_row(cfg, width, t, z, sign, slack);
    if cfg.friction_cone_soft {
        row_picks_three(val, r.coef, x, width, t, z, slack);
        units(val(x[slack]));
    } else {
        row_picks_three(val, r.coef, x, width, t, z, width + t + z + 1);
    }
    units(val(x[t]));
    assert(val(cfg.friction_mu.neg_spec()) == -val(cfg.friction_mu));
    negates(val(cfg.friction_mu), val(x[z]));
}

/// The rows of a stance foot with a hard cone hold exactly where it pushes and does not
/// pull, pushes no harder than its bound, and slips neither forward nor sideways.
pub proof fn a_stance_foot_pushes_within_its_cone(
    val: spec_fn(Scalar) -> real,
    cfg: FullCentroidalMpcConfig,
    width: int,
    c: int,
    slack: int,
    bound: Scalar,
    x: Seq<Scalar>,
)
    requires
        is_reading(val),
        reads_units(val),
        !cfg.friction_cone_soft,
        x.len() == width,
        0 <= c,
        c + 2 < width,
        width <= slack,
    ensures
        ({
            let rows = stance_cone_rows(cfg, width, c, slack, bound);
            let reach = times(val(cfg.friction_mu), val(x[c + 2]));
            (forall|i: int| 0 <= i < rows.len() ==> meets(val, #[trigger] rows[i], x)) <==> {
                &&& 0real <= val(x[c + 2])
                &&& bound.is_finite_spec() ==> val(x[c + 2]) <= val(bound)
                &&& size(val(x[c])) <= reach
                &&& size(val(x[c + 1])) <= reach
            }
        }),
{
    let rows = stance_cone_rows(cfg, width, c, slack, bound);
    let z = c + 2;
    a_friction_row_bounds_the_tangential_force(val, cfg, width, c, z, true, slack, x);
    a_friction_row_bounds_the_tangential_force(val, cfg, width, c, z, false, slack, x);
    a_friction_row_bounds_the_tangential_force(val, cfg, width, c + 1, z, true, slack + 1, x);
    a_friction_row_bounds_the_tangential_force(val, cfg, width, c + 1, z, false, slack + 1, x);
    let push = Row { coef: unit_row(width, z, minus_one()), rhs: zero() };
    let cap = Row { coef: unit_row(width, z, one()), rhs: bound };
    row_picks_three(val, push.coef, x, width, z, width, width + 1);
    row_picks_three(val, cap.coef, x, width, z, width, width + 1);
    units(val(x[z]));
    let k: int = if bound.is_finite_spec() { 2 } else { 1 };
    assert(rows.len() == k + 4);
    assert(rows[0] == push);
    assert(bound.is_finite_spec() ==> rows[1] == cap);
    assert(rows[k] == friction_row(cfg, width, c, z, one(), slack));
    assert(rows[k + 1] == friction_row(cfg, width, c, z, minus_one(), slack));
    assert(rows[k + 2] == friction_row(cfg, width, c + 1, z, one(), slack + 1));
    assert(rows[k + 3] == friction_row(cfg, width, c + 1, z, minus_one(), slack + 1));
    let held = {
        &&& 0real <= val(x[z])
        &&& bound.is_finite_spec() ==> val(x[z]) <= val(bound)
        &&& size(val(x[c])) <= times(val(cfg.friction_mu), val(x[z]))
        &&& size(val(x[c + 1])) <= times(val(cfg.friction_mu), val(x[z]))
    };
    if held {
        assert forall|i: int| 0 <= i < rows.len() implies meets(val, #[trigger] rows[i], x) by {
            assert(i == 0 || (bound.is_finite_spec() && i == 1) || i == k || i == k + 1 || i == k
                + 2 || i == k + 3);
        }
    }
    if forall|i: int| 0 <= i < rows.len() ==> meets(val, #[trigger] rows[i], x) {
        assert(meets(val, rows[0], x));
        assert(bound.is_finite_spec() ==> meets(val, rows[1], x));
        assert(meets(val, rows[k], x));
        assert(meets(val, rows[k + 1], x));
        assert(meets(val, rows[k + 2], x));
        assert(meets(val, rows[k + 3], x));
        assert(held);
    }
}

/// The row of a pyramid keeps a tangential force on one side within the friction of the
/// vertical one.
pub proof fn a_pyramid_row_bounds_the_tangential_force(
    val: spec_fn(Scalar) -> real,
    mu: Scalar,
    width: int,
    t: int,
    z: int,
    left: bool,
    x: Seq<Scalar>,
)
    requires
        is_reading(val),
        reads_units(val),
        x.len() == width,
        0 <= t < width,
        0 <= z < width,
        t != z,
    ensures
        ({
            let sign = if left { one() } else { minus_one() };
            let side = if left { val(x[t]) } else { -val(x[t]) };
            meets(val, pyramid_row(mu, width, t, z, sign), x) <==> side <= times(
                val(mu),
                val(x[z]),
            )
        }),
{
    let sign = if left { one() } else { minus_one() };
    let r = pyramid_row(mu, width, t, z, sign);
    row_picks_three(val, r.coef, x, width, t, z, width + t + z + 1);
    units(val(x[t]));
    assert(val(mu.neg_spec()) == -val(mu));
    negates(val(mu), val(x[z]));
}

/// Vertical force of a leg without a trim.
pub open spec fn carries<A: Arithmetic>(
    ar: &A,
    val: spec_fn(Scalar) -> real,
    f: ForceShaping,
    stance: Seq<bool>,
    weight: Seq<Scalar>,
    total: Scalar,
    slot: int,
) -> real {
    val(leg_force(ar, f, stance[slot], weight[slot], total, slot).z)
}

/// The stance legs carry the weight between them, by their load weights: the vertical
/// forces of the four legs add up to it.
pub proof fn the_legs_carry_the_weight<A: Arithmetic>(
    ar: &A,
    val: spec_fn(Scalar) -> real,
    f: ForceShaping,
    stance: Seq<bool>,
    weight: Seq<Scalar>,
)
    requires
        is_reading(val),
        f.trim_fz is None || f.trim_fx is None,
        forall|n: int|
            0 <= n < 4 && #[trigger] stance[n] ==> adds(
                ar,
                val,
                weight_sum(ar, stance, weight, n),
                weight[n],
            ),
        ({
            let total = weight_sum(ar, stance, weight, 4);
            let unit = quotient(ar, f.weight, total);
            &&& (Scalar { bits: LEAST_SPAN_BITS }).lt_spec(total)
            &&& shares(ar, val, f.weight, total)
            &&& multiplies(ar, val, weight[0], unit)
            &&& multiplies(ar, val, weight[1], unit)
            &&& multiplies(ar, val, weight[2], unit)
            &&& multiplies(ar, val, weight[3], unit)
        }),
    ensures
        ({
            let total = weight_sum(ar, stance, weight, 4);
            carries(ar, val, f, stance, weight, total, 0) + carries(
                ar,
                val,
                f,
                stance,
                weight,
                total,
                1,
            ) + carries(ar, val, f, stance, weight, total, 2) + carries(
                ar,
                val,
                f,
                stance,
                weight,
                total,
                3,
            ) == val(f.weight)
        }),
{
    reveal_with_fuel(weight_sum, 5);
    let total = weight_sum(ar, stance, weight, 4);
    let unit = val(quotient(ar, f.weight, total));
    let a = if stance[0] { val(weight[0]) } else { 0real };
    let b = if stance[1] { val(weight[1]) } else { 0real };
    let c = if stance[2] { val(weight[2]) } else { 0real };
    let d = if stance[3] { val(weight[3]) } else { 0real };
    assert(val(total) == a + b + c + d);
    distributes(unit, a + b + c, d);
    distributes(unit, a + b, c);
    distributes(unit, a, b);
    commutes(unit, a);
    commutes(unit, b);
    commutes(unit, c);
    commutes(unit, d);
    vanishes(unit);
    commutes(unit, 0real);
}

/// The forward forces of the trim and of the added thrust fall on a stance leg by its load
/// weight; the thrust falls on the rear pair by its share and on the front pair by the rest.
pub proof fn the_legs_share_the_thrust<A: Arithmetic>(
    ar: &A,
    val: spec_fn(Scalar) -> real,
    f: ForceShaping,
    w: Scalar,
    total: Scalar,
    slot: int,
)
    requires
        is_reading(val),
        reads_units(val),
        val(Scalar { bits: TWO_BITS }) == 2real,
        f.trim_fx is Some,
        !f.bias.eq_spec_value(zero()),
        (Scalar { bits: LEAST_SPAN_BITS }).lt_spec(total),
        ({
            let two = Scalar { bits: TWO_BITS };
            let frac = f.rear_frac.clamp_spec(zero(), one());
            let gain = if slot < 2 {
                product(ar, two, difference(ar, one(), frac))
            } else {
                product(ar, two, frac)
            };
            let fx = f.trim_fx->0;
            let pair = product(ar, w, product(ar, fx, two));
            let thrust = product(ar, product(ar, w, gain), f.bias);
            &&& takes(ar, val, one(), frac)
            &&& multiplies(ar, val, two, difference(ar, one(), frac))
            &&& multiplies(ar, val, two, frac)
            &&& multiplies(ar, val, fx, two)
            &&& multiplies(ar, val, w, product(ar, fx, two))
            &&& shares(ar, val, pair, total)
            &&& multiplies(ar, val, w, gain)
            &&& multiplies(ar, val, product(ar, w, gain), f.bias)
            &&& shares(ar, val, thrust, total)
            &&& adds(ar, val, quotient(ar, pair, total), quotient(ar, thrust, total))
        }),
    ensures
        ({
            let x = val(leg_force(ar, f, true, w, total, slot).x);
            let frac = val(f.rear_frac.clamp_spec(zero(), one()));
            let part = if slot < 2 { 1real - frac } else { frac };
            let own = times(part, val(f.bias));
            let fx = val(f.trim_fx->0);
            times(x, val(total)) == times(val(w), fx + fx + own + own)
        }),
{
    let two = Scalar { bits: TWO_BITS };
    let frac = f.rear_frac.clamp_spec(zero(), one());
    let part = if slot < 2 { 1real - val(frac) } else { val(frac) };
    let fx = val(f.trim_fx->0);
    let gain = pair_gain(ar, f.rear_frac, slot);
    let pair = quotient(ar, product(ar, w, product(ar, f.trim_fx->0, two)), total);
    let thrust = quotient(ar, product(ar, product(ar, w, gain), f.bias), total);
    let own = times(part, val(f.bias));
    few_times(part);
    few_times(fx);
    assert(val(gain) == part + part);
    assert(val(product(ar, f.trim_fx->0, two)) == fx + fx);
    associates(val(w), part + part, val(f.bias));
    distributes_left(val(f.bias), part, part);
    distributes(val(w), fx + fx, own + own);
    assert(fx + fx + (own + own) == fx + fx + own + own);
    distributes_left(val(total), val(pair), val(thrust));
}

/// A foot in the air is trusted less: the noise of its velocity and of its height is that
/// of a foot on the ground times the suspicion, and that of its offset is the same.
pub proof fn a_foot_in_the_air_is_suspect<A: Arithmetic>(
    ar: &A,
    val: spec_fn(Scalar) -> real,
    e: LinearKalmanEstimator,
    ground: Seq<bool>,
    air: Seq<bool>,
    i: int,
)
    requires
        is_reading(val),
        reads_units(val),
        0 <= i < 28,
        12 <= i < 24 ==> ground[(i - 12) / 3] && !air[(i - 12) / 3],
        24 <= i ==> ground[i - 24] && !air[i - 24],
        multiplies(ar, val, e.foot_sensor_noise_velocity, one()),
        multiplies(ar, val, e.foot_height_sensor_noise, one()),
        multiplies(
            ar,
            val,
            e.foot_sensor_noise_velocity,
            Scalar { bits: HIGH_SUSPECT_BITS },
        ),
        multiplies(ar, val, e.foot_height_sensor_noise, Scalar { bits: HIGH_SUSPECT_BITS }),
    ensures
        ({
            let down = val(e.r_value(ar, ground, i));
            let up = val(e.r_value(ar, air, i));
            let high = val(Scalar { bits: HIGH_SUSPECT_BITS });
            &&& high > 1real
            &&& up == (if i < 12 {
                down
            } else {
                times(down, high)
            })
            &&& down == (if i < 12 {
                val(e.foot_sensor_noise_position)
            } else if i < 24 {
                val(e.foot_sensor_noise_velocity)
            } else {
                val(e.foot_height_sensor_noise)
            })
        }),
{
    let high = Scalar { bits: HIGH_SUSPECT_BITS };
    assert(one().lt_spec(high));
    assert(!one().is_nan_spec() && !high.is_nan_spec());
    one_is_neutral(val(e.foot_sensor_noise_velocity));
    one_is_neutral(val(e.foot_height_sensor_noise));
}

/// An entry of a symmetrised matrix is the mean of the two entries it stands for.
pub proof fn a_symmetrised_entry_is_the_mean<A: Arithmetic>(
    ar: &A,
    val: spec_fn(Scalar) -> real,
    p: Seq<Seq<Scalar>>,
    i: int,
    j: int,
)
    requires
        val(Scalar { bits: TWO_BITS }) == 2real,
        adds(ar, val, p[i][j], p[j][i]),
        shares(ar, val, sum(ar, p[i][j], p[j][i]), Scalar { bits: TWO_BITS }),
    ensures
        ({
            let m = val(symmetrised(ar, p, i, j));
            m + m == val(p[i][j]) + val(p[j][i])
        }),
{
    few_times(val(symmetrised(ar, p, i, j)));
}

/// A foot's miss enters the cost as the weight times its square over two: each entry of the
/// quadratic part gains the weight times both coefficients, and each of the linear part the
/// weight times the miss times the coefficient.
pub proof fn a_miss_costs_its_square<A: Arithmetic>(
    ar: &A,
    val: spec_fn(Scalar) -> real,
    w: Scalar,
    p: Scalar,
    q: Seq<Scalar>,
    t: FootTerm,
    i: int,
    j: int,
)
    requires
        0 <= i < q.len(),
        !is_tiny(t.b@[i]),
        !is_tiny(t.b@[j]),
        multiplies(ar, val, w, t.b@[i]),
        adds_product(ar, val, p, product(ar, w, t.b@[i]), t.b@[j]),
        multiplies(ar, val, w, t.r0),
        adds_product(ar, val, q[i], product(ar, w, t.r0), t.b@[i]),
    ensures
        ({
            let bi = val(t.b@[i]);
            let bj = val(t.b@[j]);
            &&& val(term_entry(ar, w, p, t.b@[i], t.b@[j])) - val(p) == times(
                val(w),
                times(bi, bj),
            )
            &&& val(term_q(ar, w, q, t)[i]) - val(q[i]) == times(val(w), times(val(t.r0), bi))
        }),
{
    associates(val(w), val(t.b@[i]), val(t.b@[j]));
    associates(val(w), val(t.r0), val(t.b@[i]));
}

/// What the model leaves open grows with the time step: twenty times the noise of the place is
/// the time times its noise, that of the velocity with gravity besides, and the noise of a
/// foot's place is the time times its own, with the suspicion while it is in the air.
pub proof fn the_process_noise_grows_with_time<A: Arithmetic>(
    ar: &A,
    val: spec_fn(Scalar) -> real,
    e: LinearKalmanEstimator,
    dt: Scalar,
    contact: Seq<bool>,
    i: int,
)
    requires
        is_reading(val),
        reads_units(val),
        0 <= i < 18,
        ({
            let twenty = Scalar { bits: TWENTY_BITS };
            let g = product(ar, dt, Scalar { bits: G_BITS });
            let own = product(ar, dt, e.foot_process_noise_position);
            &&& shares(ar, val, dt, twenty)
            &&& multiplies(ar, val, quotient(ar, dt, twenty), e.imu_process_noise_position)
            &&& multiplies(ar, val, dt, Scalar { bits: G_BITS })
            &&& shares(ar, val, g, twenty)
            &&& multiplies(ar, val, quotient(ar, g, twenty), e.imu_process_noise_velocity)
            &&& multiplies(ar, val, dt, e.foot_process_noise_position)
            &&& multiplies(ar, val, own, one())
            &&& multiplies(ar, val, own, Scalar { bits: HIGH_SUSPECT_BITS })
        }),
    ensures
        ({
            let q = val(e.q_value(ar, dt, contact, i));
            let twenty = val(Scalar { bits: TWENTY_BITS });
            let own = times(val(dt), val(e.foot_process_noise_position));
            if i < 3 {
                times(q, twenty) == times(val(dt), val(e.imu_process_noise_position))
            } else if i < 6 {
                times(q, twenty) == times(
                    times(val(dt), val(Scalar { bits: G_BITS })),
                    val(e.imu_process_noise_velocity),
                )
            } else if contact[(i - 6) / 3] {
                q == own
            } else {
                q == times(own, val(Scalar { bits: HIGH_SUSPECT_BITS }))
            }
        }),
{
    let twenty = val(Scalar { bits: TWENTY_BITS });
    let t = val(quotient(ar, dt, Scalar { bits: TWENTY_BITS }));
    let g = val(
        quotient(
            ar,
            product(ar, dt, Scalar { bits: G_BITS }),
            Scalar { bits: TWENTY_BITS },
        ),
    );
    let p = val(e.imu_process_noise_position);
    let v = val(e.imu_process_noise_velocity);
    associates(t, p, twenty);
    commutes(p, twenty);
    associates(t, twenty, p);
    associates(g, v, twenty);
    commutes(v, twenty);
    associates(g, twenty, v);
    one_is_neutral(times(val(dt), val(e.foot_process_noise_position)));
}

} // verus!
