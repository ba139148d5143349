//! Laws of gaits: what the feet of a crawl, the height of a swing and the inputs of a policy
//! owe to the motion of the body.
//!
//! Each law is stated for a reading of scalars as real numbers under which the steps
//! that it rests on are exact.

use vstd::prelude::*;
use crate::arith::{
    angle, arc_cosine, cosine, counted, difference, product, quotient, remainder, root, sine, sum,
    Arithmetic,
};
use crate::bound_laws::few_times;
use crate::bound_periodic_orbit::SIX_BITS;
use crate::config::{
    nominal_foot, stance_weight, LegId, LegKinematics, VelocityCmd, HALF_BITS, QUARTER_BITS,
};
use crate::controller::{swing_height, MAX_REDUCTION_BITS, VY_REF_BITS};
use crate::estimation_laws::{quat_inner, up_formula, up_seen, RealQuat};
use crate::exact::{
    adds, adds_product, adds_products, heading_parts, multiplies, read, shares, takes,
    takes_products, turns,
};
use crate::full_centroidal_controller::FullCentroidalMpcGaitController;
use crate::ik::{
    about_x, foot_position, hip_roll, lateral_offset, planar_height, triangle_angle, PI_BITS,
    TWO_BITS,
};
use crate::linear_crawl::{
    quarters, ramp, LinearCrawlConfig, LinearCrawlController, LinearCrawlOutput, FIFTEEN_BITS,
    TEN_BITS,
};
use crate::linear_crawl_gen::LinearCrawlGen;
use crate::policy::{
    computes, gravity, offset_target, ObsInput, ACTION_SCALE_BITS, DEFAULT_ISAAC_BITS, ISAAC_TO_GO2,
    MINUS_TWO_BITS,
};
use crate::reals::{
    associates, cancels, commutes, distributes, distributes_left, is_reading, negates, not_negative,
    one_is_neutral, positive, subtracts, subtracts_left, swaps, times, vanishes,
};
use crate::scalar::{minus_one, one, zero, Scalar, Vec3};
use crate::single::{narrowed, single_difference, widened, Single, SingleArithmetic};

verus! {

/// The place of a phase relative to the middle of the stance of a leg, as the foot of the
/// leg takes it.
pub open spec fn from_mid_stance<A: Arithmetic>(
    ar: &A,
    c: LinearCrawlConfig,
    i: int,
    phase: Scalar,
) -> Scalar {
    let half = Scalar { bits: HALF_BITS };
    let share = quotient(ar, c.stance_share(ar), Scalar { bits: TWO_BITS });
    let mid = remainder(ar, sum(ar, quarters(ar, i + 1), share), one());
    difference(ar, remainder(ar, sum(ar, difference(ar, phase, mid), half), one()), half)
}

/// The steps of the place of a stance foot are exact.
pub open spec fn stance_is_exact<A: Arithmetic>(
    ar: &A,
    val: spec_fn(Scalar) -> real,
    c: LinearCrawlConfig,
    i: int,
    x: Scalar,
    phase: Scalar,
) -> bool {
    let delta = from_mid_stance(ar, c, i, phase);
    let way = product(ar, c.speed_mps, delta);
    &&& multiplies(ar, val, c.speed_mps, delta)
    &&& multiplies(ar, val, way, c.period())
    &&& takes(ar, val, x, product(ar, way, c.period()))
}

/// A stance foot stays where it is while the trunk moves over it: between two phases of a
/// stance that are apart by a part of the cycle, the foot recedes under the trunk by the
/// speed times that part of the period.
pub proof fn a_crawling_foot_stays_on_the_ground<A: Arithmetic>(
    ar: &A,
    val: spec_fn(Scalar) -> real,
    c: LinearCrawlConfig,
    i: int,
    x: Scalar,
    phase: Scalar,
    later: Scalar,
)
    requires
        stance_is_exact(ar, val, c, i, x, phase),
        stance_is_exact(ar, val, c, i, x, later),
        val(from_mid_stance(ar, c, i, later)) - val(from_mid_stance(ar, c, i, phase)) == val(later)
            - val(phase),
    ensures
        ({
            let time = times(val(later) - val(phase), val(c.period()));
            val(c.stance_x(ar, i, x, later)) + times(val(c.speed_mps), time) == val(
                c.stance_x(ar, i, x, phase),
            )
        }),
{
    let a = val(from_mid_stance(ar, c, i, phase));
    let b = val(from_mid_stance(ar, c, i, later));
    let v = val(c.speed_mps);
    let t = val(c.period());
    associates(v, b - a, t);
    subtracts(v, b, a);
    subtracts_left(t, times(v, b), times(v, a));
}

/// A phase is told from the middle of the stance up to whole cycles, by less than half a
/// cycle to either side.
pub proof fn a_phase_is_told_from_mid_stance<A: Arithmetic>(
    ar: &A,
    val: spec_fn(Scalar) -> real,
    c: LinearCrawlConfig,
    i: int,
    phase: Scalar,
    k: int,
    l: int,
)
    requires
        val(one()) == 1real,
        val(Scalar { bits: HALF_BITS }) + val(Scalar { bits: HALF_BITS }) == 1real,
        val(Scalar { bits: TWO_BITS }) == 2real,
        ({
            let half = Scalar { bits: HALF_BITS };
            let two = Scalar { bits: TWO_BITS };
            let share = quotient(ar, c.stance_share(ar), two);
            let place = sum(ar, quarters(ar, i + 1), share);
            let mid = remainder(ar, place, one());
            let shifted = sum(ar, difference(ar, phase, mid), half);
            let rest = remainder(ar, shifted, one());
            &&& shares(ar, val, c.stance_share(ar), two)
            &&& adds(ar, val, quarters(ar, i + 1), share)
            &&& val(mid) == val(place) - k as real
            &&& takes(ar, val, phase, mid)
            &&& adds(ar, val, difference(ar, phase, mid), half)
            &&& 0real <= val(rest) < 1real
            &&& val(rest) == val(shifted) - l as real
            &&& takes(ar, val, rest, half)
        }),
    ensures
        ({
            let d = val(from_mid_stance(ar, c, i, phase));
            let mid = val(quarters(ar, i + 1)) + val(quarters(ar, i + 1)) + val(c.stance_share(ar));
            &&& d + d + mid == val(phase) + val(phase) + 2real * (k as real) - 2real * (l as real)
            &&& -1real <= d + d < 1real
        }),
{
    few_times(val(quotient(ar, c.stance_share(ar), Scalar { bits: TWO_BITS })));
}

/// The stride is the way of the trunk in a stance: twice the half stride is the speed times
/// the part of the period that a leg stands.
pub proof fn a_stride_is_the_way_of_a_stance<A: Arithmetic>(
    ar: &A,
    val: spec_fn(Scalar) -> real,
    c: LinearCrawlConfig,
)
    requires
        val(Scalar { bits: TWO_BITS }) == 2real,
        multiplies(ar, val, c.speed_mps, c.stance_share(ar)),
        multiplies(ar, val, product(ar, c.speed_mps, c.stance_share(ar)), c.period()),
        shares(
            ar,
            val,
            product(ar, product(ar, c.speed_mps, c.stance_share(ar)), c.period()),
            Scalar { bits: TWO_BITS },
        ),
    ensures
        ({
            let h = val(c.half_stride(ar));
            h + h == times(val(c.speed_mps), times(val(c.stance_share(ar)), val(c.period())))
        }),
{
    few_times(val(c.half_stride(ar)));
    associates(val(c.speed_mps), val(c.stance_share(ar)), val(c.period()));
}

/// A leg swings for its share of the cycle, which with the support makes up a quarter, and
/// stands for the rest.
pub proof fn swing_and_support_make_up_a_quarter<A: Arithmetic>(
    ar: &A,
    val: spec_fn(Scalar) -> real,
    c: LinearCrawlConfig,
)
    requires
        val(one()) == 1real,
        4real * val(Scalar { bits: QUARTER_BITS }) == 1real,
        takes(ar, val, one(), c.support()),
        multiplies(ar, val, difference(ar, one(), c.support()), Scalar { bits: QUARTER_BITS }),
        takes(ar, val, one(), c.swing_share(ar)),
    ensures
        4real * val(c.swing_share(ar)) + val(c.support()) == 1real,
        val(c.stance_share(ar)) + val(c.swing_share(ar)) == 1real,
{
    let k = val(Scalar { bits: QUARTER_BITS });
    let r = 1real - val(c.support());
    quarter_of(k, r);
}

/// A quarter of a number, four times.
proof fn quarter_of(k: real, r: real)
    requires
        4real * k == 1real,
    ensures
        4real * times(r, k) == r,
{
    distributes(r, k, k);
    distributes(r, k + k, k + k);
    one_is_neutral(r);
    assert(k + k + (k + k) == 1real);
}

/// A swing begins at the lift-off and ends with the quarter: the fraction of it that has
/// passed, times its share, is what has passed since the lift-off, and a whole share after
/// the lift-off is the end of the quarter.
pub proof fn a_swing_ends_with_its_quarter<A: Arithmetic>(
    ar: &A,
    val: spec_fn(Scalar) -> real,
    c: LinearCrawlConfig,
    i: int,
    phase: Scalar,
)
    requires
        val(one()) == 1real,
        4real * val(Scalar { bits: QUARTER_BITS }) == 1real,
        val(counted(ar, (i + 1) as usize)) == val(counted(ar, i as usize)) + 1real,
        ({
            let quarter = Scalar { bits: QUARTER_BITS };
            let lift = c.lift_phase(ar, i);
            &&& takes(ar, val, one(), c.support())
            &&& multiplies(ar, val, difference(ar, one(), c.support()), quarter)
            &&& multiplies(ar, val, counted(ar, i as usize), quarter)
            &&& multiplies(ar, val, counted(ar, (i + 1) as usize), quarter)
            &&& multiplies(ar, val, c.support(), quarter)
            &&& adds(
                ar,
                val,
                product(ar, counted(ar, i as usize), quarter),
                product(ar, c.support(), quarter),
            )
            &&& takes(ar, val, phase, lift)
            &&& shares(ar, val, difference(ar, phase, lift), c.swing_share(ar))
        }),
    ensures
        ({
            let u = val(c.swing_fraction(ar, i, phase));
            let lift = val(c.lift_phase(ar, i));
            let share = val(c.swing_share(ar));
            &&& lift + times(u, share) == val(phase)
            &&& lift + share == val(quarters(ar, i + 1))
        }),
{
    let k = val(Scalar { bits: QUARTER_BITS });
    let s = val(c.support());
    let n = val(counted(ar, i as usize));
    subtracts_left(k, 1real, s);
    distributes_left(k, n, 1real);
}

/// In a swing the foot goes from half a stride behind its nominal place to half a stride
/// ahead of it, as the ramp rises, and up by the height times the half sine.
pub proof fn a_swing_carries_the_foot_a_stride_ahead<A: Arithmetic>(
    ar: &A,
    val: spec_fn(Scalar) -> real,
    c: LinearCrawlConfig,
    x: Scalar,
    z: Scalar,
    u: Scalar,
)
    requires
        ({
            let h = c.half_stride(ar);
            let lift = difference(ar, x, h);
            let land = sum(ar, x, h);
            let arc = sine(ar, product(ar, Scalar { bits: PI_BITS }, u));
            &&& takes(ar, val, x, h)
            &&& adds(ar, val, x, h)
            &&& takes(ar, val, land, lift)
            &&& adds_product(ar, val, lift, difference(ar, land, lift), ramp(ar, u))
            &&& adds_product(ar, val, z, c.swing_height_m, arc)
        }),
    ensures
        ({
            let h = val(c.half_stride(ar));
            let arc = sine(ar, product(ar, Scalar { bits: PI_BITS }, u));
            &&& val(c.swing_x(ar, x, u)) == val(x) - h + times(h + h, val(ramp(ar, u)))
            &&& val(c.swing_z(ar, z, u)) == val(z) + times(val(c.swing_height_m), val(arc))
        }),
{
    let h = val(c.half_stride(ar));
    assert(val(x) + h - (val(x) - h) == h + h);
}

/// The ramp is the quintic with flat ends.
pub proof fn the_ramp_is_a_smooth_quintic<A: Arithmetic>(
    ar: &A,
    val: spec_fn(Scalar) -> real,
    u: Scalar,
)
    requires
        val(Scalar { bits: SIX_BITS }) == 6real,
        val(Scalar { bits: TEN_BITS }) == 10real,
        val(Scalar { bits: FIFTEEN_BITS }) == 15real,
        ({
            let square = product(ar, u, u);
            let six = product(ar, u, Scalar { bits: SIX_BITS });
            let low = difference(ar, six, Scalar { bits: FIFTEEN_BITS });
            let all = sum(ar, product(ar, u, low), Scalar { bits: TEN_BITS });
            &&& multiplies(ar, val, u, u)
            &&& multiplies(ar, val, square, u)
            &&& multiplies(ar, val, u, Scalar { bits: SIX_BITS })
            &&& takes(ar, val, six, Scalar { bits: FIFTEEN_BITS })
            &&& multiplies(ar, val, u, low)
            &&& adds(ar, val, product(ar, u, low), Scalar { bits: TEN_BITS })
            &&& multiplies(ar, val, product(ar, square, u), all)
        }),
    ensures
        ({
            let t = val(u);
            let cube = times(times(t, t), t);
            let fourth = times(cube, t);
            let fifth = times(fourth, t);
            val(ramp(ar, u)) == 6real * fifth - 15real * fourth + 10real * cube
        }),
{
    let t = val(u);
    let cube = times(times(t, t), t);
    few_times(t);
    commutes(t, 6real);
    let low = 6real * t - 15real;
    distributes(cube, times(t, low), 10real);
    associates(cube, t, low);
    let fourth = times(cube, t);
    subtracts(fourth, 6real * t, 15real);
    scales(fourth, t);
    scales(cube, 1real);
    scales(fourth, 1real);
    one_is_neutral(cube);
    one_is_neutral(fourth);
}

/// Six, ten and fifteen times a factor.
proof fn scales(a: real, b: real)
    ensures
        times(a, 6real * b) == 6real * times(a, b),
        times(a, 10real * b) == 10real * times(a, b),
        times(a, 15real * b) == 15real * times(a, b),
{
    distributes(a, b, b);
    distributes(a, 2real * b, b);
    distributes(a, 3real * b, 3real * b);
    distributes(a, 3real * b, 2real * b);
    distributes(a, 5real * b, 5real * b);
    distributes(a, 10real * b, 5real * b);
    assert(b + b == 2real * b);
    assert(2real * b + b == 3real * b);
    assert(3real * b + 3real * b == 6real * b);
    assert(3real * b + 2real * b == 5real * b);
    assert(5real * b + 5real * b == 10real * b);
    assert(10real * b + 5real * b == 15real * b);
}

/// The step that a crawl reports reaches from half the way of a stance behind the nominal
/// place to half of it ahead, on the ground under the body.
pub proof fn a_crawl_step_is_the_way_of_a_stance<A: Arithmetic>(
    ar: &A,
    val: spec_fn(Scalar) -> real,
    c: LinearCrawlGen,
    kin: LegKinematics,
)
    requires
        is_reading(val),
        val(one()) == 1real,
        val(Scalar { bits: TWO_BITS }) == 2real,
        ({
            let stands = difference(ar, one(), c.swing_share(ar));
            let way = product(ar, product(ar, c.cmd.vx, stands), c.ctrl.cfg.cycle_period_s);
            &&& takes(ar, val, one(), c.swing_share(ar))
            &&& multiplies(ar, val, c.cmd.vx, stands)
            &&& multiplies(ar, val, product(ar, c.cmd.vx, stands), c.ctrl.cfg.cycle_period_s)
            &&& shares(ar, val, way, Scalar { bits: TWO_BITS })
            &&& takes(ar, val, kin.nominal_foot_body.x, c.half_stride(ar))
            &&& adds(ar, val, kin.nominal_foot_body.x, c.half_stride(ar))
        }),
    ensures
        ({
            let down = read(val, c.step_of(ar, kin).touch_down);
            let up = read(val, c.step_of(ar, kin).lift_off);
            let n = read(val, kin.nominal_foot_body);
            let stands = 1real - val(c.swing_share(ar));
            &&& down.x - up.x == times(
                times(val(c.cmd.vx), stands),
                val(c.ctrl.cfg.cycle_period_s),
            )
            &&& down.x + up.x == n.x + n.x
            &&& down.y == n.y && up.y == n.y
            &&& down.z == -val(c.body_height_m) && up.z == -val(c.body_height_m)
        }),
{
    few_times(val(c.half_stride(ar)));
    assert(val(c.body_height_m.neg_spec()) == -val(c.body_height_m));
}

/// By how much a command turns and moves sideways, from not at all to all that counts: the
/// mean of the yaw rate and of the lateral speed over its scale, each at most one.
pub open spec fn sway<A: Arithmetic>(ar: &A, cmd: VelocityCmd) -> Scalar {
    let yaw = quotient(ar, cmd.wz.abs_spec(), one()).min_spec(one());
    let lateral = quotient(ar, cmd.vy.abs_spec(), Scalar { bits: VY_REF_BITS }).min_spec(one());
    product(ar, sum(ar, yaw, lateral), Scalar { bits: HALF_BITS }).clamp_spec(zero(), one())
}

/// Turning and moving sideways lower a swing, and never raise it: the height is the base
/// less the reduction, by the sway, of the base, and so between nothing and the base.
pub proof fn turning_lowers_the_swing<A: Arithmetic>(
    ar: &A,
    val: spec_fn(Scalar) -> real,
    base: Scalar,
    cmd: VelocityCmd,
)
    requires
        is_reading(val),
        val(one()) == 1real,
        0real <= val(base),
        !sway(ar, cmd).is_nan_spec(),
        ({
            let m = Scalar { bits: MAX_REDUCTION_BITS };
            let r = sway(ar, cmd);
            &&& multiplies(ar, val, m, r)
            &&& takes(ar, val, one(), product(ar, m, r))
            &&& multiplies(ar, val, base, difference(ar, one(), product(ar, m, r)))
        }),
    ensures
        ({
            let h = val(swing_height(ar, base, cmd));
            let less = times(val(Scalar { bits: MAX_REDUCTION_BITS }), val(sway(ar, cmd)));
            &&& 0real <= less <= 1real
            &&& h == val(base) - times(val(base), less)
            &&& 0real <= h <= val(base)
        }),
{
    let m = Scalar { bits: MAX_REDUCTION_BITS };
    let r = sway(ar, cmd);
    assert(zero().lt_spec(m) && m.lt_spec(one()) && zero().lt_spec(one()));
    assert(!m.is_nan_spec() && !zero().is_nan_spec() && !one().is_nan_spec());
    assert(!r.lt_spec(zero()) && !one().lt_spec(r));
    assert(0real <= val(r) <= 1real);
    let k = times(val(m), val(r));
    not_negative(val(m), val(r));
    subtracts(val(m), 1real, val(r));
    one_is_neutral(val(m));
    not_negative(val(m), 1real - val(r));
    not_negative(val(base), k);
    subtracts(val(base), 1real, k);
    one_is_neutral(val(base));
    not_negative(val(base), 1real - k);
}

/// A reading of single scalars agrees with one of scalars where a value is widened or
/// narrowed.
pub open spec fn keeps_values<B: SingleArithmetic>(
    sa: &B,
    val: spec_fn(Scalar) -> real,
    sval: spec_fn(Single) -> real,
    q: Seq<Single>,
    g: Seq<Scalar>,
) -> bool {
    &&& forall|i: int| 0 <= i < 4 ==> val(widened(sa, #[trigger] q[i])) == sval(q[i])
    &&& forall|i: int| 0 <= i < 3 ==> sval(narrowed(sa, #[trigger] g[i])) == val(g[i])
}

/// The steps of projected gravity are exact.
pub open spec fn projection_is_exact<A: Arithmetic>(
    ar: &A,
    val: spec_fn(Scalar) -> real,
    w: Scalar,
    x: Scalar,
    y: Scalar,
    z: Scalar,
) -> bool {
    let two = Scalar { bits: TWO_BITS };
    let a = difference(ar, product(ar, w, y), product(ar, x, z));
    let b = sum(ar, product(ar, y, z), product(ar, w, x));
    let c = sum(ar, product(ar, x, x), product(ar, y, y));
    &&& takes_products(ar, val, w, y, x, z)
    &&& multiplies(ar, val, two, a)
    &&& adds_products(ar, val, y, z, w, x)
    &&& multiplies(ar, val, Scalar { bits: MINUS_TWO_BITS }, b)
    &&& adds_products(ar, val, x, x, y, y)
    &&& multiplies(ar, val, two, c)
    &&& takes(ar, val, product(ar, two, c), one())
}

/// Gravity as the policy sees it points down: it is the opposite of the world's up
/// direction turned back by the attitude.
pub proof fn projected_gravity_points_down<A: Arithmetic, B: SingleArithmetic>(
    ar: &A,
    sa: &B,
    val: spec_fn(Scalar) -> real,
    sval: spec_fn(Single) -> real,
    q: Seq<Single>,
)
    requires
        val(one()) == 1real,
        val(Scalar { bits: TWO_BITS }) == 2real,
        val(Scalar { bits: MINUS_TWO_BITS }) == -2real,
        ({
            let w = widened(sa, q[0]);
            let x = widened(sa, q[1]);
            let y = widened(sa, q[2]);
            let z = widened(sa, q[3]);
            let two = Scalar { bits: TWO_BITS };
            let a = difference(ar, product(ar, w, y), product(ar, x, z));
            let b = sum(ar, product(ar, y, z), product(ar, w, x));
            let c = sum(ar, product(ar, x, x), product(ar, y, y));
            &&& projection_is_exact(ar, val, w, x, y, z)
            &&& keeps_values(
                sa,
                val,
                sval,
                q,
                seq![
                    product(ar, two, a),
                    product(ar, Scalar { bits: MINUS_TWO_BITS }, b),
                    difference(ar, product(ar, two, c), one()),
                ],
            )
        }),
        ({
            let r = RealQuat { w: sval(q[0]), x: sval(q[1]), y: sval(q[2]), z: sval(q[3]) };
            quat_inner(r, r) == 1real
        }),
    ensures
        ({
            let r = RealQuat { w: sval(q[0]), x: sval(q[1]), y: sval(q[2]), z: sval(q[3]) };
            let up = up_seen(r);
            let g = gravity(ar, sa, q);
            &&& sval(g[0]) == -up.x
            &&& sval(g[1]) == -up.y
            &&& sval(g[2]) == -up.z
        }),
{
    let w = widened(sa, q[0]);
    let x = widened(sa, q[1]);
    let y = widened(sa, q[2]);
    let z = widened(sa, q[3]);
    let two = Scalar { bits: TWO_BITS };
    let a = difference(ar, product(ar, w, y), product(ar, x, z));
    let b = sum(ar, product(ar, y, z), product(ar, w, x));
    let c = sum(ar, product(ar, x, x), product(ar, y, y));
    let g = seq![
        product(ar, two, a),
        product(ar, Scalar { bits: MINUS_TWO_BITS }, b),
        difference(ar, product(ar, two, c), one()),
    ];
    assert(sval(narrowed(sa, g[0])) == val(g[0]));
    assert(sval(narrowed(sa, g[1])) == val(g[1]));
    assert(sval(narrowed(sa, g[2])) == val(g[2]));
    assert(val(w) == sval(q[0]) && val(x) == sval(q[1]) && val(y) == sval(q[2]) && val(z)
        == sval(q[3]));
    let r = RealQuat { w: val(w), x: val(x), y: val(y), z: val(z) };
    up_formula(r);
    few_times(val(a));
    few_times(val(b));
    negates(2real, val(b));
    few_times(val(c));
}

/// An action moves a joint target its own way, by the scale of the actions.
pub proof fn an_action_moves_the_joint_its_own_way<A: Arithmetic>(
    ar: &A,
    val: spec_fn(Scalar) -> real,
    i: int,
    a: Scalar,
    b: Scalar,
)
    requires
        is_reading(val),
        adds_product(
            ar,
            val,
            Scalar { bits: DEFAULT_ISAAC_BITS@[i] },
            Scalar { bits: ACTION_SCALE_BITS },
            a,
        ),
        adds_product(
            ar,
            val,
            Scalar { bits: DEFAULT_ISAAC_BITS@[i] },
            Scalar { bits: ACTION_SCALE_BITS },
            b,
        ),
    ensures
        ({
            let scale = val(Scalar { bits: ACTION_SCALE_BITS });
            &&& scale > 0real
            &&& val(offset_target(ar, i, b)) - val(offset_target(ar, i, a)) == times(
                scale,
                val(b) - val(a),
            )
        }),
{
    let scale = Scalar { bits: ACTION_SCALE_BITS };
    assert(zero().lt_spec(scale));
    assert(!zero().is_nan_spec() && !scale.is_nan_spec());
    subtracts(val(scale), val(b), val(a));
}

/// The steps of the forward map of a leg are exact.
pub open spec fn leg_is_exact<A: Arithmetic>(
    ar: &A,
    val: spec_fn(Scalar) -> real,
    kin: LegKinematics,
    hip: Scalar,
    thigh: Scalar,
    calf: Scalar,
) -> bool {
    let l = lateral_offset(kin);
    let low = sum(ar, thigh, calf);
    let ahead = sum(
        ar,
        product(ar, kin.upper_leg_m, sine(ar, thigh)),
        product(ar, kin.lower_leg_m, sine(ar, low)),
    );
    let z = difference(
        ar,
        product(ar, kin.upper_leg_m.neg_spec(), cosine(ar, thigh)),
        product(ar, kin.lower_leg_m, cosine(ar, low)),
    );
    let roll = about_x(kin.leg, hip);
    let c = cosine(ar, roll);
    let s = sine(ar, roll);
    let y = difference(ar, product(ar, l, c), product(ar, z, s));
    let up = sum(ar, product(ar, l, s), product(ar, z, c));
    &&& turns(ar, val, roll)
    &&& adds_products(ar, val, kin.upper_leg_m, sine(ar, thigh), kin.lower_leg_m, sine(ar, low))
    &&& takes_products(
        ar,
        val,
        kin.upper_leg_m.neg_spec(),
        cosine(ar, thigh),
        kin.lower_leg_m,
        cosine(ar, low),
    )
    &&& takes_products(ar, val, l, c, z, s)
    &&& adds_products(ar, val, l, s, z, c)
    &&& adds(ar, val, ahead, kin.hip_offset.x)
    &&& adds(ar, val, y, kin.hip_offset.y)
    &&& adds(ar, val, up, kin.hip_offset.z)
}

/// A leg hangs from its hip: seen from the hip and with the roll undone, the foot lies to the
/// side by the offset of the thigh, ahead by what thigh and calf lean forward, and below by
/// what they reach down.
pub proof fn a_leg_hangs_from_its_hip<A: Arithmetic>(
    ar: &A,
    val: spec_fn(Scalar) -> real,
    kin: LegKinematics,
    hip: Scalar,
    thigh: Scalar,
    calf: Scalar,
)
    requires
        is_reading(val),
        leg_is_exact(ar, val, kin, hip, thigh, calf),
    ensures
        ({
            let p = read(val, foot_position(ar, kin, hip, thigh, calf));
            let o = read(val, kin.hip_offset);
            let c = val(cosine(ar, about_x(kin.leg, hip)));
            let s = val(sine(ar, about_x(kin.leg, hip)));
            let low = sum(ar, thigh, calf);
            let upper = val(kin.upper_leg_m);
            let lower = val(kin.lower_leg_m);
            let y = p.y - o.y;
            let z = p.z - o.z;
            &&& p.x - o.x == times(upper, val(sine(ar, thigh))) + times(lower, val(sine(ar, low)))
            &&& times(y, c) + times(z, s) == val(lateral_offset(kin))
            &&& times(y, s) - times(z, c) == times(upper, val(cosine(ar, thigh))) + times(
                lower,
                val(cosine(ar, low)),
            )
        }),
{
    let c = val(cosine(ar, about_x(kin.leg, hip)));
    let s = val(sine(ar, about_x(kin.leg, hip)));
    let l = val(lateral_offset(kin));
    let z = val(planar_height(ar, kin, thigh, calf));
    heading_parts(c, s, l, z);
    assert(val(kin.upper_leg_m.neg_spec()) == -val(kin.upper_leg_m));
    negates(val(kin.upper_leg_m), val(cosine(ar, thigh)));
}

/// The steps of a hip's roll are exact, and the angle has the sine and the cosine that it is
/// made from.
pub open spec fn roll_is_exact<A: Arithmetic>(
    ar: &A,
    val: spec_fn(Scalar) -> real,
    l: Scalar,
    z: Scalar,
    y: Scalar,
    up: Scalar,
) -> bool {
    let denom = sum(ar, product(ar, l, l), product(ar, z, z));
    let along = sum(ar, product(ar, l, y), product(ar, z, up));
    let across = difference(ar, product(ar, l, up), product(ar, z, y));
    let c = quotient(ar, along, denom);
    let s = quotient(ar, across, denom);
    let a = angle(ar, s, c);
    &&& adds_products(ar, val, l, l, z, z)
    &&& adds_products(ar, val, l, y, z, up)
    &&& takes_products(ar, val, l, up, z, y)
    &&& shares(ar, val, along, denom)
    &&& shares(ar, val, across, denom)
    &&& val(sine(ar, a)) == val(s)
    &&& val(cosine(ar, a)) == val(c)
    &&& times(val(l), val(l)) + times(val(z), val(z)) > 0real
}

/// The roll of a hip brings the foot to where it is to be: turned by it, the offset of the
/// thigh and the height in the rolled plane are the side and the height of the foot.
pub proof fn the_roll_brings_the_foot_to_its_place<A: Arithmetic>(
    ar: &A,
    val: spec_fn(Scalar) -> real,
    l: Scalar,
    z: Scalar,
    p: Vec3,
)
    requires
        roll_is_exact(ar, val, l, z, p.y, p.z),
    ensures
        ({
            let a = hip_roll(ar, l, z, p);
            let c = val(cosine(ar, a));
            let s = val(sine(ar, a));
            &&& times(val(l), c) - times(val(z), s) == val(p.y)
            &&& times(val(l), s) + times(val(z), c) == val(p.z)
        }),
{
    let a = hip_roll(ar, l, z, p);
    let c = val(cosine(ar, a));
    let s = val(sine(ar, a));
    let h = val(z);
    let o = val(l);
    let y = val(p.y);
    let u = val(p.z);
    let d = times(o, o) + times(h, h);
    commutes(c, d);
    commutes(s, d);
    // d (l c - z s) = l (l y + z u) - z (l u - z y) = d y
    subtracts(d, times(o, c), times(h, s));
    swaps(d, o, c);
    swaps(d, h, s);
    distributes(o, times(o, y), times(h, u));
    subtracts(h, times(o, u), times(h, y));
    associates(o, o, y);
    associates(h, h, y);
    associates(o, h, u);
    associates(h, o, u);
    commutes(o, h);
    distributes_left(y, times(o, o), times(h, h));
    cancels(d, times(o, c) - times(h, s), y);
    // d (l s + z c) = l (l u - z y) + z (l y + z u) = d u
    distributes(d, times(o, s), times(h, c));
    swaps(d, o, s);
    swaps(d, h, c);
    subtracts(o, times(o, u), times(h, y));
    distributes(h, times(o, y), times(h, u));
    associates(o, o, u);
    associates(h, h, u);
    associates(o, h, y);
    associates(h, o, y);
    distributes_left(u, times(o, o), times(h, h));
    cancels(d, times(o, s) + times(h, c), u);
}

/// The angle of a triangle closes it: the square of the side that it faces is the sum of the
/// squares of the others, less twice their product times its cosine.
pub proof fn the_angle_closes_the_triangle<A: Arithmetic>(
    ar: &A,
    val: spec_fn(Scalar) -> real,
    a: Scalar,
    b: Scalar,
    c: Scalar,
)
    requires
        val(Scalar { bits: TWO_BITS }) == 2real,
        ({
            let two = Scalar { bits: TWO_BITS };
            let squares = sum(ar, product(ar, a, a), product(ar, b, b));
            let left = difference(ar, squares, product(ar, c, c));
            let twice = product(ar, product(ar, two, a), b);
            let cos = quotient(ar, left, twice);
            &&& adds_products(ar, val, a, a, b, b)
            &&& multiplies(ar, val, c, c)
            &&& takes(ar, val, squares, product(ar, c, c))
            &&& multiplies(ar, val, two, a)
            &&& multiplies(ar, val, product(ar, two, a), b)
            &&& shares(ar, val, left, twice)
            &&& !cos.lt_spec(minus_one())
            &&& !one().lt_spec(cos)
            &&& val(cosine(ar, arc_cosine(ar, cos))) == val(cos)
        }),
    ensures
        ({
            let x = val(a);
            let y = val(b);
            let cos = val(cosine(ar, triangle_angle(ar, a, b, c)));
            let ab = times(x, y);
            times(val(c), val(c)) == times(x, x) + times(y, y) - times(cos, ab) - times(cos, ab)
        }),
{
    let x = val(a);
    let y = val(b);
    let cos = val(cosine(ar, triangle_angle(ar, a, b, c)));
    associates(2real, x, y);
    few_times(times(x, y));
    distributes(cos, times(x, y), times(x, y));
    assert(2real * times(x, y) == times(x, y) + times(x, y));
}

/// The linear speed of a command is the length of its linear part.
pub proof fn the_speed_is_the_length_of_the_linear_part<A: Arithmetic>(
    ar: &A,
    val: spec_fn(Scalar) -> real,
    cmd: VelocityCmd,
)
    requires
        adds_products(ar, val, cmd.vx, cmd.vx, cmd.vy, cmd.vy),
        ({
            let s = sum(ar, product(ar, cmd.vx, cmd.vx), product(ar, cmd.vy, cmd.vy));
            let n = val(root(ar, s));
            n >= 0real && times(n, n) == val(s)
        }),
    ensures
        ({
            let v = val(cmd.speed(ar));
            &&& v >= 0real
            &&& times(v, v) == times(val(cmd.vx), val(cmd.vx)) + times(val(cmd.vy), val(cmd.vy))
        }),
{
}

/// A straight leg stands at its nominal place: with no roll, no pitch and the knee stretched,
/// the foot is where the nominal one is made to be, whatever the leg.
pub proof fn a_straight_leg_stands_at_its_nominal_place<A: Arithmetic>(
    ar: &A,
    val: spec_fn(Scalar) -> real,
    kin: LegKinematics,
    hip: Scalar,
    thigh: Scalar,
    calf: Scalar,
)
    requires
        is_reading(val),
        leg_is_exact(ar, val, kin, hip, thigh, calf),
        val(sine(ar, about_x(kin.leg, hip))) == 0real,
        val(cosine(ar, about_x(kin.leg, hip))) == 1real,
        val(sine(ar, thigh)) == 0real,
        val(cosine(ar, thigh)) == 1real,
        val(sine(ar, sum(ar, thigh, calf))) == 0real,
        val(cosine(ar, sum(ar, thigh, calf))) == 1real,
        adds(ar, val, kin.hip_offset.y, kin.hip_to_thigh_y),
        adds(ar, val, kin.hip_offset.y, kin.hip_to_thigh_y.neg_spec()),
        adds(ar, val, kin.upper_leg_m, kin.lower_leg_m),
        takes(ar, val, kin.hip_offset.z, sum(ar, kin.upper_leg_m, kin.lower_leg_m)),
    ensures
        read(val, foot_position(ar, kin, hip, thigh, calf)) == read(
            val,
            nominal_foot(
                ar,
                kin.leg,
                kin.hip_offset,
                kin.hip_to_thigh_y,
                kin.upper_leg_m,
                kin.lower_leg_m,
            ),
        ),
{
    let upper = val(kin.upper_leg_m);
    let lower = val(kin.lower_leg_m);
    let l = val(lateral_offset(kin));
    let z = val(planar_height(ar, kin, thigh, calf));
    assert(val(kin.upper_leg_m.neg_spec()) == -upper);
    assert(val(kin.hip_to_thigh_y.neg_spec()) == -val(kin.hip_to_thigh_y));
    vanishes(upper);
    vanishes(lower);
    one_is_neutral(-upper);
    one_is_neutral(lower);
    vanishes(l);
    vanishes(z);
    one_is_neutral(l);
    one_is_neutral(z);
}

/// The trunk passes over its stance feet: at two times of a stance that the cycle sees as far
/// apart as they are, the place of the trunk and that of the foot under it add up to the same
/// place of the world.
pub proof fn the_trunk_passes_over_its_feet<A: Arithmetic>(
    ar: &A,
    val: spec_fn(Scalar) -> real,
    c: LinearCrawlController,
    slot: int,
    t: Scalar,
    out: LinearCrawlOutput,
    later: Scalar,
    next: LinearCrawlOutput,
)
    requires
        0 <= slot < 4,
        c.is_output(ar, t, out),
        c.is_output(ar, later, next),
        !out.in_swing@[slot],
        !next.in_swing@[slot],
        multiplies(ar, val, c.cfg.speed_mps, t),
        multiplies(ar, val, c.cfg.speed_mps, later),
        ({
            let i = c.sub_cycle_index@[slot] as int;
            let x = c.nominal_body@[slot].x;
            let a = c.cfg.phase_at(ar, t);
            let b = c.cfg.phase_at(ar, later);
            &&& stance_is_exact(ar, val, c.cfg, i, x, a)
            &&& stance_is_exact(ar, val, c.cfg, i, x, b)
            &&& val(from_mid_stance(ar, c.cfg, i, b)) - val(from_mid_stance(ar, c.cfg, i, a))
                == val(b) - val(a)
            &&& times(val(b) - val(a), val(c.cfg.period())) == val(later) - val(t)
        }),
    ensures
        val(out.trunk_world_xyz@[0]) + val(out.foot_body_xyz@[slot]@[0]) == val(
            next.trunk_world_xyz@[0],
        ) + val(next.foot_body_xyz@[slot]@[0]),
{
    let i = c.sub_cycle_index@[slot] as int;
    let x = c.nominal_body@[slot].x;
    let a = c.cfg.phase_at(ar, t);
    let b = c.cfg.phase_at(ar, later);
    a_crawling_foot_stays_on_the_ground(ar, val, c.cfg, i, x, a, b);
    assert(c.outputs_leg(ar, t, out, slot));
    assert(c.outputs_leg(ar, later, next, slot));
    subtracts(val(c.cfg.speed_mps), val(later), val(t));
}

/// A leg goes on through the cycle as the steps of a horizon pass: up to whole cycles, its
/// place at a step is the present phase and the offset of the leg, and the time of the step
/// over the period further on.
pub proof fn a_leg_goes_on_through_the_cycle<A: Arithmetic>(
    ar: &A,
    val: spec_fn(Scalar) -> real,
    c: FullCentroidalMpcGaitController,
    phase: Scalar,
    leg: LegId,
    k: int,
    a: int,
    b: int,
)
    requires
        ({
            let dt = c.full_centroidal_mpc.cfg.dt_per_step;
            let t = product(ar, counted(ar, k as usize), dt);
            let part = quotient(ar, t, c.timing_period());
            let far = sum(ar, phase, part);
            let cycle = remainder(ar, far, one());
            let place = sum(ar, cycle, c.cfg.gait_type.offset(leg));
            &&& multiplies(ar, val, counted(ar, k as usize), dt)
            &&& shares(ar, val, t, c.timing_period())
            &&& adds(ar, val, phase, part)
            &&& val(cycle) == val(far) - a as real
            &&& adds(ar, val, cycle, c.cfg.gait_type.offset(leg))
            &&& val(remainder(ar, place, one())) == val(place) - b as real
        }),
    ensures
        ({
            let r = val(c.position_at(ar, phase, leg, k));
            let whole = a as real + b as real;
            times(
                r + whole - val(phase) - val(c.cfg.gait_type.offset(leg)),
                val(c.timing_period()),
            ) == times(
                val(counted(ar, k as usize)),
                val(c.full_centroidal_mpc.cfg.dt_per_step),
            )
        }),
{
    let dt = c.full_centroidal_mpc.cfg.dt_per_step;
    let t = product(ar, counted(ar, k as usize), dt);
    let part = val(quotient(ar, t, c.timing_period()));
    let r = val(c.position_at(ar, phase, leg, k));
    let whole = a as real + b as real;
    assert(r + whole - val(phase) - val(c.cfg.gait_type.offset(leg)) == part);
}

/// The smaller of two numbers.
pub open spec fn smaller(a: real, b: real) -> real {
    if a < b {
        a
    } else {
        b
    }
}

/// A stance leg takes its load over the transition and gives it up over the last of it: its
/// weight times the transition is the part of the stance that has passed or is left,
/// whichever is less, and at most the transition.
pub proof fn a_leg_takes_and_gives_up_its_load<A: Arithmetic>(
    ar: &A,
    val: spec_fn(Scalar) -> real,
    sub: Scalar,
    tf: Scalar,
)
    requires
        is_reading(val),
        val(one()) == 1real,
        !sub.is_nan_spec(),
        0real <= val(sub) <= 1real,
        !tf.is_nan_spec(),
        0real < val(tf) <= val(Scalar { bits: HALF_BITS }),
        takes(ar, val, one(), sub),
        shares(ar, val, sub, tf),
        shares(ar, val, difference(ar, one(), sub), tf),
        !quotient(ar, sub, tf).is_nan_spec(),
        !quotient(ar, difference(ar, one(), sub), tf).is_nan_spec(),
    ensures
        times(val(stance_weight(ar, sub, tf)), val(tf)) == smaller(
            smaller(val(sub), 1real - val(sub)),
            val(tf),
        ),
{
    let half = Scalar { bits: HALF_BITS };
    let s = val(sub);
    let t = val(tf);
    assert(!zero().is_nan_spec() && !one().is_nan_spec() && !half.is_nan_spec());
    assert(sub.lt_spec(zero()) <==> val(sub) < val(zero()));
    assert(one().lt_spec(sub) <==> val(one()) < val(sub));
    assert(tf.lt_spec(zero()) <==> val(tf) < val(zero()));
    assert(half.lt_spec(tf) <==> val(half) < val(tf));
    assert(zero().lt_spec(tf) <==> val(zero()) < val(tf));
    let up = quotient(ar, sub, tf);
    let down = quotient(ar, difference(ar, one(), sub), tf);
    let a = val(up);
    let b = val(down);
    assert(up.lt_spec(one()) <==> a < 1real);
    assert(one().lt_spec(up) <==> 1real < a);
    assert(down.lt_spec(one()) <==> b < 1real);
    assert(one().lt_spec(down) <==> 1real < b);
    let x = up.min_spec(one());
    let y = down.min_spec(one());
    assert(x.lt_spec(y) <==> val(x) < val(y));
    assert(y.lt_spec(x) <==> val(y) < val(x));
    let m = x.min_spec(y);
    assert(m.lt_spec(zero()) <==> val(m) < val(zero()));
    assert(zero().lt_spec(m) <==> val(zero()) < val(m));
    one_is_neutral(t);
    commutes(1real, t);
    commutes(a, t);
    commutes(b, t);
    order_by_factor(t, a, 1real);
    order_by_factor(t, b, 1real);
    order_by_factor(t, a, b);
    order_by_factor(t, 0real, a);
    order_by_factor(t, 0real, b);
    vanishes(t);
    assert(a >= 0real && b >= 0real);
    assert(val(m) == smaller(smaller(a, 1real), smaller(b, 1real)));
    assert(val(stance_weight(ar, sub, tf)) == val(m));
    commutes(val(m), t);
}

/// A positive factor keeps the order.
proof fn order_by_factor(k: real, a: real, b: real)
    requires
        k > 0real,
    ensures
        a < b <==> times(k, a) < times(k, b),
        a == b <==> times(k, a) == times(k, b),
{
    subtracts(k, b, a);
    subtracts(k, a, b);
    if a < b {
        positive(k, b - a);
    } else if b < a {
        positive(k, a - b);
    }
}

/// The gait clock starts softly: before the soft start is over, a step of it is the time step
/// times the ramp of the part of the soft start that has passed; after it, the time step.
pub proof fn the_gait_clock_starts_softly<A: Arithmetic>(
    ar: &A,
    val: spec_fn(Scalar) -> real,
    c: LinearCrawlConfig,
    wall: Scalar,
    dt: Scalar,
)
    requires
        ({
            let part = quotient(ar, wall, c.soft_start_duration_s);
            &&& !part.lt_spec(zero())
            &&& !one().lt_spec(part)
            &&& multiplies(ar, val, dt, ramp(ar, part))
        }),
    ensures
        ({
            let dur = c.soft_start_duration_s;
            let part = quotient(ar, wall, dur);
            val(c.clock_step(ar, wall, dt)) == (if zero().lt_spec(dur) && wall.lt_spec(
                sum(ar, dur, dt),
            ) {
                times(val(dt), val(ramp(ar, part)))
            } else {
                val(dt)
            })
        }),
{
}

/// The policy sees a joint by how far it is from its default, in the order of the policy.
pub proof fn the_policy_sees_joints_from_their_defaults<A: Arithmetic, B: SingleArithmetic>(
    ar: &A,
    sa: &B,
    sval: spec_fn(Single) -> real,
    inp: ObsInput,
    cmd: Seq<Scalar>,
    last_action: Seq<Scalar>,
    obs: Seq<Single>,
    i: int,
)
    requires
        computes(ar, sa, inp, cmd, last_action, obs),
        0 <= i < 12,
        ({
            let q = inp.joint_q_go2@[ISAAC_TO_GO2@[i] as int];
            let d = narrowed(sa, Scalar { bits: DEFAULT_ISAAC_BITS@[i] });
            sval(single_difference(sa, q, d)) == sval(q) - sval(d)
        }),
    ensures
        ({
            let q = inp.joint_q_go2@[ISAAC_TO_GO2@[i] as int];
            let d = narrowed(sa, Scalar { bits: DEFAULT_ISAAC_BITS@[i] });
            sval(obs[9 + i]) + sval(d) == sval(q)
        }),
{
    assert(DEFAULT_ISAAC_BITS@[i] == DEFAULT_ISAAC_BITS@[i]);
}

} // verus!
