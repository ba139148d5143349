//! Laws of motion of the body and of the feet under it.
//!
//! Each law speaks of what an operation takes in and what it gives, for a reading of
//! scalars as real numbers under which the steps that it rests on are exact.

use vstd::prelude::*;
use crate::arith::{
    cosine, counted, deterministic, difference, product, quotient, remainder, sine, sum, Arithmetic,
};
use crate::body_state::{followed, BodyState};
use crate::closed_loop::{are_stance_torques, to_body, to_world, torques};
use crate::config::{GaitConfig, KinematicsConfig, LegId, LegKinematics, VelocityCmd, HALF_BITS};
use crate::controller::{foot_jacobian, steady, ControllerOutput, LegModel};
use crate::exact::{
    adds, adds_product, adds_products, ahead, aside, heading_parts, inner, mapped, multiplies, read,
    shares, takes, takes_products, turns, RealVec,
};
use crate::footstep::{half_step, hip_velocity, planned_step, stance_position, Footstep};
use crate::full_centroidal_controller::FullCentroidalMpcGaitController;
use crate::goal::{
    at_goal, goal_command, goal_distance, goal_time, speed_limit, yaw_error, GoalPoseWorld,
    TWO_PI_BITS,
};
use crate::ik::PI_BITS;
use crate::mpc_solution::MpcSolution;
use crate::reals::{
    associates, commutes, distributes, distributes_left, is_reading, negates, one_is_neutral,
    subtracts_left, swaps, times, vanishes,
};
use crate::scalar::{one, zero, Mat3, Scalar, Vec3};

verus! {

/// Turning a horizontal vector by a yaw is exact, step by step.
pub open spec fn turning_is_exact<A: Arithmetic>(
    ar: &A,
    val: spec_fn(Scalar) -> real,
    x: Scalar,
    y: Scalar,
    yaw: Scalar,
) -> bool {
    let c = cosine(ar, yaw);
    let s = sine(ar, yaw);
    &&& turns(ar, val, yaw)
    &&& takes_products(ar, val, x, c, y, s)
    &&& adds_products(ar, val, x, s, y, c)
}

/// A vector of the body, turned into the world, points as far ahead and as far to the
/// left of the heading as it did in the body, and as far up.
pub proof fn turning_keeps_the_parts<A: Arithmetic>(
    ar: &A,
    val: spec_fn(Scalar) -> real,
    v: Vec3,
    yaw: Scalar,
)
    requires
        turning_is_exact(ar, val, v.x, v.y, yaw),
    ensures
        ({
            let w = read(val, to_world(ar, v, yaw));
            &&& ahead(ar, val, yaw, w.x, w.y) == val(v.x)
            &&& aside(ar, val, yaw, w.x, w.y) == val(v.y)
            &&& w.z == val(v.z)
        }),
{
    heading_parts(val(cosine(ar, yaw)), val(sine(ar, yaw)), val(v.x), val(v.y));
}

/// A vector of the world, turned into the body, has there its parts ahead of and to the
/// left of the heading, and is as far up.
pub proof fn turning_back_gives_the_parts<A: Arithmetic>(
    ar: &A,
    val: spec_fn(Scalar) -> real,
    v: Vec3,
    yaw: Scalar,
)
    requires
        is_reading(val),
        ({
            let c = cosine(ar, yaw);
            let s = sine(ar, yaw);
            &&& adds_products(ar, val, c, v.x, s, v.y)
            &&& adds_products(ar, val, s.neg_spec(), v.x, c, v.y)
        }),
    ensures
        ({
            let b = read(val, to_body(ar, v, yaw));
            &&& b.x == ahead(ar, val, yaw, val(v.x), val(v.y))
            &&& b.y == aside(ar, val, yaw, val(v.x), val(v.y))
            &&& b.z == val(v.z)
        }),
{
    let c = val(cosine(ar, yaw));
    let s = val(sine(ar, yaw));
    assert(val(sine(ar, yaw).neg_spec()) == -s);
    negates(s, val(v.x));
    commutes(c, val(v.x));
    commutes(s, val(v.y));
    commutes(s, val(v.x));
    commutes(c, val(v.y));
}

/// The parts of a vector along a heading and aside of it grow with the vector.
pub proof fn parts_scale(u: real, v: real, c: real, s: real, t: real)
    ensures
        times(times(u, t), c) + times(times(v, t), s) == times(times(u, c) + times(v, s), t),
        times(times(v, t), c) - times(times(u, t), s) == times(times(v, c) - times(u, s), t),
{
    associates(u, t, c);
    associates(u, c, t);
    commutes(t, c);
    associates(v, t, s);
    associates(v, s, t);
    commutes(t, s);
    distributes_left(t, times(u, c), times(v, s));
    associates(v, t, c);
    associates(v, c, t);
    associates(u, t, s);
    associates(u, s, t);
    subtracts_left(t, times(v, c), times(u, s));
}

/// Following a command for a time is exact, step by step.
pub open spec fn following_is_exact<A: Arithmetic>(
    ar: &A,
    val: spec_fn(Scalar) -> real,
    p: Vec3,
    yaw: Scalar,
    cmd: VelocityCmd,
    t: Scalar,
) -> bool {
    let c = cosine(ar, yaw);
    let s = sine(ar, yaw);
    let u = difference(ar, product(ar, cmd.vx, c), product(ar, cmd.vy, s));
    let v = sum(ar, product(ar, cmd.vx, s), product(ar, cmd.vy, c));
    &&& turning_is_exact(ar, val, cmd.vx, cmd.vy, yaw)
    &&& adds_product(ar, val, p.x, u, t)
    &&& adds_product(ar, val, p.y, v, t)
    &&& adds_product(ar, val, yaw, cmd.wz, t)
}

/// A body that follows a command for a time moves ahead by the forward speed times the
/// time, to the left by the lateral speed times the time, and turns by the yaw rate times
/// the time; its height stays.
pub proof fn the_body_follows_the_command<A: Arithmetic>(
    ar: &A,
    val: spec_fn(Scalar) -> real,
    s: BodyState,
    cmd: VelocityCmd,
    dt: Scalar,
)
    requires
        following_is_exact(ar, val, s.world_position, s.world_yaw, cmd, dt),
    ensures
        ({
            let from = read(val, s.world_position);
            let then = followed(ar, s, cmd, dt);
            let to = read(val, then.world_position);
            let yaw = s.world_yaw;
            &&& ahead(ar, val, yaw, to.x - from.x, to.y - from.y) == times(val(cmd.vx), val(dt))
            &&& aside(ar, val, yaw, to.x - from.x, to.y - from.y) == times(val(cmd.vy), val(dt))
            &&& then.world_position.z == s.world_position.z
            &&& val(then.world_yaw) - val(yaw) == times(val(cmd.wz), val(dt))
        }),
{
    let yaw = s.world_yaw;
    let c = val(cosine(ar, yaw));
    let n = val(sine(ar, yaw));
    let x = val(cmd.vx);
    let y = val(cmd.vy);
    let u = times(x, c) - times(y, n);
    let v = times(x, n) + times(y, c);
    heading_parts(c, n, x, y);
    parts_scale(u, v, c, n, val(dt));
    let from = read(val, s.world_position);
    let to = read(val, followed(ar, s, cmd, dt).world_position);
    assert(to.x - from.x == times(u, val(dt)));
    assert(to.y - from.y == times(v, val(dt)));
}

/// With no table and no trim, the body reference of every step of the horizon moves at
/// the commanded speeds: ahead of the heading at the forward one, to the left at the
/// lateral one. From the present place it is as far as these speeds lead up to the end of
/// the step, and it has turned by the yaw rate times that time.
pub proof fn the_reference_follows_the_command<A: Arithmetic>(
    ar: &A,
    val: spec_fn(Scalar) -> real,
    c: FullCentroidalMpcGaitController,
    k: int,
    phase: Scalar,
)
    requires
        is_reading(val),
        0 <= k < usize::MAX,
        c.bound_tabulated_reference is None,
        c.trim_at(ar, phase) is None,
        ({
            let dt = c.full_centroidal_mpc.cfg.dt_per_step;
            let n = counted(ar, (k + 1) as usize);
            let p = c.body_state.world_position;
            &&& val(n) == (k + 1) as real
            &&& multiplies(ar, val, n, dt)
            &&& following_is_exact(ar, val, p, c.body_state.world_yaw, c.cmd, product(ar, n, dt))
            &&& adds_product(ar, val, p.z, zero(), product(ar, n, dt))
        }),
    ensures
        ({
            let yaw = c.body_state.world_yaw;
            let r = c.body_reference(ar, k, phase);
            let v = read(val, r.v);
            let from = read(val, c.body_state.world_position);
            let to = read(val, r.pos);
            let t = times((k + 1) as real, val(c.full_centroidal_mpc.cfg.dt_per_step));
            &&& ahead(ar, val, yaw, v.x, v.y) == val(c.cmd.vx)
            &&& aside(ar, val, yaw, v.x, v.y) == val(c.cmd.vy)
            &&& v.z == 0real
            &&& to.x - from.x == times(v.x, t)
            &&& to.y - from.y == times(v.y, t)
            &&& to.z == from.z
            &&& val(r.w.x) == 0real && val(r.w.y) == 0real && r.w.z == c.cmd.wz
            &&& val(r.euler.x) == 0real && val(r.euler.y) == 0real
            &&& val(r.euler.z) - val(yaw) == times(val(c.cmd.wz), t)
            &&& val(cosine(ar, yaw)) == 1real && val(sine(ar, yaw)) == 0real ==> v.x == val(
                c.cmd.vx,
            ) && v.y == val(c.cmd.vy)
        }),
{
    let yaw = c.body_state.world_yaw;
    let cs = val(cosine(ar, yaw));
    let sn = val(sine(ar, yaw));
    let x = val(c.cmd.vx);
    let y = val(c.cmd.vy);
    heading_parts(cs, sn, x, y);
    let t = times((k + 1) as real, val(c.full_centroidal_mpc.cfg.dt_per_step));
    vanishes(t);
    commutes(0real, t);
    one_is_neutral(x);
    one_is_neutral(y);
    vanishes(x);
    vanishes(y);
}

/// The product of a column of a Jacobian with a force is exact, step by step.
pub open spec fn projecting_is_exact<A: Arithmetic>(
    ar: &A,
    val: spec_fn(Scalar) -> real,
    a: Scalar,
    b: Scalar,
    c: Scalar,
    f: Vec3,
) -> bool {
    &&& adds_products(ar, val, a, f.x, b, f.y)
    &&& multiplies(ar, val, c, f.z)
    &&& adds(
        ar,
        val,
        sum(ar, product(ar, a, f.x), product(ar, b, f.y)),
        product(ar, c, f.z),
    )
}

/// Virtual work: whatever the joint velocities, the power of the torques and the power of
/// the ground force on the foot cancel.
pub proof fn torques_balance_the_ground_force<A: Arithmetic>(
    ar: &A,
    val: spec_fn(Scalar) -> real,
    j: Mat3,
    f: Vec3,
    qd: RealVec,
)
    requires
        is_reading(val),
        projecting_is_exact(ar, val, j.x.x, j.y.x, j.z.x, f),
        projecting_is_exact(ar, val, j.x.y, j.y.y, j.z.y, f),
        projecting_is_exact(ar, val, j.x.z, j.y.z, j.z.z, f),
    ensures
        ({
            let tau = torques(ar, j, f);
            let t = RealVec { x: val(tau[0]), y: val(tau[1]), z: val(tau[2]) };
            inner(t, qd) + inner(read(val, f), mapped(val, j, qd)) == 0real
        }),
{
    let fx = val(f.x);
    let fy = val(f.y);
    let fz = val(f.z);
    let a = read(val, j.x);
    let b = read(val, j.y);
    let c = read(val, j.z);
    column_power(a.x, b.x, c.x, fx, fy, fz, qd.x);
    column_power(a.y, b.y, c.y, fx, fy, fz, qd.y);
    column_power(a.z, b.z, c.z, fx, fy, fz, qd.z);
    row_power(a, qd, fx);
    row_power(b, qd, fy);
    row_power(c, qd, fz);
    let tau = torques(ar, j, f);
    assert(val(tau[0]) == -(times(a.x, fx) + times(b.x, fy) + times(c.x, fz)));
    assert(val(tau[1]) == -(times(a.y, fx) + times(b.y, fy) + times(c.y, fz)));
    assert(val(tau[2]) == -(times(a.z, fx) + times(b.z, fy) + times(c.z, fz)));
}

proof fn column_power(a: real, b: real, c: real, x: real, y: real, z: real, q: real)
    ensures
        times(-(times(a, x) + times(b, y) + times(c, z)), q) == -(times(times(a, q), x) + times(
            times(b, q),
            y,
        ) + times(times(c, q), z)),
{
    let s = times(a, x) + times(b, y) + times(c, z);
    negates(s, q);
    distributes_left(q, times(a, x) + times(b, y), times(c, z));
    distributes_left(q, times(a, x), times(b, y));
    turn_factor(a, x, q);
    turn_factor(b, y, q);
    turn_factor(c, z, q);
}

proof fn turn_factor(a: real, x: real, q: real)
    ensures
        times(times(a, x), q) == times(times(a, q), x),
{
    associates(a, x, q);
    associates(a, q, x);
    commutes(x, q);
}

proof fn row_power(r: RealVec, q: RealVec, f: real)
    ensures
        times(f, inner(r, q)) == times(times(r.x, q.x), f) + times(times(r.y, q.y), f) + times(
            times(r.z, q.z),
            f,
        ),
{
    distributes(f, times(r.x, q.x) + times(r.y, q.y), times(r.z, q.z));
    distributes(f, times(r.x, q.x), times(r.y, q.y));
    commutes(f, times(r.x, q.x));
    commutes(f, times(r.y, q.y));
    commutes(f, times(r.z, q.z));
}

/// The velocity of a hip, and the half step that it makes, are exact, step by step.
pub open spec fn stepping_is_exact<A: Arithmetic>(
    ar: &A,
    val: spec_fn(Scalar) -> real,
    kin: LegKinematics,
    gait: GaitConfig,
    cmd: VelocityCmd,
) -> bool {
    let h = kin.hip_offset;
    let o = zero();
    let half = Scalar { bits: HALF_BITS };
    let stance = product(ar, gait.cycle_period_s, gait.duty_factor);
    let t = product(ar, half, stance);
    let n = kin.nominal_foot_body;
    let tx = difference(ar, product(ar, o, h.z), product(ar, cmd.wz, h.y));
    let ty = difference(ar, product(ar, cmd.wz, h.x), product(ar, o, h.z));
    let tz = difference(ar, product(ar, o, h.y), product(ar, o, h.x));
    let u = Vec3 { x: sum(ar, cmd.vx, tx), y: sum(ar, cmd.vy, ty), z: sum(ar, o, tz) };
    let w = Vec3 { x: product(ar, u.x, t), y: product(ar, u.y, t), z: product(ar, u.z, t) };
    &&& takes_products(ar, val, o, h.z, cmd.wz, h.y)
    &&& takes_products(ar, val, cmd.wz, h.x, o, h.z)
    &&& takes_products(ar, val, o, h.y, o, h.x)
    &&& adds(ar, val, cmd.vx, tx)
    &&& adds(ar, val, cmd.vy, ty)
    &&& adds(ar, val, o, tz)
    &&& val(half) == 1real / 2real
    &&& multiplies(ar, val, gait.cycle_period_s, gait.duty_factor)
    &&& multiplies(ar, val, half, stance)
    &&& multiplies(ar, val, u.x, t)
    &&& multiplies(ar, val, u.y, t)
    &&& multiplies(ar, val, u.z, t)
    &&& adds(ar, val, n.x, w.x) && takes(ar, val, n.x, w.x)
    &&& adds(ar, val, n.y, w.y) && takes(ar, val, n.y, w.y)
    &&& adds(ar, val, n.z, w.z) && takes(ar, val, n.z, w.z)
}

/// A planted foot stays where it is while the body follows the command: where nothing is
/// shortened, from touch-down to lift-off it moves against the hip for the stance duration,
/// and its nominal place is half way.
pub proof fn a_planted_foot_stays_where_it_is<A: Arithmetic>(
    ar: &A,
    val: spec_fn(Scalar) -> real,
    kin: LegKinematics,
    gait: GaitConfig,
    cmd: VelocityCmd,
)
    requires
        is_reading(val),
        stepping_is_exact(ar, val, kin, gait, cmd),
        ({
            let t = product(
                ar,
                Scalar { bits: HALF_BITS },
                product(ar, gait.cycle_period_s, gait.duty_factor),
            );
            let wished = crate::arith::vec_scaled(ar, hip_velocity(ar, cmd, kin.hip_offset), t);
            half_step(ar, kin, gait, cmd) == wished
        }),
    ensures
        ({
            let step = planned_step(ar, kin, gait, cmd);
            let down = read(val, step.touch_down);
            let up = read(val, step.lift_off);
            let n = read(val, kin.nominal_foot_body);
            let h = read(val, kin.hip_offset);
            let t = times(val(gait.cycle_period_s), val(gait.duty_factor));
            &&& up.x - down.x == -times(val(cmd.vx) - times(val(cmd.wz), h.y), t)
            &&& up.y - down.y == -times(val(cmd.vy) + times(val(cmd.wz), h.x), t)
            &&& up.z == down.z
            &&& up.x + down.x == 2real * n.x
            &&& up.y + down.y == 2real * n.y
            &&& up.z + down.z == 2real * n.z
        }),
{
    let h = read(val, kin.hip_offset);
    let t = times(val(gait.cycle_period_s), val(gait.duty_factor));
    let ux = val(cmd.vx) - times(val(cmd.wz), h.y);
    let uy = val(cmd.vy) + times(val(cmd.wz), h.x);
    vanishes(h.x);
    vanishes(h.y);
    vanishes(h.z);
    commutes(0real, h.x);
    commutes(0real, h.y);
    commutes(0real, h.z);
    let g = times(1real / 2real, t);
    half_of(t);
    swaps(ux, 1real / 2real, t);
    half_of(times(ux, t));
    swaps(uy, 1real / 2real, t);
    half_of(times(uy, t));
    vanishes(g);
    commutes(0real, g);
}

proof fn half_of(x: real)
    ensures
        2real * times(1real / 2real, x) == x,
{
    distributes_left(x, 1real / 2real, 1real / 2real);
    one_is_neutral(x);
    commutes(1real, x);
    assert(1real / 2real + 1real / 2real == 1real);
}

/// In stance the foot goes from where it lands to where it lifts off: at the ends it is
/// there, and in between at the same part of the way along every axis.
pub proof fn stance_leads_from_landing_to_lift_off<A: Arithmetic>(
    ar: &A,
    val: spec_fn(Scalar) -> real,
    step: Footstep,
    frac: Scalar,
)
    requires
        is_reading(val),
        zero().le_spec(frac) && frac.le_spec(one()),
        val(one()) == 1real,
        takes(ar, val, one(), frac),
        ({
            let g = difference(ar, one(), frac);
            let d = step.touch_down;
            let u = step.lift_off;
            &&& adds_products(ar, val, d.x, g, u.x, frac)
            &&& adds_products(ar, val, d.y, g, u.y, frac)
            &&& adds_products(ar, val, d.z, g, u.z, frac)
        }),
    ensures
        ({
            let p = read(val, stance_position(ar, step, frac));
            let d = read(val, step.touch_down);
            let u = read(val, step.lift_off);
            let f = val(frac);
            &&& p.x - d.x == times(u.x - d.x, f)
            &&& p.y - d.y == times(u.y - d.y, f)
            &&& p.z - d.z == times(u.z - d.z, f)
        }),
{
    let d = read(val, step.touch_down);
    let u = read(val, step.lift_off);
    let f = val(frac);
    along(d.x, u.x, f);
    along(d.y, u.y, f);
    along(d.z, u.z, f);
}

proof fn along(d: real, u: real, f: real)
    ensures
        times(d, 1real - f) + times(u, f) - d == times(u - d, f),
{
    crate::reals::subtracts(d, 1real, f);
    one_is_neutral(d);
    subtracts_left(f, u, d);
}

/// The steps of the command toward a goal are exact, with both speeds within the limit.
pub open spec fn course_is_exact<A: Arithmetic>(
    ar: &A,
    val: spec_fn(Scalar) -> real,
    goal: GoalPoseWorld,
    pos: Vec3,
    yaw: Scalar,
) -> bool {
    let dx = difference(ar, goal.x_m, pos.x);
    let dy = difference(ar, goal.y_m, pos.y);
    let dyaw = yaw_error(ar, goal.yaw_rad, yaw);
    let t = goal_time(ar, goal, goal_distance(ar, dx, dy), dyaw);
    let vx = quotient(ar, dx, t);
    let vy = quotient(ar, dy, t);
    let c = cosine(ar, yaw);
    let s = sine(ar, yaw);
    &&& takes(ar, val, goal.x_m, pos.x)
    &&& takes(ar, val, goal.y_m, pos.y)
    &&& shares(ar, val, dx, t)
    &&& shares(ar, val, dy, t)
    &&& shares(ar, val, dyaw, t)
    &&& within(vx, speed_limit(goal.max_v_m_s))
    &&& within(vy, speed_limit(goal.max_v_m_s))
    &&& within(quotient(ar, dyaw, t), speed_limit(goal.max_wz_rad_s))
    &&& turns(ar, val, yaw)
    &&& adds_products(ar, val, c, vx, s, vy)
    &&& adds_products(ar, val, s.neg_spec(), vx, c, vy)
}

/// A scalar is not past a limit on either side.
pub open spec fn within(a: Scalar, limit: Scalar) -> bool {
    !a.lt_spec(limit.neg_spec()) && !limit.lt_spec(a)
}

/// Away from a goal, the command held for the time to the goal, without turning, leads
/// from the position to the goal, and its yaw rate makes up the yaw error in that time.
pub proof fn the_command_leads_to_the_goal<A: Arithmetic>(
    ar: &A,
    val: spec_fn(Scalar) -> real,
    goal: GoalPoseWorld,
    pos: Vec3,
    yaw: Scalar,
)
    requires
        is_reading(val),
        course_is_exact(ar, val, goal, pos, yaw),
    ensures
        ({
            let dx = difference(ar, goal.x_m, pos.x);
            let dy = difference(ar, goal.y_m, pos.y);
            let dist = goal_distance(ar, dx, dy);
            let dyaw = yaw_error(ar, goal.yaw_rad, yaw);
            let t = val(goal_time(ar, goal, dist, dyaw));
            let r = goal_command(ar, goal, pos, yaw);
            let c = val(cosine(ar, yaw));
            let s = val(sine(ar, yaw));
            let x = times(val(r.vx), c) - times(val(r.vy), s);
            let y = times(val(r.vx), s) + times(val(r.vy), c);
            !at_goal(goal, dist, dyaw) ==> {
                &&& val(pos.x) + times(x, t) == val(goal.x_m)
                &&& val(pos.y) + times(y, t) == val(goal.y_m)
                &&& times(val(r.wz), t) == val(dyaw)
            }
        }),
{
    let dx = difference(ar, goal.x_m, pos.x);
    let dy = difference(ar, goal.y_m, pos.y);
    let dyaw = yaw_error(ar, goal.yaw_rad, yaw);
    let t = goal_time(ar, goal, goal_distance(ar, dx, dy), dyaw);
    let vx = val(quotient(ar, dx, t));
    let vy = val(quotient(ar, dy, t));
    let c = val(cosine(ar, yaw));
    let s = val(sine(ar, yaw));
    assert(val(sine(ar, yaw).neg_spec()) == -s);
    negates(s, vx);
    negates(s, vy);
    negates(s, s);
    negates(-s, s);
    heading_parts(c, -s, vx, vy);
    negates(vx, s);
    negates(vy, s);
    let x = times(vx, c) + times(vy, s);
    let y = times(vy, c) - times(vx, s);
    negates(x, s);
    negates(y, s);
    commutes(c, vx);
    commutes(s, vy);
    commutes(s, vx);
    commutes(c, vy);
}

/// The yaw error is the turn that is left to the goal's yaw, up to whole turns, and by
/// the short way: from half a turn to the right up to half a turn to the left.
pub proof fn the_yaw_error_is_the_short_way<A: Arithmetic>(
    ar: &A,
    val: spec_fn(Scalar) -> real,
    goal: Scalar,
    yaw: Scalar,
    k: int,
)
    requires
        ({
            let pi = Scalar { bits: PI_BITS };
            let turn = Scalar { bits: TWO_PI_BITS };
            let shifted = sum(ar, difference(ar, goal, yaw), pi);
            let rest = remainder(ar, shifted, turn);
            &&& takes(ar, val, goal, yaw)
            &&& adds(ar, val, difference(ar, goal, yaw), pi)
            &&& 0real <= val(rest) < val(turn)
            &&& val(rest) + times(k as real, val(turn)) == val(shifted)
            &&& takes(ar, val, rest, pi)
            &&& val(turn) == val(pi) + val(pi)
        }),
    ensures
        ({
            let e = val(yaw_error(ar, goal, yaw));
            let pi = val(Scalar { bits: PI_BITS });
            &&& val(yaw) + e + times(k as real, val(Scalar { bits: TWO_PI_BITS })) == val(goal)
            &&& -pi <= e < pi
        }),
{
}

/// The feedforward torques of a stance leg push the ground with the force that was solved
/// for: whatever the joint velocities, their power and that of the force of the world, seen
/// from the heading, on the foot cancel.
pub proof fn stance_torques_balance_the_world_force<A: Arithmetic, S: LegModel>(
    ar: &A,
    val: spec_fn(Scalar) -> real,
    model: &S,
    kin: KinematicsConfig,
    yaw: Scalar,
    least: Scalar,
    sol: MpcSolution,
    output: ControllerOutput,
    r: Seq<Option<[Scalar; 3]>>,
    slot: int,
    qd: RealVec,
)
    requires
        is_reading(val),
        deterministic(ar),
        steady(model),
        are_stance_torques(ar, model, kin, yaw, least, Some(sol), output, r),
        0 <= slot < 4,
        r[slot] is Some,
        ({
            let leg = output.legs@[slot];
            let j = foot_jacobian(
                model,
                kin.of(LegId::at_slot(slot)),
                leg.q_hip,
                leg.q_thigh,
                leg.q_calf,
            );
            let w = sol.grfs_first_step@[slot];
            let c = cosine(ar, yaw);
            let s = sine(ar, yaw);
            let f = Vec3 {
                x: sum(ar, product(ar, c, w.x), product(ar, s, w.y)),
                y: sum(ar, product(ar, s.neg_spec(), w.x), product(ar, c, w.y)),
                z: w.z,
            };
            &&& adds_products(ar, val, c, w.x, s, w.y)
            &&& adds_products(ar, val, s.neg_spec(), w.x, c, w.y)
            &&& projecting_is_exact(ar, val, j.x.x, j.y.x, j.z.x, f)
            &&& projecting_is_exact(ar, val, j.x.y, j.y.y, j.z.y, f)
            &&& projecting_is_exact(ar, val, j.x.z, j.y.z, j.z.z, f)
        }),
    ensures
        ({
            let leg = output.legs@[slot];
            let j = foot_jacobian(
                model,
                kin.of(LegId::at_slot(slot)),
                leg.q_hip,
                leg.q_thigh,
                leg.q_calf,
            );
            let w = read(val, sol.grfs_first_step@[slot]);
            let tau = r[slot]->0@;
            let t = RealVec { x: val(tau[0]), y: val(tau[1]), z: val(tau[2]) };
            let f = RealVec {
                x: ahead(ar, val, yaw, w.x, w.y),
                y: aside(ar, val, yaw, w.x, w.y),
                z: w.z,
            };
            &&& sol.solved && leg.phase.is_stance
            &&& inner(t, qd) + inner(f, mapped(val, j, qd)) == 0real
        }),
{
    let leg = output.legs@[slot];
    let w = sol.grfs_first_step@[slot];
    let j = foot_jacobian(
        model,
        kin.of(LegId::at_slot(slot)),
        leg.q_hip,
        leg.q_thigh,
        leg.q_calf,
    );
    turning_back_gives_the_parts(ar, val, w, yaw);
    torques_balance_the_ground_force(ar, val, j, to_body(ar, w, yaw), qd);
}

} // verus!
