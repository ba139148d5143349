//! Velocity commands that drive the body to a goal pose.

use vstd::prelude::*;
use crate::arith::{
    cosine, deterministic, difference, product, quotient, remainder, root, sine, sum, Arithmetic,
};
use crate::config::VelocityCmd;
use crate::ik::PI_BITS;
use crate::reals::{
    commutes, distributes_left, grows, is_reading, negates, not_negative, positive, size,
    square_is_not_negative, square_of_product, squares_grow, subtracts, times,
    turning_keeps_the_length, vanishes,
};
use crate::scalar::{Scalar, Vec3};

verus! {

/// Bits of two pi.
pub const TWO_PI_BITS: u64 = 0x4019_21FB_5444_2D18;

/// Bits of the smallest speed limit (1e-6).
pub const LEAST_SPEED_BITS: u64 = 0x3EB0_C6F7_A0B5_ED8D;

/// Bits of the shortest time to the goal (0.05 s).
pub const LEAST_TIME_BITS: u64 = 0x3FA9_9999_9999_999A;

/// Target pose in the world frame, with speed limits.
#[derive(Clone, Copy, Debug, PartialEq, Eq, Structural)]
pub struct GoalPoseWorld {
    /// Target x (m).
    pub x_m: Scalar,
    /// Target y (m).
    pub y_m: Scalar,
    /// Target yaw (rad).
    pub yaw_rad: Scalar,
    /// Largest linear speed (m/s).
    pub max_v_m_s: Scalar,
    /// Largest yaw rate (rad/s).
    pub max_wz_rad_s: Scalar,
    /// Radius within which the position counts as reached (m).
    pub position_tolerance_m: Scalar,
    /// Yaw error within which the heading counts as reached (rad).
    pub yaw_tolerance_rad: Scalar,
}

/// Yaw error brought into one turn about zero, so that the short way is taken.
pub open spec fn yaw_error<A: Arithmetic>(ar: &A, goal: Scalar, yaw: Scalar) -> Scalar {
    let pi = Scalar { bits: PI_BITS };
    difference(
        ar,
        remainder(
            ar,
            sum(ar, difference(ar, goal, yaw), pi),
            Scalar { bits: TWO_PI_BITS },
        ),
        pi,
    )
}

/// Distance to the goal.
pub open spec fn goal_distance<A: Arithmetic>(ar: &A, dx: Scalar, dy: Scalar) -> Scalar {
    root(ar, sum(ar, product(ar, dx, dx), product(ar, dy, dy)))
}

/// Whether the pose is within both tolerances.
pub open spec fn at_goal(goal: GoalPoseWorld, dist: Scalar, dyaw: Scalar) -> bool {
    dist.lt_spec(goal.position_tolerance_m) && dyaw.abs_spec().lt_spec(goal.yaw_tolerance_rad)
}

/// A speed limit, at least the smallest one.
pub open spec fn speed_limit(v: Scalar) -> Scalar {
    v.max_spec(Scalar { bits: LEAST_SPEED_BITS })
}

/// Time to the goal at the limits, at least the shortest one.
pub open spec fn goal_time<A: Arithmetic>(
    ar: &A,
    goal: GoalPoseWorld,
    dist: Scalar,
    dyaw: Scalar,
) -> Scalar {
    quotient(ar, dist, speed_limit(goal.max_v_m_s)).max_spec(
        quotient(ar, dyaw.abs_spec(), speed_limit(goal.max_wz_rad_s)),
    ).max_spec(Scalar { bits: LEAST_TIME_BITS })
}

/// `d / t` within the limit.
pub open spec fn paced<A: Arithmetic>(ar: &A, d: Scalar, t: Scalar, limit: Scalar) -> Scalar {
    quotient(ar, d, t).clamp_spec(limit.neg_spec(), limit)
}

/// The command toward a goal: zero when there, else straight at it within the
/// limits, in the body frame.
pub open spec fn goal_command<A: Arithmetic>(
    ar: &A,
    goal: GoalPoseWorld,
    pos: Vec3,
    yaw: Scalar,
) -> VelocityCmd {
    let dx = difference(ar, goal.x_m, pos.x);
    let dy = difference(ar, goal.y_m, pos.y);
    let dyaw = yaw_error(ar, goal.yaw_rad, yaw);
    let dist = goal_distance(ar, dx, dy);
    if at_goal(goal, dist, dyaw) {
        VelocityCmd::zero()
    } else {
        let t = goal_time(ar, goal, dist, dyaw);
        let vx = paced(ar, dx, t, speed_limit(goal.max_v_m_s));
        let vy = paced(ar, dy, t, speed_limit(goal.max_v_m_s));
        let s = sine(ar, yaw);
        let c = cosine(ar, yaw);
        VelocityCmd {
            vx: sum(ar, product(ar, c, vx), product(ar, s, vy)),
            vy: sum(ar, product(ar, s.neg_spec(), vx), product(ar, c, vy)),
            wz: paced(ar, dyaw, t, speed_limit(goal.max_wz_rad_s)),
        }
    }
}

fn pace<A: Arithmetic>(ar: &A, d: Scalar, t: Scalar, limit: Scalar) -> (r: Scalar)
    requires
        limit == speed_limit(limit),
    ensures
        deterministic(ar) ==> r == paced(ar, d, t, limit),
        r.is_nan_spec() || r.abs_spec().le_spec(limit),
{
    ar.over(d, t).clamp(limit.neg(), limit)
}

/// The command that drives the body from a pose to a goal.
///
/// Whatever the arithmetic, the yaw rate is within its limit unless it is NaN.
pub fn velocity_cmd_for_goal<A: Arithmetic>(
    ar: &A,
    goal: GoalPoseWorld,
    current_pos_world: Vec3,
    current_yaw_world: Scalar,
) -> (r: VelocityCmd)
    ensures
        deterministic(ar) ==> r == goal_command(ar, goal, current_pos_world, current_yaw_world),
        r.wz.is_nan_spec() || r.wz.abs_spec().le_spec(speed_limit(goal.max_wz_rad_s)),
{
    let pi = Scalar { bits: PI_BITS };
    let dx = ar.minus(goal.x_m, current_pos_world.x);
    let dy = ar.minus(goal.y_m, current_pos_world.y);
    let raw = ar.minus(goal.yaw_rad, current_yaw_world);
    let dyaw = ar.minus(ar.wrap(ar.plus(raw, pi), Scalar { bits: TWO_PI_BITS }), pi);
    let dist = ar.sqrt(ar.plus(ar.times(dx, dx), ar.times(dy, dy)));
    if dist.lt(goal.position_tolerance_m) && dyaw.abs().lt(goal.yaw_tolerance_rad) {
        return VelocityCmd::zero();
    }
    let max_v = goal.max_v_m_s.max(Scalar { bits: LEAST_SPEED_BITS });
    let max_wz = goal.max_wz_rad_s.max(Scalar { bits: LEAST_SPEED_BITS });
    let t_xy = ar.over(dist, max_v);
    let t_yaw = ar.over(dyaw.abs(), max_wz);
    let t = t_xy.max(t_yaw).max(Scalar { bits: LEAST_TIME_BITS });
    let vx = pace(ar, dx, t, max_v);
    let vy = pace(ar, dy, t, max_v);
    let wz = pace(ar, dyaw, t, max_wz);
    let s = ar.sin(current_yaw_world);
    let c = ar.cos(current_yaw_world);
    VelocityCmd {
        vx: ar.plus(ar.times(c, vx), ar.times(s, vy)),
        vy: ar.plus(ar.times(s.neg(), vx), ar.times(c, vy)),
        wz,
    }
}

/// The steps that give the command toward a goal are exact under the reading `val`:
/// the distance, the time that it takes at the limit, the two rates, and the turn
/// into the body frame.
pub open spec fn pace_is_exact<A: Arithmetic>(
    ar: &A,
    val: spec_fn(Scalar) -> real,
    goal: GoalPoseWorld,
    pos: Vec3,
    yaw: Scalar,
) -> bool {
    let dx = difference(ar, goal.x_m, pos.x);
    let dy = difference(ar, goal.y_m, pos.y);
    let dyaw = yaw_error(ar, goal.yaw_rad, yaw);
    let dist = goal_distance(ar, dx, dy);
    let limit = speed_limit(goal.max_v_m_s);
    let at_limit = quotient(ar, dist, limit);
    let t = goal_time(ar, goal, dist, dyaw);
    let vx = val(paced(ar, dx, t, limit));
    let vy = val(paced(ar, dy, t, limit));
    let s = val(sine(ar, yaw));
    let c = val(cosine(ar, yaw));
    let r = goal_command(ar, goal, pos, yaw);
    &&& val(Scalar { bits: LEAST_SPEED_BITS }) > 0real
    &&& val(Scalar { bits: LEAST_TIME_BITS }) > 0real
    &&& !goal.max_v_m_s.is_nan_spec()
    &&& !at_limit.is_nan_spec()
    &&& !quotient(ar, dyaw.abs_spec(), speed_limit(goal.max_wz_rad_s)).is_nan_spec()
    &&& !quotient(ar, dx, t).is_nan_spec()
    &&& !quotient(ar, dy, t).is_nan_spec()
    &&& val(dist) >= 0real
    &&& times(val(dist), val(dist)) == times(val(dx), val(dx)) + times(val(dy), val(dy))
    &&& times(val(at_limit), val(limit)) == val(dist)
    &&& times(val(quotient(ar, dx, t)), val(t)) == val(dx)
    &&& times(val(quotient(ar, dy, t)), val(t)) == val(dy)
    &&& times(c, c) + times(s, s) == 1real
    &&& !at_goal(goal, dist, dyaw) ==> val(r.vx) == times(c, vx) + times(s, vy) && val(r.vy)
        == times(c, vy) - times(s, vx)
}

/// A rate within limits is not larger than the rate itself.
proof fn pacing_shortens<A: Arithmetic>(
    ar: &A,
    val: spec_fn(Scalar) -> real,
    d: Scalar,
    t: Scalar,
    limit: Scalar,
)
    requires
        is_reading(val),
        !quotient(ar, d, t).is_nan_spec(),
        !limit.is_nan_spec(),
        val(limit) > 0real,
    ensures
        size(val(paced(ar, d, t, limit))) <= size(val(quotient(ar, d, t))),
{
    let q = quotient(ar, d, t);
    assert(!limit.neg_spec().is_nan_spec());
    assert(q.lt_spec(limit.neg_spec()) <==> val(q) < val(limit.neg_spec()));
    assert(limit.lt_spec(q) <==> val(limit) < val(q));
    assert(val(limit.neg_spec()) == -val(limit));
}

/// The command toward a goal is not faster than the linear limit.
pub proof fn linear_speed_is_limited<A: Arithmetic>(
    ar: &A,
    val: spec_fn(Scalar) -> real,
    goal: GoalPoseWorld,
    pos: Vec3,
    yaw: Scalar,
)
    requires
        is_reading(val),
        pace_is_exact(ar, val, goal, pos, yaw),
    ensures
        ({
            let r = goal_command(ar, goal, pos, yaw);
            let limit = val(speed_limit(goal.max_v_m_s));
            times(val(r.vx), val(r.vx)) + times(val(r.vy), val(r.vy)) <= times(limit, limit)
        }),
{
    let dx = difference(ar, goal.x_m, pos.x);
    let dy = difference(ar, goal.y_m, pos.y);
    let dyaw = yaw_error(ar, goal.yaw_rad, yaw);
    let dist = goal_distance(ar, dx, dy);
    let limit = speed_limit(goal.max_v_m_s);
    let least = Scalar { bits: LEAST_SPEED_BITS };
    assert(!least.is_nan_spec());
    assert(goal.max_v_m_s.lt_spec(least) <==> val(goal.max_v_m_s) < val(least));
    let l = val(limit);
    assert(l > 0real && !limit.is_nan_spec());
    square_is_not_negative(l);
    if at_goal(goal, dist, dyaw) {
        vanishes(0real);
    } else {
        let at_limit = quotient(ar, dist, limit);
        let turning = quotient(ar, dyaw.abs_spec(), speed_limit(goal.max_wz_rad_s));
        let shortest = Scalar { bits: LEAST_TIME_BITS };
        let either = at_limit.max_spec(turning);
        let t = goal_time(ar, goal, dist, dyaw);
        assert(!shortest.is_nan_spec() && !either.is_nan_spec());
        assert(at_limit.lt_spec(turning) <==> val(at_limit) < val(turning));
        assert(either.lt_spec(shortest) <==> val(either) < val(shortest));
        let k = val(at_limit);
        let w = val(t);
        assert(w >= k && w > 0real);
        let qx = val(quotient(ar, dx, t));
        let qy = val(quotient(ar, dy, t));
        if k < 0real {
            positive(-k, l);
            negates(k, l);
        }
        grows(l, k, w);
        commutes(l, k);
        commutes(l, w);
        not_negative(w, l);
        squares_grow(val(dist), times(w, l));
        square_of_product(w, l);
        square_of_product(qx, w);
        square_of_product(qy, w);
        let ww = times(w, w);
        let ll = times(l, l);
        let sum_q = times(qx, qx) + times(qy, qy);
        distributes_left(ww, times(qx, qx), times(qy, qy));
        commutes(sum_q, ww);
        assert(times(ww, sum_q) <= times(ww, ll));
        positive(w, w);
        if sum_q > ll {
            positive(ww, sum_q - ll);
            subtracts(ww, sum_q, ll);
        }
        let vx = val(paced(ar, dx, t, limit));
        let vy = val(paced(ar, dy, t, limit));
        pacing_shortens(ar, val, dx, t, limit);
        pacing_shortens(ar, val, dy, t, limit);
        squares_grow(vx, qx);
        squares_grow(vy, qy);
        turning_keeps_the_length(val(cosine(ar, yaw)), val(sine(ar, yaw)), vx, vy);
    }
}

} // verus!
