//! Open-loop footstep planner.
//!
//! The hip moves at `v + w x p_hip` in the body frame. The foot stays planted
//! while the body passes over it, so it travels half a stance duration's worth
//! of hip motion to either side of its nominal position.

use vstd::prelude::*;
use crate::arith::{
    cross, deterministic, difference, norm, product, quotient, vec_cross, vec_difference, vec_minus,
    vec_norm, vec_plus, vec_scaled, vec_sum, vec_times, Arithmetic,
};
use crate::config::{GaitConfig, LegKinematics, VelocityCmd, HALF_BITS};
use crate::reals::{
    distributes, is_reading, negates, square_is_not_negative, square_of_product, squares_grow, times,
    vanishes,
};
use crate::scalar::{one, zero, Scalar, Vec3};

verus! {

/// Ends of the stance line in the body frame.
#[derive(Clone, Copy, Debug, PartialEq, Eq, Structural)]
pub struct Footstep {
    /// Where the foot leaves the ground.
    pub lift_off: Vec3,
    /// Where the foot lands.
    pub touch_down: Vec3,
}

/// Foot position at a fraction of the stance, from touch-down to lift-off.
pub open spec fn stance_position<A: Arithmetic>(ar: &A, step: Footstep, frac: Scalar) -> Vec3 {
    let f = frac.clamp_spec(zero(), one());
    vec_sum(
        ar,
        vec_scaled(ar, step.touch_down, difference(ar, one(), f)),
        vec_scaled(ar, step.lift_off, f),
    )
}

impl Footstep {
    /// Foot position at a fraction of the stance: zero is touch-down, one is
    /// lift-off.
    pub fn stance_at<A: Arithmetic>(&self, ar: &A, frac: Scalar) -> (r: Vec3)
        ensures
            deterministic(ar) ==> r == stance_position(ar, *self, frac),
    {
        let f = frac.clamp(zero(), one());
        let landed = vec_times(ar, self.touch_down, ar.minus(one(), f));
        vec_plus(ar, landed, vec_times(ar, self.lift_off, f))
    }
}

/// Velocity of the hip in the body frame.
pub open spec fn hip_velocity<A: Arithmetic>(ar: &A, cmd: VelocityCmd, hip: Vec3) -> Vec3 {
    vec_sum(
        ar,
        Vec3 { x: cmd.vx, y: cmd.vy, z: zero() },
        cross(ar, Vec3 { x: zero(), y: zero(), z: cmd.wz }, hip),
    )
}

/// Velocity of the hip in the body frame.
pub fn hip_velocity_of<A: Arithmetic>(ar: &A, cmd: &VelocityCmd, hip: Vec3) -> (r: Vec3)
    ensures
        deterministic(ar) ==> r == hip_velocity(ar, *cmd, hip),
{
    let turning = vec_cross(ar, Vec3::new(zero(), zero(), cmd.wz), hip);
    vec_plus(ar, Vec3::new(cmd.vx, cmd.vy, zero()), turning)
}

/// A step shortened to length `limit` when longer.
pub open spec fn shortened<A: Arithmetic>(ar: &A, half: Vec3, limit: Scalar) -> Vec3 {
    let mag = norm(ar, half);
    if limit.lt_spec(mag) && zero().lt_spec(mag) {
        vec_scaled(ar, half, quotient(ar, limit, mag))
    } else {
        half
    }
}

/// A step shortened to length `limit` when longer.
pub fn shorten<A: Arithmetic>(ar: &A, half: Vec3, limit: Scalar) -> (r: Vec3)
    ensures
        deterministic(ar) ==> r == shortened(ar, half, limit),
{
    let mag = vec_norm(ar, half);
    if limit.lt(mag) && zero().lt(mag) {
        vec_times(ar, half, ar.over(limit, mag))
    } else {
        half
    }
}

/// Half of the stance line: half a stance duration of hip motion, shortened to
/// half the maximum step length.
pub open spec fn half_step<A: Arithmetic>(
    ar: &A,
    kin: LegKinematics,
    gait: GaitConfig,
    cmd: VelocityCmd,
) -> Vec3 {
    let half = Scalar { bits: HALF_BITS };
    let stance_duration = product(ar, gait.cycle_period_s, gait.duty_factor);
    shortened(
        ar,
        vec_scaled(
            ar,
            hip_velocity(ar, cmd, kin.hip_offset),
            product(ar, half, stance_duration),
        ),
        product(ar, half, gait.max_step_length_m),
    )
}

/// The step that the planner gives for a leg.
pub open spec fn planned_step<A: Arithmetic>(
    ar: &A,
    kin: LegKinematics,
    gait: GaitConfig,
    cmd: VelocityCmd,
) -> Footstep {
    let half = half_step(ar, kin, gait, cmd);
    Footstep {
        lift_off: vec_difference(ar, kin.nominal_foot_body, half),
        touch_down: vec_sum(ar, kin.nominal_foot_body, half),
    }
}

/// Plans a step about the nominal foot position.
pub fn compute_footstep<A: Arithmetic>(
    ar: &A,
    kin: &LegKinematics,
    gait: &GaitConfig,
    cmd: &VelocityCmd,
) -> (r: Footstep)
    ensures
        deterministic(ar) ==> r == planned_step(ar, *kin, *gait, *cmd),
{
    let half = Scalar { bits: HALF_BITS };
    let stance_duration = ar.times(gait.cycle_period_s, gait.duty_factor);
    let v_hip = hip_velocity_of(ar, cmd, kin.hip_offset);
    let wished = vec_times(ar, v_hip, ar.times(half, stance_duration));
    let step = shorten(ar, wished, ar.times(half, gait.max_step_length_m));
    Footstep {
        lift_off: vec_minus(ar, kin.nominal_foot_body, step),
        touch_down: vec_plus(ar, kin.nominal_foot_body, step),
    }
}

/// Sum of the squares of the parts of a vector, as `val` reads them.
pub open spec fn squared_length(val: spec_fn(Scalar) -> real, v: Vec3) -> real {
    times(val(v.x), val(v.x)) + times(val(v.y), val(v.y)) + times(val(v.z), val(v.z))
}

/// The steps that shorten a vector are exact under the reading `val`: its length and,
/// where it is scaled, the ratio and the scaled parts.
pub open spec fn shortening_is_exact<A: Arithmetic>(
    ar: &A,
    val: spec_fn(Scalar) -> real,
    half: Vec3,
    limit: Scalar,
) -> bool {
    let mag = norm(ar, half);
    let ratio = quotient(ar, limit, mag);
    let v = vec_scaled(ar, half, ratio);
    &&& !mag.is_nan_spec()
    &&& !limit.is_nan_spec()
    &&& val(mag) >= 0real
    &&& times(val(mag), val(mag)) == squared_length(val, half)
    &&& limit.lt_spec(mag) && zero().lt_spec(mag) ==> {
        &&& times(val(ratio), val(mag)) == val(limit)
        &&& val(v.x) == times(val(ratio), val(half.x))
        &&& val(v.y) == times(val(ratio), val(half.y))
        &&& val(v.z) == times(val(ratio), val(half.z))
    }
}

/// A shortened vector is not longer than the limit.
pub proof fn shortened_is_short<A: Arithmetic>(
    ar: &A,
    val: spec_fn(Scalar) -> real,
    half: Vec3,
    limit: Scalar,
)
    requires
        is_reading(val),
        shortening_is_exact(ar, val, half, limit),
    ensures
        squared_length(val, shortened(ar, half, limit)) <= times(val(limit), val(limit)),
{
    let mag = norm(ar, half);
    let m = val(mag);
    let l = val(limit);
    assert(limit.lt_spec(mag) <==> l < m);
    assert(zero().lt_spec(mag) <==> val(zero()) < m);
    if limit.lt_spec(mag) && zero().lt_spec(mag) {
        let k = val(quotient(ar, limit, mag));
        let x = val(half.x);
        let y = val(half.y);
        let z = val(half.z);
        square_of_product(k, x);
        square_of_product(k, y);
        square_of_product(k, z);
        square_of_product(k, m);
        let kk = times(k, k);
        distributes(kk, times(x, x), times(y, y));
        distributes(kk, times(x, x) + times(y, y), times(z, z));
    } else if m <= l {
        squares_grow(m, l);
    } else {
        vanishes(m);
        square_is_not_negative(l);
    }
}

/// Sum of the squares of the parts of the way from `a` to `b`, as `val` reads them.
pub open spec fn squared_distance(val: spec_fn(Scalar) -> real, a: Vec3, b: Vec3) -> real {
    times(val(b.x) - val(a.x), val(b.x) - val(a.x)) + times(
        val(b.y) - val(a.y),
        val(b.y) - val(a.y),
    ) + times(val(b.z) - val(a.z), val(b.z) - val(a.z))
}

/// The steps of the planner are exact under the reading `val`: shortening the half
/// step, and placing its two ends about the nominal place.
pub open spec fn planning_is_exact<A: Arithmetic>(
    ar: &A,
    val: spec_fn(Scalar) -> real,
    kin: LegKinematics,
    gait: GaitConfig,
    cmd: VelocityCmd,
) -> bool {
    let half = Scalar { bits: HALF_BITS };
    let wished = vec_scaled(
        ar,
        hip_velocity(ar, cmd, kin.hip_offset),
        product(ar, half, product(ar, gait.cycle_period_s, gait.duty_factor)),
    );
    let h = half_step(ar, kin, gait, cmd);
    let n = kin.nominal_foot_body;
    let step = planned_step(ar, kin, gait, cmd);
    &&& shortening_is_exact(ar, val, wished, product(ar, half, gait.max_step_length_m))
    &&& val(step.touch_down.x) == val(n.x) + val(h.x)
    &&& val(step.touch_down.y) == val(n.y) + val(h.y)
    &&& val(step.touch_down.z) == val(n.z) + val(h.z)
    &&& val(step.lift_off.x) == val(n.x) - val(h.x)
    &&& val(step.lift_off.y) == val(n.y) - val(h.y)
    &&& val(step.lift_off.z) == val(n.z) - val(h.z)
}

/// A planned step lies at most half the longest step from the nominal place, where it
/// lands and where it lifts off.
pub proof fn steps_stay_near_the_nominal_place<A: Arithmetic>(
    ar: &A,
    val: spec_fn(Scalar) -> real,
    kin: LegKinematics,
    gait: GaitConfig,
    cmd: VelocityCmd,
)
    requires
        is_reading(val),
        planning_is_exact(ar, val, kin, gait, cmd),
    ensures
        ({
            let longest = val(product(ar, Scalar { bits: HALF_BITS }, gait.max_step_length_m));
            let n = kin.nominal_foot_body;
            let step = planned_step(ar, kin, gait, cmd);
            &&& squared_distance(val, n, step.touch_down) <= times(longest, longest)
            &&& squared_distance(val, n, step.lift_off) <= times(longest, longest)
        }),
{
    let half = Scalar { bits: HALF_BITS };
    let wished = vec_scaled(
        ar,
        hip_velocity(ar, cmd, kin.hip_offset),
        product(ar, half, product(ar, gait.cycle_period_s, gait.duty_factor)),
    );
    shortened_is_short(ar, val, wished, product(ar, half, gait.max_step_length_m));
    let h = half_step(ar, kin, gait, cmd);
    let n = kin.nominal_foot_body;
    let step = planned_step(ar, kin, gait, cmd);
    assert(val(step.touch_down.x) - val(n.x) == val(h.x));
    assert(val(step.touch_down.y) - val(n.y) == val(h.y));
    assert(val(step.touch_down.z) - val(n.z) == val(h.z));
    assert(val(step.lift_off.x) - val(n.x) == -val(h.x));
    assert(val(step.lift_off.y) - val(n.y) == -val(h.y));
    assert(val(step.lift_off.z) - val(n.z) == -val(h.z));
    negates(val(h.x), val(h.x));
    negates(-val(h.x), val(h.x));
    negates(val(h.y), val(h.y));
    negates(-val(h.y), val(h.y));
    negates(val(h.z), val(h.z));
    negates(-val(h.z), val(h.z));
}

} // verus!
