//! Laws of footholds: what a step owes to the command, to the velocity of the body and
//! to what is predicted of it.
//!
//! Each law is stated for a reading of scalars as real numbers under which the steps
//! that it rests on are exact.

use vstd::prelude::*;
use crate::arith::{
    cosine, counted, deterministic, difference, nearest, norm, product, quotient, sine, sum,
    Arithmetic,
};
use crate::bound_laws::two_halves;
use crate::centroidal_controller::{
    capture_feedback, commanded_half, corrected_half, is_posed, CentroidalMpcGaitController,
};
use crate::centroidal_mpc::CentroidalProblem;
use crate::closed_loop::{kept, to_body, to_world};
use crate::config::{stance_weight, LegId, LegKinematics, VelocityCmd, HALF_BITS};
use crate::controller::{capture_shift, ControllerOutput, LegModel, PhaseState};
use crate::exact::{
    adds, adds_product, adds_products, ahead, aside, multiplies, read, shares, takes,
};
use crate::footstep::{hip_velocity, shortened};
use crate::full_centroidal_controller::FullCentroidalMpcGaitController;
use crate::full_centroidal_footstep::{within, LEAST_STEP_BITS};
use crate::full_centroidal_plan::{phase_at, StepPhase};
use crate::full_centroidal_reference::cycle_phase_of;
use crate::full_centroidal_tick::{mirrored_left, mirrored_right, smoothed, SPEED_TAU_BITS};
use crate::ik::foot_position;
use crate::motion_laws::{
    parts_scale, turning_back_gives_the_parts, turning_is_exact, turning_keeps_the_parts,
};
use crate::reals::{
    associates, cancels, commutes, distributes, distributes_left, is_reading, not_negative,
    one_is_neutral, positive, subtracts_left, times, vanishes,
};
use crate::scalar::{minus_one, one, zero, Scalar, Vec3};

verus! {

/// Turning a vector of the world into the body is exact, step by step.
pub open spec fn turning_back_is_exact<A: Arithmetic>(
    ar: &A,
    val: spec_fn(Scalar) -> real,
    x: Scalar,
    y: Scalar,
    yaw: Scalar,
) -> bool {
    let c = cosine(ar, yaw);
    let s = sine(ar, yaw);
    &&& adds_products(ar, val, c, x, s, y)
    &&& adds_products(ar, val, s.neg_spec(), x, c, y)
}

/// The steps of a velocity error are exact.
pub open spec fn velocity_error_is_exact<A: Arithmetic>(
    ar: &A,
    val: spec_fn(Scalar) -> real,
    v: Vec3,
    yaw: Scalar,
    cmd: VelocityCmd,
) -> bool {
    let c = cosine(ar, yaw);
    let s = sine(ar, yaw);
    &&& turning_back_is_exact(ar, val, v.x, v.y, yaw)
    &&& takes(ar, val, sum(ar, product(ar, c, v.x), product(ar, s, v.y)), cmd.vx)
    &&& takes(ar, val, sum(ar, product(ar, s.neg_spec(), v.x), product(ar, c, v.y)), cmd.vy)
}

/// The velocity error of the centroidal controller is by how much the body is faster,
/// ahead and to the left of its heading, than commanded.
pub proof fn the_velocity_error_is_what_is_too_fast<A: Arithmetic>(
    ar: &A,
    val: spec_fn(Scalar) -> real,
    c: CentroidalMpcGaitController,
)
    requires
        is_reading(val),
        velocity_error_is_exact(
            ar,
            val,
            c.v_observed_world,
            c.body_state.world_yaw,
            c.cmd,
        ),
    ensures
        ({
            let e = read(val, c.velocity_error(ar));
            let v = read(val, c.v_observed_world);
            let yaw = c.body_state.world_yaw;
            &&& e.x + val(c.cmd.vx) == ahead(ar, val, yaw, v.x, v.y)
            &&& e.y + val(c.cmd.vy) == aside(ar, val, yaw, v.x, v.y)
        }),
{
    turning_back_gives_the_parts(ar, val, c.v_observed_world, c.body_state.world_yaw);
}

/// The velocity error of the full controller is by how much the body is faster, ahead
/// and to the left of its heading, than commanded.
pub proof fn the_full_velocity_error_is_what_is_too_fast<A: Arithmetic>(
    ar: &A,
    val: spec_fn(Scalar) -> real,
    c: FullCentroidalMpcGaitController,
)
    requires
        is_reading(val),
        velocity_error_is_exact(
            ar,
            val,
            c.v_observed_world,
            c.body_state.world_yaw,
            c.cmd,
        ),
    ensures
        ({
            let e = read(val, c.velocity_error(ar));
            let v = read(val, c.v_observed_world);
            let yaw = c.body_state.world_yaw;
            &&& e.x + val(c.cmd.vx) == ahead(ar, val, yaw, v.x, v.y)
            &&& e.y + val(c.cmd.vy) == aside(ar, val, yaw, v.x, v.y)
        }),
{
    turning_back_gives_the_parts(ar, val, c.v_observed_world, c.body_state.world_yaw);
}

/// The steps of the feedback along one axis are exact.
pub open spec fn feedback_is_exact<A: Arithmetic>(
    ar: &A,
    val: spec_fn(Scalar) -> real,
    gain: Scalar,
    steps: usize,
    e: Scalar,
) -> bool {
    let n = counted(ar, steps);
    let share = quotient(ar, one(), n);
    let w = product(ar, share, gain);
    &&& shares(ar, val, one(), n)
    &&& multiplies(ar, val, share, gain)
    &&& multiplies(ar, val, gain, e)
    &&& multiplies(ar, val, w, e)
    &&& adds(ar, val, product(ar, gain, e), product(ar, w, e))
}

proof fn feedback_part<A: Arithmetic>(
    ar: &A,
    val: spec_fn(Scalar) -> real,
    gain: Scalar,
    steps: usize,
    e: Scalar,
)
    requires
        val(one()) == 1real,
        feedback_is_exact(ar, val, gain, steps, e),
    ensures
        ({
            let w = product(ar, quotient(ar, one(), counted(ar, steps)), gain);
            let r = val(sum(ar, product(ar, gain, e), product(ar, w, e)));
            let n = val(counted(ar, steps));
            times(r, n) == times(times(val(gain), val(e)), n + 1real)
        }),
{
    let n = val(counted(ar, steps));
    let share = val(quotient(ar, one(), counted(ar, steps)));
    let g = val(gain);
    let x = times(g, val(e));
    associates(share, g, val(e));
    distributes_left(n, x, times(share, x));
    commutes(share, x);
    associates(x, share, n);
    distributes(x, n, 1real);
    one_is_neutral(x);
}

/// A body that is too fast under a command puts its foot further that way: the feedback is
/// the gain times the error, and once more over the number of look-ahead steps. Without a
/// command there is none.
pub proof fn the_foot_is_put_where_the_body_drifts<A: Arithmetic>(
    ar: &A,
    val: spec_fn(Scalar) -> real,
    cmd: VelocityCmd,
    gain: Scalar,
    steps: usize,
    v_err: Vec3,
)
    requires
        is_reading(val),
        val(one()) == 1real,
        feedback_is_exact(ar, val, gain, steps, v_err.x),
        feedback_is_exact(ar, val, gain, steps, v_err.y),
        adds(ar, val, zero(), zero()),
    ensures
        ({
            let r = read(val, capture_feedback(ar, cmd, gain, steps, v_err));
            let n = val(counted(ar, steps));
            &&& r.z == 0real
            &&& cmd.is_still() ==> r.x == 0real && r.y == 0real
            &&& !cmd.is_still() ==> {
                &&& times(r.x, n) == times(times(val(gain), val(v_err.x)), n + 1real)
                &&& times(r.y, n) == times(times(val(gain), val(v_err.y)), n + 1real)
            }
        }),
{
    feedback_part(ar, val, gain, steps, v_err.x);
    feedback_part(ar, val, gain, steps, v_err.y);
}

/// The commanded half step carries the foot by half of what the hip moves in a stance.
pub proof fn half_a_step_is_half_of_what_the_hip_moves<A: Arithmetic>(
    ar: &A,
    val: spec_fn(Scalar) -> real,
    kin: LegKinematics,
    cmd: VelocityCmd,
    stance: Scalar,
)
    requires
        val(Scalar { bits: HALF_BITS }) + val(Scalar { bits: HALF_BITS }) == 1real,
        ({
            let half = Scalar { bits: HALF_BITS };
            let v = hip_velocity(ar, cmd, kin.hip_offset);
            let t = product(ar, half, stance);
            &&& multiplies(ar, val, half, stance)
            &&& multiplies(ar, val, v.x, t)
            &&& multiplies(ar, val, v.y, t)
            &&& multiplies(ar, val, v.z, t)
        }),
    ensures
        ({
            let h = read(val, commanded_half(ar, kin, cmd, stance));
            let v = read(val, hip_velocity(ar, cmd, kin.hip_offset));
            let t = val(stance);
            &&& h.x + h.x == times(v.x, t)
            &&& h.y + h.y == times(v.y, t)
            &&& h.z + h.z == times(v.z, t)
        }),
{
    let v = read(val, hip_velocity(ar, cmd, kin.hip_offset));
    let k = val(Scalar { bits: HALF_BITS });
    two_halves(k, val(stance));
    distributes(v.x, times(k, val(stance)), times(k, val(stance)));
    distributes(v.y, times(k, val(stance)), times(k, val(stance)));
    distributes(v.z, times(k, val(stance)), times(k, val(stance)));
}

/// A correction leaves a step its direction: along an axis on which the command goes
/// forward the half step stays at the least fraction of the commanded one or above, on
/// one on which it goes backward at or below; a correction that leaves it there, or that
/// finds no command, is taken as it is.
pub proof fn a_correction_does_not_turn_a_step_round<A: Arithmetic>(
    ar: &A,
    val: spec_fn(Scalar) -> real,
    half: Scalar,
    combined: Scalar,
    fraction: Scalar,
)
    requires
        is_reading(val),
        !half.is_nan_spec(),
        !combined.is_nan_spec(),
        !product(ar, fraction, half).is_nan_spec(),
        multiplies(ar, val, fraction, half),
    ensures
        ({
            let r = val(kept(ar, half, combined, fraction));
            let least = times(val(fraction), val(half));
            let c = val(combined);
            &&& val(half) > 0real ==> r == (if c < least {
                least
            } else {
                c
            })
            &&& val(half) < 0real ==> r == (if c > least {
                least
            } else {
                c
            })
            &&& val(half) == 0real ==> r == c
        }),
{
    let least = product(ar, fraction, half);
    assert(!zero().is_nan_spec());
    assert(zero().lt_spec(half) <==> 0real < val(half));
    assert(half.lt_spec(zero()) <==> val(half) < 0real);
    assert(combined.lt_spec(least) <==> val(combined) < val(least));
    assert(least.lt_spec(combined) <==> val(least) < val(combined));
}

/// A correction that neither turns the step round nor makes it too long is added to it.
pub proof fn a_correction_is_added_to_the_step<A: Arithmetic>(
    ar: &A,
    val: spec_fn(Scalar) -> real,
    half: Vec3,
    correction: Vec3,
    fraction: Scalar,
    limit: Scalar,
)
    requires
        adds(ar, val, half.x, correction.x),
        adds(ar, val, half.y, correction.y),
        adds(ar, val, half.z, correction.z),
        ({
            let raw = Vec3 {
                x: sum(ar, half.x, correction.x),
                y: sum(ar, half.y, correction.y),
                z: sum(ar, half.z, correction.z),
            };
            &&& kept(ar, half.x, raw.x, fraction) == raw.x
            &&& kept(ar, half.y, raw.y, fraction) == raw.y
            &&& shortened(ar, raw, limit) == raw
        }),
    ensures
        ({
            let r = read(val, corrected_half(ar, half, correction, fraction, limit));
            &&& r.x == val(half.x) + val(correction.x)
            &&& r.y == val(half.y) + val(correction.y)
            &&& r.z == val(half.z) + val(correction.z)
        }),
{
}

/// The steps from a nominal place and a half step to the ends of the step are exact.
pub open spec fn ends_are_exact<A: Arithmetic>(
    ar: &A,
    val: spec_fn(Scalar) -> real,
    nominal: Vec3,
    half: Vec3,
) -> bool {
    &&& adds(ar, val, nominal.x, half.x)
    &&& adds(ar, val, nominal.y, half.y)
    &&& adds(ar, val, nominal.z, half.z)
    &&& takes(ar, val, nominal.x, half.x)
    &&& takes(ar, val, nominal.y, half.y)
    &&& takes(ar, val, nominal.z, half.z)
}

/// A step of the centroidal controller lands its half step ahead of the nominal place and
/// leaves from as far behind it.
pub proof fn a_step_is_centred_on_the_nominal_place<A: Arithmetic>(
    ar: &A,
    val: spec_fn(Scalar) -> real,
    c: CentroidalMpcGaitController,
    kin: LegKinematics,
    v_err: Vec3,
)
    requires
        ends_are_exact(ar, val, kin.nominal_foot_body, c.half_of(ar, kin, v_err)),
    ensures
        ({
            let h = read(val, c.half_of(ar, kin, v_err));
            let n = read(val, kin.nominal_foot_body);
            let down = read(val, c.step_of(ar, kin, v_err).touch_down);
            let up = read(val, c.step_of(ar, kin, v_err).lift_off);
            &&& down.x - n.x == h.x && n.x - up.x == h.x
            &&& down.y - n.y == h.y && n.y - up.y == h.y
            &&& down.z - n.z == h.z && n.z - up.z == h.z
        }),
{
}

/// A step of the full controller lands its half step ahead of the nominal place, further
/// on by the shift for the pitch unless that makes it too long, and leaves from as far
/// behind the nominal place.
pub proof fn a_full_step_is_shifted_for_the_pitch<A: Arithmetic, S: LegModel>(
    ar: &A,
    val: spec_fn(Scalar) -> real,
    model: &S,
    c: FullCentroidalMpcGaitController,
    kin: LegKinematics,
    v_err: Vec3,
)
    requires
        is_reading(val),
        ends_are_exact(ar, val, kin.nominal_foot_body, c.half_of(ar, model, kin, v_err)),
        ({
            let x = sum(ar, kin.nominal_foot_body.x, c.half_of(ar, model, kin, v_err).x);
            adds(ar, val, x, c.pitch_placement_shift)
        }),
        c.pitch_placement_shift.eq_spec_value(zero()) ==> val(c.pitch_placement_shift) == 0real,
        ({
            let n = kin.nominal_foot_body;
            let h = c.half_of(ar, model, kin, v_err);
            let off = Vec3 {
                x: difference(ar, sum(ar, sum(ar, n.x, h.x), c.pitch_placement_shift), n.x),
                y: difference(ar, sum(ar, n.y, h.y), n.y),
                z: difference(ar, sum(ar, n.z, h.z), n.z),
            };
            !c.longest_half(ar, kin.leg).lt_spec(norm(ar, off))
        }),
    ensures
        ({
            let h = read(val, c.half_of(ar, model, kin, v_err));
            let n = read(val, kin.nominal_foot_body);
            let down = read(val, c.step_of(ar, model, kin, v_err).touch_down);
            let up = read(val, c.step_of(ar, model, kin, v_err).lift_off);
            &&& down.x - n.x == h.x + val(c.pitch_placement_shift)
            &&& down.y - n.y == h.y
            &&& down.z - n.z == h.z
            &&& n.x - up.x == h.x
            &&& n.y - up.y == h.y
            &&& n.z - up.z == h.z
        }),
{
}

/// The reference of the centroidal problem follows the command: at every step the body is
/// to move ahead and to the left of its heading at the commanded speeds, to have moved
/// from where it is by the velocity times the time, and to have turned by the yaw rate
/// times the time; and each foot is where the output has it, seen from the centre of mass.
pub proof fn the_posed_reference_follows_the_command<A: Arithmetic>(
    ar: &A,
    val: spec_fn(Scalar) -> real,
    c: CentroidalMpcGaitController,
    out: ControllerOutput,
    p: CentroidalProblem,
    k: int,
)
    requires
        is_reading(val),
        deterministic(ar),
        is_posed(ar, c, out, p),
        0 <= k < c.centroidal_mpc.cfg.horizon_steps,
        turning_is_exact(ar, val, c.cmd.vx, c.cmd.vy, c.body_state.world_yaw),
        ({
            let yaw = c.body_state.world_yaw;
            let x = c.body_state.world_position;
            let v = to_world(ar, Vec3 { x: c.cmd.vx, y: c.cmd.vy, z: zero() }, yaw);
            let dt = c.centroidal_mpc.cfg.dt_per_step;
            let t = product(ar, counted(ar, (k + 1) as usize), dt);
            &&& multiplies(ar, val, counted(ar, (k + 1) as usize), dt)
            &&& adds_product(ar, val, x.x, v.x, t)
            &&& adds_product(ar, val, x.y, v.y, t)
            &&& adds_product(ar, val, x.z, zero(), t)
            &&& adds_product(ar, val, yaw, c.cmd.wz, t)
        }),
    ensures
        ({
            let r = p.reference.states@[k];
            let v = read(val, r.h_lin_per_mass);
            let yaw = c.body_state.world_yaw;
            let now = read(val, c.body_state.world_position);
            let then = read(val, r.base_pos_world);
            let t = times(
                val(counted(ar, (k + 1) as usize)),
                val(c.centroidal_mpc.cfg.dt_per_step),
            );
            &&& ahead(ar, val, yaw, v.x, v.y) == val(c.cmd.vx)
            &&& aside(ar, val, yaw, v.x, v.y) == val(c.cmd.vy)
            &&& v.z == 0real
            &&& r.angular_velocity_world.z == c.cmd.wz
            &&& then.x - now.x == times(v.x, t)
            &&& then.y - now.y == times(v.y, t)
            &&& then.z == now.z
            &&& val(r.base_euler_zyx.z) - val(yaw) == times(val(c.cmd.wz), t)
            &&& r.base_euler_zyx.x == zero() && r.base_euler_zyx.y == zero()
            &&& p.state_now.h_lin_per_mass == c.v_observed_world
            &&& p.state_now.base_pos_world == c.body_state.world_position
        }),
{
    let cmd = Vec3 { x: c.cmd.vx, y: c.cmd.vy, z: zero() };
    turning_keeps_the_parts(ar, val, cmd, c.body_state.world_yaw);
    let t = val(product(ar, counted(ar, (k + 1) as usize), c.centroidal_mpc.cfg.dt_per_step));
    vanishes(t);
    commutes(0real, t);
}

/// The feet of the centroidal problem lie about the centre of mass as the output has them
/// about the body: ahead and to the left of the heading by the foot less the offset of the
/// centre of mass.
pub proof fn the_posed_feet_lie_about_the_mass<A: Arithmetic>(
    ar: &A,
    val: spec_fn(Scalar) -> real,
    c: CentroidalMpcGaitController,
    out: ControllerOutput,
    p: CentroidalProblem,
    leg: int,
    k: int,
)
    requires
        deterministic(ar),
        is_posed(ar, c, out, p),
        0 <= leg < 4,
        0 <= k < c.centroidal_mpc.cfg.horizon_steps,
        ({
            let yaw = c.body_state.world_yaw;
            let foot = out.legs@[leg].foot_body;
            let com = c.centroidal_mpc.cfg.com_offset_body;
            let f = to_world(ar, foot, yaw);
            let m = to_world(ar, com, yaw);
            &&& turning_is_exact(ar, val, foot.x, foot.y, yaw)
            &&& turning_is_exact(ar, val, com.x, com.y, yaw)
            &&& takes(ar, val, f.x, m.x)
            &&& takes(ar, val, f.y, m.y)
            &&& takes(ar, val, f.z, m.z)
        }),
    ensures
        ({
            let yaw = c.body_state.world_yaw;
            let foot = read(val, out.legs@[leg].foot_body);
            let com = read(val, c.centroidal_mpc.cfg.com_offset_body);
            let r = read(val, p.feet.r@[leg]@[k]);
            &&& ahead(ar, val, yaw, r.x, r.y) == foot.x - com.x
            &&& aside(ar, val, yaw, r.x, r.y) == foot.y - com.y
            &&& r.z == foot.z - com.z
        }),
{
    let yaw = c.body_state.world_yaw;
    let foot = out.legs@[leg].foot_body;
    let com = c.centroidal_mpc.cfg.com_offset_body;
    turning_keeps_the_parts(ar, val, foot, yaw);
    turning_keeps_the_parts(ar, val, com, yaw);
    let f = read(val, to_world(ar, foot, yaw));
    let m = read(val, to_world(ar, com, yaw));
    let cos = val(cosine(ar, yaw));
    let sin = val(sine(ar, yaw));
    subtracts_left(cos, f.x, m.x);
    subtracts_left(sin, f.y, m.y);
    subtracts_left(cos, f.y, m.y);
    subtracts_left(sin, f.x, m.x);
}

/// The step of the prediction that a foothold looks at: one swing ahead, at least one
/// step, within the horizon.
pub open spec fn looked_at<A: Arithmetic>(c: FullCentroidalMpcGaitController, ar: &A) -> int {
    let dt = c.full_centroidal_mpc.cfg.dt_per_step.max_spec(Scalar { bits: LEAST_STEP_BITS });
    let swing = product(ar, c.cfg.cycle_period_s, difference(ar, one(), c.cfg.duty_factor));
    let wished = nearest(ar, quotient(ar, swing, dt));
    within(c.last_solution->0, if wished == 0 { 1 } else { wished })
}

/// The steps of the correction from the predicted base are exact.
pub open spec fn prediction_is_exact<A: Arithmetic>(
    ar: &A,
    val: spec_fn(Scalar) -> real,
    c: FullCentroidalMpcGaitController,
) -> bool {
    let yaw = c.body_state.world_yaw;
    let dt = c.full_centroidal_mpc.cfg.dt_per_step.max_spec(Scalar { bits: LEAST_STEP_BITS });
    let k = looked_at(c, ar);
    let base = c.last_solution->0.predicted_states@[k].base_pos_world;
    let now = c.body_state.world_position;
    let t = product(ar, counted(ar, (k + 1) as usize), dt);
    let v = to_world(ar, Vec3 { x: c.cmd.vx, y: c.cmd.vy, z: zero() }, yaw);
    let mx = difference(ar, base.x, now.x);
    let my = difference(ar, base.y, now.y);
    let ex = product(ar, v.x, t);
    let ey = product(ar, v.y, t);
    &&& turning_is_exact(ar, val, c.cmd.vx, c.cmd.vy, yaw)
    &&& multiplies(ar, val, counted(ar, (k + 1) as usize), dt)
    &&& multiplies(ar, val, v.x, t)
    &&& multiplies(ar, val, v.y, t)
    &&& takes(ar, val, base.x, now.x)
    &&& takes(ar, val, base.y, now.y)
    &&& takes(ar, val, mx, ex)
    &&& takes(ar, val, my, ey)
    &&& turning_back_is_exact(ar, val, difference(ar, mx, ex), difference(ar, my, ey), yaw)
}

/// A foothold is moved by what the predicted base will have strayed: ahead and to the left
/// of the heading, by the predicted way less the way that the command makes in that time.
/// Without a solved prediction it is not moved.
pub proof fn a_foothold_follows_the_predicted_base<A: Arithmetic>(
    ar: &A,
    val: spec_fn(Scalar) -> real,
    c: FullCentroidalMpcGaitController,
)
    requires
        is_reading(val),
        c.last_solution is Some && c.last_solution->0.solved ==> prediction_is_exact(ar, val, c),
    ensures
        ({
            let r = read(val, c.predicted_correction(ar));
            let yaw = c.body_state.world_yaw;
            let k = looked_at(c, ar);
            let dt = c.full_centroidal_mpc.cfg.dt_per_step.max_spec(
                Scalar { bits: LEAST_STEP_BITS },
            );
            let t = times(val(counted(ar, (k + 1) as usize)), val(dt));
            let base = read(val, c.last_solution->0.predicted_states@[k].base_pos_world);
            let now = read(val, c.body_state.world_position);
            if c.last_solution is Some && c.last_solution->0.solved {
                &&& r.x == ahead(ar, val, yaw, base.x - now.x, base.y - now.y) - times(
                    val(c.cmd.vx),
                    t,
                )
                &&& r.y == aside(ar, val, yaw, base.x - now.x, base.y - now.y) - times(
                    val(c.cmd.vy),
                    t,
                )
                &&& r.z == 0real
            } else {
                r.x == 0real && r.y == 0real && r.z == 0real
            }
        }),
{
    if c.last_solution is Some && c.last_solution->0.solved {
        let yaw = c.body_state.world_yaw;
        let dt = c.full_centroidal_mpc.cfg.dt_per_step.max_spec(Scalar { bits: LEAST_STEP_BITS });
        let k = looked_at(c, ar);
        let base = c.last_solution->0.predicted_states@[k].base_pos_world;
        let now = c.body_state.world_position;
        let t = product(ar, counted(ar, (k + 1) as usize), dt);
        let cmd = Vec3 { x: c.cmd.vx, y: c.cmd.vy, z: zero() };
        let v = to_world(ar, cmd, yaw);
        let strayed = Vec3 {
            x: difference(ar, difference(ar, base.x, now.x), product(ar, v.x, t)),
            y: difference(ar, difference(ar, base.y, now.y), product(ar, v.y, t)),
            z: zero(),
        };
        turning_keeps_the_parts(ar, val, cmd, yaw);
        turning_back_gives_the_parts(ar, val, strayed, yaw);
        let cos = val(cosine(ar, yaw));
        let sin = val(sine(ar, yaw));
        parts_scale(val(v.x), val(v.y), cos, sin, val(t));
        let mx = val(base.x) - val(now.x);
        let my = val(base.y) - val(now.y);
        let ex = times(val(v.x), val(t));
        let ey = times(val(v.y), val(t));
        subtracts_left(cos, mx, ex);
        subtracts_left(sin, my, ey);
        subtracts_left(cos, my, ey);
        subtracts_left(sin, mx, ex);
    }
}

/// With a fore-aft placement gain, under a command, a leg's half step along x is half of
/// what the body moves in a stance at its filtered speed, and further by the gain times
/// what it is too fast.
pub proof fn a_fast_body_steps_further<A: Arithmetic>(
    ar: &A,
    val: spec_fn(Scalar) -> real,
    c: FullCentroidalMpcGaitController,
    kin: LegKinematics,
)
    requires
        val(Scalar { bits: HALF_BITS }) + val(Scalar { bits: HALF_BITS }) == 1real,
        !c.cmd.is_still(),
        !c.bound_fore_aft_placement_gain.eq_spec_value(zero()),
        ({
            let half = Scalar { bits: HALF_BITS };
            let v = c.v_fore_aft_filtered;
            let gain = c.bound_fore_aft_placement_gain;
            let stance = product(ar, c.cfg.cycle_period_s, c.leg_duty(kin.leg.slot()));
            let way = product(ar, v, product(ar, half, stance));
            &&& multiplies(ar, val, c.cfg.cycle_period_s, c.leg_duty(kin.leg.slot()))
            &&& multiplies(ar, val, half, stance)
            &&& multiplies(ar, val, v, product(ar, half, stance))
            &&& takes(ar, val, v, c.cmd.vx)
            &&& adds_product(ar, val, way, gain, difference(ar, v, c.cmd.vx))
        }),
    ensures
        ({
            let x = val(c.neutral_half(ar, kin).x);
            let v = val(c.v_fore_aft_filtered);
            let stance = times(val(c.cfg.cycle_period_s), val(c.leg_duty(kin.leg.slot())));
            let more = times(val(c.bound_fore_aft_placement_gain), v - val(c.cmd.vx));
            (x - more) + (x - more) == times(v, stance)
        }),
{
    let v = val(c.v_fore_aft_filtered);
    let k = val(Scalar { bits: HALF_BITS });
    let stance = times(val(c.cfg.cycle_period_s), val(c.leg_duty(kin.leg.slot())));
    two_halves(k, stance);
    distributes(v, times(k, stance), times(k, stance));
}

/// A body that pitches more than it is to moves its footholds by the gain times what is
/// too much, and so for the pitch rate; the slow part of that and the rest make it up.
pub proof fn footholds_move_with_the_pitch<A: Arithmetic>(
    ar: &A,
    val: spec_fn(Scalar) -> real,
    c: FullCentroidalMpcGaitController,
    phase: Scalar,
    dt: Scalar,
)
    requires
        is_reading(val),
        c.shifts_for_pitch(),
        ({
            let (pitch, rate) = match c.trim_at(ar, phase) {
                Some(s) => (s.pitch, s.pitch_rate),
                None => (zero(), zero()),
            };
            let p = difference(ar, c.pitch_observed, pitch);
            let w = difference(ar, c.omega_observed_world.y, rate);
            &&& takes(ar, val, c.pitch_observed, pitch)
            &&& takes(ar, val, c.omega_observed_world.y, rate)
            &&& adds_products(
                ar,
                val,
                c.bound_pitch_placement_gain,
                p,
                c.bound_pitch_rate_placement_gain,
                w,
            )
        }),
        takes(ar, val, c.raw_shift(ar, phase), c.slow_shift(ar, phase, dt)),
    ensures
        ({
            let (pitch, rate) = match c.trim_at(ar, phase) {
                Some(s) => (val(s.pitch), val(s.pitch_rate)),
                None => (0real, 0real),
            };
            let raw = times(
                val(c.bound_pitch_placement_gain),
                val(c.pitch_observed) - pitch,
            ) + times(
                val(c.bound_pitch_rate_placement_gain),
                val(c.omega_observed_world.y) - rate,
            );
            &&& val(c.raw_shift(ar, phase)) == raw
            &&& zero().lt_spec(c.bound_pitch_placement_dc_tau) ==> val(
                c.fast_shift(ar, phase, dt),
            ) + val(c.slow_shift(ar, phase, dt)) == raw
            &&& !zero().lt_spec(c.bound_pitch_placement_dc_tau) ==> val(
                c.fast_shift(ar, phase, dt),
            ) == raw
        }),
{
}

/// A smoothed value is drawn from the old one toward the new one and not past it, by the
/// time over the time and the time constant.
pub proof fn smoothing_draws_toward_the_new_value<A: Arithmetic>(
    ar: &A,
    val: spec_fn(Scalar) -> real,
    value: Scalar,
    x: Scalar,
    dt: Scalar,
    tau: Scalar,
)
    requires
        ({
            let alpha = quotient(ar, dt, sum(ar, tau, dt));
            &&& adds(ar, val, tau, dt)
            &&& shares(ar, val, dt, sum(ar, tau, dt))
            &&& !alpha.lt_spec(zero())
            &&& !one().lt_spec(alpha)
            &&& takes(ar, val, x, value)
            &&& adds_product(ar, val, value, alpha, difference(ar, x, value))
        }),
    ensures
        ({
            let r = val(smoothed(ar, value, x, dt, tau));
            times(r - val(value), val(tau) + val(dt)) == times(val(x) - val(value), val(dt))
        }),
{
    let alpha = val(quotient(ar, dt, sum(ar, tau, dt)));
    let d = val(x) - val(value);
    commutes(alpha, d);
    associates(d, alpha, val(tau) + val(dt));
}

/// A pair of footholds is made symmetric about the middle plane: the two lie at one x and
/// one height and opposite each other, and the middle of x and height and the distance
/// across are what they were.
pub proof fn a_pair_is_made_symmetric<A: Arithmetic>(
    ar: &A,
    val: spec_fn(Scalar) -> real,
    l: Vec3,
    r: Vec3,
)
    requires
        is_reading(val),
        val(Scalar { bits: HALF_BITS }) + val(Scalar { bits: HALF_BITS }) == 1real,
        adds(ar, val, l.x, r.x),
        takes(ar, val, l.y, r.y),
        adds(ar, val, l.z, r.z),
        multiplies(ar, val, Scalar { bits: HALF_BITS }, sum(ar, l.x, r.x)),
        multiplies(ar, val, Scalar { bits: HALF_BITS }, difference(ar, l.y, r.y)),
        multiplies(ar, val, Scalar { bits: HALF_BITS }, sum(ar, l.z, r.z)),
    ensures
        ({
            let a = read(val, mirrored_left(ar, l, r));
            let b = read(val, mirrored_right(ar, l, r));
            &&& a.x == b.x && a.z == b.z && a.y + b.y == 0real
            &&& a.x + b.x == val(l.x) + val(r.x)
            &&& a.z + b.z == val(l.z) + val(r.z)
            &&& a.y - b.y == val(l.y) - val(r.y)
        }),
{
    let k = val(Scalar { bits: HALF_BITS });
    two_halves(k, val(l.x) + val(r.x));
    two_halves(k, val(l.y) - val(r.y));
    two_halves(k, val(l.z) + val(r.z));
    let y = mirrored_left(ar, l, r).y;
    assert(val(y.neg_spec()) == -val(y));
}

/// A leg's place in the cycle and its phase tell each other: the phase found at the place
/// of a phase is that phase.
pub proof fn a_place_in_the_cycle_is_a_phase<A: Arithmetic>(
    ar: &A,
    val: spec_fn(Scalar) -> real,
    stance: bool,
    sub: Scalar,
    duty: Scalar,
)
    requires
        is_reading(val),
        val(one()) == 1real,
        0real < val(duty) < 1real,
        0real <= val(sub) < 1real,
        !duty.is_nan_spec(),
        !cycle_phase_of(ar, stance, sub, duty).is_nan_spec(),
        takes(ar, val, one(), duty),
        multiplies(ar, val, sub, duty),
        adds_product(ar, val, duty, sub, difference(ar, one(), duty)),
        shares(ar, val, product(ar, sub, duty), duty),
        ({
            let rest = difference(ar, one(), duty);
            let pos = sum(ar, duty, product(ar, sub, rest));
            &&& takes(ar, val, pos, duty)
            &&& shares(ar, val, difference(ar, pos, duty), rest)
        }),
    ensures
        ({
            let p = phase_at(ar, cycle_phase_of(ar, stance, sub, duty), duty);
            p.stance == stance && p.swing == !stance && val(p.sub) == val(sub)
        }),
{
    let d = val(duty);
    let s = val(sub);
    let pos = cycle_phase_of(ar, stance, sub, duty);
    assert(pos.lt_spec(duty) <==> val(pos) < d);
    let found = val(phase_at(ar, pos, duty).sub);
    if stance {
        one_is_neutral(d);
        commutes(d, 1real);
        subtracts_left(d, 1real, s);
        positive(1real - s, d);
        commutes(d, found);
        commutes(d, s);
        cancels(d, found, s);
    } else {
        not_negative(s, 1real - d);
        commutes(1real - d, found);
        commutes(1real - d, s);
        cancels(1real - d, found, s);
    }
}

/// The trim of a bound is made of the stance: the front feet stand ahead of the middle of the
/// stance by its arm and the rear feet behind it, and the body is above the feet by its height.
pub proof fn a_trim_is_made_of_the_stance<A: Arithmetic>(
    ar: &A,
    val: spec_fn(Scalar) -> real,
    c: FullCentroidalMpcGaitController,
)
    requires
        is_reading(val),
        val(Scalar { bits: HALF_BITS }) + val(Scalar { bits: HALF_BITS }) == 1real,
        c.trim(ar) is Some,
        ({
            let front = c.kin.fl.nominal_foot_body.x;
            let back = c.kin.rl.nominal_foot_body.x.neg_spec();
            &&& adds(ar, val, front, back)
            &&& multiplies(ar, val, Scalar { bits: HALF_BITS }, sum(ar, front, back))
        }),
    ensures
        ({
            let t = c.trim(ar)->0;
            let front = read(val, c.kin.fl.nominal_foot_body);
            let rear = read(val, c.kin.rl.nominal_foot_body);
            &&& val(t.r_x) + val(t.r_x) == front.x - rear.x
            &&& val(t.h0) + front.z == 0real
            &&& t.mass_kg == c.full_centroidal_mpc.cfg.mass_kg
            &&& t.cmd_vx_mps == c.cmd.vx
            &&& t.sign == minus_one()
        }),
{
    let front = c.kin.fl.nominal_foot_body;
    let rear = c.kin.rl.nominal_foot_body.x;
    assert(val(rear.neg_spec()) == -val(rear));
    assert(val(front.z.neg_spec()) == -val(front.z));
    two_halves(val(Scalar { bits: HALF_BITS }), val(front.x) - val(rear));
}

/// The filtered speed is drawn toward the speed that is observed ahead of the heading.
pub proof fn the_filter_follows_the_speed_ahead<A: Arithmetic>(
    ar: &A,
    val: spec_fn(Scalar) -> real,
    c: FullCentroidalMpcGaitController,
    phases: Seq<PhaseState>,
    phase: Scalar,
    dt: Scalar,
    r: FullCentroidalMpcGaitController,
)
    requires
        is_reading(val),
        deterministic(ar),
        c.is_prepared(ar, phases, phase, dt, r),
        ({
            let tau = Scalar { bits: SPEED_TAU_BITS };
            let v = c.v_observed_world;
            let yaw = r.body_state.world_yaw;
            let x = sum(ar, product(ar, cosine(ar, yaw), v.x), product(ar, sine(ar, yaw), v.y));
            let old = c.v_fore_aft_filtered;
            let alpha = quotient(ar, dt, sum(ar, tau, dt));
            &&& turning_back_is_exact(ar, val, v.x, v.y, yaw)
            &&& adds(ar, val, tau, dt)
            &&& shares(ar, val, dt, sum(ar, tau, dt))
            &&& !alpha.lt_spec(zero())
            &&& !one().lt_spec(alpha)
            &&& takes(ar, val, x, old)
            &&& adds_product(ar, val, old, alpha, difference(ar, x, old))
        }),
    ensures
        ({
            let tau = val(Scalar { bits: SPEED_TAU_BITS });
            let v = read(val, c.v_observed_world);
            let seen = ahead(ar, val, r.body_state.world_yaw, v.x, v.y);
            let old = val(c.v_fore_aft_filtered);
            times(val(r.v_fore_aft_filtered) - old, tau + val(dt)) == times(seen - old, val(dt))
        }),
{
    let yaw = r.body_state.world_yaw;
    let x = to_body(ar, c.v_observed_world, yaw).x;
    turning_back_gives_the_parts(ar, val, c.v_observed_world, yaw);
    smoothing_draws_toward_the_new_value(
        ar,
        val,
        c.v_fore_aft_filtered,
        x,
        dt,
        Scalar { bits: SPEED_TAU_BITS },
    );
}

/// A swing aims at the foot that is predicted for its landing: at the step nearest to what is
/// left of the swing.
pub proof fn a_swing_aims_at_its_landing<A: Arithmetic>(
    ar: &A,
    val: spec_fn(Scalar) -> real,
    c: FullCentroidalMpcGaitController,
    leg: LegId,
    sub: Scalar,
    duration: Scalar,
)
    requires
        val(one()) == 1real,
        !sub.lt_spec(zero()),
        !one().lt_spec(sub),
        c.swing_target(ar, leg, sub, duration) is Some,
        ({
            let time = product(ar, difference(ar, one(), sub), duration);
            let dt = c.full_centroidal_mpc.cfg.dt_per_step.max_spec(
                Scalar { bits: LEAST_STEP_BITS },
            );
            &&& takes(ar, val, one(), sub)
            &&& multiplies(ar, val, difference(ar, one(), sub), duration)
            &&& shares(ar, val, time, dt)
        }),
    ensures
        ({
            let time = product(ar, difference(ar, one(), sub), duration);
            let dt = c.full_centroidal_mpc.cfg.dt_per_step.max_spec(
                Scalar { bits: LEAST_STEP_BITS },
            );
            let steps = quotient(ar, time, dt);
            let k = nearest(ar, steps) as int;
            let q = c.last_solution->0.predicted_states@[k].joint_q@;
            let s = 3 * leg.slot();
            &&& times(val(steps), val(dt)) == times(1real - val(sub), val(duration))
            &&& k < c.last_solution->0.predicted_states@.len()
            &&& c.swing_target(ar, leg, sub, duration)->0 == foot_position(
                ar,
                c.kin.of(leg),
                q[s],
                q[s + 1],
                q[s + 2],
            )
        }),
{
}

/// Without a prediction to follow, a foothold is moved by the capture step of the velocity error,
/// and once more over the number of look-ahead steps.
pub proof fn a_foothold_follows_the_capture_step<A: Arithmetic, S: LegModel>(
    ar: &A,
    val: spec_fn(Scalar) -> real,
    model: &S,
    c: FullCentroidalMpcGaitController,
    v_err: Vec3,
)
    requires
        is_reading(val),
        val(one()) == 1real,
        !c.cmd.is_still(),
        !c.use_mpc_predicted_footstep || c.last_solution is None,
        adds(ar, val, zero(), zero()),
        ({
            let x = capture_shift(
                model,
                v_err.x,
                c.k_capture,
                c.k_capture_pulse,
                c.v_capture_deadband,
            );
            let y = capture_shift(
                model,
                v_err.y,
                c.k_capture,
                c.k_capture_pulse,
                c.v_capture_deadband,
            );
            let share = quotient(ar, one(), counted(ar, c.tuning.horizon_steps));
            &&& shares(ar, val, one(), counted(ar, c.tuning.horizon_steps))
            &&& adds_product(ar, val, x, share, x)
            &&& adds_product(ar, val, y, share, y)
        }),
    ensures
        ({
            let r = read(val, c.correction(ar, model, v_err));
            let x = val(
                capture_shift(
                    model,
                    v_err.x,
                    c.k_capture,
                    c.k_capture_pulse,
                    c.v_capture_deadband,
                ),
            );
            let y = val(
                capture_shift(
                    model,
                    v_err.y,
                    c.k_capture,
                    c.k_capture_pulse,
                    c.v_capture_deadband,
                ),
            );
            let n = val(counted(ar, c.tuning.horizon_steps));
            &&& times(r.x, n) == times(x, n + 1real)
            &&& times(r.y, n) == times(y, n + 1real)
            &&& r.z == 0real
        }),
{
    let x = val(
        capture_shift(model, v_err.x, c.k_capture, c.k_capture_pulse, c.v_capture_deadband),
    );
    let y = val(
        capture_shift(model, v_err.y, c.k_capture, c.k_capture_pulse, c.v_capture_deadband),
    );
    let n = val(counted(ar, c.tuning.horizon_steps));
    let share = val(quotient(ar, one(), counted(ar, c.tuning.horizon_steps)));
    once_more(x, share, n);
    once_more(y, share, n);
}

/// A number and a share of it, times what it is a share of.
proof fn once_more(x: real, share: real, n: real)
    requires
        times(share, n) == 1real,
    ensures
        times(x + times(share, x), n) == times(x, n + 1real),
{
    distributes_left(n, x, times(share, x));
    commutes(share, x);
    associates(x, share, n);
    distributes(x, n, 1real);
    one_is_neutral(x);
}

/// The bound on the force of a stance leg that takes up its load is the normal force allowed,
/// by its load weight.
pub proof fn a_bound_rises_with_the_load<A: Arithmetic>(
    ar: &A,
    val: spec_fn(Scalar) -> real,
    c: FullCentroidalMpcGaitController,
    p: StepPhase,
)
    requires
        p.stance,
        c.ramps_bound(),
        ({
            let most = c.full_centroidal_mpc.cfg.max_normal_force;
            &&& zero().lt_spec(most)
            &&& multiplies(ar, val, most, stance_weight(ar, p.sub, c.cfg.transition_fraction))
        }),
    ensures
        val(c.planned_bound(ar, p)) == times(
            val(c.full_centroidal_mpc.cfg.max_normal_force),
            val(stance_weight(ar, p.sub, c.cfg.transition_fraction)),
        ),
{
}

} // verus!
