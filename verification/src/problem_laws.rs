//! Laws of the posed problems: what the reference, the present state and the constraints that
//! are handed to a solver owe to the command and to the body.
//!
//! Each law is stated for a reading of scalars as real numbers under which the steps
//! that it rests on are exact.

use vstd::prelude::*;
use crate::arith::{
    cosine, counted, deterministic, product, quotient, remainder, sine, Arithmetic,
};
use crate::bound_laws::two_halves;
use crate::bound_orbit_search::{row_of, OrbitSample};
use crate::bound_reference::GRAVITY_BITS;
use crate::config::{LegId, HALF_BITS};
use crate::constraint_laws::{carries, the_legs_carry_the_weight};
use crate::controller::{steady, ControllerOutput, LegModel};
use crate::estimation_laws::row_sum;
use crate::euler::state_step;
use crate::exact::{
    adds, adds_product, ahead, aside, heading_parts, multiplies, read, shares, takes,
};
use crate::full_centroidal_controller::FullCentroidalMpcGaitController;
use crate::full_centroidal_footstep::{interpolated, LEAST_SPAN_BITS};
use crate::full_centroidal_mpc::FullCentroidalContactSchedule;
use crate::full_centroidal_problem::{stance_row, FullCentroidalProblem};
use crate::full_centroidal_qp::{no_slip_rows, swing_right_sides, visit_stance, FootVelocity};
use crate::full_centroidal_reference::weight_sum;
use crate::motion_laws::{following_is_exact, the_reference_follows_the_command};
use crate::reals::{associates, commutes, distributes_left, is_reading, one_is_neutral, times};
use crate::scalar::{one, zero, Scalar};

verus! {

/// The states of a posed reference are the body references of their steps.
pub proof fn the_posed_states_hold_the_reference<A: Arithmetic, S: LegModel>(
    ar: &A,
    model: &S,
    c: FullCentroidalMpcGaitController,
    out: ControllerOutput,
    cycle_phase: Scalar,
    subs: Seq<Seq<Scalar>>,
    p: FullCentroidalProblem,
    k: int,
)
    requires
        deterministic(ar),
        steady(model),
        c.poses(ar, model, out, cycle_phase, subs, p),
        0 <= k < c.full_centroidal_mpc.cfg.horizon_steps,
    ensures
        ({
            let s = p.reference.states@[k];
            let b = c.body_reference(ar, k, c.phase_at_step(ar, p.contact, subs, k));
            &&& s.v_com_world == b.v
            &&& s.angular_velocity_world == b.w
            &&& s.base_pos_world == b.pos
            &&& s.base_euler_zyx == b.euler
        }),
{
    let s = p.reference.states@[k];
    let b = c.body_reference(ar, k, c.phase_at_step(ar, p.contact, subs, k));
    let v = c.state_at(ar, model, out, p.contact, subs, k);
    assert(s@ == v);
    assert(s@[0] == s.v_com_world.x && v[0] == b.v.x);
    assert(s@[1] == s.v_com_world.y && v[1] == b.v.y);
    assert(s@[2] == s.v_com_world.z && v[2] == b.v.z);
    assert(s@[3] == s.angular_velocity_world.x && v[3] == b.w.x);
    assert(s@[4] == s.angular_velocity_world.y && v[4] == b.w.y);
    assert(s@[5] == s.angular_velocity_world.z && v[5] == b.w.z);
    assert(s@[6] == s.base_pos_world.x && v[6] == b.pos.x);
    assert(s@[7] == s.base_pos_world.y && v[7] == b.pos.y);
    assert(s@[8] == s.base_pos_world.z && v[8] == b.pos.z);
    assert(s@[9] == s.base_euler_zyx.x && v[9] == b.euler.x);
    assert(s@[10] == s.base_euler_zyx.y && v[10] == b.euler.y);
    assert(s@[11] == s.base_euler_zyx.z && v[11] == b.euler.z);
}

/// With no table and no trim, every state of a posed reference moves ahead and to the left
/// of the heading at the commanded speeds, and turns at the commanded rate.
pub proof fn the_posed_states_follow_the_command<A: Arithmetic, S: LegModel>(
    ar: &A,
    val: spec_fn(Scalar) -> real,
    model: &S,
    c: FullCentroidalMpcGaitController,
    out: ControllerOutput,
    cycle_phase: Scalar,
    subs: Seq<Seq<Scalar>>,
    p: FullCentroidalProblem,
    k: int,
)
    requires
        is_reading(val),
        deterministic(ar),
        steady(model),
        c.poses(ar, model, out, cycle_phase, subs, p),
        0 <= k < c.full_centroidal_mpc.cfg.horizon_steps,
        c.bound_tabulated_reference is None,
        c.trim_at(ar, c.phase_at_step(ar, p.contact, subs, k)) is None,
        ({
            let dt = c.full_centroidal_mpc.cfg.dt_per_step;
            let n = counted(ar, (k + 1) as usize);
            let x = c.body_state.world_position;
            &&& val(n) == (k + 1) as real
            &&& multiplies(ar, val, n, dt)
            &&& following_is_exact(ar, val, x, c.body_state.world_yaw, c.cmd, product(ar, n, dt))
            &&& adds_product(ar, val, x.z, zero(), product(ar, n, dt))
        }),
    ensures
        ({
            let yaw = c.body_state.world_yaw;
            let s = p.reference.states@[k];
            let v = read(val, s.v_com_world);
            let from = read(val, c.body_state.world_position);
            let to = read(val, s.base_pos_world);
            let t = times((k + 1) as real, val(c.full_centroidal_mpc.cfg.dt_per_step));
            &&& ahead(ar, val, yaw, v.x, v.y) == val(c.cmd.vx)
            &&& aside(ar, val, yaw, v.x, v.y) == val(c.cmd.vy)
            &&& v.z == 0real
            &&& s.angular_velocity_world.z == c.cmd.wz
            &&& to.x - from.x == times(v.x, t)
            &&& to.y - from.y == times(v.y, t)
            &&& to.z == from.z
            &&& val(s.base_euler_zyx.z) - val(yaw) == times(val(c.cmd.wz), t)
        }),
{
    the_posed_states_hold_the_reference(ar, model, c, out, cycle_phase, subs, p, k);
    the_reference_follows_the_command(
        ar,
        val,
        c,
        k,
        c.phase_at_step(ar, p.contact, subs, k),
    );
}

/// A trim pitches the reference and, when asked to, lets it bounce; ahead and to the left of
/// the heading it still moves at the commanded speeds.
pub proof fn a_trim_pitches_the_reference<A: Arithmetic>(
    ar: &A,
    val: spec_fn(Scalar) -> real,
    c: FullCentroidalMpcGaitController,
    k: int,
    phase: Scalar,
)
    requires
        is_reading(val),
        c.bound_tabulated_reference is None,
        c.trim_at(ar, phase) is Some,
        following_is_exact(
            ar,
            val,
            c.body_state.world_position,
            c.body_state.world_yaw,
            c.cmd,
            product(ar, counted(ar, (k + 1) as usize), c.full_centroidal_mpc.cfg.dt_per_step),
        ),
    ensures
        ({
            let yaw = c.body_state.world_yaw;
            let r = c.body_reference(ar, k, phase);
            let s = c.trim_at(ar, phase)->0;
            let v = read(val, r.v);
            let from = read(val, c.body_state.world_position);
            let to = read(val, r.pos);
            let t = val(
                product(ar, counted(ar, (k + 1) as usize), c.full_centroidal_mpc.cfg.dt_per_step),
            );
            &&& ahead(ar, val, yaw, v.x, v.y) == val(c.cmd.vx)
            &&& aside(ar, val, yaw, v.x, v.y) == val(c.cmd.vy)
            &&& to.x - from.x == times(v.x, t)
            &&& to.y - from.y == times(v.y, t)
            &&& val(r.euler.z) - val(yaw) == times(val(c.cmd.wz), t)
            &&& r.euler.y == s.pitch
            &&& r.euler.x == zero()
            &&& r.w.z == c.cmd.wz
            &&& r.v.z == (if c.shaping.trim_vertical_reference {
                s.com_z_velocity
            } else {
                zero()
            })
        }),
{
    let yaw = c.body_state.world_yaw;
    heading_parts(
        val(cosine(ar, yaw)),
        val(sine(ar, yaw)),
        val(c.cmd.vx),
        val(c.cmd.vy),
    );
}

/// A tabulated orbit is tracked column by column: what stands in a row for the height, the
/// pitch, the two velocities and the pitch rate of a point becomes those of the reference.
pub proof fn a_tabulated_orbit_is_tracked<A: Arithmetic>(
    ar: &A,
    c: FullCentroidalMpcGaitController,
    k: int,
    phase: Scalar,
    s: OrbitSample,
)
    requires
        c.bound_tabulated_reference is Some,
    ensures
        ({
            let table = c.bound_tabulated_reference->0@;
            let ph = remainder(ar, phase, one());
            let r = c.body_reference(ar, k, phase);
            let row = row_of(s);
            &&& r.pos.z == interpolated(ar, table, ph, 1) && row[1] == s.z
            &&& r.euler.y == interpolated(ar, table, ph, 2) && row[2] == s.pitch
            &&& r.v.x == interpolated(ar, table, ph, 3) && row[3] == s.vx
            &&& r.v.z == interpolated(ar, table, ph, 4) && row[4] == s.vz
            &&& r.w.y == interpolated(ar, table, ph, 5) && row[5] == s.w
            &&& row[0] == s.phase
            &&& r.w.z == c.cmd.wz
        }),
{
}

/// The forces of a posed reference carry the weight: without a trim, the vertical forces of
/// the four legs at a step add up to the mass times gravity.
pub proof fn the_posed_forces_carry_the_weight<A: Arithmetic, S: LegModel>(
    ar: &A,
    val: spec_fn(Scalar) -> real,
    model: &S,
    c: FullCentroidalMpcGaitController,
    out: ControllerOutput,
    cycle_phase: Scalar,
    subs: Seq<Seq<Scalar>>,
    p: FullCentroidalProblem,
    k: int,
)
    requires
        is_reading(val),
        deterministic(ar),
        c.poses(ar, model, out, cycle_phase, subs, p),
        0 <= k < c.full_centroidal_mpc.cfg.horizon_steps,
        c.trim_at(ar, c.phase_at_step(ar, p.contact, subs, k)) is None,
        multiplies(ar, val, c.full_centroidal_mpc.cfg.mass_kg, Scalar { bits: GRAVITY_BITS }),
        ({
            let stance = stance_row(p.contact, k);
            let w = c.weights_at(ar, p.contact, subs, k);
            let total = weight_sum(ar, stance, w, 4);
            let mg = product(
                ar,
                c.full_centroidal_mpc.cfg.mass_kg,
                Scalar { bits: GRAVITY_BITS },
            );
            let unit = quotient(ar, mg, total);
            &&& forall|n: int|
                0 <= n < 4 && #[trigger] stance[n] ==> adds(
                    ar,
                    val,
                    weight_sum(ar, stance, w, n),
                    w[n],
                )
            &&& (Scalar { bits: LEAST_SPAN_BITS }).lt_spec(total)
            &&& shares(ar, val, mg, total)
            &&& multiplies(ar, val, w[0], unit)
            &&& multiplies(ar, val, w[1], unit)
            &&& multiplies(ar, val, w[2], unit)
            &&& multiplies(ar, val, w[3], unit)
        }),
    ensures
        ({
            let f = p.reference.inputs@[k].grfs_world@;
            val(f[0].z) + val(f[1].z) + val(f[2].z) + val(f[3].z) == times(
                val(c.full_centroidal_mpc.cfg.mass_kg),
                val(Scalar { bits: GRAVITY_BITS }),
            )
        }),
{
    let stance = stance_row(p.contact, k);
    let w = c.weights_at(ar, p.contact, subs, k);
    let f = c.force_shaping(ar, c.phase_at_step(ar, p.contact, subs, k));
    let g = p.reference.inputs@[k].grfs_world@;
    let total = weight_sum(ar, stance, w, 4);
    the_legs_carry_the_weight(ar, val, f, stance, w);
    assert(g[0] == c.force_at(ar, p.contact, subs, k, 0));
    assert(g[1] == c.force_at(ar, p.contact, subs, k, 1));
    assert(g[2] == c.force_at(ar, p.contact, subs, k, 2));
    assert(g[3] == c.force_at(ar, p.contact, subs, k, 3));
    assert(stance[0] == p.contact.stance(0, k) && stance[1] == p.contact.stance(1, k));
    assert(stance[2] == p.contact.stance(2, k) && stance[3] == p.contact.stance(3, k));
    assert(val(g[0].z) == carries(ar, val, f, stance, w, total, 0));
    assert(val(g[1].z) == carries(ar, val, f, stance, w, total, 1));
    assert(val(g[2].z) == carries(ar, val, f, stance, w, total, 2));
    assert(val(g[3].z) == carries(ar, val, f, stance, w, total, 3));
}

/// A problem is posed from what is observed: velocities, place and heading of the body, level,
/// and the joints of the output.
pub proof fn a_problem_is_posed_from_what_is_observed<A: Arithmetic, S: LegModel>(
    ar: &A,
    model: &S,
    c: FullCentroidalMpcGaitController,
    out: ControllerOutput,
    cycle_phase: Scalar,
    subs: Seq<Seq<Scalar>>,
    p: FullCentroidalProblem,
    slot: int,
)
    requires
        c.poses(ar, model, out, cycle_phase, subs, p),
        0 <= slot < 4,
    ensures
        ({
            let s = p.state_now;
            let l = out.legs@[slot];
            &&& s.v_com_world == c.v_observed_world
            &&& s.angular_velocity_world == c.omega_observed_world
            &&& s.base_pos_world == c.body_state.world_position
            &&& s.base_euler_zyx.x == zero() && s.base_euler_zyx.y == zero()
            &&& s.base_euler_zyx.z == c.body_state.world_yaw
            &&& s.joint_q@[3 * slot] == l.q_hip
            &&& s.joint_q@[3 * slot + 1] == l.q_thigh
            &&& s.joint_q@[3 * slot + 2] == l.q_calf
        }),
{
    let s = p.state_now;
    let v = c.present(out);
    assert(s@ == v);
    assert(s@[0] == s.v_com_world.x && v[0] == c.v_observed_world.x);
    assert(s@[1] == s.v_com_world.y && v[1] == c.v_observed_world.y);
    assert(s@[2] == s.v_com_world.z && v[2] == c.v_observed_world.z);
    assert(s@[3] == s.angular_velocity_world.x && v[3] == c.omega_observed_world.x);
    assert(s@[4] == s.angular_velocity_world.y && v[4] == c.omega_observed_world.y);
    assert(s@[5] == s.angular_velocity_world.z && v[5] == c.omega_observed_world.z);
    assert(s@[6] == s.base_pos_world.x && v[6] == c.body_state.world_position.x);
    assert(s@[7] == s.base_pos_world.y && v[7] == c.body_state.world_position.y);
    assert(s@[8] == s.base_pos_world.z && v[8] == c.body_state.world_position.z);
    assert(s@[9] == s.base_euler_zyx.x && v[9] == zero());
    assert(s@[10] == s.base_euler_zyx.y && v[10] == zero());
    assert(s@[11] == s.base_euler_zyx.z && v[11] == c.body_state.world_yaw);
    let j = 12 + 3 * slot;
    assert(s@[j] == s.joint_q@[3 * slot]);
    assert(s@[j + 1] == s.joint_q@[3 * slot + 1]);
    assert(s@[j + 2] == s.joint_q@[3 * slot + 2]);
    assert(slot == 0 || slot == 1 || slot == 2 || slot == 3);
}

/// A step of a linear system goes on from the state by its rate times the time: an entry of
/// the step is that of the identity and the entry of the rate times the time.
pub proof fn a_step_goes_on_from_the_state<A: Arithmetic>(
    ar: &A,
    val: spec_fn(Scalar) -> real,
    a: Scalar,
    dt: Scalar,
    i: int,
    j: int,
    x: real,
)
    requires
        is_reading(val),
        val(one()) == 1real,
        multiplies(ar, val, a, dt),
        adds(ar, val, one(), product(ar, a, dt)),
        adds(ar, val, zero(), product(ar, a, dt)),
    ensures
        times(val(state_step(ar, a, dt, i, j)), x) == (if i == j {
            x
        } else {
            0real
        }) + times(times(val(a), x), val(dt)),
{
    let s = times(val(a), val(dt));
    one_is_neutral(x);
    commutes(1real, x);
    distributes_left(x, 1real, s);
    associates(val(a), val(dt), x);
    associates(val(a), x, val(dt));
    commutes(val(dt), x);
}

/// A stance foot is asked not to slip: inputs meet its rows where the velocity that they give
/// it and the one that it has without them cancel.
pub proof fn a_stance_foot_is_asked_not_to_slip(
    val: spec_fn(Scalar) -> real,
    contact: FullCentroidalContactSchedule,
    feet: Seq<FootVelocity>,
    width: int,
    v: int,
    ax: int,
    u: Seq<Scalar>,
)
    requires
        is_reading(val),
        visit_stance(contact, v),
        0 <= ax < 3,
    ensures
        ({
            let r = no_slip_rows(contact, feet, width, v)[ax];
            let given = row_sum(val, r.coef, u, width);
            given == val(r.rhs) <==> given + val(feet[v].drift@[ax]) == 0real
        }),
{
    let d = feet[v].drift@[ax];
    assert(val(d.neg_spec()) == -val(d));
}

/// A swing foot is asked to rise as planned: its right side and the velocity that it has
/// without inputs make up the planned one.
pub proof fn a_swing_foot_is_asked_to_rise_as_planned<A: Arithmetic>(
    ar: &A,
    val: spec_fn(Scalar) -> real,
    contact: FullCentroidalContactSchedule,
    feet: Seq<FootVelocity>,
    n: int,
    v: int,
)
    requires
        0 <= v < 4 * n,
        !visit_stance(contact, v),
        takes(ar, val, contact.swing_z_velocity@[v % 4]@[v / 4], feet[v].drift@[2]),
    ensures
        val(swing_right_sides(ar, contact, feet, n)[v]) + val(feet[v].drift@[2]) == val(
            contact.swing_z_velocity@[v % 4]@[v / 4],
        ),
{
}

/// The longest half step is half of the longest step, for a rear leg times the scale of the
/// rear steps.
pub proof fn a_rear_step_has_its_own_length<A: Arithmetic>(
    ar: &A,
    val: spec_fn(Scalar) -> real,
    c: FullCentroidalMpcGaitController,
    leg: LegId,
)
    requires
        is_reading(val),
        val(one()) == 1real,
        val(Scalar { bits: HALF_BITS }) + val(Scalar { bits: HALF_BITS }) == 1real,
        !c.shaping.rear_step_scale.lt_spec(zero()),
        !c.shaping.rear_step_scale.is_nan_spec(),
        ({
            let half = product(ar, Scalar { bits: HALF_BITS }, c.cfg.max_step_length_m);
            &&& multiplies(ar, val, Scalar { bits: HALF_BITS }, c.cfg.max_step_length_m)
            &&& multiplies(ar, val, half, one())
            &&& multiplies(ar, val, half, c.shaping.rear_step_scale)
        }),
    ensures
        ({
            let h = val(c.longest_half(ar, leg));
            let all = val(c.cfg.max_step_length_m);
            h + h == (if leg == LegId::RL || leg == LegId::RR {
                times(all, val(c.shaping.rear_step_scale))
            } else {
                all
            })
        }),
{
    let k = val(Scalar { bits: HALF_BITS });
    let all = val(c.cfg.max_step_length_m);
    let s = val(c.shaping.rear_step_scale);
    two_halves(k, all);
    one_is_neutral(times(k, all));
    distributes_left(s, times(k, all), times(k, all));
    assert(c.shaping.rear_step_scale.max_spec(zero()) == c.shaping.rear_step_scale || val(
        c.shaping.rear_step_scale.max_spec(zero()),
    ) == s);
}

} // verus!
