//! Parts shared by the controllers that feed observations back into the gait.

use vstd::prelude::*;
use crate::arith::{
    cosine, counted, deterministic, norm, product, quotient, sine, sum, vec_norm, Arithmetic,
};
use crate::body_state::{world_x, world_y};
use crate::config::{KinematicsConfig, LegId};
use crate::controller::{foot_jacobian, steady, ControllerOutput, LegModel, LegOutput};
use crate::mpc_solution::MpcSolution;
use crate::scalar::{one, zero, Mat3, Scalar, Vec3};

verus! {

/// Tuning shared by the closed-loop controllers.
#[derive(Clone, Copy, Debug, PartialEq, Eq, Structural)]
pub struct Tuning {
    /// Capture-point gain a new controller starts with (s).
    pub capture_gain_s: Scalar,
    /// Number of steps the foothold feedback looks ahead.
    pub horizon_steps: usize,
    /// Least fraction of the commanded half step that feedback leaves.
    pub min_half_fraction: Scalar,
    /// Force below which a stance foot gets no torque (N).
    pub stance_grf_min: Scalar,
}

/// A body-frame vector turned about z into the world frame.
pub open spec fn to_world<A: Arithmetic>(ar: &A, v: Vec3, yaw: Scalar) -> Vec3 {
    Vec3 { x: world_x(ar, v.x, v.y, yaw), y: world_y(ar, v.x, v.y, yaw), z: v.z }
}

/// A world-frame vector turned about z into the body frame.
pub open spec fn to_body<A: Arithmetic>(ar: &A, v: Vec3, yaw: Scalar) -> Vec3 {
    let s = sine(ar, yaw);
    let c = cosine(ar, yaw);
    Vec3 {
        x: sum(ar, product(ar, c, v.x), product(ar, s, v.y)),
        y: sum(ar, product(ar, s.neg_spec(), v.x), product(ar, c, v.y)),
        z: v.z,
    }
}

/// A body-frame vector turned about z into the world frame.
pub fn body_to_world_horizontal<A: Arithmetic>(ar: &A, v: Vec3, yaw: Scalar) -> (r: Vec3)
    ensures
        deterministic(ar) ==> r == to_world(ar, v, yaw),
        r.z == v.z,
{
    let s = ar.sin(yaw);
    let c = ar.cos(yaw);
    Vec3 {
        x: ar.minus(ar.times(v.x, c), ar.times(v.y, s)),
        y: ar.plus(ar.times(v.x, s), ar.times(v.y, c)),
        z: v.z,
    }
}

/// A world-frame vector turned about z into the body frame.
pub fn world_to_body_horizontal<A: Arithmetic>(ar: &A, v: Vec3, yaw: Scalar) -> (r: Vec3)
    ensures
        deterministic(ar) ==> r == to_body(ar, v, yaw),
        r.z == v.z,
{
    let s = ar.sin(yaw);
    let c = ar.cos(yaw);
    Vec3 {
        x: ar.plus(ar.times(c, v.x), ar.times(s, v.y)),
        y: ar.plus(ar.times(s.neg(), v.x), ar.times(c, v.y)),
        z: v.z,
    }
}

/// A corrected half step along one axis, kept from falling below a fraction of
/// the commanded one.
pub open spec fn kept<A: Arithmetic>(
    ar: &A,
    half: Scalar,
    combined: Scalar,
    fraction: Scalar,
) -> Scalar {
    let least = product(ar, fraction, half);
    if zero().lt_spec(half) && combined.lt_spec(least) {
        least
    } else if half.lt_spec(zero()) && least.lt_spec(combined) {
        least
    } else {
        combined
    }
}

/// A corrected half step along one axis, kept from falling below a fraction of
/// the commanded one.
pub fn keep<A: Arithmetic>(
    ar: &A,
    half: Scalar,
    combined: Scalar,
    fraction: Scalar,
) -> (r: Scalar)
    ensures
        deterministic(ar) ==> r == kept(ar, half, combined, fraction),
{
    let least = ar.times(fraction, half);
    if zero().lt(half) && combined.lt(least) {
        least
    } else if half.lt(zero()) && least.lt(combined) {
        least
    } else {
        combined
    }
}

/// One over the number of look-ahead steps.
pub open spec fn horizon_weight<A: Arithmetic>(ar: &A, steps: usize) -> Scalar {
    quotient(ar, one(), counted(ar, steps))
}

/// Sum of the products of the components.
pub open spec fn dot<A: Arithmetic>(ar: &A, a: Vec3, b: Vec3) -> Scalar {
    sum(
        ar,
        sum(ar, product(ar, a.x, b.x), product(ar, a.y, b.y)),
        product(ar, a.z, b.z),
    )
}

fn dot_of<A: Arithmetic>(ar: &A, a: Vec3, b: Vec3) -> (r: Scalar)
    ensures
        deterministic(ar) ==> r == dot(ar, a, b),
{
    ar.plus(ar.plus(ar.times(a.x, b.x), ar.times(a.y, b.y)), ar.times(a.z, b.z))
}

/// Column `j` of a matrix.
pub open spec fn column(m: Mat3, j: int) -> Vec3 {
    Vec3 { x: m.at(0, j), y: m.at(1, j), z: m.at(2, j) }
}

/// Joint torques that push the foot of a leg with force `f`: the negated
/// transposed Jacobian times the force.
pub open spec fn torques<A: Arithmetic>(ar: &A, j: Mat3, f: Vec3) -> Seq<Scalar> {
    seq![
        dot(ar, column(j, 0), f).neg_spec(),
        dot(ar, column(j, 1), f).neg_spec(),
        dot(ar, column(j, 2), f).neg_spec(),
    ]
}

/// Whether a leg gets a torque: it is in stance and its force is not too small.
pub open spec fn pushes<A: Arithmetic>(
    ar: &A,
    leg: LegOutput,
    force: Vec3,
    least: Scalar,
) -> bool {
    leg.phase.is_stance && !norm(ar, force).lt_spec(least)
}

fn leg_torque<A: Arithmetic, S: LegModel>(
    ar: &A,
    model: &S,
    kin: &KinematicsConfig,
    yaw: Scalar,
    least: Scalar,
    leg: LegId,
    out: &LegOutput,
    force: Vec3,
) -> (r: Option<[Scalar; 3]>)
    ensures
        !out.phase.is_stance ==> r is None,
        deterministic(ar) ==> (r is Some <==> pushes(ar, *out, force, least)),
        deterministic(ar) && steady(model) && r is Some ==> r->0@ == torques(
            ar,
            foot_jacobian(model, kin.of(leg), out.q_hip, out.q_thigh, out.q_calf),
            to_body(ar, force, yaw),
        ),
{
    if !out.phase.is_stance {
        return None;
    }
    if vec_norm(ar, force).lt(least) {
        return None;
    }
    let f = world_to_body_horizontal(ar, force, yaw);
    let j = model.jacobian(kin.leg(leg), out.q_hip, out.q_thigh, out.q_calf);
    let jt = j.transpose();
    let r = [dot_of(ar, jt.x, f).neg(), dot_of(ar, jt.y, f).neg(), dot_of(ar, jt.z, f).neg()];
    proof {
        assert(jt.at(0, 0) == j.at(0, 0) && jt.at(0, 1) == j.at(1, 0) && jt.at(0, 2) == j.at(2, 0));
        assert(jt.at(1, 0) == j.at(0, 1) && jt.at(1, 1) == j.at(1, 1) && jt.at(1, 2) == j.at(2, 1));
        assert(jt.at(2, 0) == j.at(0, 2) && jt.at(2, 1) == j.at(1, 2) && jt.at(2, 2) == j.at(2, 2));
        assert(jt.x == column(j, 0) && jt.y == column(j, 1) && jt.z == column(j, 2));
        if deterministic(ar) {
            assert(r@ =~= torques(ar, j, f));
        }
    }
    Some(r)
}

/// `r` holds the feedforward torques of the stance legs from a solution: none
/// without a solved one, none for a swing leg, none for a negligible force.
pub open spec fn are_stance_torques<A: Arithmetic, S: LegModel>(
    ar: &A,
    model: &S,
    kin: KinematicsConfig,
    yaw: Scalar,
    least: Scalar,
    solution: Option<MpcSolution>,
    output: ControllerOutput,
    r: Seq<Option<[Scalar; 3]>>,
) -> bool {
    &&& solution is None || !solution->0.solved ==> forall|slot: int|
        0 <= slot < 4 ==> #[trigger] r[slot] is None
    &&& forall|slot: int|
        0 <= slot < 4 && !(#[trigger] output.legs@[slot]).phase.is_stance ==> r[slot] is None
    &&& solution is Some && solution->0.solved && deterministic(ar) && steady(model)
        ==> forall|slot: int|
        0 <= slot < 4 ==> {
            let leg = #[trigger] output.legs@[slot];
            let force = solution->0.grfs_first_step@[slot];
            &&& r[slot] is Some <==> pushes(ar, leg, force, least)
            &&& r[slot] is Some ==> r[slot]->0@ == torques(
                ar,
                foot_jacobian(
                    model,
                    kin.of(LegId::at_slot(slot)),
                    leg.q_hip,
                    leg.q_thigh,
                    leg.q_calf,
                ),
                to_body(ar, force, yaw),
            )
        }
}

/// Feedforward torques of the stance legs from a solution: none without a
/// solved one, none for a swing leg, none for a negligible force.
pub fn stance_grf_torques<A: Arithmetic, S: LegModel>(
    ar: &A,
    model: &S,
    kin: &KinematicsConfig,
    yaw: Scalar,
    least: Scalar,
    solution: &Option<MpcSolution>,
    output: &ControllerOutput,
) -> (r: [Option<[Scalar; 3]>; 4])
    ensures
        r@.len() == 4,
        are_stance_torques(ar, model, *kin, yaw, least, *solution, *output, r@),
{
    match solution {
        None => [None, None, None, None],
        Some(sol) => {
            if !sol.solved {
                return [None, None, None, None];
            }
            let f = &sol.grfs_first_step;
            let l = &output.legs;
            let fl = leg_torque(ar, model, kin, yaw, least, LegId::FL, &l[0], f[0]);
            let fr = leg_torque(ar, model, kin, yaw, least, LegId::FR, &l[1], f[1]);
            let rl = leg_torque(ar, model, kin, yaw, least, LegId::RL, &l[2], f[2]);
            let rr = leg_torque(ar, model, kin, yaw, least, LegId::RR, &l[3], f[3]);
            [fl, fr, rl, rr]
        },
    }
}

} // verus!
