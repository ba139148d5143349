//! Blocks of the dynamics linearised about a state and an input.
//!
//! Roll and pitch are taken as small, so that the orientation enters through the
//! yaw alone.

use vstd::prelude::*;
use crate::arith::{
    cosine, cross, deterministic, quotient, sine, vec_cross, vec_difference, vec_minus,
    vec_plus, vec_sum, Arithmetic,
};
use crate::centroidal_mpc::CentroidalMpcConfig;
use crate::config::LegId;
use crate::controller::{foot_jacobian, steady, LegModel};
use crate::dynamics::{
    compute_foot_positions_world, feet_world, inverted, settled, turned, BodyAlgebra,
    LEAST_MASS_BITS,
};
use crate::full_centroidal_mpc::{
    FullCentroidalInput, FullCentroidalMpcConfig, FullCentroidalState,
};
use crate::ik::{foot_position, forward_leg_kinematics};
use crate::leg_odometry::{mat_times, mat_times_of, row_times, row_times_of};
use crate::scalar::{one, skew_3, yaw_rotation, zero, Mat3, Scalar, Vec3};

verus! {

/// Blocks of the full dynamics at one step.
#[derive(Debug)]
pub struct LinearBlocks {
    /// One over the mass.
    pub inv_mass: Scalar,
    /// Angular acceleration per foot force, one per foot.
    pub force_blocks: [Mat3; 4],
    /// Angular acceleration per joint angle, one per leg.
    pub joint_blocks: [Mat3; 4],
    /// Angular acceleration per orientation angle.
    pub euler_block: Mat3,
    /// Rate of the orientation angles per angular velocity.
    pub rz_t: Mat3,
}

/// Blocks of the body dynamics at one step.
#[derive(Debug)]
pub struct BodyBlocks {
    /// One over the mass.
    pub inv_mass: Scalar,
    /// Angular acceleration per foot force, one per foot.
    pub force_blocks: [Mat3; 4],
    /// Rate of the orientation angles per angular velocity.
    pub rz_t: Mat3,
}

/// A row times a matrix.
pub open spec fn row_product<A: Arithmetic>(ar: &A, r: Vec3, m: Mat3) -> Vec3 {
    let t = m.transposed();
    Vec3 { x: row_times(ar, r, t.x), y: row_times(ar, r, t.y), z: row_times(ar, r, t.z) }
}

/// A matrix times a matrix.
pub open spec fn mat_product<A: Arithmetic>(ar: &A, a: Mat3, b: Mat3) -> Mat3 {
    Mat3 { x: row_product(ar, a.x, b), y: row_product(ar, a.y, b), z: row_product(ar, a.z, b) }
}

/// A matrix less a matrix.
pub open spec fn mat_difference<A: Arithmetic>(ar: &A, a: Mat3, b: Mat3) -> Mat3 {
    Mat3 {
        x: vec_difference(ar, a.x, b.x),
        y: vec_difference(ar, a.y, b.y),
        z: vec_difference(ar, a.z, b.z),
    }
}

/// A vector with its sign changed.
pub open spec fn vec_negated(v: Vec3) -> Vec3 {
    Vec3 { x: v.x.neg_spec(), y: v.y.neg_spec(), z: v.z.neg_spec() }
}

/// A matrix with its sign changed.
pub open spec fn mat_negated(m: Mat3) -> Mat3 {
    Mat3 { x: vec_negated(m.x), y: vec_negated(m.y), z: vec_negated(m.z) }
}

/// The matrix with the given columns.
pub open spec fn with_columns(a: Vec3, b: Vec3, c: Vec3) -> Mat3 {
    (Mat3 { x: a, y: b, z: c }).transposed()
}

/// The unit vector along an axis.
pub open spec fn basis(k: int) -> Vec3 {
    Vec3 {
        x: if k == 0 { one() } else { zero() },
        y: if k == 1 { one() } else { zero() },
        z: if k == 2 { one() } else { zero() },
    }
}

/// The rotation by a yaw.
pub open spec fn yaw_frame<A: Arithmetic>(ar: &A, psi: Scalar) -> Mat3 {
    yaw_rotation(sine(ar, psi), cosine(ar, psi))
}

/// One over a mass, with a floor under the mass.
pub open spec fn inverse_mass<A: Arithmetic>(ar: &A, mass: Scalar) -> Scalar {
    quotient(ar, one(), mass.max_spec(Scalar { bits: LEAST_MASS_BITS }))
}

/// The inverse of an inertia turned by a yaw.
pub open spec fn inverse_inertia<A: Arithmetic, B: BodyAlgebra>(
    ar: &A,
    ba: &B,
    body: Mat3,
    psi: Scalar,
) -> Mat3 {
    inverted(ba, turned(ba, yaw_frame(ar, psi), body))
}

/// Angular acceleration per force at an arm.
pub open spec fn force_block<A: Arithmetic>(ar: &A, inv: Mat3, arm: Vec3) -> Mat3 {
    mat_product(ar, inv, skew_3(arm))
}

/// Angular acceleration per joint angle of a leg under a force.
pub open spec fn joint_block<A: Arithmetic>(ar: &A, inv: Mat3, f: Vec3, rz: Mat3, j: Mat3) -> Mat3 {
    mat_product(ar, mat_product(ar, mat_product(ar, mat_negated(inv), skew_3(f)), rz), j)
}

/// Torque of the stance feet among the first `n` about a point.
pub open spec fn stance_torque<A: Arithmetic>(
    ar: &A,
    feet: Seq<Vec3>,
    f: Seq<Vec3>,
    about: Vec3,
    stance: Seq<bool>,
    n: int,
) -> Vec3
    decreases n,
{
    if n <= 0 {
        Vec3::zeros()
    } else if stance[n - 1] {
        vec_sum(
            ar,
            stance_torque(ar, feet, f, about, stance, n - 1),
            cross(ar, vec_difference(ar, feet[n - 1], about), f[n - 1]),
        )
    } else {
        stance_torque(ar, feet, f, about, stance, n - 1)
    }
}

/// Change of that torque as the body tilts about axis `k`, the arms given in the
/// body frame.
pub open spec fn tilt_torque<A: Arithmetic>(
    ar: &A,
    rz: Mat3,
    arms: Seq<Vec3>,
    f: Seq<Vec3>,
    stance: Seq<bool>,
    k: int,
    n: int,
) -> Vec3
    decreases n,
{
    if n <= 0 {
        Vec3::zeros()
    } else if stance[n - 1] {
        vec_sum(
            ar,
            tilt_torque(ar, rz, arms, f, stance, k, n - 1),
            cross(
                ar,
                mat_times(ar, mat_product(ar, rz, skew_3(basis(k))), arms[n - 1]),
                f[n - 1],
            ),
        )
    } else {
        tilt_torque(ar, rz, arms, f, stance, k, n - 1)
    }
}

/// Angular acceleration per angle about axis `k`: through the torque, and
/// through the inertia that turns with the body.
pub open spec fn tilt_column<A: Arithmetic>(
    ar: &A,
    rz: Mat3,
    inv: Mat3,
    body: Mat3,
    tilt: Vec3,
    inv_tau: Vec3,
    k: int,
) -> Vec3 {
    let e = skew_3(basis(k));
    let commutator = mat_difference(ar, mat_product(ar, e, body), mat_product(ar, body, e));
    let turn = mat_product(ar, mat_product(ar, rz, commutator), rz.transposed());
    vec_sum(
        ar,
        mat_times(ar, inv, tilt),
        mat_times(ar, mat_product(ar, mat_negated(inv), turn), inv_tau),
    )
}

/// Foot of a leg in the body frame at the joint angles of a state.
pub open spec fn leg_point<A: Arithmetic>(
    ar: &A,
    cfg: FullCentroidalMpcConfig,
    s: FullCentroidalState,
    slot: int,
) -> Vec3 {
    let q = s.joint_q@;
    foot_position(
        ar,
        cfg.kinematics.of(LegId::at_slot(slot)),
        q[3 * slot],
        q[3 * slot + 1],
        q[3 * slot + 2],
    )
}

/// Jacobian of that foot.
pub open spec fn leg_jacobian<S: LegModel>(
    model: &S,
    cfg: FullCentroidalMpcConfig,
    s: FullCentroidalState,
    slot: int,
) -> Mat3 {
    let q = s.joint_q@;
    foot_jacobian(
        model,
        cfg.kinematics.of(LegId::at_slot(slot)),
        q[3 * slot],
        q[3 * slot + 1],
        q[3 * slot + 2],
    )
}

/// Feet relative to the centre of mass, body frame.
pub open spec fn leg_arms<A: Arithmetic>(
    ar: &A,
    cfg: FullCentroidalMpcConfig,
    s: FullCentroidalState,
) -> Seq<Vec3> {
    Seq::new(
        4,
        |slot: int| vec_difference(ar, leg_point(ar, cfg, s, slot), cfg.com_offset_body),
    )
}

/// `bl` are the blocks about a state and an input with the given feet in stance, for
/// a base turned by the yaw `psi`.
pub open spec fn is_linearised<A: Arithmetic, K: LegModel + BodyAlgebra>(
    ar: &A,
    kernel: &K,
    cfg: FullCentroidalMpcConfig,
    s: FullCentroidalState,
    u: FullCentroidalInput,
    stance: Seq<bool>,
    psi: Scalar,
    bl: LinearBlocks,
) -> bool {
    let rz = yaw_frame(ar, psi);
    let inv = inverse_inertia(ar, kernel, cfg.centroidal_inertia_body, psi);
    let com = vec_sum(ar, s.base_pos_world, mat_times(ar, rz, cfg.com_offset_body));
    let feet = feet_world(ar, kernel, s, cfg);
    let f = u.grfs_world@;
    let arms = leg_arms(ar, cfg, s);
    let inv_tau = mat_times(ar, inv, stance_torque(ar, feet, f, com, stance, 4));
    &&& bl.inv_mass == inverse_mass(ar, cfg.mass_kg)
    &&& bl.rz_t == rz.transposed()
    &&& forall|slot: int|
        0 <= slot < 4 ==> #[trigger] bl.force_blocks@[slot] == force_block(
            ar,
            inv,
            vec_difference(ar, feet[slot], com),
        )
    &&& forall|slot: int|
        0 <= slot < 4 ==> #[trigger] bl.joint_blocks@[slot] == joint_block(
            ar,
            inv,
            f[slot],
            rz,
            leg_jacobian(kernel, cfg, s, slot),
        )
    &&& bl.euler_block == with_columns(
        tilt_column(
            ar,
            rz,
            inv,
            cfg.centroidal_inertia_body,
            tilt_torque(ar, rz, arms, f, stance, 0, 4),
            inv_tau,
            0,
        ),
        tilt_column(
            ar,
            rz,
            inv,
            cfg.centroidal_inertia_body,
            tilt_torque(ar, rz, arms, f, stance, 1, 4),
            inv_tau,
            1,
        ),
        tilt_column(
            ar,
            rz,
            inv,
            cfg.centroidal_inertia_body,
            tilt_torque(ar, rz, arms, f, stance, 2, 4),
            inv_tau,
            2,
        ),
    )
}

fn row_product_of<A: Arithmetic>(ar: &A, r: Vec3, m: &Mat3) -> (p: Vec3)
    ensures
        deterministic(ar) ==> p == row_product(ar, r, *m),
{
    let t = m.transpose();
    Vec3::new(row_times_of(ar, r, t.x), row_times_of(ar, r, t.y), row_times_of(ar, r, t.z))
}

/// A matrix times a matrix.
pub fn mat_product_of<A: Arithmetic>(ar: &A, a: &Mat3, b: &Mat3) -> (r: Mat3)
    ensures
        deterministic(ar) ==> r == mat_product(ar, *a, *b),
{
    Mat3 {
        x: row_product_of(ar, a.x, b),
        y: row_product_of(ar, a.y, b),
        z: row_product_of(ar, a.z, b),
    }
}

fn mat_negated_of(m: &Mat3) -> (r: Mat3)
    ensures
        r == mat_negated(*m),
{
    Mat3 {
        x: Vec3::new(m.x.x.neg(), m.x.y.neg(), m.x.z.neg()),
        y: Vec3::new(m.y.x.neg(), m.y.y.neg(), m.y.z.neg()),
        z: Vec3::new(m.z.x.neg(), m.z.y.neg(), m.z.z.neg()),
    }
}

/// The rotation by a yaw.
pub fn yaw_frame_of<A: Arithmetic>(ar: &A, psi: Scalar) -> (r: Mat3)
    ensures
        deterministic(ar) ==> r == yaw_frame(ar, psi),
{
    let s = ar.sin(psi);
    let c = ar.cos(psi);
    yaw_rotation(s, c)
}

fn basis_of(k: usize) -> (r: Vec3)
    ensures
        r == basis(k as int),
{
    let x = if k == 0 { one() } else { zero() };
    let y = if k == 1 { one() } else { zero() };
    let z = if k == 2 { one() } else { zero() };
    Vec3::new(x, y, z)
}

fn inverse_mass_of<A: Arithmetic>(ar: &A, mass: Scalar) -> (r: Scalar)
    ensures
        deterministic(ar) ==> r == inverse_mass(ar, mass),
{
    ar.over(one(), mass.max(Scalar { bits: LEAST_MASS_BITS }))
}

fn inverse_inertia_of<B: BodyAlgebra>(ba: &B, body: &Mat3, rz: &Mat3) -> (r: Mat3)
    ensures
        settled(ba) ==> r == inverted(ba, turned(ba, *rz, *body)),
{
    let world = ba.world_inertia(rz, body);
    ba.inverse_or_identity(&world)
}

fn force_block_of<A: Arithmetic>(ar: &A, inv: &Mat3, arm: Vec3) -> (r: Mat3)
    ensures
        deterministic(ar) ==> r == force_block(ar, *inv, arm),
{
    mat_product_of(ar, inv, &skew_3(arm))
}

fn joint_block_of<A: Arithmetic>(ar: &A, inv: &Mat3, f: Vec3, rz: &Mat3, j: &Mat3) -> (r: Mat3)
    ensures
        deterministic(ar) ==> r == joint_block(ar, *inv, f, *rz, *j),
{
    let a = mat_product_of(ar, &mat_negated_of(inv), &skew_3(f));
    let b = mat_product_of(ar, &a, rz);
    mat_product_of(ar, &b, j)
}

fn stance_torque_of<A: Arithmetic>(
    ar: &A,
    feet: &[Vec3; 4],
    f: &[Vec3; 4],
    about: Vec3,
    stance: &[bool; 4],
) -> (r: Vec3)
    ensures
        deterministic(ar) ==> r == stance_torque(ar, feet@, f@, about, stance@, 4),
{
    let mut t = Vec3::zeros();
    let mut i: usize = 0;
    while i < 4
        invariant
            i <= 4,
            deterministic(ar) ==> t == stance_torque(ar, feet@, f@, about, stance@, i as int),
        decreases 4 - i,
    {
        if stance[i] {
            t = vec_plus(ar, t, vec_cross(ar, vec_minus(ar, feet[i], about), f[i]));
        }
        i += 1;
    }
    t
}

fn tilt_torque_of<A: Arithmetic>(
    ar: &A,
    rz: &Mat3,
    arms: &[Vec3; 4],
    f: &[Vec3; 4],
    stance: &[bool; 4],
    k: usize,
) -> (r: Vec3)
    ensures
        deterministic(ar) ==> r == tilt_torque(ar, *rz, arms@, f@, stance@, k as int, 4),
{
    let turn = mat_product_of(ar, rz, &skew_3(basis_of(k)));
    let mut t = Vec3::zeros();
    let mut i: usize = 0;
    while i < 4
        invariant
            i <= 4,
            deterministic(ar) ==> turn == mat_product(ar, *rz, skew_3(basis(k as int))),
            deterministic(ar) ==> t == tilt_torque(
                ar,
                *rz,
                arms@,
                f@,
                stance@,
                k as int,
                i as int,
            ),
        decreases 4 - i,
    {
        if stance[i] {
            t = vec_plus(ar, t, vec_cross(ar, mat_times_of(ar, &turn, arms[i]), f[i]));
        }
        i += 1;
    }
    t
}

fn tilt_column_of<A: Arithmetic>(
    ar: &A,
    rz: &Mat3,
    inv: &Mat3,
    body: &Mat3,
    tilt: Vec3,
    inv_tau: Vec3,
    k: usize,
) -> (r: Vec3)
    ensures
        deterministic(ar) ==> r == tilt_column(ar, *rz, *inv, *body, tilt, inv_tau, k as int),
{
    let e = skew_3(basis_of(k));
    let eb = mat_product_of(ar, &e, body);
    let be = mat_product_of(ar, body, &e);
    let commutator = Mat3 {
        x: vec_minus(ar, eb.x, be.x),
        y: vec_minus(ar, eb.y, be.y),
        z: vec_minus(ar, eb.z, be.z),
    };
    let turned = mat_product_of(ar, rz, &commutator);
    let turn = mat_product_of(ar, &turned, &rz.transpose());
    let through = mat_product_of(ar, &mat_negated_of(inv), &turn);
    vec_plus(ar, mat_times_of(ar, inv, tilt), mat_times_of(ar, &through, inv_tau))
}

/// Foot of a leg in the body frame and its Jacobian, at the joint angles of a
/// state.
pub fn leg_pose<A: Arithmetic, S: LegModel>(
    ar: &A,
    model: &S,
    cfg: &FullCentroidalMpcConfig,
    s: &FullCentroidalState,
    leg: LegId,
    slot: usize,
) -> (r: (Vec3, Mat3))
    requires
        slot < 4,
        leg == LegId::at_slot(slot as int),
    ensures
        deterministic(ar) ==> r.0 == leg_point(ar, *cfg, *s, slot as int),
        steady(model) ==> r.1 == leg_jacobian(model, *cfg, *s, slot as int),
{
    let q = s.leg_joint_q(slot);
    assert(q@[0] == s.joint_q@[3 * slot]);
    assert(q@[1] == s.joint_q@[3 * slot + 1]);
    assert(q@[2] == s.joint_q@[3 * slot + 2]);
    let kin = cfg.kinematics.leg(leg);
    (forward_leg_kinematics(ar, kin, q[0], q[1], q[2]), model.jacobian(kin, q[0], q[1], q[2]))
}

/// The blocks about a state and an input with the given feet in stance, for a base
/// turned by the yaw `psi_ref`.
pub fn linear_blocks<A: Arithmetic, K: LegModel + BodyAlgebra>(
    ar: &A,
    kernel: &K,
    cfg: &FullCentroidalMpcConfig,
    s: &FullCentroidalState,
    u: &FullCentroidalInput,
    stance: &[bool; 4],
    psi_ref: Scalar,
) -> (r: LinearBlocks)
    ensures
        deterministic(ar) && steady(kernel) && settled(kernel) ==> is_linearised(
            ar,
            kernel,
            *cfg,
            *s,
            *u,
            stance@,
            psi_ref,
            r,
        ),
{
    let rz = yaw_frame_of(ar, psi_ref);
    let inv = inverse_inertia_of(kernel, &cfg.centroidal_inertia_body, &rz);
    let com = vec_plus(ar, s.base_pos_world, mat_times_of(ar, &rz, cfg.com_offset_body));
    let feet = compute_foot_positions_world(ar, kernel, s, cfg);
    let f = &u.grfs_world;
    let fl = leg_pose(ar, kernel, cfg, s, LegId::FL, 0);
    let fr = leg_pose(ar, kernel, cfg, s, LegId::FR, 1);
    let rl = leg_pose(ar, kernel, cfg, s, LegId::RL, 2);
    let rr = leg_pose(ar, kernel, cfg, s, LegId::RR, 3);
    let arms = [
        vec_minus(ar, fl.0, cfg.com_offset_body),
        vec_minus(ar, fr.0, cfg.com_offset_body),
        vec_minus(ar, rl.0, cfg.com_offset_body),
        vec_minus(ar, rr.0, cfg.com_offset_body),
    ];
    let tau = stance_torque_of(ar, &feet, f, com, stance);
    let inv_tau = mat_times_of(ar, &inv, tau);
    let body = &cfg.centroidal_inertia_body;
    let t0 = tilt_torque_of(ar, &rz, &arms, f, stance, 0);
    let t1 = tilt_torque_of(ar, &rz, &arms, f, stance, 1);
    let t2 = tilt_torque_of(ar, &rz, &arms, f, stance, 2);
    proof {
        if deterministic(ar) && settled(kernel) {
            assert(feet@ =~= feet_world(ar, kernel, *s, *cfg));
            assert(arms@ =~= leg_arms(ar, *cfg, *s));
        }
    }
    let columns = Mat3 {
        x: tilt_column_of(ar, &rz, &inv, body, t0, inv_tau, 0),
        y: tilt_column_of(ar, &rz, &inv, body, t1, inv_tau, 1),
        z: tilt_column_of(ar, &rz, &inv, body, t2, inv_tau, 2),
    };
    LinearBlocks {
        inv_mass: inverse_mass_of(ar, cfg.mass_kg),
        force_blocks: [
            force_block_of(ar, &inv, vec_minus(ar, feet[0], com)),
            force_block_of(ar, &inv, vec_minus(ar, feet[1], com)),
            force_block_of(ar, &inv, vec_minus(ar, feet[2], com)),
            force_block_of(ar, &inv, vec_minus(ar, feet[3], com)),
        ],
        joint_blocks: [
            joint_block_of(ar, &inv, f[0], &rz, &fl.1),
            joint_block_of(ar, &inv, f[1], &rz, &fr.1),
            joint_block_of(ar, &inv, f[2], &rz, &rl.1),
            joint_block_of(ar, &inv, f[3], &rz, &rr.1),
        ],
        euler_block: columns.transpose(),
        rz_t: rz.transpose(),
    }
}

/// `bl` are the blocks of the body at a yaw with the feet at the given offsets
/// from the centre of mass.
pub open spec fn is_body_linearised<A: Arithmetic, B: BodyAlgebra>(
    ar: &A,
    ba: &B,
    cfg: CentroidalMpcConfig,
    psi: Scalar,
    feet: Seq<Vec3>,
    bl: BodyBlocks,
) -> bool {
    &&& bl.inv_mass == inverse_mass(ar, cfg.mass_kg)
    &&& bl.rz_t == yaw_frame(ar, psi).transposed()
    &&& forall|slot: int|
        0 <= slot < 4 ==> #[trigger] bl.force_blocks@[slot] == force_block(
            ar,
            inverse_inertia(ar, ba, cfg.centroidal_inertia_body, psi),
            feet[slot],
        )
}

/// The blocks of the body at a yaw with the feet at the given offsets from the
/// centre of mass.
pub fn body_blocks<A: Arithmetic, B: BodyAlgebra>(
    ar: &A,
    ba: &B,
    cfg: &CentroidalMpcConfig,
    psi: Scalar,
    feet: &[Vec3; 4],
) -> (r: BodyBlocks)
    ensures
        deterministic(ar) && settled(ba) ==> is_body_linearised(ar, ba, *cfg, psi, feet@, r),
{
    let rz = yaw_frame_of(ar, psi);
    let inv = inverse_inertia_of(ba, &cfg.centroidal_inertia_body, &rz);
    BodyBlocks {
        inv_mass: inverse_mass_of(ar, cfg.mass_kg),
        force_blocks: [
            force_block_of(ar, &inv, feet[0]),
            force_block_of(ar, &inv, feet[1]),
            force_block_of(ar, &inv, feet[2]),
            force_block_of(ar, &inv, feet[3]),
        ],
        rz_t: rz.transpose(),
    }
}

} // verus!
