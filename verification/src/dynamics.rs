//! Continuous dynamics of the body under foot forces.

use vstd::prelude::*;
use crate::arith::{
    cosine, cross, deterministic, difference, product, quotient, sine, sum, vec_cross,
    vec_difference, vec_minus, vec_plus, vec_sum, Arithmetic,
};
use crate::centroidal_mpc::{CentroidalInput, CentroidalMpcConfig, CentroidalState};
use crate::config::LegId;
use crate::full_centroidal_mpc::{
    FullCentroidalInput, FullCentroidalMpcConfig, FullCentroidalState, GRAVITY_Z_BITS,
};
use crate::ik::{foot_position, forward_leg_kinematics};
use crate::leg_odometry::{mat_times, mat_times_of};
use crate::scalar::{zero, Mat3, Scalar, Vec3};

verus! {

/// Bits of 1e-9, the least mass that is divided by (kg).
pub const LEAST_MASS_BITS: u64 = 0x3E11_2E0B_E826_D695;

/// Bits of 1e-6, the least cosine of the pitch that is divided by.
pub const LEAST_COSINE_BITS: u64 = 0x3EB0_C6F7_A0B5_ED8D;

/// The rotations and inverses of the dynamics, supplied by the caller.
pub trait BodyAlgebra {
    /// The rotation from body to world for roll, pitch and yaw.
    fn rotation(&self, euler: Vec3) -> Mat3;

    /// The inertia of the body turned into the world frame.
    fn world_inertia(&self, r: &Mat3, body: &Mat3) -> Mat3;

    /// The inverse, or the identity when there is none.
    fn inverse_or_identity(&self, m: &Mat3) -> Mat3;
}

/// The value given for a rotation.
pub open spec fn rotated<B: BodyAlgebra>(ba: &B, euler: Vec3) -> Mat3 {
    choose|r: Mat3| call_ensures(B::rotation, (ba, euler), r)
}

/// The value given for a turned inertia.
pub open spec fn turned<B: BodyAlgebra>(ba: &B, r: Mat3, body: Mat3) -> Mat3 {
    choose|m: Mat3| call_ensures(B::world_inertia, (ba, &r, &body), m)
}

/// The value given for an inverse.
pub open spec fn inverted<B: BodyAlgebra>(ba: &B, m: Mat3) -> Mat3 {
    choose|r: Mat3| call_ensures(B::inverse_or_identity, (ba, &m), r)
}

/// Every operation is a function of its operands.
pub open spec fn settled<B: BodyAlgebra>(ba: &B) -> bool {
    &&& forall|e: Vec3, r: Mat3| #[trigger]
        call_ensures(B::rotation, (ba, e), r) ==> r == rotated(ba, e)
    &&& forall|r: Mat3, body: Mat3, m: Mat3| #[trigger]
        call_ensures(B::world_inertia, (ba, &r, &body), m) ==> m == turned(ba, r, body)
    &&& forall|m: Mat3, r: Mat3| #[trigger]
        call_ensures(B::inverse_or_identity, (ba, &m), r) ==> r == inverted(ba, m)
}

/// Sum of the first `n` forces.
pub open spec fn force_sum<A: Arithmetic>(ar: &A, f: Seq<Vec3>, n: int) -> Vec3
    decreases n,
{
    if n <= 0 {
        Vec3::zeros()
    } else {
        vec_sum(ar, force_sum(ar, f, n - 1), f[n - 1])
    }
}

/// Acceleration of the centre of mass: forces over mass, and gravity.
pub open spec fn linear_acceleration<A: Arithmetic>(ar: &A, mass: Scalar, f: Seq<Vec3>) -> Vec3 {
    let t = force_sum(ar, f, 4);
    let m = mass.max_spec(Scalar { bits: LEAST_MASS_BITS });
    vec_sum(
        ar,
        Vec3 { x: quotient(ar, t.x, m), y: quotient(ar, t.y, m), z: quotient(ar, t.z, m) },
        Vec3 { x: zero(), y: zero(), z: Scalar { bits: GRAVITY_Z_BITS } },
    )
}

/// Torque of the first `n` forces about a point.
pub open spec fn torque<A: Arithmetic>(
    ar: &A,
    feet: Seq<Vec3>,
    f: Seq<Vec3>,
    about: Vec3,
    n: int,
) -> Vec3
    decreases n,
{
    if n <= 0 {
        Vec3::zeros()
    } else {
        vec_sum(
            ar,
            torque(ar, feet, f, about, n - 1),
            cross(ar, vec_difference(ar, feet[n - 1], about), f[n - 1]),
        )
    }
}

/// Angular acceleration under a torque: less the gyroscopic part, over the
/// inertia.
pub open spec fn angular_acceleration<A: Arithmetic, B: BodyAlgebra>(
    ar: &A,
    ba: &B,
    inertia: Mat3,
    omega: Vec3,
    tau: Vec3,
) -> Vec3 {
    mat_times(
        ar,
        inverted(ba, inertia),
        vec_difference(ar, tau, cross(ar, omega, mat_times(ar, inertia, omega))),
    )
}

/// The cosine of the pitch, kept away from zero.
pub open spec fn safe_cosine(c: Scalar) -> Scalar {
    let least = Scalar { bits: LEAST_COSINE_BITS };
    if c.abs_spec().lt_spec(least) {
        if c.is_signed() {
            least.neg_spec()
        } else {
            least
        }
    } else {
        c
    }
}

/// Rates of roll, pitch and yaw for an angular velocity in the body frame.
pub open spec fn euler_rate<A: Arithmetic>(ar: &A, euler: Vec3, w: Vec3) -> Vec3 {
    let sr = sine(ar, euler.x);
    let cr = cosine(ar, euler.x);
    let cp = safe_cosine(cosine(ar, euler.y));
    let tan = quotient(ar, sine(ar, euler.y), cp);
    Vec3 {
        x: sum(
            ar,
            sum(ar, w.x, product(ar, product(ar, sr, tan), w.y)),
            product(ar, product(ar, cr, tan), w.z),
        ),
        y: difference(ar, product(ar, cr, w.y), product(ar, sr, w.z)),
        z: sum(
            ar,
            product(ar, quotient(ar, sr, cp), w.y),
            product(ar, quotient(ar, cr, cp), w.z),
        ),
    }
}

/// Angular acceleration of a body turned by `r` under forces at its feet, about
/// its centre of mass.
pub open spec fn turning<A: Arithmetic, B: BodyAlgebra>(
    ar: &A,
    ba: &B,
    inertia: Mat3,
    offset: Vec3,
    r: Mat3,
    omega: Vec3,
    pos: Vec3,
    feet: Seq<Vec3>,
    f: Seq<Vec3>,
) -> Vec3 {
    let com = mat_times(ar, r, offset);
    let tau = torque(ar, feet, f, vec_sum(ar, pos, com), 4);
    angular_acceleration(ar, ba, turned(ba, r, inertia), omega, tau)
}

/// What moves with the body: accelerations and rates of the pose.
#[derive(Clone, Copy, Debug, PartialEq, Eq, Structural)]
pub struct BodyRates {
    /// Acceleration of the centre of mass.
    pub linear: Vec3,
    /// Angular acceleration.
    pub angular: Vec3,
    /// Velocity of the base.
    pub base: Vec3,
    /// Rates of roll, pitch and yaw.
    pub euler: Vec3,
}

/// Rates of a body at an orientation with the given mass, inertia and offset of
/// the centre of mass, pushed at the feet.
pub open spec fn body_rates<A: Arithmetic, B: BodyAlgebra>(
    ar: &A,
    ba: &B,
    mass: Scalar,
    inertia: Mat3,
    offset: Vec3,
    v: Vec3,
    omega: Vec3,
    pos: Vec3,
    euler: Vec3,
    feet: Seq<Vec3>,
    f: Seq<Vec3>,
) -> BodyRates {
    let r = rotated(ba, euler);
    let com = mat_times(ar, r, offset);
    BodyRates {
        linear: linear_acceleration(ar, mass, f),
        angular: turning(ar, ba, inertia, offset, r, omega, pos, feet, f),
        base: vec_difference(ar, v, cross(ar, omega, com)),
        euler: euler_rate(ar, euler, mat_times(ar, r.transposed(), omega)),
    }
}

fn linear_acceleration_of<A: Arithmetic>(ar: &A, mass: Scalar, f: &[Vec3; 4]) -> (r: Vec3)
    ensures
        deterministic(ar) ==> r == linear_acceleration(ar, mass, f@),
{
    let mut t = Vec3::zeros();
    let mut i: usize = 0;
    while i < 4
        invariant
            i <= 4,
            deterministic(ar) ==> t == force_sum(ar, f@, i as int),
        decreases 4 - i,
    {
        t = vec_plus(ar, t, f[i]);
        i += 1;
    }
    let m = mass.max(Scalar { bits: LEAST_MASS_BITS });
    let a = Vec3::new(ar.over(t.x, m), ar.over(t.y, m), ar.over(t.z, m));
    vec_plus(ar, a, Vec3::new(zero(), zero(), Scalar { bits: GRAVITY_Z_BITS }))
}

fn torque_of<A: Arithmetic>(ar: &A, feet: &[Vec3; 4], f: &[Vec3; 4], about: Vec3) -> (r: Vec3)
    ensures
        deterministic(ar) ==> r == torque(ar, feet@, f@, about, 4),
{
    let mut t = Vec3::zeros();
    let mut i: usize = 0;
    while i < 4
        invariant
            i <= 4,
            deterministic(ar) ==> t == torque(ar, feet@, f@, about, i as int),
        decreases 4 - i,
    {
        t = vec_plus(ar, t, vec_cross(ar, vec_minus(ar, feet[i], about), f[i]));
        i += 1;
    }
    t
}

fn angular_acceleration_of<A: Arithmetic, B: BodyAlgebra>(
    ar: &A,
    ba: &B,
    inertia: &Mat3,
    omega: Vec3,
    tau: Vec3,
) -> (r: Vec3)
    ensures
        deterministic(ar) && settled(ba) ==> r == angular_acceleration(
            ar,
            ba,
            *inertia,
            omega,
            tau,
        ),
{
    let inverse = ba.inverse_or_identity(inertia);
    let gyroscopic = vec_cross(ar, omega, mat_times_of(ar, inertia, omega));
    mat_times_of(ar, &inverse, vec_minus(ar, tau, gyroscopic))
}

/// Rates of roll, pitch and yaw for an angular velocity in the world frame, with
/// `r` the rotation from body to world.
pub fn euler_zyx_dot_from_world_omega<A: Arithmetic>(
    ar: &A,
    r: &Mat3,
    euler: Vec3,
    omega_world: Vec3,
) -> (e: Vec3)
    ensures
        deterministic(ar) ==> e == euler_rate(
            ar,
            euler,
            mat_times(ar, r.transposed(), omega_world),
        ),
{
    let w = mat_times_of(ar, &r.transpose(), omega_world);
    let sr = ar.sin(euler.x);
    let cr = ar.cos(euler.x);
    let sp = ar.sin(euler.y);
    let cp = ar.cos(euler.y);
    let least = Scalar { bits: LEAST_COSINE_BITS };
    let cp = if cp.abs().lt(least) {
        if cp.bits >= crate::scalar::SIGN_BIT {
            least.neg()
        } else {
            least
        }
    } else {
        cp
    };
    let tan = ar.over(sp, cp);
    let roll = ar.plus(
        ar.plus(w.x, ar.times(ar.times(sr, tan), w.y)),
        ar.times(ar.times(cr, tan), w.z),
    );
    let pitch = ar.minus(ar.times(cr, w.y), ar.times(sr, w.z));
    let yaw = ar.plus(ar.times(ar.over(sr, cp), w.y), ar.times(ar.over(cr, cp), w.z));
    Vec3::new(roll, pitch, yaw)
}

fn body_rates_of<A: Arithmetic, B: BodyAlgebra>(
    ar: &A,
    ba: &B,
    mass: Scalar,
    inertia: &Mat3,
    offset: Vec3,
    v: Vec3,
    omega: Vec3,
    pos: Vec3,
    euler: Vec3,
    feet: &[Vec3; 4],
    f: &[Vec3; 4],
) -> (r: BodyRates)
    ensures
        deterministic(ar) && settled(ba) ==> r == body_rates(
            ar,
            ba,
            mass,
            *inertia,
            offset,
            v,
            omega,
            pos,
            euler,
            feet@,
            f@,
        ),
{
    let rot = ba.rotation(euler);
    let com = mat_times_of(ar, &rot, offset);
    let tau = torque_of(ar, feet, f, vec_plus(ar, pos, com));
    let i_world = ba.world_inertia(&rot, inertia);
    BodyRates {
        linear: linear_acceleration_of(ar, mass, f),
        angular: angular_acceleration_of(ar, ba, &i_world, omega, tau),
        base: vec_minus(ar, v, vec_cross(ar, omega, com)),
        euler: euler_zyx_dot_from_world_omega(ar, &rot, euler, omega),
    }
}

/// Rate of the centroidal state with the feet at given places.
pub fn centroidal_dynamics<A: Arithmetic, B: BodyAlgebra>(
    ar: &A,
    ba: &B,
    state: &CentroidalState,
    input: &CentroidalInput,
    foot_world: &[Vec3; 4],
    cfg: &CentroidalMpcConfig,
) -> (r: CentroidalState)
    ensures
        deterministic(ar) && settled(ba) ==> {
            let b = body_rates(
                ar,
                ba,
                cfg.mass_kg,
                cfg.centroidal_inertia_body,
                cfg.com_offset_body,
                state.h_lin_per_mass,
                state.angular_velocity_world,
                state.base_pos_world,
                state.base_euler_zyx,
                foot_world@,
                input.grfs_world@,
            );
            r == (CentroidalState {
                h_lin_per_mass: b.linear,
                angular_velocity_world: b.angular,
                base_pos_world: b.base,
                base_euler_zyx: b.euler,
            })
        },
{
    let b = body_rates_of(
        ar,
        ba,
        cfg.mass_kg,
        &cfg.centroidal_inertia_body,
        cfg.com_offset_body,
        state.h_lin_per_mass,
        state.angular_velocity_world,
        state.base_pos_world,
        state.base_euler_zyx,
        foot_world,
        &input.grfs_world,
    );
    CentroidalState {
        h_lin_per_mass: b.linear,
        angular_velocity_world: b.angular,
        base_pos_world: b.base,
        base_euler_zyx: b.euler,
    }
}

/// Linear and angular acceleration of a body at an orientation `r` from foot
/// forces.
pub fn predicted_base_accel_world_centroidal<A: Arithmetic, B: BodyAlgebra>(
    ar: &A,
    ba: &B,
    cfg: &CentroidalMpcConfig,
    body_pos_world: Vec3,
    r: &Mat3,
    omega_obs_world: Vec3,
    grfs_world: &[Vec3; 4],
    foot_positions_world: &[Vec3; 4],
) -> (a: (Vec3, Vec3))
    ensures
        deterministic(ar) ==> a.0 == linear_acceleration(ar, cfg.mass_kg, grfs_world@),
        deterministic(ar) && settled(ba) ==> a.1 == turning(
            ar,
            ba,
            cfg.centroidal_inertia_body,
            cfg.com_offset_body,
            *r,
            omega_obs_world,
            body_pos_world,
            foot_positions_world@,
            grfs_world@,
        ),
{
    let linear = linear_acceleration_of(ar, cfg.mass_kg, grfs_world);
    let com = vec_plus(ar, body_pos_world, mat_times_of(ar, r, cfg.com_offset_body));
    let i_world = ba.world_inertia(r, &cfg.centroidal_inertia_body);
    let tau = torque_of(ar, foot_positions_world, grfs_world, com);
    (linear, angular_acceleration_of(ar, ba, &i_world, omega_obs_world, tau))
}

/// World position of the foot in a slot: the base, and the turned leg.
pub open spec fn foot_world<A: Arithmetic, B: BodyAlgebra>(
    ar: &A,
    ba: &B,
    state: FullCentroidalState,
    cfg: FullCentroidalMpcConfig,
    slot: int,
) -> Vec3 {
    let q = state.joint_q@;
    let foot = foot_position(
        ar,
        cfg.kinematics.of(LegId::at_slot(slot)),
        q[3 * slot],
        q[3 * slot + 1],
        q[3 * slot + 2],
    );
    vec_sum(
        ar,
        state.base_pos_world,
        mat_times(ar, rotated(ba, state.base_euler_zyx), foot),
    )
}

fn foot_world_of<A: Arithmetic>(
    ar: &A,
    rot: &Mat3,
    state: &FullCentroidalState,
    cfg: &FullCentroidalMpcConfig,
    leg: LegId,
    slot: usize,
) -> (r: Vec3)
    requires
        slot < 4,
        leg == LegId::at_slot(slot as int),
    ensures
        deterministic(ar) ==> r == vec_sum(
            ar,
            state.base_pos_world,
            mat_times(
                ar,
                *rot,
                foot_position(
                    ar,
                    cfg.kinematics.of(leg),
                    state.joint_q@[3 * slot],
                    state.joint_q@[3 * slot + 1],
                    state.joint_q@[3 * slot + 2],
                ),
            ),
        ),
{
    let q = state.leg_joint_q(slot);
    assert(q@[0] == state.joint_q@[3 * slot]);
    assert(q@[1] == state.joint_q@[3 * slot + 1]);
    assert(q@[2] == state.joint_q@[3 * slot + 2]);
    let foot = forward_leg_kinematics(ar, cfg.kinematics.leg(leg), q[0], q[1], q[2]);
    vec_plus(ar, state.base_pos_world, mat_times_of(ar, rot, foot))
}

/// World positions of the feet.
pub fn compute_foot_positions_world<A: Arithmetic, B: BodyAlgebra>(
    ar: &A,
    ba: &B,
    state: &FullCentroidalState,
    cfg: &FullCentroidalMpcConfig,
) -> (r: [Vec3; 4])
    ensures
        deterministic(ar) && settled(ba) ==> forall|slot: int|
            0 <= slot < 4 ==> #[trigger] r@[slot] == foot_world(ar, ba, *state, *cfg, slot),
{
    let rot = ba.rotation(state.base_euler_zyx);
    [
        foot_world_of(ar, &rot, state, cfg, LegId::FL, 0),
        foot_world_of(ar, &rot, state, cfg, LegId::FR, 1),
        foot_world_of(ar, &rot, state, cfg, LegId::RL, 2),
        foot_world_of(ar, &rot, state, cfg, LegId::RR, 3),
    ]
}

/// The feet of a state in the world frame.
pub open spec fn feet_world<A: Arithmetic, B: BodyAlgebra>(
    ar: &A,
    ba: &B,
    state: FullCentroidalState,
    cfg: FullCentroidalMpcConfig,
) -> Seq<Vec3> {
    Seq::new(4, |slot: int| foot_world(ar, ba, state, cfg, slot))
}

/// Rate of the full state: the body as pushed at its feet, the joints as
/// commanded.
pub fn full_centroidal_dynamics<A: Arithmetic, B: BodyAlgebra>(
    ar: &A,
    ba: &B,
    state: &FullCentroidalState,
    input: &FullCentroidalInput,
    cfg: &FullCentroidalMpcConfig,
) -> (r: FullCentroidalState)
    ensures
        r.joint_q == input.joint_v,
        deterministic(ar) && settled(ba) ==> {
            let b = body_rates(
                ar,
                ba,
                cfg.mass_kg,
                cfg.centroidal_inertia_body,
                cfg.com_offset_body,
                state.v_com_world,
                state.angular_velocity_world,
                state.base_pos_world,
                state.base_euler_zyx,
                feet_world(ar, ba, *state, *cfg),
                input.grfs_world@,
            );
            &&& r.v_com_world == b.linear
            &&& r.angular_velocity_world == b.angular
            &&& r.base_pos_world == b.base
            &&& r.base_euler_zyx == b.euler
        },
{
    let feet = compute_foot_positions_world(ar, ba, state, cfg);
    assert(deterministic(ar) && settled(ba) ==> feet@ =~= feet_world(ar, ba, *state, *cfg));
    let b = body_rates_of(
        ar,
        ba,
        cfg.mass_kg,
        &cfg.centroidal_inertia_body,
        cfg.com_offset_body,
        state.v_com_world,
        state.angular_velocity_world,
        state.base_pos_world,
        state.base_euler_zyx,
        &feet,
        &input.grfs_world,
    );
    FullCentroidalState {
        v_com_world: b.linear,
        angular_velocity_world: b.angular,
        base_pos_world: b.base,
        base_euler_zyx: b.euler,
        joint_q: input.joint_v,
    }
}

} // verus!
