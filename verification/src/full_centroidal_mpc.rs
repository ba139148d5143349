//! Full-centroidal predictive control: the state and input carry the leg
//! joints beside the body.
//!
//! State (24): centre-of-mass velocity, body angular velocity, base position,
//! base Euler angles (three each), then twelve joint angles. Input (24): four
//! ground reaction forces of three components, then twelve joint velocities.
//! Joint slots follow [`crate::config::LegId`] order, each leg as hip, thigh, calf.

use vstd::prelude::*;
use crate::config::KinematicsConfig;
use crate::scalar::{infinity, one, zero, Mat3, Scalar, Vec3};

verus! {

/// Leg joints in the state: three per leg.
pub const N_LEG_JOINTS: usize = 12;

/// Feet, and ground reaction forces in the input.
pub const N_FEET: usize = 4;

/// State dimension.
pub const N_STATE: usize = 12 + N_LEG_JOINTS;

/// Input dimension.
pub const N_INPUT: usize = 3 * N_FEET + N_LEG_JOINTS;

/// State dimension with the constant gravity component appended.
pub const N_STATE_AUG: usize = N_STATE + 1;

/// Bits of the vertical gravity (-9.81 m/s2).
pub const GRAVITY_Z_BITS: u64 = 0xC023_9EB8_51EB_851F;

/// State of the full-centroidal model.
#[derive(Clone, Copy, Debug, PartialEq, Eq)]
pub struct FullCentroidalState {
    /// Centre-of-mass velocity, world frame (m/s).
    pub v_com_world: Vec3,
    /// Base angular velocity, world frame (rad/s).
    pub angular_velocity_world: Vec3,
    /// Base origin, world frame (m).
    pub base_pos_world: Vec3,
    /// Base orientation as roll, pitch, yaw (rad).
    pub base_euler_zyx: Vec3,
    /// Joint angles in slot order, each leg as hip, thigh, calf (rad).
    pub joint_q: [Scalar; N_LEG_JOINTS],
}

/// The three components of a vector in order.
pub open spec fn vec3_seq(v: Vec3) -> Seq<Scalar> {
    seq![v.x, v.y, v.z]
}

impl Default for FullCentroidalState {
    fn default() -> (r: FullCentroidalState)
        ensures
            r@ == Seq::new(N_STATE as nat, |i: int| zero()),
    {
        let z = zero();
        let r = FullCentroidalState {
            v_com_world: Vec3::zeros(),
            angular_velocity_world: Vec3::zeros(),
            base_pos_world: Vec3::zeros(),
            base_euler_zyx: Vec3::zeros(),
            joint_q: [z, z, z, z, z, z, z, z, z, z, z, z],
        };
        assert(r@ =~= Seq::new(N_STATE as nat, |i: int| zero()));
        r
    }
}

impl View for FullCentroidalState {
    type V = Seq<Scalar>;

    /// The state as a flat vector.
    open spec fn view(&self) -> Seq<Scalar> {
        vec3_seq(self.v_com_world) + vec3_seq(self.angular_velocity_world) + vec3_seq(
            self.base_pos_world,
        ) + vec3_seq(self.base_euler_zyx) + self.joint_q@
    }
}

impl FullCentroidalState {
    /// Packs the state into a flat vector.
    pub fn to_vec(&self) -> (r: [Scalar; N_STATE])
        ensures
            r@ == self@,
    {
        let v = self.v_com_world;
        let w = self.angular_velocity_world;
        let p = self.base_pos_world;
        let e = self.base_euler_zyx;
        let q = &self.joint_q;
        let r = [
            v.x, v.y, v.z, w.x, w.y, w.z, p.x, p.y, p.z, e.x, e.y, e.z,
            q[0], q[1], q[2], q[3], q[4], q[5], q[6], q[7], q[8], q[9], q[10], q[11],
        ];
        assert(r@ =~= self@);
        r
    }

    /// Unpacks a flat vector.
    pub fn from_vec(v: &[Scalar; N_STATE]) -> (r: FullCentroidalState)
        ensures
            r@ == v@,
    {
        let r = FullCentroidalState {
            v_com_world: Vec3::new(v[0], v[1], v[2]),
            angular_velocity_world: Vec3::new(v[3], v[4], v[5]),
            base_pos_world: Vec3::new(v[6], v[7], v[8]),
            base_euler_zyx: Vec3::new(v[9], v[10], v[11]),
            joint_q: [
                v[12], v[13], v[14], v[15], v[16], v[17],
                v[18], v[19], v[20], v[21], v[22], v[23],
            ],
        };
        assert(r@ =~= v@);
        r
    }

    /// Joint angles of one leg: hip, thigh, calf.
    pub fn leg_joint_q(&self, leg_idx: usize) -> (r: [Scalar; 3])
        requires
            leg_idx < N_FEET,
        ensures
            r@ == self.joint_q@.subrange(3 * leg_idx, 3 * leg_idx + 3),
            r@ == self@.subrange(12 + 3 * leg_idx, 15 + 3 * leg_idx),
    {
        let base: usize = leg_idx * 3;
        let r = [self.joint_q[base], self.joint_q[base + 1], self.joint_q[base + 2]];
        assert(r@ =~= self.joint_q@.subrange(3 * leg_idx, 3 * leg_idx + 3));
        assert(r@ =~= self@.subrange(12 + 3 * leg_idx, 15 + 3 * leg_idx));
        r
    }
}

/// Packing loses nothing: two states with the same flat vector are the same
/// state, field by field.
pub proof fn state_is_its_vector(a: FullCentroidalState, b: FullCentroidalState)
    requires
        a@ == b@,
    ensures
        a.v_com_world == b.v_com_world,
        a.angular_velocity_world == b.angular_velocity_world,
        a.base_pos_world == b.base_pos_world,
        a.base_euler_zyx == b.base_euler_zyx,
        a.joint_q@ == b.joint_q@,
{
    assert(forall|i: int| 0 <= i < 24 ==> a@[i] == b@[i]);
    assert(a@[0] == a.v_com_world.x && b@[0] == b.v_com_world.x);
    assert(a@[1] == a.v_com_world.y && b@[1] == b.v_com_world.y);
    assert(a@[2] == a.v_com_world.z && b@[2] == b.v_com_world.z);
    assert(a@[3] == a.angular_velocity_world.x && b@[3] == b.angular_velocity_world.x);
    assert(a@[4] == a.angular_velocity_world.y && b@[4] == b.angular_velocity_world.y);
    assert(a@[5] == a.angular_velocity_world.z && b@[5] == b.angular_velocity_world.z);
    assert(a@[6] == a.base_pos_world.x && b@[6] == b.base_pos_world.x);
    assert(a@[7] == a.base_pos_world.y && b@[7] == b.base_pos_world.y);
    assert(a@[8] == a.base_pos_world.z && b@[8] == b.base_pos_world.z);
    assert(a@[9] == a.base_euler_zyx.x && b@[9] == b.base_euler_zyx.x);
    assert(a@[10] == a.base_euler_zyx.y && b@[10] == b.base_euler_zyx.y);
    assert(a@[11] == a.base_euler_zyx.z && b@[11] == b.base_euler_zyx.z);
    assert forall|i: int| 0 <= i < 12 implies a.joint_q@[i] == b.joint_q@[i] by {
        assert(a@[12 + i] == a.joint_q@[i]);
        assert(b@[12 + i] == b.joint_q@[i]);
    }
    assert(a.joint_q@ =~= b.joint_q@);
}

/// Input of the full-centroidal model.
#[derive(Clone, Copy, Debug, PartialEq, Eq)]
pub struct FullCentroidalInput {
    /// Ground reaction force of each foot, world frame (N).
    pub grfs_world: [Vec3; N_FEET],
    /// Joint velocities, packed as the joint angles (rad/s).
    pub joint_v: [Scalar; N_LEG_JOINTS],
}

impl View for FullCentroidalInput {
    type V = Seq<Scalar>;

    /// The input as a flat vector.
    open spec fn view(&self) -> Seq<Scalar> {
        vec3_seq(self.grfs_world@[0]) + vec3_seq(self.grfs_world@[1]) + vec3_seq(
            self.grfs_world@[2],
        ) + vec3_seq(self.grfs_world@[3]) + self.joint_v@
    }
}

impl Default for FullCentroidalInput {
    fn default() -> (r: FullCentroidalInput)
        ensures
            r@ == Seq::new(N_INPUT as nat, |i: int| zero()),
    {
        let o = Vec3::zeros();
        let z = zero();
        let r = FullCentroidalInput {
            grfs_world: [o, o, o, o],
            joint_v: [z, z, z, z, z, z, z, z, z, z, z, z],
        };
        assert(r@ =~= Seq::new(N_INPUT as nat, |i: int| zero()));
        r
    }
}

impl FullCentroidalInput {
    /// Packs the input into a flat vector.
    pub fn to_vec(&self) -> (r: [Scalar; N_INPUT])
        ensures
            r@ == self@,
    {
        let f = &self.grfs_world;
        let q = &self.joint_v;
        let r = [
            f[0].x, f[0].y, f[0].z, f[1].x, f[1].y, f[1].z,
            f[2].x, f[2].y, f[2].z, f[3].x, f[3].y, f[3].z,
            q[0], q[1], q[2], q[3], q[4], q[5], q[6], q[7], q[8], q[9], q[10], q[11],
        ];
        assert(r@ =~= self@);
        r
    }

    /// Unpacks a flat vector.
    pub fn from_vec(v: &[Scalar; N_INPUT]) -> (r: FullCentroidalInput)
        ensures
            r@ == v@,
    {
        let r = FullCentroidalInput {
            grfs_world: [
                Vec3::new(v[0], v[1], v[2]),
                Vec3::new(v[3], v[4], v[5]),
                Vec3::new(v[6], v[7], v[8]),
                Vec3::new(v[9], v[10], v[11]),
            ],
            joint_v: [
                v[12], v[13], v[14], v[15], v[16], v[17],
                v[18], v[19], v[20], v[21], v[22], v[23],
            ],
        };
        assert(r@ =~= v@);
        r
    }
}

/// Packing loses nothing: two inputs with the same flat vector are the same
/// input, field by field.
pub proof fn input_is_its_vector(a: FullCentroidalInput, b: FullCentroidalInput)
    requires
        a@ == b@,
    ensures
        a.grfs_world@ == b.grfs_world@,
        a.joint_v@ == b.joint_v@,
{
    assert(forall|i: int| 0 <= i < 24 ==> a@[i] == b@[i]);
    assert forall|f: int| 0 <= f < 4 implies a.grfs_world@[f] == b.grfs_world@[f] by {
        assert(a@[3 * f] == a.grfs_world@[f].x && b@[3 * f] == b.grfs_world@[f].x);
        assert(a@[3 * f + 1] == a.grfs_world@[f].y && b@[3 * f + 1] == b.grfs_world@[f].y);
        assert(a@[3 * f + 2] == a.grfs_world@[f].z && b@[3 * f + 2] == b.grfs_world@[f].z);
    }
    assert(a.grfs_world@ =~= b.grfs_world@);
    assert forall|i: int| 0 <= i < 12 implies a.joint_v@[i] == b.joint_v@[i] by {
        assert(a@[12 + i] == a.joint_v@[i]);
        assert(b@[12 + i] == b.joint_v@[i]);
    }
    assert(a.joint_v@ =~= b.joint_v@);
}

/// The state with the constant gravity component appended.
pub fn state_to_vec_aug(s: &FullCentroidalState) -> (r: [Scalar; N_STATE_AUG])
    ensures
        r@ == s@.push(Scalar { bits: GRAVITY_Z_BITS }),
{
    let v = s.to_vec();
    let mut r = [Scalar { bits: GRAVITY_Z_BITS }; N_STATE_AUG];
    let mut i: usize = 0;
    while i < N_STATE
        invariant
            i <= N_STATE,
            v@ == s@,
            r@[24].bits == GRAVITY_Z_BITS,
            forall|k: int| 0 <= k < i ==> r@[k] == v@[k],
        decreases N_STATE - i,
    {
        r[i] = v[i];
        i += 1;
    }
    assert(r@ =~= s@.push(Scalar { bits: GRAVITY_Z_BITS }));
    r
}

/// Parameters of the full-centroidal predictive controller.
#[derive(Debug)]
pub struct FullCentroidalMpcConfig {
    /// Total robot mass (kg).
    pub mass_kg: Scalar,
    /// Centroidal inertia in the body frame (kg m2).
    pub centroidal_inertia_body: Mat3,
    /// Centre of mass relative to the base origin, body frame (m).
    pub com_offset_body: Vec3,
    /// Friction coefficient of the pyramid.
    pub friction_mu: Scalar,
    /// Largest normal force per foot (N); not positive for no limit.
    pub max_normal_force: Scalar,
    /// Prediction horizon in steps.
    pub horizon_steps: usize,
    /// Duration of a step (s).
    pub dt_per_step: Scalar,
    /// State weights, in the layout of the state vector.
    pub q_diag: [Scalar; N_STATE],
    /// Input weights, in the layout of the input vector.
    pub r_diag: [Scalar; N_INPUT],
    /// Number of re-linearisations per solve; zero counts as one.
    pub sqp_iterations: usize,
    /// Leg geometry.
    pub kinematics: KinematicsConfig,
    /// Whether swing feet follow the planned vertical velocity.
    pub enable_swing_normal_velocity_constraint: bool,
    /// Whether the friction cone is relaxed by slack variables.
    pub friction_cone_soft: bool,
    /// Quadratic penalty on each slack.
    pub friction_cone_slack_penalty: Scalar,
    /// Whether each solve starts from the previous solution.
    pub warm_start: bool,
    /// Weight of the foothold tracking cost; zero for none.
    pub q_foot_xy_world: Scalar,
}

impl Clone for FullCentroidalMpcConfig {
    fn clone(&self) -> (r: FullCentroidalMpcConfig)
        ensures
            r == *self,
    {
        FullCentroidalMpcConfig {
            mass_kg: self.mass_kg,
            centroidal_inertia_body: self.centroidal_inertia_body,
            com_offset_body: self.com_offset_body,
            friction_mu: self.friction_mu,
            max_normal_force: self.max_normal_force,
            horizon_steps: self.horizon_steps,
            dt_per_step: self.dt_per_step,
            q_diag: self.q_diag,
            r_diag: self.r_diag,
            sqp_iterations: self.sqp_iterations,
            kinematics: self.kinematics.clone(),
            enable_swing_normal_velocity_constraint: self.enable_swing_normal_velocity_constraint,
            friction_cone_soft: self.friction_cone_soft,
            friction_cone_slack_penalty: self.friction_cone_slack_penalty,
            warm_start: self.warm_start,
            q_foot_xy_world: self.q_foot_xy_world,
        }
    }
}

/// Default state weight bits: velocity, angular velocity, position, attitude, joints.
pub open spec fn default_q_bits(i: int) -> u64 {
    if i < 3 {
        0x3FF0_0000_0000_0000
    } else if i < 5 {
        0x3FE0_0000_0000_0000
    } else if i == 5 {
        0x4024_0000_0000_0000
    } else if i == 6 {
        0
    } else if i == 7 {
        0x4014_0000_0000_0000
    } else if i == 8 {
        0x4049_0000_0000_0000
    } else if i < 11 {
        0x4039_0000_0000_0000
    } else if i == 11 {
        0x4049_0000_0000_0000
    } else {
        0x3FB9_9999_9999_999A
    }
}

/// Default input weight bits: forces, then joint velocities.
pub open spec fn default_r_bits(i: int) -> u64 {
    if i < 12 {
        0x3F50_624D_D2F1_A9FC
    } else {
        0x3FF0_0000_0000_0000
    }
}

impl FullCentroidalMpcConfig {
    /// The defaults for the given leg geometry.
    pub open spec fn is_default(self, kinematics: KinematicsConfig) -> bool {
        &&& self.mass_kg.bits == 0x4022_0000_0000_0000u64
        &&& self.centroidal_inertia_body == Mat3::diagonal(
                Vec3::new(
                    Scalar { bits: 0x3FB1_EB85_1EB8_51EC },
                    Scalar { bits: 0x3FD0_A3D7_0A3D_70A4 },
                    Scalar { bits: 0x3FCE_F9DB_22D0_E560 },
                ),
            )
        &&& self.com_offset_body == Vec3::zeros()
        &&& self.friction_mu.bits == 0x3FE0_0000_0000_0000u64
        &&& self.max_normal_force.bits == 0x4069_0000_0000_0000u64
        &&& self.horizon_steps == 20
        &&& self.dt_per_step.bits == 0x3F9E_B851_EB85_1EB8u64
        &&& forall|i: int| 0 <= i < N_STATE ==> (#[trigger] self.q_diag@[i]).bits == default_q_bits(i)
        &&& forall|i: int| 0 <= i < N_INPUT ==> (#[trigger] self.r_diag@[i]).bits == default_r_bits(i)
        &&& self.sqp_iterations == 3
        &&& self.kinematics == kinematics
        &&& !self.enable_swing_normal_velocity_constraint
        &&& !self.friction_cone_soft
        &&& self.friction_cone_slack_penalty.bits == 0x408F_4000_0000_0000u64
        &&& !self.warm_start
        &&& self.q_foot_xy_world == zero()
    }

    /// Defaults for a small quadruped with the given leg geometry: a horizon of
    /// 20 steps of 30 ms, three re-linearisations, every option off.
    pub fn default_with_kin(kinematics: KinematicsConfig) -> (r: FullCentroidalMpcConfig)
        ensures
            r.is_default(kinematics),
    {
        let z = zero();
        let c = one();
        let half = Scalar { bits: 0x3FE0_0000_0000_0000 };
        let ten = Scalar { bits: 0x4024_0000_0000_0000 };
        let five = Scalar { bits: 0x4014_0000_0000_0000 };
        let fifty = Scalar { bits: 0x4049_0000_0000_0000 };
        let tf = Scalar { bits: 0x4039_0000_0000_0000 };
        let t = Scalar { bits: 0x3FB9_9999_9999_999A };
        let m = Scalar { bits: 0x3F50_624D_D2F1_A9FC };
        FullCentroidalMpcConfig {
            mass_kg: Scalar { bits: 0x4022_0000_0000_0000 },
            centroidal_inertia_body: Mat3::diagonal(
                Vec3::new(
                    Scalar { bits: 0x3FB1_EB85_1EB8_51EC },
                    Scalar { bits: 0x3FD0_A3D7_0A3D_70A4 },
                    Scalar { bits: 0x3FCE_F9DB_22D0_E560 },
                ),
            ),
            com_offset_body: Vec3::zeros(),
            friction_mu: half,
            max_normal_force: Scalar { bits: 0x4069_0000_0000_0000 },
            horizon_steps: 20,
            dt_per_step: Scalar { bits: 0x3F9E_B851_EB85_1EB8 },
            q_diag: [
                c, c, c, half, half, ten, z, five, fifty, tf, tf, fifty,
                t, t, t, t, t, t, t, t, t, t, t, t,
            ],
            r_diag: [m, m, m, m, m, m, m, m, m, m, m, m, c, c, c, c, c, c, c, c, c, c, c, c],
            sqp_iterations: 3,
            kinematics,
            enable_swing_normal_velocity_constraint: false,
            friction_cone_soft: false,
            friction_cone_slack_penalty: Scalar { bits: 0x408F_4000_0000_0000 },
            warm_start: false,
            q_foot_xy_world: z,
        }
    }
}

/// Trajectory the controller tracks: one state and one input per horizon step.
#[derive(Debug)]
pub struct FullCentroidalReference {
    /// State at each step.
    pub states: Vec<FullCentroidalState>,
    /// Input at each step.
    pub inputs: Vec<FullCentroidalInput>,
}

impl View for FullCentroidalReference {
    type V = (Seq<FullCentroidalState>, Seq<FullCentroidalInput>);

    open spec fn view(&self) -> (Seq<FullCentroidalState>, Seq<FullCentroidalInput>) {
        (self.states@, self.inputs@)
    }
}

fn copy_states(v: &Vec<FullCentroidalState>) -> (r: Vec<FullCentroidalState>)
    ensures
        r@ == v@,
{
    let mut r: Vec<FullCentroidalState> = Vec::new();
    let mut i: usize = 0;
    while i < v.len()
        invariant
            i <= v@.len(),
            r@ == v@.subrange(0, i as int),
        decreases v@.len() - i,
    {
        r.push(v[i]);
        i += 1;
        assert(r@ =~= v@.subrange(0, i as int));
    }
    assert(r@ =~= v@);
    r
}

fn copy_inputs(v: &Vec<FullCentroidalInput>) -> (r: Vec<FullCentroidalInput>)
    ensures
        r@ == v@,
{
    let mut r: Vec<FullCentroidalInput> = Vec::new();
    let mut i: usize = 0;
    while i < v.len()
        invariant
            i <= v@.len(),
            r@ == v@.subrange(0, i as int),
        decreases v@.len() - i,
    {
        r.push(v[i]);
        i += 1;
        assert(r@ =~= v@.subrange(0, i as int));
    }
    assert(r@ =~= v@);
    r
}

impl Clone for FullCentroidalReference {
    fn clone(&self) -> (r: FullCentroidalReference)
        ensures
            r@ == self@,
    {
        FullCentroidalReference {
            states: copy_states(&self.states),
            inputs: copy_inputs(&self.inputs),
        }
    }
}

impl FullCentroidalReference {
    /// One entry per step of a horizon of `n` steps.
    pub open spec fn spans(self, n: int) -> bool {
        self.states@.len() == n && self.inputs@.len() == n
    }

    /// The same state and a zero input at every step.
    pub fn constant(state: FullCentroidalState, horizon_steps: usize) -> (r: FullCentroidalReference)
        ensures
            r.states@ == Seq::new(horizon_steps as nat, |k: int| state),
            r.inputs@.len() == horizon_steps,
            forall|k: int| 0 <= k < horizon_steps ==> (#[trigger] r.inputs@[k])@ == Seq::new(
                N_INPUT as nat,
                |i: int| zero(),
            ),
    {
        let mut states: Vec<FullCentroidalState> = Vec::new();
        let mut inputs: Vec<FullCentroidalInput> = Vec::new();
        let mut k: usize = 0;
        while k < horizon_steps
            invariant
                k <= horizon_steps,
                states@ == Seq::new(k as nat, |k: int| state),
                inputs@.len() == k,
                forall|j: int| 0 <= j < k ==> (#[trigger] inputs@[j])@ == Seq::new(
                    N_INPUT as nat,
                    |i: int| zero(),
                ),
            decreases horizon_steps - k,
        {
            states.push(state);
            inputs.push(FullCentroidalInput::default());
            k += 1;
            assert(states@ =~= Seq::new(k as nat, |k: int| state));
        }
        FullCentroidalReference { states, inputs }
    }
}

/// Foothold the optimiser is drawn to.
#[derive(Clone, Copy, Debug, PartialEq, Eq)]
pub enum FootTarget {
    /// A point of the world (m).
    World {
        /// Along x.
        x: Scalar,
        /// Along y.
        y: Scalar,
    },
    /// An offset from the base, turned with its yaw (m). It moves with the base
    /// from one iteration to the next.
    BodyOffset {
        /// Forward.
        x: Scalar,
        /// To the left.
        y: Scalar,
    },
}

/// Stance plan over the horizon, per leg and step.
#[derive(Debug)]
pub struct FullCentroidalContactSchedule {
    /// Whether the leg is in stance.
    pub is_stance: [Vec<bool>; N_FEET],
    /// Planned vertical foot velocity of a swing leg (m/s).
    pub swing_z_velocity: [Vec<Scalar>; N_FEET],
    /// Upper bound on the vertical force (N); infinite for none.
    pub stance_f_max: [Vec<Scalar>; N_FEET],
    /// Foothold the optimiser is drawn to, if any.
    pub foot_xy_target: [Vec<Option<FootTarget>>; N_FEET],
}

impl FullCentroidalContactSchedule {
    /// Every field covers a horizon of `n` steps.
    pub open spec fn spans(self, n: int) -> bool {
        forall|leg: int| 0 <= leg < N_FEET ==> {
            &&& (#[trigger] self.is_stance@[leg])@.len() == n
            &&& self.swing_z_velocity@[leg]@.len() == n
            &&& self.stance_f_max@[leg]@.len() == n
            &&& self.foot_xy_target@[leg]@.len() == n
        }
    }

    /// Whether a leg is in stance at a step.
    pub open spec fn stance(self, leg: int, k: int) -> bool {
        self.is_stance@[leg]@[k]
    }

    /// All legs in stance, no swing velocity, no force bound, no foothold target.
    pub fn all_stance(horizon_steps: usize) -> (r: FullCentroidalContactSchedule)
        ensures
            r.spans(horizon_steps as int),
            forall|leg: int, k: int|
                0 <= leg < N_FEET && 0 <= k < horizon_steps ==> {
                    &&& #[trigger] r.stance(leg, k)
                    &&& r.swing_z_velocity@[leg]@[k] == zero()
                    &&& r.stance_f_max@[leg]@[k] == infinity()
                    &&& r.foot_xy_target@[leg]@[k] is None
                },
    {
        let n: usize = horizon_steps;
        FullCentroidalContactSchedule {
            is_stance: [vec![true; n], vec![true; n], vec![true; n], vec![true; n]],
            swing_z_velocity: [
                vec![zero(); n],
                vec![zero(); n],
                vec![zero(); n],
                vec![zero(); n],
            ],
            stance_f_max: [
                vec![infinity(); n],
                vec![infinity(); n],
                vec![infinity(); n],
                vec![infinity(); n],
            ],
            foot_xy_target: [
                vec![None; n],
                vec![None; n],
                vec![None; n],
                vec![None; n],
            ],
        }
    }
}

/// Result of a solve.
#[derive(Debug)]
pub struct FullCentroidalMpcSolution {
    /// Input of the first step, which the caller commits.
    pub first_input: FullCentroidalInput,
    /// Inputs over the horizon.
    pub inputs_all_steps: Vec<FullCentroidalInput>,
    /// Predicted states over the horizon.
    pub predicted_states: Vec<FullCentroidalState>,
    /// Objective value.
    pub objective: Scalar,
    /// Whether the solver reported a solution.
    pub solved: bool,
}

impl FullCentroidalMpcSolution {
    /// One input and one state per step of a horizon of `n` steps.
    pub open spec fn spans(self, n: int) -> bool {
        self.inputs_all_steps@.len() == n && self.predicted_states@.len() == n
    }

    /// The predicted trajectory.
    pub open spec fn trajectory(self) -> (Seq<FullCentroidalState>, Seq<FullCentroidalInput>) {
        (self.predicted_states@, self.inputs_all_steps@)
    }
}

/// Full-centroidal predictive controller: its parameters and the trajectory of
/// the previous solve.
#[derive(Debug)]
pub struct FullCentroidalMpc {
    /// Parameters.
    pub cfg: FullCentroidalMpcConfig,
    /// Trajectory of the previous solved call.
    pub warm_start_cache: Option<FullCentroidalReference>,
}

/// A trajectory moved on by one step: the first entry dropped, the last repeated.
pub open spec fn shifted<T>(s: Seq<T>) -> Seq<T> {
    Seq::new(s.len(), |k: int| if k + 1 < s.len() { s[k + 1] } else { s[s.len() - 1] })
}

/// Reference of the first iteration: the cached trajectory moved on by one step
/// when warm starting with a cache of the right length, else the caller's.
pub open spec fn initial_reference(
    mpc: FullCentroidalMpc,
    caller: FullCentroidalReference,
    n: int,
) -> (Seq<FullCentroidalState>, Seq<FullCentroidalInput>) {
    match mpc.warm_start_cache {
        Some(prev) => if mpc.cfg.warm_start && prev.spans(n) {
            (shifted(prev.states@), shifted(prev.inputs@))
        } else {
            caller@
        },
        None => caller@,
    }
}

/// Number of iterations of a solve.
pub open spec fn iteration_count(cfg: FullCentroidalMpcConfig) -> int {
    if cfg.sqp_iterations == 0 {
        1
    } else {
        cfg.sqp_iterations as int
    }
}

/// A run of iterations: `sols[i]` is what `one_iter` gave for `refs[i]`, and
/// each next reference is the trajectory just found, or the same reference when
/// the iteration did not solve.
pub open spec fn is_sqp_run<F: Fn(
    &FullCentroidalState,
    &FullCentroidalReference,
    &FullCentroidalContactSchedule,
) -> FullCentroidalMpcSolution>(
    one_iter: F,
    state_now: FullCentroidalState,
    contact: FullCentroidalContactSchedule,
    refs: Seq<FullCentroidalReference>,
    sols: Seq<FullCentroidalMpcSolution>,
) -> bool {
    &&& refs.len() == sols.len()
    &&& forall|i: int|
        0 <= i < sols.len() ==> call_ensures(
            one_iter,
            (&state_now, &refs[i], &contact),
            #[trigger] sols[i],
        )
    &&& forall|i: int|
        0 <= i < sols.len() - 1 ==> refs[i + 1]@ == (if (#[trigger] sols[i]).solved {
            sols[i].trajectory()
        } else {
            refs[i]@
        })
}

/// `one_iter` accepts references and schedules over a horizon of `n` steps and
/// answers with a solution over the horizon.
pub open spec fn solves_horizon<F: Fn(
    &FullCentroidalState,
    &FullCentroidalReference,
    &FullCentroidalContactSchedule,
) -> FullCentroidalMpcSolution>(one_iter: F, n: int) -> bool {
    &&& forall|s: FullCentroidalState, at: FullCentroidalReference, c: FullCentroidalContactSchedule|
        at.spans(n) && c.spans(n) ==> #[trigger] call_requires(one_iter, (&s, &at, &c))
    &&& forall|
        s: FullCentroidalState,
        at: FullCentroidalReference,
        c: FullCentroidalContactSchedule,
        sol: FullCentroidalMpcSolution,
    |
        at.spans(n) && c.spans(n) && #[trigger] call_ensures(one_iter, (&s, &at, &c), sol)
            ==> sol.spans(n)
}

/// `sol` ends a run of the configured number of iterations that starts from the
/// initial reference.
pub open spec fn is_solution<F: Fn(
    &FullCentroidalState,
    &FullCentroidalReference,
    &FullCentroidalContactSchedule,
) -> FullCentroidalMpcSolution>(
    one_iter: F,
    mpc: FullCentroidalMpc,
    state_now: FullCentroidalState,
    reference: FullCentroidalReference,
    contact: FullCentroidalContactSchedule,
    sol: FullCentroidalMpcSolution,
) -> bool {
    exists|refs: Seq<FullCentroidalReference>, sols: Seq<FullCentroidalMpcSolution>|
        {
            &&& #[trigger] is_sqp_run(one_iter, state_now, contact, refs, sols)
            &&& sols.len() == iteration_count(mpc.cfg)
            &&& refs[0]@ == initial_reference(mpc, reference, mpc.cfg.horizon_steps as int)
            &&& sol == sols.last()
        }
}

/// The cached trajectory after a solve: the solution when warm starting and
/// solved, else what it was.
pub open spec fn caches(
    before: FullCentroidalMpc,
    sol: FullCentroidalMpcSolution,
    after: FullCentroidalMpc,
) -> bool {
    &&& after.cfg == before.cfg
    &&& before.cfg.warm_start && sol.solved ==> after.warm_start_cache is Some
        && after.warm_start_cache->0@ == sol.trajectory()
    &&& !(before.cfg.warm_start && sol.solved) ==> after.warm_start_cache
        == before.warm_start_cache
}

impl FullCentroidalMpc {
    /// A controller that has not solved yet.
    pub fn new(cfg: FullCentroidalMpcConfig) -> (r: FullCentroidalMpc)
        ensures
            r.cfg == cfg,
            r.warm_start_cache is None,
    {
        FullCentroidalMpc { cfg, warm_start_cache: None }
    }

    /// The parameters.
    pub fn config(&self) -> (r: &FullCentroidalMpcConfig)
        ensures
            *r == self.cfg,
    {
        &self.cfg
    }

    /// The controller with other parameters: the cached trajectory is kept only
    /// over the same horizon.
    pub open spec fn with_config(self, cfg: FullCentroidalMpcConfig) -> FullCentroidalMpc {
        FullCentroidalMpc {
            cfg,
            warm_start_cache: if cfg.horizon_steps == self.cfg.horizon_steps {
                self.warm_start_cache
            } else {
                None
            },
        }
    }

    /// Replaces the parameters; another horizon length drops the cached trajectory.
    pub fn set_config(&mut self, cfg: FullCentroidalMpcConfig)
        ensures
            *final(self) == old(self).with_config(cfg),
    {
        if cfg.horizon_steps != self.cfg.horizon_steps {
            self.warm_start_cache = None;
        }
        self.cfg = cfg;
    }

    /// Drops the cached trajectory, so that the next solve starts cold.
    pub fn clear_warm_start(&mut self)
        ensures
            final(self).warm_start_cache is None,
            final(self).cfg == old(self).cfg,
    {
        self.warm_start_cache = None;
    }

    /// Reference of the first iteration.
    pub fn warm_start_initial_ref(&self, caller_ref: &FullCentroidalReference, n: usize) -> (r:
        FullCentroidalReference)
        ensures
            r@ == initial_reference(*self, *caller_ref, n as int),
            caller_ref.spans(n as int) ==> r.spans(n as int),
    {
        if !self.cfg.warm_start {
            return caller_ref.clone();
        }
        match &self.warm_start_cache {
            None => caller_ref.clone(),
            Some(prev) => {
                if prev.states.len() != n || prev.inputs.len() != n {
                    return caller_ref.clone();
                }
                let mut states: Vec<FullCentroidalState> = Vec::new();
                let mut inputs: Vec<FullCentroidalInput> = Vec::new();
                let mut k: usize = 0;
                while k < n
                    invariant
                        k <= n,
                        prev.spans(n as int),
                        states@ == shifted(prev.states@).subrange(0, k as int),
                        inputs@ == shifted(prev.inputs@).subrange(0, k as int),
                    decreases n - k,
                {
                    let src: usize = if k + 1 < n { k + 1 } else { n - 1 };
                    states.push(prev.states[src]);
                    inputs.push(prev.inputs[src]);
                    k += 1;
                    assert(states@ =~= shifted(prev.states@).subrange(0, k as int));
                    assert(inputs@ =~= shifted(prev.inputs@).subrange(0, k as int));
                }
                assert(states@ =~= shifted(prev.states@));
                assert(inputs@ =~= shifted(prev.inputs@));
                FullCentroidalReference { states, inputs }
            },
        }
    }

    /// Solves the horizon by repeated linearisation.
    ///
    /// `one_iter` linearises at a reference, assembles the program and solves
    /// it. Each solved iteration becomes the reference of the next. The result
    /// is that of the last iteration; when warm starting it is cached if solved.
    pub fn solve<F: Fn(
        &FullCentroidalState,
        &FullCentroidalReference,
        &FullCentroidalContactSchedule,
    ) -> FullCentroidalMpcSolution>(
        &mut self,
        state_now: FullCentroidalState,
        reference: &FullCentroidalReference,
        contact: &FullCentroidalContactSchedule,
        one_iter: F,
    ) -> (r: FullCentroidalMpcSolution)
        requires
            reference.spans(old(self).cfg.horizon_steps as int),
            contact.spans(old(self).cfg.horizon_steps as int),
            solves_horizon(one_iter, old(self).cfg.horizon_steps as int),
        ensures
            is_solution(one_iter, *old(self), state_now, *reference, *contact, r),
            r.spans(old(self).cfg.horizon_steps as int),
            caches(*old(self), r, *final(self)),
    {
        let n: usize = self.cfg.horizon_steps;
        let n_iter: usize = if self.cfg.sqp_iterations == 0 { 1 } else { self.cfg.sqp_iterations };
        let mut ref_traj = self.warm_start_initial_ref(reference, n);
        let ghost start = ref_traj@;
        let mut sol = one_iter(&state_now, &ref_traj, contact);
        let ghost mut refs = seq![ref_traj];
        let ghost mut sols = seq![sol];
        let mut done: usize = 1;
        while done < n_iter
            invariant
                1 <= done <= n_iter,
                ref_traj.spans(n as int),
                sol.spans(n as int),
                contact.spans(n as int),
                solves_horizon(one_iter, n as int),
                is_sqp_run(one_iter, state_now, *contact, refs, sols),
                sols.len() == done,
                refs[0]@ == start,
                refs.last() == ref_traj,
                sols.last() == sol,
            decreases n_iter - done,
        {
            if sol.solved {
                ref_traj = FullCentroidalReference {
                    states: copy_states(&sol.predicted_states),
                    inputs: copy_inputs(&sol.inputs_all_steps),
                };
            }
            let ghost refs0 = refs;
            let ghost sols0 = sols;
            sol = one_iter(&state_now, &ref_traj, contact);
            proof {
                refs = refs.push(ref_traj);
                sols = sols.push(sol);
                assert forall|i: int| 0 <= i < sols.len() - 1 implies refs[i + 1]@ == (
                if (#[trigger] sols[i]).solved {
                    sols[i].trajectory()
                } else {
                    refs[i]@
                }) by {
                    if i < sols0.len() - 1 {
                        assert(sols0[i] == sols[i]);
                    }
                }
                assert forall|i: int| 0 <= i < sols.len() implies call_ensures(
                    one_iter,
                    (&state_now, &refs[i], contact),
                    #[trigger] sols[i],
                ) by {
                    if i < sols0.len() {
                        assert(sols0[i] == sols[i]);
                    }
                }
            }
            done += 1;
        }
        if self.cfg.warm_start && sol.solved {
            self.warm_start_cache = Some(FullCentroidalReference {
                states: copy_states(&sol.predicted_states),
                inputs: copy_inputs(&sol.inputs_all_steps),
            });
        }
        sol
    }
}

/// Without warm starting a solve does not depend on earlier ones: the first
/// reference is always the caller's.
pub proof fn cold_start_uses_the_caller_reference(
    mpc: FullCentroidalMpc,
    caller: FullCentroidalReference,
    n: int,
)
    requires
        !mpc.cfg.warm_start || mpc.warm_start_cache is None,
    ensures
        initial_reference(mpc, caller, n) == caller@,
{
}

/// After a warm-started solve, the next one starts from its trajectory moved on
/// by one step, as long as the horizon is the same.
pub proof fn warm_start_follows_the_last_solution(
    mpc: FullCentroidalMpc,
    caller: FullCentroidalReference,
    last: FullCentroidalMpcSolution,
    n: int,
)
    requires
        mpc.cfg.warm_start,
        mpc.warm_start_cache is Some,
        mpc.warm_start_cache->0@ == last.trajectory(),
        last.spans(n),
    ensures
        initial_reference(mpc, caller, n) == (
            shifted(last.predicted_states@),
            shifted(last.inputs_all_steps@),
        ),
{
}

} // verus!
