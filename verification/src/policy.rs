//! Input and output of a learned locomotion policy.
//!
//! The policy maps an observation of 45 single-precision values to 12 joint
//! position offsets. It groups the joints by type (hips, thighs, calves, each
//! FL, FR, RL, RR); the robot groups them by leg (FR, FL, RR, RL, each hip, thigh,
//! calf). The observation holds, in this order: angular velocity (3), projected
//! gravity (3), velocity command (3), joint positions less the default (12),
//! joint velocities (12), and the previous action (12).

use vstd::prelude::*;
use crate::arith::{deterministic, difference, product, sum, Arithmetic};
use crate::ik::TWO_BITS;
use crate::scalar::{one, zero, Scalar};
use crate::single::{
    narrowed, single_deterministic, single_difference, single_product, single_root, single_sum,
    widened, Single, SingleArithmetic,
};

verus! {

/// Length of an observation.
pub const N_OBS: usize = 45;

/// Length of an action.
pub const N_ACT: usize = 12;

/// Bits of the inference rate (Hz).
pub const POLICY_HZ_BITS: u64 = 0x4049_0000_0000_0000;

/// Motor of the robot for each joint of the policy.
pub const ISAAC_TO_GO2: [usize; 12] = [3, 0, 9, 6, 4, 1, 10, 7, 5, 2, 11, 8];

/// Joint of the policy for each motor of the robot.
pub const GO2_TO_ISAAC: [usize; 12] = [1, 5, 9, 0, 4, 8, 3, 7, 11, 2, 6, 10];

/// Bits of the default joint positions, in the order of the policy (rad).
pub const DEFAULT_ISAAC_BITS: [u64; 12] = [
    0x3FB9_9999_9999_999A, 0xBFB9_9999_9999_999A, 0x3FB9_9999_9999_999A, 0xBFB9_9999_9999_999A,
    0x3FE9_9999_9999_999A, 0x3FE9_9999_9999_999A, 0x3FF0_0000_0000_0000, 0x3FF0_0000_0000_0000,
    0xBFF8_0000_0000_0000, 0xBFF8_0000_0000_0000, 0xBFF8_0000_0000_0000, 0xBFF8_0000_0000_0000,
];

/// Bits of the scale of an action.
pub const ACTION_SCALE_BITS: u64 = 0x3FE0_0000_0000_0000;

/// Bits of the proportional gain the policy was trained with.
pub const POLICY_KP_BITS: u32 = 0x41C8_0000;

/// Bits of the derivative gain the policy was trained with.
pub const POLICY_KD_BITS: u32 = 0x3F00_0000;

/// Bits of the range of the forward velocity command (m/s).
pub const CMD_VX_RANGE_BITS: (u64, u64) = (0xBFD3_3333_3333_3333, 0x3FE3_3333_3333_3333);

/// Bits of the range of the lateral velocity command (m/s).
pub const CMD_VY_RANGE_BITS: (u64, u64) = (0xBFD3_3333_3333_3333, 0x3FD3_3333_3333_3333);

/// Bits of the range of the yaw rate command (rad/s).
pub const CMD_WZ_RANGE_BITS: (u64, u64) = (0xBFE0_0000_0000_0000, 0x3FE0_0000_0000_0000);

/// Bits of the limits of hip, thigh and calf (rad).
pub const JOINT_LIMITS_BITS: [(u64, u64); 3] = [
    (0xBFF0_C154_C985_F06F, 0x3FF0_C154_C985_F06F),
    (0xBFF9_21FF_2E48_E8A7, 0x400B_ECF4_1F21_2D77),
    (0xC005_C816_F006_8DB9, 0xBFEA_CEEE_0F3C_B3E5),
];

/// Bits of minus two.
pub const MINUS_TWO_BITS: u64 = 0xC000_0000_0000_0000;

/// What the observation is built from, in the conventions of the robot.
#[derive(Clone, Copy, Debug, PartialEq, Eq)]
pub struct ObsInput {
    /// Angular velocity, body frame (rad/s).
    pub gyro_rad_s: [Single; 3],
    /// Orientation `w, x, y, z`, from body to world.
    pub quat_wxyz: [Single; 4],
    /// Joint positions in motor order (rad).
    pub joint_q_go2: [Single; 12],
    /// Joint velocities in motor order (rad/s).
    pub joint_dq_go2: [Single; 12],
}

impl Default for ObsInput {
    fn default() -> (r: ObsInput)
        ensures
            forall|i: int| 0 <= i < 3 ==> (#[trigger] r.gyro_rad_s@[i]).bits == 0,
            forall|i: int| 0 <= i < 4 ==> (#[trigger] r.quat_wxyz@[i]).bits == 0,
            forall|i: int| 0 <= i < 12 ==> (#[trigger] r.joint_q_go2@[i]).bits == 0,
            forall|i: int| 0 <= i < 12 ==> (#[trigger] r.joint_dq_go2@[i]).bits == 0,
    {
        let z = Single { bits: 0 };
        ObsInput {
            gyro_rad_s: [z, z, z],
            quat_wxyz: [z, z, z, z],
            joint_q_go2: [z, z, z, z, z, z, z, z, z, z, z, z],
            joint_dq_go2: [z, z, z, z, z, z, z, z, z, z, z, z],
        }
    }
}

/// The two joint orders are inverse to each other.
pub proof fn joint_orders_are_inverse(i: int)
    requires
        0 <= i < 12,
    ensures
        0 <= ISAAC_TO_GO2@[i] < 12,
        0 <= GO2_TO_ISAAC@[i] < 12,
        GO2_TO_ISAAC@[ISAAC_TO_GO2@[i] as int] == i,
        ISAAC_TO_GO2@[GO2_TO_ISAAC@[i] as int] == i,
{
    assert(i == 0 || i == 1 || i == 2 || i == 3 || i == 4 || i == 5 || i == 6 || i == 7 || i == 8
        || i == 9 || i == 10 || i == 11);
}

/// Gravity as a unit vector in the body frame: minus the third row of the
/// rotation of the orientation.
pub open spec fn gravity<A: Arithmetic, B: SingleArithmetic>(ar: &A, sa: &B, q: Seq<Single>) -> Seq<
    Single,
> {
    let w = widened(sa, q[0]);
    let x = widened(sa, q[1]);
    let y = widened(sa, q[2]);
    let z = widened(sa, q[3]);
    let two = Scalar { bits: TWO_BITS };
    seq![
        narrowed(
            sa,
            product(ar, two, difference(ar, product(ar, w, y), product(ar, x, z))),
        ),
        narrowed(
            sa,
            product(
                ar,
                Scalar { bits: MINUS_TWO_BITS },
                sum(ar, product(ar, y, z), product(ar, w, x)),
            ),
        ),
        narrowed(
            sa,
            difference(
                ar,
                product(ar, two, sum(ar, product(ar, x, x), product(ar, y, y))),
                one(),
            ),
        ),
    ]
}

fn gravity_of<A: Arithmetic, B: SingleArithmetic>(ar: &A, sa: &B, q: &[Single; 4]) -> (r: [Single; 3])
    ensures
        deterministic(ar) && single_deterministic(sa) ==> r@ == gravity(ar, sa, q@),
{
    let w = sa.widen(q[0]);
    let x = sa.widen(q[1]);
    let y = sa.widen(q[2]);
    let z = sa.widen(q[3]);
    let two = Scalar { bits: TWO_BITS };
    let gx = sa.narrow(ar.times(two, ar.minus(ar.times(w, y), ar.times(x, z))));
    let gy = sa.narrow(
        ar.times(Scalar { bits: MINUS_TWO_BITS }, ar.plus(ar.times(y, z), ar.times(w, x))),
    );
    let gz = sa.narrow(
        ar.minus(ar.times(two, ar.plus(ar.times(x, x), ar.times(y, y))), one()),
    );
    let r = [gx, gy, gz];
    assert(deterministic(ar) && single_deterministic(sa) ==> r@ =~= gravity(ar, sa, q@));
    r
}

/// The observation is a plain copy of the angular velocity and of the joint
/// velocities, the latter in the order of the policy.
pub open spec fn copies_measured(inp: ObsInput, obs: Seq<Single>) -> bool {
    &&& forall|k: int| 0 <= k < 3 ==> #[trigger] obs[k] == inp.gyro_rad_s@[k]
    &&& forall|i: int|
        0 <= i < 12 ==> obs[21 + i] == #[trigger] inp.joint_dq_go2@[ISAAC_TO_GO2@[i] as int]
}

/// The computed parts of the observation.
pub open spec fn computes<A: Arithmetic, B: SingleArithmetic>(
    ar: &A,
    sa: &B,
    inp: ObsInput,
    cmd: Seq<Scalar>,
    last_action: Seq<Scalar>,
    obs: Seq<Single>,
) -> bool {
    &&& obs.subrange(3, 6) == gravity(ar, sa, inp.quat_wxyz@)
    &&& forall|k: int| 0 <= k < 3 ==> obs[6 + k] == narrowed(sa, #[trigger] cmd[k])
    &&& forall|i: int|
        0 <= i < 12 ==> obs[9 + i] == single_difference(
            sa,
            inp.joint_q_go2@[ISAAC_TO_GO2@[i] as int],
            narrowed(sa, Scalar { bits: #[trigger] DEFAULT_ISAAC_BITS@[i] }),
        )
    &&& forall|i: int| 0 <= i < 12 ==> obs[33 + i] == narrowed(sa, #[trigger] last_action[i])
}

/// Builds the observation.
pub fn build_obs<A: Arithmetic, B: SingleArithmetic>(
    ar: &A,
    sa: &B,
    inp: &ObsInput,
    cmd: &[Scalar; 3],
    last_action: &[Scalar; 12],
) -> (r: Vec<Single>)
    ensures
        r@.len() == N_OBS,
        copies_measured(*inp, r@),
        deterministic(ar) && single_deterministic(sa) ==> computes(
            ar,
            sa,
            *inp,
            cmd@,
            last_action@,
            r@,
        ),
{
    let mut obs: Vec<Single> = Vec::new();
    obs.push(inp.gyro_rad_s[0]);
    obs.push(inp.gyro_rad_s[1]);
    obs.push(inp.gyro_rad_s[2]);
    let g = gravity_of(ar, sa, &inp.quat_wxyz);
    obs.push(g[0]);
    obs.push(g[1]);
    obs.push(g[2]);
    obs.push(sa.narrow(cmd[0]));
    obs.push(sa.narrow(cmd[1]));
    obs.push(sa.narrow(cmd[2]));
    let ghost head = obs@;
    let mut i: usize = 0;
    while i < 12
        invariant
            i <= 12,
            head.len() == 9,
            obs@.len() == 9 + i,
            forall|k: int| 0 <= k < 9 ==> #[trigger] obs@[k] == head[k],
            single_deterministic(sa) ==> forall|k: int|
                0 <= k < i ==> obs@[9 + k] == single_difference(
                    sa,
                    inp.joint_q_go2@[ISAAC_TO_GO2@[k] as int],
                    narrowed(sa, Scalar { bits: #[trigger] DEFAULT_ISAAC_BITS@[k] }),
                ),
        decreases 12 - i,
    {
        proof {
            joint_orders_are_inverse(i as int);
        }
        let d = sa.narrow(Scalar { bits: DEFAULT_ISAAC_BITS[i] });
        obs.push(sa.single_minus(inp.joint_q_go2[ISAAC_TO_GO2[i]], d));
        i += 1;
    }
    let ghost placed = obs@;
    let mut j: usize = 0;
    while j < 12
        invariant
            j <= 12,
            placed.len() == 21,
            obs@.len() == 21 + j,
            forall|k: int| 0 <= k < 21 ==> #[trigger] obs@[k] == placed[k],
            forall|k: int|
                0 <= k < j ==> obs@[21 + k]
                    == #[trigger] inp.joint_dq_go2@[ISAAC_TO_GO2@[k] as int],
        decreases 12 - j,
    {
        proof {
            joint_orders_are_inverse(j as int);
        }
        obs.push(inp.joint_dq_go2[ISAAC_TO_GO2[j]]);
        j += 1;
    }
    let ghost moving = obs@;
    let mut m: usize = 0;
    while m < 12
        invariant
            m <= 12,
            moving.len() == 33,
            obs@.len() == 33 + m,
            forall|k: int| 0 <= k < 33 ==> #[trigger] obs@[k] == moving[k],
            single_deterministic(sa) ==> forall|k: int|
                0 <= k < m ==> obs@[33 + k] == narrowed(sa, #[trigger] last_action@[k]),
        decreases 12 - m,
    {
        obs.push(sa.narrow(last_action[m]));
        m += 1;
    }
    proof {
        assert(forall|k: int| 0 <= k < 9 ==> #[trigger] obs@[k] == head[k]) by {
            assert forall|k: int| 0 <= k < 9 implies #[trigger] obs@[k] == head[k] by {
                assert(moving[k] == placed[k]);
                assert(placed[k] == head[k]);
            }
        }
        assert forall|k: int| 0 <= k < 12 implies obs@[21 + k]
            == #[trigger] inp.joint_dq_go2@[ISAAC_TO_GO2@[k] as int] by {
            assert(obs@[21 + k] == moving[21 + k]);
        }
        if deterministic(ar) && single_deterministic(sa) {
            assert forall|k: int| 0 <= k < 12 implies obs@[9 + k] == single_difference(
                sa,
                inp.joint_q_go2@[ISAAC_TO_GO2@[k] as int],
                narrowed(sa, Scalar { bits: #[trigger] DEFAULT_ISAAC_BITS@[k] }),
            ) by {
                assert(obs@[9 + k] == moving[9 + k]);
                assert(moving[9 + k] == placed[9 + k]);
            }
            assert(obs@.subrange(3, 6) =~= g@);
        }
    }
    obs
}

/// A command clamped to the ranges the policy was trained on.
pub open spec fn clamped_cmd(c: Seq<Scalar>) -> Seq<Scalar> {
    seq![
        c[0].clamp_spec(
            Scalar { bits: CMD_VX_RANGE_BITS.0 },
            Scalar { bits: CMD_VX_RANGE_BITS.1 },
        ),
        c[1].clamp_spec(
            Scalar { bits: CMD_VY_RANGE_BITS.0 },
            Scalar { bits: CMD_VY_RANGE_BITS.1 },
        ),
        c[2].clamp_spec(
            Scalar { bits: CMD_WZ_RANGE_BITS.0 },
            Scalar { bits: CMD_WZ_RANGE_BITS.1 },
        ),
    ]
}

/// Clamps a command to the ranges the policy was trained on.
pub fn clamp_cmd(c: [Scalar; 3]) -> (r: [Scalar; 3])
    ensures
        r@ == clamped_cmd(c@),
{
    let r = [
        c[0].clamp(Scalar { bits: CMD_VX_RANGE_BITS.0 }, Scalar { bits: CMD_VX_RANGE_BITS.1 }),
        c[1].clamp(Scalar { bits: CMD_VY_RANGE_BITS.0 }, Scalar { bits: CMD_VY_RANGE_BITS.1 }),
        c[2].clamp(Scalar { bits: CMD_WZ_RANGE_BITS.0 }, Scalar { bits: CMD_WZ_RANGE_BITS.1 }),
    ];
    assert(r@ =~= clamped_cmd(c@));
    r
}

/// Clamping a command twice is clamping it once.
pub proof fn clamping_a_command_is_idempotent(c: Seq<Scalar>)
    ensures
        clamped_cmd(clamped_cmd(c)) == clamped_cmd(c),
{
    assert(clamped_cmd(clamped_cmd(c)) =~= clamped_cmd(c));
}

/// Lower limit of a motor.
pub open spec fn lower_limit(g: int) -> Scalar {
    Scalar { bits: JOINT_LIMITS_BITS@[g % 3].0 }
}

/// Upper limit of a motor.
pub open spec fn upper_limit(g: int) -> Scalar {
    Scalar { bits: JOINT_LIMITS_BITS@[g % 3].1 }
}

/// Joint target of the policy before limits: the default plus the scaled action.
pub open spec fn offset_target<A: Arithmetic>(ar: &A, i: int, a: Scalar) -> Scalar {
    sum(
        ar,
        Scalar { bits: DEFAULT_ISAAC_BITS@[i] },
        product(ar, Scalar { bits: ACTION_SCALE_BITS }, a),
    )
}

/// The limits of every motor are in order.
proof fn limits_are_ordered(g: int)
    requires
        0 <= g < 12,
    ensures
        lower_limit(g).le_spec(upper_limit(g)),
{
    assert(g % 3 == 0 || g % 3 == 1 || g % 3 == 2);
}

fn motor_target<A: Arithmetic>(ar: &A, i: usize, a: Scalar) -> (r: Scalar)
    requires
        i < 12,
    ensures
        r.is_nan_spec() || (lower_limit(ISAAC_TO_GO2@[i as int] as int).le_spec(r) && r.le_spec(
            upper_limit(ISAAC_TO_GO2@[i as int] as int),
        )),
        deterministic(ar) ==> r == offset_target(ar, i as int, a).clamp_spec(
            lower_limit(ISAAC_TO_GO2@[i as int] as int),
            upper_limit(ISAAC_TO_GO2@[i as int] as int),
        ),
{
    proof {
        joint_orders_are_inverse(i as int);
        limits_are_ordered(ISAAC_TO_GO2@[i as int] as int);
    }
    let q = ar.plus(
        Scalar { bits: DEFAULT_ISAAC_BITS[i] },
        ar.times(Scalar { bits: ACTION_SCALE_BITS }, a),
    );
    let g: usize = ISAAC_TO_GO2[i];
    let limits = JOINT_LIMITS_BITS[g % 3];
    q.clamp(Scalar { bits: limits.0 }, Scalar { bits: limits.1 })
}

/// Joint targets in motor order for an action of the policy, within the limits of
/// the motors.
pub fn action_to_q_des_go2<A: Arithmetic>(ar: &A, action_isaac: &[Scalar; 12]) -> (r: [Scalar; 12])
    ensures
        forall|g: int|
            0 <= g < 12 ==> (#[trigger] r@[g]).is_nan_spec() || (lower_limit(g).le_spec(r@[g])
                && r@[g].le_spec(upper_limit(g))),
        deterministic(ar) ==> forall|g: int|
            0 <= g < 12 ==> #[trigger] r@[g] == offset_target(
                ar,
                GO2_TO_ISAAC@[g] as int,
                action_isaac@[GO2_TO_ISAAC@[g] as int],
            ).clamp_spec(lower_limit(g), upper_limit(g)),
{
    let z = zero();
    let mut q = [z, z, z, z, z, z, z, z, z, z, z, z];
    let mut g: usize = 0;
    while g < 12
        invariant
            g <= 12,
            forall|k: int|
                0 <= k < g ==> (#[trigger] q@[k]).is_nan_spec() || (lower_limit(k).le_spec(q@[k])
                    && q@[k].le_spec(upper_limit(k))),
            deterministic(ar) ==> forall|k: int|
                0 <= k < g ==> #[trigger] q@[k] == offset_target(
                    ar,
                    GO2_TO_ISAAC@[k] as int,
                    action_isaac@[GO2_TO_ISAAC@[k] as int],
                ).clamp_spec(lower_limit(k), upper_limit(k)),
        decreases 12 - g,
    {
        proof {
            joint_orders_are_inverse(g as int);
        }
        let i: usize = GO2_TO_ISAAC[g];
        q[g] = motor_target(ar, i, action_isaac[i]);
        g += 1;
    }
    q
}

/// Why an inference failed before or after the model ran.
#[derive(Clone, Copy, Debug, PartialEq, Eq, Structural)]
pub enum ShapeError {
    /// The observation has a wrong length.
    ObsLength {
        /// Its length.
        got: usize,
    },
    /// The output has a wrong length.
    OutputLength {
        /// Its length.
        got: usize,
    },
}

/// Whether an observation can be handed to the model.
pub fn check_obs(obs: &Vec<Single>) -> (r: Result<(), ShapeError>)
    ensures
        r == (if obs@.len() == N_OBS {
            Ok(())
        } else {
            Err(ShapeError::ObsLength { got: obs@.len() as usize })
        }),
{
    if obs.len() != N_OBS {
        Err(ShapeError::ObsLength { got: obs.len() })
    } else {
        Ok(())
    }
}

/// The action in what the model gave, in double precision.
pub fn read_action<B: SingleArithmetic>(sa: &B, out: &Vec<Single>) -> (r: Result<
    [Scalar; 12],
    ShapeError,
>)
    ensures
        out@.len() != N_ACT ==> r == Err::<[Scalar; 12], ShapeError>(
            ShapeError::OutputLength { got: out@.len() as usize },
        ),
        out@.len() == N_ACT ==> r is Ok,
        r is Ok && single_deterministic(sa) ==> forall|i: int|
            0 <= i < 12 ==> #[trigger] r->Ok_0@[i] == widened(sa, out@[i]),
{
    if out.len() != N_ACT {
        return Err(ShapeError::OutputLength { got: out.len() });
    }
    let z = zero();
    let mut action = [z, z, z, z, z, z, z, z, z, z, z, z];
    let mut i: usize = 0;
    while i < 12
        invariant
            i <= 12,
            out@.len() == 12,
            single_deterministic(sa) ==> forall|k: int|
                0 <= k < i ==> #[trigger] action@[k] == widened(sa, out@[k]),
        decreases 12 - i,
    {
        action[i] = sa.widen(out[i]);
        i += 1;
    }
    Ok(action)
}

/// Bits of 0.7, the least length of a plausible gravity.
pub const GRAVITY_MIN_BITS: u32 = 0x3F33_3333;

/// Bits of 1.3, the largest length of a plausible gravity.
pub const GRAVITY_MAX_BITS: u32 = 0x3FA6_6666;

/// Bits of the largest plausible angular velocity (rad/s).
pub const GYRO_MAX_BITS: u32 = 0x4170_0000;

/// Bits of the largest plausible joint offset (rad).
pub const JOINT_OFFSET_MAX_BITS: u32 = 0x3FE6_6666;

/// Bits of the largest plausible joint velocity (rad/s).
pub const JOINT_VEL_MAX_BITS: u32 = 0x420C_0000;

/// Some value from `a` to before `b` exceeds a limit in size.
pub open spec fn any_exceeds(obs: Seq<Single>, a: int, b: int, limit: u32) -> bool {
    exists|k: int| a <= k < b && (#[trigger] obs[k]).exceeds_spec(Single { bits: limit })
}

/// Some value is infinite or NaN.
pub open spec fn any_not_finite(obs: Seq<Single>) -> bool {
    exists|k: int| 0 <= k < obs.len() && !(#[trigger] obs[k]).is_finite_spec()
}

/// Length of the gravity in an observation.
pub open spec fn gravity_norm<B: SingleArithmetic>(sa: &B, obs: Seq<Single>) -> Single {
    single_root(
        sa,
        single_sum(
            sa,
            single_sum(
                sa,
                single_product(sa, obs[3], obs[3]),
                single_product(sa, obs[4], obs[4]),
            ),
            single_product(sa, obs[5], obs[5]),
        ),
    )
}

/// The names of `yes` checks.
pub open spec fn flag(yes: bool, name: &'static str) -> Seq<&'static str> {
    if yes {
        seq![name]
    } else {
        seq![]
    }
}

/// The checks an observation of the right length violates, given the length of
/// its gravity.
pub open spec fn violated(obs: Seq<Single>, g: Single) -> Seq<&'static str> {
    flag(any_not_finite(obs), "non_finite") + flag(
        !((Single { bits: GRAVITY_MIN_BITS }).le_spec(g) && g.le_spec(
            Single { bits: GRAVITY_MAX_BITS },
        )),
        "gravity_not_unit",
    ) + flag(any_exceeds(obs, 0, 3, GYRO_MAX_BITS), "gyro_out_of_range") + flag(
        any_exceeds(obs, 9, 21, JOINT_OFFSET_MAX_BITS),
        "joint_pos_offset_large",
    ) + flag(any_exceeds(obs, 21, 33, JOINT_VEL_MAX_BITS), "joint_vel_large")
}

fn exceeds_in(obs: &Vec<Single>, a: usize, b: usize, limit: u32) -> (r: bool)
    requires
        a <= b <= obs@.len(),
    ensures
        r == any_exceeds(obs@, a as int, b as int, limit),
{
    let mut k: usize = a;
    while k < b
        invariant
            a <= k <= b <= obs@.len(),
            forall|m: int|
                a <= m < k ==> !(#[trigger] obs@[m]).exceeds_spec(Single { bits: limit }),
        decreases b - k,
    {
        if obs[k].exceeds(Single { bits: limit }) {
            return true;
        }
        k += 1;
    }
    false
}

fn has_not_finite(obs: &Vec<Single>) -> (r: bool)
    ensures
        r == any_not_finite(obs@),
{
    let mut k: usize = 0;
    while k < obs.len()
        invariant
            k <= obs@.len(),
            forall|m: int| 0 <= m < k ==> (#[trigger] obs@[m]).is_finite_spec(),
        decreases obs@.len() - k,
    {
        if !obs[k].is_finite() {
            return true;
        }
        k += 1;
    }
    false
}

fn note(v: &mut Vec<&'static str>, yes: bool, name: &'static str)
    ensures
        final(v)@ == old(v)@ + flag(yes, name),
{
    if yes {
        v.push(name);
    }
    assert(v@ =~= old(v)@ + flag(yes, name));
}

/// The checks for plausibility an observation violates.
pub fn obs_anomalies<B: SingleArithmetic>(sa: &B, obs: &Vec<Single>) -> (r: Vec<&'static str>)
    ensures
        obs@.len() != N_OBS ==> r@ == seq!["bad_len"],
        obs@.len() == N_OBS ==> exists|g: Single| r@ == #[trigger] violated(obs@, g),
        obs@.len() == N_OBS && single_deterministic(sa) ==> r@ == violated(
            obs@,
            gravity_norm(sa, obs@),
        ),
{
    let mut v: Vec<&'static str> = Vec::new();
    if obs.len() != N_OBS {
        v.push("bad_len");
        assert(v@ =~= seq!["bad_len"]);
        return v;
    }
    let xx = sa.single_times(obs[3], obs[3]);
    let yy = sa.single_times(obs[4], obs[4]);
    let zz = sa.single_times(obs[5], obs[5]);
    let g = sa.single_sqrt(sa.single_plus(sa.single_plus(xx, yy), zz));
    let unit = (Single { bits: GRAVITY_MIN_BITS }).le(g) && g.le(Single { bits: GRAVITY_MAX_BITS });
    let bad = has_not_finite(obs);
    note(&mut v, bad, "non_finite");
    note(&mut v, !unit, "gravity_not_unit");
    let fast = exceeds_in(obs, 0, 3, GYRO_MAX_BITS);
    note(&mut v, fast, "gyro_out_of_range");
    let far = exceeds_in(obs, 9, 21, JOINT_OFFSET_MAX_BITS);
    note(&mut v, far, "joint_pos_offset_large");
    let quick = exceeds_in(obs, 21, 33, JOINT_VEL_MAX_BITS);
    note(&mut v, quick, "joint_vel_large");
    assert(v@ =~= violated(obs@, g));
    v
}

} // verus!
