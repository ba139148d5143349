//! Gait controller with the full-centroidal predictive controller in the loop:
//! its state and settings.

use vstd::prelude::*;
use crate::arith::{deterministic, product, sum, Arithmetic};
use crate::body_state::BodyState;
use crate::bound_reference::BoundTrimConfig;
use crate::closed_loop::{are_stance_torques, stance_grf_torques, Tuning};
use crate::config::{
    slot_of, GaitConfig, GaitType, KinematicsConfig, KneePattern, LegId, VelocityCmd, HALF_BITS,
};
use crate::controller::{foot_jacobian, steady, ControllerOutput, LegModel};
use crate::full_centroidal_mpc::{
    FullCentroidalMpc, FullCentroidalMpcConfig, FullCentroidalMpcSolution, N_FEET,
};
use crate::full_centroidal_tick::is_compat;
use crate::goal::GoalPoseWorld;
use crate::ik::{leg_ik, solve_leg_ik};
use crate::mpc_solution::MpcSolution;
use crate::scalar::{infinity, minus_one, one, zero, Mat3, Scalar, Vec3};

verus! {

/// Shaping of the gait beyond its configuration.
#[derive(Clone, Copy, Debug, PartialEq, Eq, Structural)]
pub struct GaitShaping {
    /// Duty of the rear pair when it differs from the configured one.
    pub rear_duty: Option<Scalar>,
    /// Whether the footholds of a pair are made symmetric.
    pub symmetric_foothold: bool,
    /// Whether the trim also sets the vertical reference.
    pub trim_vertical_reference: bool,
    /// Net forward force added to the force reference (N).
    pub fx_thrust_bias: Scalar,
    /// Share of that force on the rear pair.
    pub fx_thrust_rear_frac: Scalar,
    /// Scale of the rear step length limit.
    pub rear_step_scale: Scalar,
}

impl GaitShaping {
    /// No shaping: the same for both pairs and no added force.
    #[verifier::allow_in_spec]
    pub fn plain() -> GaitShaping
        returns
            (GaitShaping {
                rear_duty: None,
                symmetric_foothold: false,
                trim_vertical_reference: false,
                fx_thrust_bias: zero(),
                fx_thrust_rear_frac: Scalar { bits: HALF_BITS },
                rear_step_scale: one(),
            }),
    {
        GaitShaping {
            rear_duty: None,
            symmetric_foothold: false,
            trim_vertical_reference: false,
            fx_thrust_bias: zero(),
            fx_thrust_rear_frac: Scalar { bits: HALF_BITS },
            rear_step_scale: one(),
        }
    }
}

/// Joint velocity cost in task space.
#[derive(Clone, Copy, Debug, PartialEq, Eq)]
pub struct TaskSpaceWeight {
    /// Foot Jacobian of each leg at its nominal pose.
    pub jacobians: [Mat3; 4],
    /// Weight along each axis.
    pub weights: [Scalar; 3],
}

/// Gait controller with the full-centroidal predictive controller in the loop.
#[derive(Debug)]
pub struct FullCentroidalMpcGaitController {
    /// Gait parameters.
    pub cfg: GaitConfig,
    /// Shaping beyond the gait parameters.
    pub shaping: GaitShaping,
    /// Leg geometry.
    pub kin: KinematicsConfig,
    /// Body pose.
    pub body_state: BodyState,
    /// Velocity command.
    pub cmd: VelocityCmd,
    /// Whether each knee bends forward, in slot order.
    pub knee_forward: [bool; 4],
    /// Tuning.
    pub tuning: Tuning,
    /// Capture-point gain (s).
    pub k_capture: Scalar,
    /// Slope of the steep branch of the capture feedback.
    pub k_capture_pulse: Scalar,
    /// Velocity error below which the steep branch is off (m/s).
    pub v_capture_deadband: Scalar,
    /// Fore-aft placement gain of a bound (s).
    pub bound_fore_aft_placement_gain: Scalar,
    /// Filtered fore-aft velocity (m/s).
    pub v_fore_aft_filtered: Scalar,
    /// Observed linear velocity, world frame (m/s).
    pub v_observed_world: Vec3,
    /// Observed angular velocity, world frame (rad/s).
    pub omega_observed_world: Vec3,
    /// Observed roll (rad).
    pub roll_observed: Scalar,
    /// Observed pitch (rad).
    pub pitch_observed: Scalar,
    /// Foothold shift per pitch error (m/rad).
    pub bound_pitch_placement_gain: Scalar,
    /// Foothold shift per pitch rate error (m s/rad).
    pub bound_pitch_rate_placement_gain: Scalar,
    /// Time constant of the drift blocker on that shift (s); zero for none.
    pub bound_pitch_placement_dc_tau: Scalar,
    /// Tabulated reference orbit: rows of phase, height, pitch, forward,
    /// vertical and pitch velocity, by ascending phase.
    pub bound_tabulated_reference: Option<Vec<[Scalar; 6]>>,
    /// Slow part of the foothold shift (m).
    pub pitch_placement_shift_dc: Scalar,
    /// Foothold shift of this tick (m).
    pub pitch_placement_shift: Scalar,
    /// Predictive controller.
    pub full_centroidal_mpc: FullCentroidalMpc,
    /// Latest solution.
    pub last_solution: Option<FullCentroidalMpcSolution>,
    /// Latest solution in the shared shape.
    pub last_solution_compat: Option<MpcSolution>,
    /// Time since the last solve (s).
    pub mpc_solve_accumulator_s: Scalar,
    /// Touch-down locked at the start of each leg's swing, body frame.
    pub swing_locked_touch_down_body: [Option<Vec3>; N_FEET],
    /// Whether each leg was in stance at the previous tick.
    pub prev_leg_is_stance: [bool; N_FEET],
    /// Whether the contact schedule follows the projected phase of each leg.
    pub legged_control_parity: bool,
    /// Whether the joint reference is the nominal pose (with parity).
    pub parity_use_nominal_q_ref: bool,
    /// Goal the command is derived from.
    pub goal_pose: Option<GoalPoseWorld>,
    /// Whether footholds follow the predicted base.
    pub use_mpc_predicted_footstep: bool,
    /// Whether the joint reference follows the planned feet (with parity).
    pub dynamic_joint_q_reference: bool,
    /// Whether a bound tracks the closed-form trim.
    pub enable_bound_trim_reference: bool,
    /// Fraction of the trim force that is used.
    pub bound_trim_thrust_scale: Scalar,
    /// Velocity ripple that sizes the trim force.
    pub bound_trim_velocity_ripple_fraction: Option<Scalar>,
    /// Joint velocity cost in task space.
    pub joint_vel_task: Option<TaskSpaceWeight>,
    /// Whether the momentum of moving joints is modelled.
    pub true_centroidal_coupling: bool,
    /// Whether solves run in the background.
    pub async_mpc: bool,
}

/// The parameters of the predictive controller after the gait parameters
/// changed: the mirrored switches are copied, and the foothold weight is on only
/// with optimised footsteps.
pub open spec fn mirrored(mpc: FullCentroidalMpcConfig, cfg: GaitConfig) -> FullCentroidalMpcConfig {
    FullCentroidalMpcConfig {
        friction_cone_soft: cfg.friction_cone_soft,
        friction_cone_slack_penalty: cfg.friction_cone_slack_penalty,
        warm_start: cfg.warm_start,
        q_foot_xy_world: if cfg.mpc_optimized_footstep {
            cfg.q_foot_xy_world
        } else {
            zero()
        },
        ..mpc
    }
}

impl FullCentroidalMpcGaitController {
    /// The latest solution and its shared shape stand together: both or neither,
    /// and the second is the first in the shared shape.
    pub open spec fn predictions_agree(self) -> bool {
        match self.last_solution {
            Some(sol) => self.last_solution_compat is Some && is_compat(
                sol,
                self.last_solution_compat->0,
            ),
            None => self.last_solution_compat is None,
        }
    }

    /// A controller that has not solved yet, with every setting at its default;
    /// command and knees are left open.
    pub open spec fn is_fresh(self, cfg: GaitConfig, kin: KinematicsConfig, tuning: Tuning) -> bool {
        &&& self.cfg == cfg
        &&& self.kin == kin
        &&& self.shaping == GaitShaping::plain()
        &&& self.tuning == tuning
        &&& self.body_state == BodyState::new()
        &&& self.k_capture == tuning.capture_gain_s
        &&& self.k_capture_pulse == zero()
        &&& self.v_capture_deadband == zero()
        &&& self.bound_fore_aft_placement_gain == zero()
        &&& self.v_fore_aft_filtered == zero()
        &&& self.v_observed_world == Vec3::zeros()
        &&& self.omega_observed_world == Vec3::zeros()
        &&& self.roll_observed == zero()
        &&& self.pitch_observed == zero()
        &&& self.bound_pitch_placement_gain == zero()
        &&& self.bound_pitch_rate_placement_gain == zero()
        &&& self.bound_pitch_placement_dc_tau == zero()
        &&& self.bound_tabulated_reference is None
        &&& self.pitch_placement_shift_dc == zero()
        &&& self.pitch_placement_shift == zero()
        &&& self.full_centroidal_mpc.warm_start_cache is None
        &&& self.last_solution is None
        &&& self.last_solution_compat is None
        &&& self.mpc_solve_accumulator_s == infinity()
        &&& forall|slot: int| 0 <= slot < 4 ==> self.swing_locked_touch_down_body@[slot] is None
        &&& self.prev_leg_is_stance@ == seq![true, true, true, true]
        &&& !self.legged_control_parity
        &&& !self.parity_use_nominal_q_ref
        &&& self.goal_pose is None
        &&& !self.use_mpc_predicted_footstep
        &&& !self.dynamic_joint_q_reference
        &&& !self.enable_bound_trim_reference
        &&& self.bound_trim_thrust_scale == one()
        &&& self.bound_trim_velocity_ripple_fraction is None
        &&& self.joint_vel_task is None
        &&& !self.true_centroidal_coupling
        &&& !self.async_mpc
        &&& self.full_centroidal_mpc.cfg.is_default(kin)
    }

    /// A controller at rest that has not solved yet; its first tick solves.
    pub fn new(cfg: GaitConfig, kin: KinematicsConfig, tuning: Tuning) -> (r:
        FullCentroidalMpcGaitController)
        ensures
            r.predictions_agree(),
            r.is_fresh(cfg, kin, tuning),
            r.cmd == VelocityCmd::zero(),
            r.knee_forward@ == seq![false, false, false, false],
    {
        let mpc_cfg = FullCentroidalMpcConfig::default_with_kin(kin.clone());
        FullCentroidalMpcGaitController {
            cfg,
            shaping: GaitShaping::plain(),
            kin,
            body_state: BodyState::new(),
            cmd: VelocityCmd::zero(),
            knee_forward: [false, false, false, false],
            tuning,
            k_capture: tuning.capture_gain_s,
            k_capture_pulse: zero(),
            v_capture_deadband: zero(),
            bound_fore_aft_placement_gain: zero(),
            v_fore_aft_filtered: zero(),
            v_observed_world: Vec3::zeros(),
            omega_observed_world: Vec3::zeros(),
            roll_observed: zero(),
            pitch_observed: zero(),
            bound_pitch_placement_gain: zero(),
            bound_pitch_rate_placement_gain: zero(),
            bound_pitch_placement_dc_tau: zero(),
            bound_tabulated_reference: None,
            pitch_placement_shift_dc: zero(),
            pitch_placement_shift: zero(),
            full_centroidal_mpc: FullCentroidalMpc::new(mpc_cfg),
            last_solution: None,
            last_solution_compat: None,
            mpc_solve_accumulator_s: infinity(),
            swing_locked_touch_down_body: [None, None, None, None],
            prev_leg_is_stance: [true, true, true, true],
            legged_control_parity: false,
            parity_use_nominal_q_ref: false,
            goal_pose: None,
            use_mpc_predicted_footstep: false,
            dynamic_joint_q_reference: false,
            enable_bound_trim_reference: false,
            bound_trim_thrust_scale: one(),
            bound_trim_velocity_ripple_fraction: None,
            joint_vel_task: None,
            true_centroidal_coupling: false,
            async_mpc: false,
        }
    }

    /// Switches background solving.
    pub fn set_async_mpc(&mut self, enabled: bool)
        ensures
            old(self).predictions_agree() ==> final(self).predictions_agree(),
            *final(self) == (FullCentroidalMpcGaitController { async_mpc: enabled, ..*old(self) }),
    {
        self.async_mpc = enabled;
    }

    /// Whether footholds follow the predicted base.
    pub fn use_mpc_predicted_footstep(&self) -> (r: bool)
        ensures
            r == self.use_mpc_predicted_footstep,
    {
        self.use_mpc_predicted_footstep
    }

    /// Switches footholds that follow the predicted base.
    pub fn set_use_mpc_predicted_footstep(&mut self, enable: bool)
        ensures
            old(self).predictions_agree() ==> final(self).predictions_agree(),
            *final(self) == (FullCentroidalMpcGaitController {
                use_mpc_predicted_footstep: enable,
                ..*old(self)
            }),
    {
        self.use_mpc_predicted_footstep = enable;
    }

    /// Whether the contact schedule follows the projected phases.
    pub fn legged_control_parity(&self) -> (r: bool)
        ensures
            r == self.legged_control_parity,
    {
        self.legged_control_parity
    }

    /// Switches the projected contact schedule, and with it the swing velocity
    /// constraint of the predictive controller.
    pub fn set_legged_control_parity(&mut self, enable: bool)
        ensures
            old(self).predictions_agree() ==> final(self).predictions_agree(),
            *final(self) == (FullCentroidalMpcGaitController {
                legged_control_parity: enable,
                full_centroidal_mpc: FullCentroidalMpc {
                    cfg: FullCentroidalMpcConfig {
                        enable_swing_normal_velocity_constraint: enable,
                        ..old(self).full_centroidal_mpc.cfg
                    },
                    ..old(self).full_centroidal_mpc
                },
                ..*old(self)
            }),
    {
        self.legged_control_parity = enable;
        let mut mpc_cfg = self.full_centroidal_mpc.config().clone();
        mpc_cfg.enable_swing_normal_velocity_constraint = enable;
        self.full_centroidal_mpc.set_config(mpc_cfg);
    }

    /// Whether the joint reference is the nominal pose.
    pub fn parity_use_nominal_q_ref(&self) -> (r: bool)
        ensures
            r == self.parity_use_nominal_q_ref,
    {
        self.parity_use_nominal_q_ref
    }

    /// Switches the nominal joint reference.
    pub fn set_parity_use_nominal_q_ref(&mut self, enable: bool)
        ensures
            old(self).predictions_agree() ==> final(self).predictions_agree(),
            *final(self) == (FullCentroidalMpcGaitController {
                parity_use_nominal_q_ref: enable,
                ..*old(self)
            }),
    {
        self.parity_use_nominal_q_ref = enable;
    }

    /// Whether the joint reference follows the planned feet.
    pub fn dynamic_joint_q_reference(&self) -> (r: bool)
        ensures
            r == self.dynamic_joint_q_reference,
    {
        self.dynamic_joint_q_reference
    }

    /// Switches the joint reference that follows the planned feet.
    pub fn set_dynamic_joint_q_reference(&mut self, enable: bool)
        ensures
            old(self).predictions_agree() ==> final(self).predictions_agree(),
            *final(self) == (FullCentroidalMpcGaitController {
                dynamic_joint_q_reference: enable,
                ..*old(self)
            }),
    {
        self.dynamic_joint_q_reference = enable;
    }

    /// The task-space joint velocity weight, if set.
    pub fn task_space_joint_vel_weight(&self) -> (r: Option<[Scalar; 3]>)
        ensures
            r is Some <==> self.joint_vel_task is Some,
            r is Some ==> r->0 == self.joint_vel_task->0.weights,
    {
        match &self.joint_vel_task {
            Some(t) => Some(t.weights),
            None => None,
        }
    }

    fn nominal_jacobian<A: Arithmetic, S: LegModel>(&self, ar: &A, model: &S, leg: LegId) -> (r: Mat3)
        ensures
            deterministic(ar) && steady(model) ==> r == self.jacobian_at_nominal(ar, model, leg),
    {
        let kin = self.kin.leg(leg);
        let sol = solve_leg_ik(ar, kin, kin.nominal_foot_body, self.knee_forward[slot_of(leg)]);
        let q = sol.angles();
        model.jacobian(kin, q.0, q.1, q.2)
    }

    /// The foot Jacobian of a leg at its nominal pose.
    pub open spec fn jacobian_at_nominal<A: Arithmetic, S: LegModel>(
        self,
        ar: &A,
        model: &S,
        leg: LegId,
    ) -> Mat3 {
        let kin = self.kin.of(leg);
        let q = leg_ik(
            ar,
            kin,
            kin.nominal_foot_body,
            self.knee_forward@[leg.slot()],
        ).joint_angles();
        foot_jacobian(model, kin, q.0, q.1, q.2)
    }

    /// Sets or clears the task-space joint velocity weight, with the Jacobians
    /// at the nominal pose of each leg.
    pub fn set_task_space_joint_vel_weight<A: Arithmetic, S: LegModel>(
        &mut self,
        ar: &A,
        model: &S,
        r_taskspace: Option<[Scalar; 3]>,
    )
        ensures
            old(self).predictions_agree() ==> final(self).predictions_agree(),
            *final(self) == (FullCentroidalMpcGaitController {
                joint_vel_task: final(self).joint_vel_task,
                ..*old(self)
            }),
            final(self).joint_vel_task is Some <==> r_taskspace is Some,
            r_taskspace is Some ==> final(self).joint_vel_task->0.weights == r_taskspace->0,
            r_taskspace is Some && deterministic(ar) && steady(model) ==> forall|slot: int|
                0 <= slot < 4 ==> final(self).joint_vel_task->0.jacobians@[slot] == old(
                    self).jacobian_at_nominal(ar, model, LegId::at_slot(slot)),
    {
        match r_taskspace {
            Some(weights) => {
                let fl = self.nominal_jacobian(ar, model, LegId::FL);
                let fr = self.nominal_jacobian(ar, model, LegId::FR);
                let rl = self.nominal_jacobian(ar, model, LegId::RL);
                let rr = self.nominal_jacobian(ar, model, LegId::RR);
                self.joint_vel_task = Some(TaskSpaceWeight { jacobians: [fl, fr, rl, rr], weights });
            },
            None => {
                self.joint_vel_task = None;
            },
        }
    }

    /// Whether the momentum of moving joints is modelled.
    pub fn true_centroidal_coupling(&self) -> (r: bool)
        ensures
            r == self.true_centroidal_coupling,
    {
        self.true_centroidal_coupling
    }

    /// Switches the model of the momentum of moving joints.
    pub fn set_true_centroidal_coupling(&mut self, enable: bool)
        ensures
            old(self).predictions_agree() ==> final(self).predictions_agree(),
            *final(self) == (FullCentroidalMpcGaitController {
                true_centroidal_coupling: enable,
                ..*old(self)
            }),
    {
        self.true_centroidal_coupling = enable;
    }

    /// Whether a bound tracks the closed-form trim.
    pub fn bound_trim_reference(&self) -> (r: bool)
        ensures
            r == self.enable_bound_trim_reference,
    {
        self.enable_bound_trim_reference
    }

    /// Switches the closed-form trim.
    pub fn set_bound_trim_reference(&mut self, enable: bool)
        ensures
            old(self).predictions_agree() ==> final(self).predictions_agree(),
            *final(self) == (FullCentroidalMpcGaitController {
                enable_bound_trim_reference: enable,
                ..*old(self)
            }),
    {
        self.enable_bound_trim_reference = enable;
    }

    /// The fraction of the trim force that is used.
    pub fn bound_trim_thrust_scale(&self) -> (r: Scalar)
        ensures
            r == self.bound_trim_thrust_scale,
    {
        self.bound_trim_thrust_scale
    }

    /// Sets the fraction of the trim force, within zero and one.
    pub fn set_bound_trim_thrust_scale(&mut self, thrust_scale: Scalar)
        ensures
            old(self).predictions_agree() ==> final(self).predictions_agree(),
            *final(self) == (FullCentroidalMpcGaitController {
                bound_trim_thrust_scale: thrust_scale.clamp_spec(zero(), one()),
                ..*old(self)
            }),
    {
        self.bound_trim_thrust_scale = thrust_scale.clamp(zero(), one());
    }

    /// The velocity ripple that sizes the trim force.
    pub fn bound_trim_velocity_ripple_fraction(&self) -> (r: Option<Scalar>)
        ensures
            r == self.bound_trim_velocity_ripple_fraction,
    {
        self.bound_trim_velocity_ripple_fraction
    }

    /// Sets the velocity ripple that sizes the trim force.
    pub fn set_bound_trim_velocity_ripple_fraction(&mut self, fraction: Option<Scalar>)
        ensures
            old(self).predictions_agree() ==> final(self).predictions_agree(),
            *final(self) == (FullCentroidalMpcGaitController {
                bound_trim_velocity_ripple_fraction: fraction,
                ..*old(self)
            }),
    {
        self.bound_trim_velocity_ripple_fraction = fraction;
    }

    /// The goal the command is derived from.
    pub fn goal_pose_world(&self) -> (r: Option<GoalPoseWorld>)
        ensures
            r == self.goal_pose,
    {
        self.goal_pose
    }

    /// Derives the command from a goal from now on.
    pub fn set_goal_pose_world(&mut self, goal: GoalPoseWorld)
        ensures
            old(self).predictions_agree() ==> final(self).predictions_agree(),
            *final(self) == (FullCentroidalMpcGaitController {
                goal_pose: Some(goal),
                ..*old(self)
            }),
    {
        self.goal_pose = Some(goal);
    }

    /// Drops the goal.
    pub fn clear_goal_pose(&mut self)
        ensures
            old(self).predictions_agree() ==> final(self).predictions_agree(),
            *final(self) == (FullCentroidalMpcGaitController { goal_pose: None, ..*old(self) }),
    {
        self.goal_pose = None;
    }

    /// The latest solution in the shared shape.
    pub fn predicted_grfs(&self) -> (r: Option<&MpcSolution>)
        ensures
            r is Some <==> self.last_solution_compat is Some,
            r is Some ==> *r->0 == self.last_solution_compat->0,
    {
        self.last_solution_compat.as_ref()
    }

    /// The latest solution.
    pub fn predicted_full_centroidal_solution(&self) -> (r: Option<&FullCentroidalMpcSolution>)
        ensures
            r is Some <==> self.last_solution is Some,
            r is Some ==> *r->0 == self.last_solution->0,
    {
        self.last_solution.as_ref()
    }

    /// Replaces the parameters of the predictive controller; another horizon
    /// length drops its cached trajectory.
    pub fn set_full_centroidal_mpc_config(&mut self, cfg: FullCentroidalMpcConfig)
        ensures
            old(self).predictions_agree() ==> final(self).predictions_agree(),
            *final(self) == (FullCentroidalMpcGaitController {
                full_centroidal_mpc: old(self).full_centroidal_mpc.with_config(cfg),
                ..*old(self)
            }),
    {
        self.full_centroidal_mpc.set_config(cfg);
    }

    /// The parameters of the predictive controller.
    pub fn full_centroidal_mpc_config(&self) -> (r: &FullCentroidalMpcConfig)
        ensures
            *r == self.full_centroidal_mpc.cfg,
    {
        self.full_centroidal_mpc.config()
    }

    /// The body pose.
    pub fn body_state(&self) -> (r: &BodyState)
        ensures
            *r == self.body_state,
    {
        &self.body_state
    }

    /// The velocity command.
    pub fn velocity_cmd(&self) -> (r: VelocityCmd)
        ensures
            r == self.cmd,
    {
        self.cmd
    }

    /// Sets the velocity command and drops the goal.
    pub fn set_velocity_cmd(&mut self, cmd: VelocityCmd)
        ensures
            old(self).predictions_agree() ==> final(self).predictions_agree(),
            *final(self) == (FullCentroidalMpcGaitController {
                cmd,
                goal_pose: None,
                ..*old(self)
            }),
    {
        self.cmd = cmd;
        self.goal_pose = None;
    }

    /// The gait parameters.
    pub fn config(&self) -> (r: &GaitConfig)
        ensures
            *r == self.cfg,
    {
        &self.cfg
    }

    /// Sets the cycle period, at least 0.05 s.
    pub fn set_cycle_period_s(&mut self, period_s: Scalar)
        ensures
            old(self).predictions_agree() ==> final(self).predictions_agree(),
            *final(self) == (FullCentroidalMpcGaitController {
                cfg: GaitConfig {
                    cycle_period_s: period_s.max_spec(
                        Scalar { bits: crate::config::FLOOR_BITS },
                    ),
                    ..old(self).cfg
                },
                ..*old(self)
            }),
    {
        self.cfg.cycle_period_s = period_s.max(Scalar { bits: crate::config::FLOOR_BITS });
    }

    /// Sets the step length limit, not negative.
    pub fn set_max_step_length_m(&mut self, m: Scalar)
        ensures
            old(self).predictions_agree() ==> final(self).predictions_agree(),
            *final(self) == (FullCentroidalMpcGaitController {
                cfg: GaitConfig { max_step_length_m: m.max_spec(zero()), ..old(self).cfg },
                ..*old(self)
            }),
    {
        self.cfg.max_step_length_m = m.max(zero());
    }

    /// The predictive controller after the gait parameters changed: the shared
    /// switches are mirrored, and turning warm starts off drops the cached
    /// trajectory.
    pub open spec fn mirrored_mpc(self, cfg: GaitConfig) -> FullCentroidalMpc {
        let mpc = self.full_centroidal_mpc;
        FullCentroidalMpc {
            cfg: mirrored(mpc.cfg, cfg),
            warm_start_cache: if mpc.cfg.warm_start && !cfg.warm_start {
                None
            } else {
                mpc.warm_start_cache
            },
        }
    }

    /// Replaces the gait parameters and mirrors the switches the predictive
    /// controller shares. Turning warm starts off drops the cached trajectory.
    pub fn set_config(&mut self, cfg: GaitConfig)
        ensures
            old(self).predictions_agree() ==> final(self).predictions_agree(),
            *final(self) == (FullCentroidalMpcGaitController {
                cfg,
                full_centroidal_mpc: old(self).mirrored_mpc(cfg),
                ..*old(self)
            }),
    {
        self.cfg = cfg;
        let mut mpc_cfg = self.full_centroidal_mpc.config().clone();
        mpc_cfg.friction_cone_soft = self.cfg.friction_cone_soft;
        mpc_cfg.friction_cone_slack_penalty = self.cfg.friction_cone_slack_penalty;
        let was_on = mpc_cfg.warm_start;
        mpc_cfg.warm_start = self.cfg.warm_start;
        mpc_cfg.q_foot_xy_world = if self.cfg.mpc_optimized_footstep {
            self.cfg.q_foot_xy_world
        } else {
            zero()
        };
        self.full_centroidal_mpc.set_config(mpc_cfg);
        if was_on && !self.cfg.warm_start {
            self.full_centroidal_mpc.clear_warm_start();
        }
    }

    /// The leg geometry.
    pub fn kinematics(&self) -> (r: &KinematicsConfig)
        ensures
            *r == self.kin,
    {
        &self.kin
    }

    /// Replaces the leg geometry, here and in the predictive controller.
    pub fn set_kinematics(&mut self, kin: KinematicsConfig)
        ensures
            old(self).predictions_agree() ==> final(self).predictions_agree(),
            *final(self) == (FullCentroidalMpcGaitController {
                kin,
                full_centroidal_mpc: FullCentroidalMpc {
                    cfg: FullCentroidalMpcConfig {
                        kinematics: kin,
                        ..old(self).full_centroidal_mpc.cfg
                    },
                    ..old(self).full_centroidal_mpc
                },
                ..*old(self)
            }),
    {
        let mut mpc_cfg = self.full_centroidal_mpc.config().clone();
        mpc_cfg.kinematics = kin.clone();
        self.full_centroidal_mpc.set_config(mpc_cfg);
        self.kin = kin;
    }

    /// Whether each knee bends forward, in slot order.
    pub fn knee_forward(&self) -> (r: [bool; 4])
        ensures
            r == self.knee_forward,
    {
        self.knee_forward
    }

    /// Sets the bend of one knee.
    pub fn set_knee_forward(&mut self, leg: LegId, forward: bool)
        ensures
            old(self).predictions_agree() ==> final(self).predictions_agree(),
            final(self).knee_forward@ == old(self).knee_forward@.update(leg.slot(), forward),
            *final(self) == (FullCentroidalMpcGaitController {
                knee_forward: final(self).knee_forward,
                ..*old(self)
            }),
    {
        self.knee_forward[slot_of(leg)] = forward;
    }

    /// Sets the bend of all knees.
    pub fn set_knee_pattern(&mut self, pattern: KneePattern)
        ensures
            old(self).predictions_agree() ==> final(self).predictions_agree(),
            final(self).knee_forward@ == seq![
                pattern.front_forward(),
                pattern.front_forward(),
                pattern.rear_forward(),
                pattern.rear_forward(),
            ],
            *final(self) == (FullCentroidalMpcGaitController {
                knee_forward: final(self).knee_forward,
                ..*old(self)
            }),
    {
        self.knee_forward = pattern.to_knee_forward();
        assert(self.knee_forward@ =~= seq![
            pattern.front_forward(),
            pattern.front_forward(),
            pattern.rear_forward(),
            pattern.rear_forward(),
        ]);
    }

    /// The pattern of the left legs.
    pub fn knee_pattern(&self) -> (r: KneePattern)
        ensures
            r == KneePattern::with_bends(self.knee_forward@[0], self.knee_forward@[2]),
    {
        KneePattern::from_knee_forward(self.knee_forward)
    }

    /// The capture-point gain (s).
    pub fn capture_point_gain(&self) -> (r: Scalar)
        ensures
            r == self.k_capture,
    {
        self.k_capture
    }

    /// Sets the capture-point gain, not negative.
    pub fn set_capture_point_gain(&mut self, k: Scalar)
        ensures
            old(self).predictions_agree() ==> final(self).predictions_agree(),
            *final(self) == (FullCentroidalMpcGaitController {
                k_capture: k.max_spec(zero()),
                ..*old(self)
            }),
    {
        self.k_capture = k.max(zero());
    }

    /// The fore-aft placement gain of a bound (s).
    pub fn bound_fore_aft_placement_gain(&self) -> (r: Scalar)
        ensures
            r == self.bound_fore_aft_placement_gain,
    {
        self.bound_fore_aft_placement_gain
    }

    /// Sets the fore-aft placement gain, not negative.
    pub fn set_bound_fore_aft_placement_gain(&mut self, k: Scalar)
        ensures
            old(self).predictions_agree() ==> final(self).predictions_agree(),
            *final(self) == (FullCentroidalMpcGaitController {
                bound_fore_aft_placement_gain: k.max_spec(zero()),
                ..*old(self)
            }),
    {
        self.bound_fore_aft_placement_gain = k.max(zero());
    }

    /// Sets the foothold shifts per pitch and pitch rate error, of either sign.
    pub fn set_bound_pitch_placement_gain(&mut self, k_angle: Scalar, k_rate: Scalar)
        ensures
            old(self).predictions_agree() ==> final(self).predictions_agree(),
            *final(self) == (FullCentroidalMpcGaitController {
                bound_pitch_placement_gain: k_angle,
                bound_pitch_rate_placement_gain: k_rate,
                ..*old(self)
            }),
    {
        self.bound_pitch_placement_gain = k_angle;
        self.bound_pitch_rate_placement_gain = k_rate;
    }

    /// Sets the time constant of the drift blocker, not negative.
    pub fn set_bound_pitch_placement_dc_tau(&mut self, tau: Scalar)
        ensures
            old(self).predictions_agree() ==> final(self).predictions_agree(),
            *final(self) == (FullCentroidalMpcGaitController {
                bound_pitch_placement_dc_tau: tau.max_spec(zero()),
                ..*old(self)
            }),
    {
        self.bound_pitch_placement_dc_tau = tau.max(zero());
    }

    /// Sets the tabulated orbit; one with fewer than two rows clears it.
    pub fn set_bound_tabulated_reference(&mut self, table: Option<Vec<[Scalar; 6]>>)
        ensures
            old(self).predictions_agree() ==> final(self).predictions_agree(),
            *final(self) == (FullCentroidalMpcGaitController {
                bound_tabulated_reference: if table is Some && table->0@.len() >= 2 {
                    table
                } else {
                    None
                },
                ..*old(self)
            }),
    {
        self.bound_tabulated_reference = match table {
            Some(t) => if t.len() >= 2 {
                Some(t)
            } else {
                None
            },
            None => None,
        };
    }

    /// Slope and deadband of the steep branch of the capture feedback.
    pub fn capture_point_pulse(&self) -> (r: (Scalar, Scalar))
        ensures
            r == (self.k_capture_pulse, self.v_capture_deadband),
    {
        (self.k_capture_pulse, self.v_capture_deadband)
    }

    /// Sets slope and deadband of the steep branch, neither negative.
    pub fn set_capture_point_pulse(&mut self, k_pulse: Scalar, v_db: Scalar)
        ensures
            old(self).predictions_agree() ==> final(self).predictions_agree(),
            *final(self) == (FullCentroidalMpcGaitController {
                k_capture_pulse: k_pulse.max_spec(zero()),
                v_capture_deadband: v_db.max_spec(zero()),
                ..*old(self)
            }),
    {
        self.k_capture_pulse = k_pulse.max(zero());
        self.v_capture_deadband = v_db.max(zero());
    }

    /// Takes the observed velocities.
    pub fn set_body_state_observed(&mut self, v_world: Vec3, omega_world: Vec3)
        ensures
            old(self).predictions_agree() ==> final(self).predictions_agree(),
            *final(self) == (FullCentroidalMpcGaitController {
                v_observed_world: v_world,
                omega_observed_world: omega_world,
                ..*old(self)
            }),
    {
        self.v_observed_world = v_world;
        self.omega_observed_world = omega_world;
    }

    /// Takes the observed pose.
    pub fn set_body_pose_observed(&mut self, world_yaw: Scalar, world_position: Vec3)
        ensures
            old(self).predictions_agree() ==> final(self).predictions_agree(),
            *final(self) == (FullCentroidalMpcGaitController {
                body_state: BodyState { world_position, world_yaw },
                ..*old(self)
            }),
    {
        self.body_state = BodyState { world_position, world_yaw };
    }

    /// Takes the observed roll and pitch.
    pub fn set_body_attitude_observed(&mut self, roll: Scalar, pitch: Scalar)
        ensures
            old(self).predictions_agree() ==> final(self).predictions_agree(),
            *final(self) == (FullCentroidalMpcGaitController {
                roll_observed: roll,
                pitch_observed: pitch,
                ..*old(self)
            }),
    {
        self.roll_observed = roll;
        self.pitch_observed = pitch;
    }

    /// Back to the start: pose at the origin, no command, no solution, no locked
    /// touch-downs. Settings, goal and observations stay.
    pub fn reset(&mut self)
        ensures
            final(self).predictions_agree(),
            *final(self) == (FullCentroidalMpcGaitController {
                body_state: BodyState::new(),
                cmd: VelocityCmd::zero(),
                last_solution: None,
                last_solution_compat: None,
                mpc_solve_accumulator_s: infinity(),
                swing_locked_touch_down_body: [None, None, None, None],
                prev_leg_is_stance: [true, true, true, true],
                ..*old(self)
            }),
    {
        self.body_state = BodyState::new();
        self.cmd = VelocityCmd::zero();
        self.last_solution = None;
        self.last_solution_compat = None;
        self.mpc_solve_accumulator_s = infinity();
        self.swing_locked_touch_down_body = [None, None, None, None];
        self.prev_leg_is_stance = [true, true, true, true];
    }

    /// The closed-form trim in use: for a bound under way, with the switch on.
    pub open spec fn trim<A: Arithmetic>(self, ar: &A) -> Option<BoundTrimConfig> {
        if self.enable_bound_trim_reference && self.cfg.gait_type == GaitType::Bound
            && !self.cmd.is_still() {
            let mpc = self.full_centroidal_mpc.cfg;
            Some(
                BoundTrimConfig {
                    mass_kg: mpc.mass_kg,
                    inertia_yy: mpc.centroidal_inertia_body.y.y,
                    r_x: product(
                        ar,
                        Scalar { bits: HALF_BITS },
                        sum(
                            ar,
                            self.kin.fl.nominal_foot_body.x,
                            self.kin.rl.nominal_foot_body.x.neg_spec(),
                        ),
                    ),
                    h0: self.kin.fl.nominal_foot_body.z.neg_spec(),
                    cycle_period_s: self.cfg.cycle_period_s,
                    duty_factor: self.cfg.duty_factor,
                    friction_mu: mpc.friction_mu,
                    sign: minus_one(),
                    thrust_scale: self.bound_trim_thrust_scale,
                    cmd_vx_mps: self.cmd.vx,
                    velocity_ripple_fraction: self.bound_trim_velocity_ripple_fraction,
                },
            )
        } else {
            None
        }
    }

    /// The closed-form trim in use: for a bound under way, with the switch on.
    pub fn bound_trim_config<A: Arithmetic>(&self, ar: &A) -> (r: Option<BoundTrimConfig>)
        ensures
            r is Some <==> self.enable_bound_trim_reference && self.cfg.gait_type
                == GaitType::Bound && !self.cmd.is_still(),
            deterministic(ar) ==> r == self.trim(ar),
    {
        if !(self.enable_bound_trim_reference && self.cfg.gait_type == GaitType::Bound
            && !self.cmd.is_zero()) {
            return None;
        }
        let mpc = self.full_centroidal_mpc.config();
        let arms = ar.plus(
            self.kin.fl.nominal_foot_body.x,
            self.kin.rl.nominal_foot_body.x.neg(),
        );
        Some(
            BoundTrimConfig {
                mass_kg: mpc.mass_kg,
                inertia_yy: mpc.centroidal_inertia_body.y.y,
                r_x: ar.times(Scalar { bits: HALF_BITS }, arms),
                h0: self.kin.fl.nominal_foot_body.z.neg(),
                cycle_period_s: self.cfg.cycle_period_s,
                duty_factor: self.cfg.duty_factor,
                friction_mu: mpc.friction_mu,
                sign: minus_one(),
                thrust_scale: self.bound_trim_thrust_scale,
                cmd_vx_mps: self.cmd.vx,
                velocity_ripple_fraction: self.bound_trim_velocity_ripple_fraction,
            },
        )
    }
}

/// Handing gait parameters down to the predictive controller leaves its swing
/// velocity constraint and its horizon alone, and doing it twice is doing it
/// once.
pub proof fn handing_down_is_idempotent(mpc: FullCentroidalMpcConfig, cfg: GaitConfig)
    ensures
        mirrored(mpc, cfg).enable_swing_normal_velocity_constraint
            == mpc.enable_swing_normal_velocity_constraint,
        mirrored(mpc, cfg).horizon_steps == mpc.horizon_steps,
        mirrored(mirrored(mpc, cfg), cfg) == mirrored(mpc, cfg),
{
}

impl FullCentroidalMpcGaitController {
    /// Feedforward torques of the stance legs from the latest solution.
    pub fn stance_grf_torques<A: Arithmetic, S: LegModel>(
        &self,
        ar: &A,
        model: &S,
        output: &ControllerOutput,
    ) -> (r: [Option<[Scalar; 3]>; 4])
        ensures
            are_stance_torques(
                ar,
                model,
                self.kin,
                self.body_state.world_yaw,
                self.tuning.stance_grf_min,
                self.last_solution_compat,
                *output,
                r@,
            ),
    {
        stance_grf_torques(
            ar,
            model,
            &self.kin,
            self.body_state.world_yaw,
            self.tuning.stance_grf_min,
            &self.last_solution_compat,
            output,
        )
    }
}

} // verus!
