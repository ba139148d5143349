//! Gait controller with the centroidal predictive controller in the loop.

use vstd::prelude::*;
use crate::arith::{
    deterministic, product, vec_difference, vec_minus, vec_plus, vec_scaled, vec_sum, vec_times,
    Arithmetic,
};
use crate::body_state::{followed, BodyState};
use crate::centroidal_mpc::{
    advanced, end_of_step, is_solution, solves_horizon, CentroidalContactSchedule,
    CentroidalFootOffsets, CentroidalMpc, CentroidalMpcConfig, CentroidalMpcSolution,
    CentroidalProblem, CentroidalReference, CentroidalState,
};
use crate::closed_loop::{
    are_stance_torques, body_to_world_horizontal, horizon_weight, keep, kept, stance_grf_torques,
    to_body, to_world,
    world_to_body_horizontal, Tuning,
};
use crate::config::{
    slot_of, GaitConfig, KinematicsConfig, KneePattern, LegId, LegKinematics, VelocityCmd,
    HALF_BITS,
};
use crate::controller::{
    covers_legs, effective_swing_height, find_phase, foot_target, leg_output, make_leg_output,
    phase_of, steady, swing_height, ControllerOutput, LegModel, LegOutput, PhaseState,
};
use crate::footstep::{hip_velocity, hip_velocity_of, shorten, shortened, Footstep};
use crate::mpc_solution::{copy_forces, MpcSolution, SrbdState};
use crate::scalar::{infinity, one, zero, Scalar, Vec3};

verus! {

/// Gait controller with the centroidal predictive controller in the loop.
#[derive(Debug)]
pub struct CentroidalMpcGaitController {
    /// Gait parameters.
    pub cfg: GaitConfig,
    /// Leg geometry.
    pub kin: KinematicsConfig,
    /// Body pose.
    pub body_state: BodyState,
    /// Velocity command.
    pub cmd: VelocityCmd,
    /// Whether each knee bends forward, in slot order.
    pub knee_forward: [bool; 4],
    /// Tuning.
    pub tuning: Tuning,
    /// Capture-point gain (s).
    pub k_capture: Scalar,
    /// Observed linear velocity, world frame (m/s).
    pub v_observed_world: Vec3,
    /// Observed angular velocity, world frame (rad/s).
    pub omega_observed_world: Vec3,
    /// Predictive controller.
    pub centroidal_mpc: CentroidalMpc,
    /// Latest solution.
    pub last_solution: Option<CentroidalMpcSolution>,
    /// Latest solution in the shared shape.
    pub last_solution_compat: Option<MpcSolution>,
    /// Time since the last solve (s).
    pub mpc_solve_accumulator_s: Scalar,
    /// Whether solves run in the background.
    pub async_mpc: bool,
}

/// What a tick hands back.
#[derive(Debug)]
pub struct CentroidalTick {
    /// Leg targets and pose.
    pub output: ControllerOutput,
    /// Problem to solve in the background, if one is due.
    pub submit: Option<CentroidalProblem>,
}

/// Stance of a leg at step `k` when only its present phase is known: every leg
/// stands while there is no command; the present phase holds now; later all legs
/// stand if the duty exceeds one half and swing otherwise.
pub open spec fn crude_stance(cmd: VelocityCmd, duty: Scalar, now: bool, k: int) -> bool {
    if cmd.is_still() {
        true
    } else if k == 0 {
        now
    } else {
        (Scalar { bits: HALF_BITS }).lt_spec(duty)
    }
}

/// Foothold feedback: the capture-point shift and its look-ahead share, none
/// without a command.
pub open spec fn capture_feedback<A: Arithmetic>(
    ar: &A,
    cmd: VelocityCmd,
    gain: Scalar,
    steps: usize,
    v_err: Vec3,
) -> Vec3 {
    let w = product(ar, horizon_weight(ar, steps), gain);
    let shift = if cmd.is_still() {
        Vec3::zeros()
    } else {
        Vec3 { x: product(ar, gain, v_err.x), y: product(ar, gain, v_err.y), z: zero() }
    };
    let bias = if cmd.is_still() {
        Vec3::zeros()
    } else {
        Vec3 { x: product(ar, w, v_err.x), y: product(ar, w, v_err.y), z: zero() }
    };
    vec_sum(ar, shift, bias)
}

/// The commanded half step with a correction added, kept above the least
/// fraction along x and y, and shortened to `limit`.
pub open spec fn corrected_half<A: Arithmetic>(
    ar: &A,
    half: Vec3,
    correction: Vec3,
    fraction: Scalar,
    limit: Scalar,
) -> Vec3 {
    let raw = vec_sum(ar, half, correction);
    shortened(
        ar,
        Vec3 {
            x: kept(ar, half.x, raw.x, fraction),
            y: kept(ar, half.y, raw.y, fraction),
            z: raw.z,
        },
        limit,
    )
}

/// The commanded half step with a correction added, kept above the least
/// fraction along x and y, and shortened to `limit`.
pub fn correct_half<A: Arithmetic>(
    ar: &A,
    half: Vec3,
    correction: Vec3,
    fraction: Scalar,
    limit: Scalar,
) -> (r: Vec3)
    ensures
        deterministic(ar) ==> r == corrected_half(ar, half, correction, fraction, limit),
{
    let raw = vec_plus(ar, half, correction);
    let combined = Vec3 {
        x: keep(ar, half.x, raw.x, fraction),
        y: keep(ar, half.y, raw.y, fraction),
        z: raw.z,
    };
    shorten(ar, combined, limit)
}

/// Commanded half step: half a stance duration of hip motion.
pub open spec fn commanded_half<A: Arithmetic>(
    ar: &A,
    kin: LegKinematics,
    cmd: VelocityCmd,
    stance_duration: Scalar,
) -> Vec3 {
    vec_scaled(
        ar,
        hip_velocity(ar, cmd, kin.hip_offset),
        product(ar, Scalar { bits: HALF_BITS }, stance_duration),
    )
}

/// The predicted state in the shared shape.
pub open spec fn srbd_state(s: CentroidalState) -> SrbdState {
    SrbdState {
        orientation_rpy: s.base_euler_zyx,
        position: s.base_pos_world,
        angular_velocity: s.angular_velocity_world,
        linear_velocity: s.h_lin_per_mass,
    }
}

/// `r` is `sol` in the shared shape.
#[verifier::opaque]
pub open spec fn is_compat(sol: CentroidalMpcSolution, r: MpcSolution) -> bool {
    &&& r.grfs_first_step == sol.grfs_first_step
    &&& r.grfs_all_steps@ == sol.grfs_all_steps@
    &&& r.predicted_body_states@ == sol.predicted_body_states@.map_values(
        |s: CentroidalState| srbd_state(s),
    )
    &&& r.objective == sol.objective
    &&& r.solved == sol.solved
}

/// A solution in the shared shape.
pub fn to_compat_mpc_solution(sol: &CentroidalMpcSolution) -> (r: MpcSolution)
    ensures
        is_compat(*sol, r),
{
    reveal(is_compat);
    let mut states: Vec<SrbdState> = Vec::new();
    let ghost goal = sol.predicted_body_states@.map_values(|s: CentroidalState| srbd_state(s));
    let mut i: usize = 0;
    while i < sol.predicted_body_states.len()
        invariant
            i <= sol.predicted_body_states@.len(),
            goal == sol.predicted_body_states@.map_values(|s: CentroidalState| srbd_state(s)),
            states@ == goal.subrange(0, i as int),
        decreases sol.predicted_body_states@.len() - i,
    {
        let s = sol.predicted_body_states[i];
        states.push(
            SrbdState {
                orientation_rpy: s.base_euler_zyx,
                position: s.base_pos_world,
                angular_velocity: s.angular_velocity_world,
                linear_velocity: s.h_lin_per_mass,
            },
        );
        i += 1;
        assert(states@ =~= goal.subrange(0, i as int));
    }
    assert(states@ =~= goal);
    MpcSolution {
        grfs_first_step: sol.grfs_first_step,
        grfs_all_steps: copy_forces(&sol.grfs_all_steps),
        predicted_body_states: states,
        objective: sol.objective,
        solved: sol.solved,
    }
}

/// The present state of the body, level and at the observed velocities.
pub open spec fn present_state(c: CentroidalMpcGaitController) -> CentroidalState {
    CentroidalState {
        h_lin_per_mass: c.v_observed_world,
        angular_velocity_world: c.omega_observed_world,
        base_pos_world: c.body_state.world_position,
        base_euler_zyx: Vec3::new(zero(), zero(), c.body_state.world_yaw),
    }
}

/// `p` is the problem the controller poses after computing `out`: from the
/// present state, follow the command; stance by [`crude_stance`]; feet where the
/// output has them, relative to the centre of mass.
pub open spec fn is_posed<A: Arithmetic>(
    ar: &A,
    c: CentroidalMpcGaitController,
    out: ControllerOutput,
    p: CentroidalProblem,
) -> bool {
    let cfg = c.centroidal_mpc.cfg;
    let n = cfg.horizon_steps as int;
    let yaw = c.body_state.world_yaw;
    &&& p.spans(n)
    &&& p.state_now == present_state(c)
    &&& forall|leg: int, k: int|
        0 <= leg < 4 && 0 <= k < n ==> #[trigger] p.contact.stance(leg, k) == crude_stance(
            c.cmd,
            c.cfg.duty_factor,
            out.legs@[leg].phase.is_stance,
            k,
        )
    &&& deterministic(ar) ==> forall|k: int|
        0 <= k < n ==> #[trigger] p.reference.states@[k] == advanced(
            ar,
            present_state(c),
            to_world(ar, Vec3 { x: c.cmd.vx, y: c.cmd.vy, z: zero() }, yaw),
            c.cmd.wz,
            end_of_step(ar, k, cfg.dt_per_step),
        )
    &&& deterministic(ar) ==> forall|leg: int, k: int|
        0 <= leg < 4 && 0 <= k < n ==> #[trigger] p.feet.r@[leg]@[k] == vec_difference(
            ar,
            to_world(ar, out.legs@[leg].foot_body, yaw),
            to_world(ar, cfg.com_offset_body, yaw),
        )
}

impl CentroidalMpcGaitController {
    /// The latest solution and its shared shape stand together: both or neither,
    /// and the second is the first in the shared shape.
    pub open spec fn predictions_agree(self) -> bool {
        match self.last_solution {
            Some(sol) => self.last_solution_compat is Some && is_compat(
                sol,
                self.last_solution_compat->0,
            ),
            None => self.last_solution_compat is None,
        }
    }

    /// A controller that has not solved yet, with every setting at its default;
    /// command and knees are left open.
    pub open spec fn is_fresh(self, cfg: GaitConfig, kin: KinematicsConfig, tuning: Tuning) -> bool {
        &&& self.cfg == cfg
        &&& self.kin == kin
        &&& self.body_state == BodyState::new()
        &&& self.tuning == tuning
        &&& self.k_capture == tuning.capture_gain_s
        &&& self.v_observed_world == Vec3::zeros()
        &&& self.omega_observed_world == Vec3::zeros()
        &&& self.last_solution is None
        &&& self.last_solution_compat is None
        &&& self.mpc_solve_accumulator_s == infinity()
        &&& !self.async_mpc
        &&& self.centroidal_mpc.cfg.is_default()
    }

    /// A controller at rest that has not solved yet; its first tick solves.
    pub fn new(cfg: GaitConfig, kin: KinematicsConfig, tuning: Tuning) -> (r:
        CentroidalMpcGaitController)
        ensures
            r.predictions_agree(),
            r.is_fresh(cfg, kin, tuning),
            r.cmd == VelocityCmd::zero(),
            r.knee_forward@ == seq![false, false, false, false],
    {
        CentroidalMpcGaitController {
            cfg,
            kin,
            body_state: BodyState::new(),
            cmd: VelocityCmd::zero(),
            knee_forward: [false, false, false, false],
            tuning,
            k_capture: tuning.capture_gain_s,
            v_observed_world: Vec3::zeros(),
            omega_observed_world: Vec3::zeros(),
            centroidal_mpc: CentroidalMpc::new(CentroidalMpcConfig::default()),
            last_solution: None,
            last_solution_compat: None,
            mpc_solve_accumulator_s: infinity(),
            async_mpc: false,
        }
    }

    /// Switches background solving.
    pub fn set_async_mpc(&mut self, enabled: bool)
        ensures
            old(self).predictions_agree() ==> final(self).predictions_agree(),
            *final(self) == (CentroidalMpcGaitController { async_mpc: enabled, ..*old(self) }),
    {
        self.async_mpc = enabled;
    }

    /// The latest solution in the shared shape.
    pub fn predicted_grfs(&self) -> (r: Option<&MpcSolution>)
        ensures
            r is Some <==> self.last_solution_compat is Some,
            r is Some ==> *r->0 == self.last_solution_compat->0,
    {
        self.last_solution_compat.as_ref()
    }

    /// The latest solution.
    pub fn predicted_centroidal_solution(&self) -> (r: Option<&CentroidalMpcSolution>)
        ensures
            r is Some <==> self.last_solution is Some,
            r is Some ==> *r->0 == self.last_solution->0,
    {
        self.last_solution.as_ref()
    }

    /// Replaces the parameters of the predictive controller.
    pub fn set_centroidal_mpc_config(&mut self, cfg: CentroidalMpcConfig)
        ensures
            old(self).predictions_agree() ==> final(self).predictions_agree(),
            *final(self) == (CentroidalMpcGaitController {
                centroidal_mpc: CentroidalMpc { cfg },
                ..*old(self)
            }),
    {
        self.centroidal_mpc.set_config(cfg);
    }

    /// The parameters of the predictive controller.
    pub fn centroidal_mpc_config(&self) -> (r: &CentroidalMpcConfig)
        ensures
            *r == self.centroidal_mpc.cfg,
    {
        self.centroidal_mpc.config()
    }

    /// The body pose.
    pub fn body_state(&self) -> (r: &BodyState)
        ensures
            *r == self.body_state,
    {
        &self.body_state
    }

    /// The velocity command.
    pub fn velocity_cmd(&self) -> (r: VelocityCmd)
        ensures
            r == self.cmd,
    {
        self.cmd
    }

    /// Sets the velocity command.
    pub fn set_velocity_cmd(&mut self, cmd: VelocityCmd)
        ensures
            old(self).predictions_agree() ==> final(self).predictions_agree(),
            *final(self) == (CentroidalMpcGaitController { cmd, ..*old(self) }),
    {
        self.cmd = cmd;
    }

    /// The gait parameters.
    pub fn config(&self) -> (r: &GaitConfig)
        ensures
            *r == self.cfg,
    {
        &self.cfg
    }

    /// Replaces the gait parameters.
    pub fn set_config(&mut self, cfg: GaitConfig)
        ensures
            old(self).predictions_agree() ==> final(self).predictions_agree(),
            *final(self) == (CentroidalMpcGaitController { cfg, ..*old(self) }),
    {
        self.cfg = cfg;
    }

    /// The leg geometry.
    pub fn kinematics(&self) -> (r: &KinematicsConfig)
        ensures
            *r == self.kin,
    {
        &self.kin
    }

    /// Replaces the leg geometry.
    pub fn set_kinematics(&mut self, kin: KinematicsConfig)
        ensures
            old(self).predictions_agree() ==> final(self).predictions_agree(),
            *final(self) == (CentroidalMpcGaitController { kin, ..*old(self) }),
    {
        self.kin = kin;
    }

    /// Whether each knee bends forward, in slot order.
    pub fn knee_forward(&self) -> (r: [bool; 4])
        ensures
            r == self.knee_forward,
    {
        self.knee_forward
    }

    /// Sets the bend of one knee.
    pub fn set_knee_forward(&mut self, leg: LegId, forward: bool)
        ensures
            old(self).predictions_agree() ==> final(self).predictions_agree(),
            final(self).knee_forward@ == old(self).knee_forward@.update(leg.slot(), forward),
            *final(self) == (CentroidalMpcGaitController {
                knee_forward: final(self).knee_forward,
                ..*old(self)
            }),
    {
        self.knee_forward[slot_of(leg)] = forward;
    }

    /// Sets the bend of all knees.
    pub fn set_knee_pattern(&mut self, pattern: KneePattern)
        ensures
            old(self).predictions_agree() ==> final(self).predictions_agree(),
            final(self).knee_forward@ == seq![
                pattern.front_forward(),
                pattern.front_forward(),
                pattern.rear_forward(),
                pattern.rear_forward(),
            ],
            *final(self) == (CentroidalMpcGaitController {
                knee_forward: final(self).knee_forward,
                ..*old(self)
            }),
    {
        self.knee_forward = pattern.to_knee_forward();
        assert(self.knee_forward@ =~= seq![
            pattern.front_forward(),
            pattern.front_forward(),
            pattern.rear_forward(),
            pattern.rear_forward(),
        ]);
    }

    /// The pattern of the left legs.
    pub fn knee_pattern(&self) -> (r: KneePattern)
        ensures
            r == KneePattern::with_bends(self.knee_forward@[0], self.knee_forward@[2]),
    {
        KneePattern::from_knee_forward(self.knee_forward)
    }

    /// The capture-point gain (s).
    pub fn capture_point_gain(&self) -> (r: Scalar)
        ensures
            r == self.k_capture,
    {
        self.k_capture
    }

    /// Sets the capture-point gain, not negative.
    pub fn set_capture_point_gain(&mut self, k: Scalar)
        ensures
            old(self).predictions_agree() ==> final(self).predictions_agree(),
            *final(self) == (CentroidalMpcGaitController {
                k_capture: k.max_spec(zero()),
                ..*old(self)
            }),
    {
        self.k_capture = k.max(zero());
    }

    /// Takes the observed velocities.
    pub fn set_body_state_observed(&mut self, v_world: Vec3, omega_world: Vec3)
        ensures
            old(self).predictions_agree() ==> final(self).predictions_agree(),
            *final(self) == (CentroidalMpcGaitController {
                v_observed_world: v_world,
                omega_observed_world: omega_world,
                ..*old(self)
            }),
    {
        self.v_observed_world = v_world;
        self.omega_observed_world = omega_world;
    }

    /// Takes the observed pose.
    pub fn set_body_pose_observed(&mut self, world_yaw: Scalar, world_position: Vec3)
        ensures
            old(self).predictions_agree() ==> final(self).predictions_agree(),
            *final(self) == (CentroidalMpcGaitController {
                body_state: BodyState { world_position, world_yaw },
                ..*old(self)
            }),
    {
        self.body_state = BodyState { world_position, world_yaw };
    }

    /// Back to the start: pose at the origin, no command, no solution.
    pub fn reset(&mut self)
        ensures
            final(self).predictions_agree(),
            *final(self) == (CentroidalMpcGaitController {
                body_state: BodyState::new(),
                cmd: VelocityCmd::zero(),
                last_solution: None,
                last_solution_compat: None,
                mpc_solve_accumulator_s: infinity(),
                ..*old(self)
            }),
    {
        self.body_state = BodyState::new();
        self.cmd = VelocityCmd::zero();
        self.last_solution = None;
        self.last_solution_compat = None;
        self.mpc_solve_accumulator_s = infinity();
    }

    /// Half of the step the controller plans for a leg.
    pub open spec fn half_of<A: Arithmetic>(self, ar: &A, kin: LegKinematics, v_err: Vec3) -> Vec3 {
        corrected_half(
            ar,
            commanded_half(
                ar,
                kin,
                self.cmd,
                product(ar, self.cfg.cycle_period_s, self.cfg.duty_factor),
            ),
            capture_feedback(ar, self.cmd, self.k_capture, self.tuning.horizon_steps, v_err),
            self.tuning.min_half_fraction,
            product(ar, Scalar { bits: HALF_BITS }, self.cfg.max_step_length_m),
        )
    }

    /// The step the controller plans for a leg.
    pub open spec fn step_of<A: Arithmetic>(self, ar: &A, kin: LegKinematics, v_err: Vec3) -> Footstep {
        Footstep {
            lift_off: vec_difference(ar, kin.nominal_foot_body, self.half_of(ar, kin, v_err)),
            touch_down: vec_sum(ar, kin.nominal_foot_body, self.half_of(ar, kin, v_err)),
        }
    }

    /// Velocity error in the body frame.
    pub open spec fn velocity_error<A: Arithmetic>(self, ar: &A) -> Vec3 {
        vec_difference(
            ar,
            to_body(ar, self.v_observed_world, self.body_state.world_yaw),
            Vec3 { x: self.cmd.vx, y: self.cmd.vy, z: zero() },
        )
    }

    /// Plans the step of a leg: half a stance duration of hip motion, corrected
    /// by the capture-point feedback.
    pub fn compute_mpc_footstep<A: Arithmetic>(
        &self,
        ar: &A,
        kin: &LegKinematics,
        v_err_body: Vec3,
    ) -> (r: Footstep)
        ensures
            deterministic(ar) ==> r == self.step_of(ar, *kin, v_err_body),
    {
        let half_scalar = Scalar { bits: HALF_BITS };
        let stance_duration = ar.times(self.cfg.cycle_period_s, self.cfg.duty_factor);
        let v_hip = hip_velocity_of(ar, &self.cmd, kin.hip_offset);
        let half = vec_times(ar, v_hip, ar.times(half_scalar, stance_duration));
        let still = self.cmd.is_zero();
        let weight = ar.over(one(), ar.from_count(self.tuning.horizon_steps));
        let mut feedback = Vec3::zeros();
        let mut bias = Vec3::zeros();
        if !still {
            feedback.x = ar.times(self.k_capture, v_err_body.x);
            feedback.y = ar.times(self.k_capture, v_err_body.y);
            let w = ar.times(weight, self.k_capture);
            bias.x = ar.times(w, v_err_body.x);
            bias.y = ar.times(w, v_err_body.y);
        }
        let correction = vec_plus(ar, feedback, bias);
        let limit = ar.times(half_scalar, self.cfg.max_step_length_m);
        let step = correct_half(ar, half, correction, self.tuning.min_half_fraction, limit);
        Footstep {
            lift_off: vec_minus(ar, kin.nominal_foot_body, step),
            touch_down: vec_plus(ar, kin.nominal_foot_body, step),
        }
    }

    fn leg_tick<A: Arithmetic, S: LegModel>(
        &self,
        ar: &A,
        model: &S,
        phases: &[PhaseState; 4],
        v_err: Vec3,
        leg: LegId,
    ) -> (r: LegOutput)
        requires
            covers_legs(phases@),
        ensures
            r.leg == leg,
            r.phase == phase_of(phases@, leg),
            deterministic(ar) && steady(model) ==> r == leg_output(
                ar,
                self.kin.of(leg),
                self.knee_forward@[leg.slot()],
                self.step_of(ar, self.kin.of(leg), v_err),
                foot_target(
                    ar,
                    model,
                    self.step_of(ar, self.kin.of(leg), v_err),
                    swing_height(ar, self.cfg.swing_height_m, self.cmd),
                    phase_of(phases@, leg),
                ),
                phase_of(phases@, leg),
            ),
    {
        let kin = self.kin.leg(leg);
        let step = self.compute_mpc_footstep(ar, kin, v_err);
        let phase = find_phase(phases, leg);
        let height = effective_swing_height(ar, self.cfg.swing_height_m, &self.cmd);
        make_leg_output(ar, model, kin, self.knee_forward[slot_of(leg)], step, height, phase)
    }

    /// The problem posed to the predictive controller after computing `output`.
    pub fn build_problem<A: Arithmetic>(&self, ar: &A, output: &ControllerOutput) -> (r:
        CentroidalProblem)
        ensures
            is_posed(ar, *self, *output, r),
    {
        let cfg = &self.centroidal_mpc.cfg;
        let n: usize = cfg.horizon_steps;
        let yaw = self.body_state.world_yaw;
        let state_now = CentroidalState {
            h_lin_per_mass: self.v_observed_world,
            angular_velocity_world: self.omega_observed_world,
            base_pos_world: self.body_state.world_position,
            base_euler_zyx: Vec3::new(zero(), zero(), yaw),
        };
        let v_world = body_to_world_horizontal(
            ar,
            Vec3::new(self.cmd.vx, self.cmd.vy, zero()),
            yaw,
        );
        let reference = CentroidalReference::from_constant_velocity(
            ar,
            state_now,
            v_world,
            self.cmd.wz,
            cfg,
        );
        let holding = self.cmd.is_zero();
        let long_duty = (Scalar { bits: HALF_BITS }).lt(self.cfg.duty_factor);
        let contact = CentroidalContactSchedule {
            is_stance: [
                crude_column(holding, long_duty, output.legs[0].phase.is_stance, n),
                crude_column(holding, long_duty, output.legs[1].phase.is_stance, n),
                crude_column(holding, long_duty, output.legs[2].phase.is_stance, n),
                crude_column(holding, long_duty, output.legs[3].phase.is_stance, n),
            ],
        };
        let com = body_to_world_horizontal(ar, cfg.com_offset_body, yaw);
        let l = &output.legs;
        let fl = vec_minus(ar, body_to_world_horizontal(ar, l[0].foot_body, yaw), com);
        let fr = vec_minus(ar, body_to_world_horizontal(ar, l[1].foot_body, yaw), com);
        let rl = vec_minus(ar, body_to_world_horizontal(ar, l[2].foot_body, yaw), com);
        let rr = vec_minus(ar, body_to_world_horizontal(ar, l[3].foot_body, yaw), com);
        let feet = CentroidalFootOffsets::constant_per_leg([fl, fr, rl, rr], n);
        CentroidalProblem { state_now, reference, contact, feet }
    }

    /// `c` has taken over a solution that finished in the background, if any;
    /// nothing else moved.
    pub open spec fn has_adopted(
        self,
        finished: Option<CentroidalMpcSolution>,
        c: CentroidalMpcGaitController,
    ) -> bool {
        &&& c == (CentroidalMpcGaitController {
            last_solution: c.last_solution,
            last_solution_compat: c.last_solution_compat,
            ..self
        })
        &&& finished is None ==> c == self
        &&& finished is Some ==> c.last_solution == finished && c.last_solution_compat is Some
            && is_compat(finished->0, c.last_solution_compat->0)
    }

    /// `c` has solved the problem it poses for an output and restarted the clock.
    pub open spec fn has_solved<
        A: Arithmetic,
        F: Fn(&CentroidalProblem, &Vec<Scalar>) -> CentroidalMpcSolution,
    >(
        self,
        ar: &A,
        out: ControllerOutput,
        one_iter: F,
        c: CentroidalMpcGaitController,
    ) -> bool {
        &&& c == (CentroidalMpcGaitController {
            last_solution: c.last_solution,
            last_solution_compat: c.last_solution_compat,
            mpc_solve_accumulator_s: zero(),
            ..self
        })
        &&& c.last_solution is Some
        &&& c.last_solution_compat is Some
        &&& is_compat(c.last_solution->0, c.last_solution_compat->0)
        &&& exists|p: CentroidalProblem| #[trigger]
            is_posed(ar, self, out, p) && is_solution(
                one_iter,
                self.centroidal_mpc.cfg,
                p,
                c.last_solution->0,
            )
    }

    /// The step from `self`, which has adopted, to `c`: with `waited` since the
    /// last solve, a due solve is done on the spot, or handed out when solving in
    /// the background and nothing is being solved; else the clock runs on.
    pub open spec fn has_scheduled<
        A: Arithmetic,
        F: Fn(&CentroidalProblem, &Vec<Scalar>) -> CentroidalMpcSolution,
    >(
        self,
        ar: &A,
        busy: bool,
        waited: Scalar,
        one_iter: F,
        r: CentroidalTick,
        c: CentroidalMpcGaitController,
    ) -> bool {
        let due = self.centroidal_mpc.cfg.dt_per_step.le_spec(waited);
        let clocked = CentroidalMpcGaitController { mpc_solve_accumulator_s: waited, ..self };
        if due && !self.async_mpc {
            &&& r.submit is None
            &&& clocked.has_solved(ar, r.output, one_iter, c)
        } else if due && !busy {
            &&& r.submit is Some
            &&& is_posed(ar, clocked, r.output, r.submit->0)
            &&& c == (CentroidalMpcGaitController { mpc_solve_accumulator_s: zero(), ..self })
        } else {
            &&& r.submit is None
            &&& c == clocked
        }
    }

    fn adopt(&mut self, sol: CentroidalMpcSolution)
        ensures
            *final(self) == (CentroidalMpcGaitController {
                last_solution: Some(sol),
                last_solution_compat: final(self).last_solution_compat,
                ..*old(self)
            }),
            final(self).last_solution_compat is Some,
            is_compat(sol, final(self).last_solution_compat->0),
    {
        self.last_solution_compat = Some(to_compat_mpc_solution(&sol));
        self.last_solution = Some(sol);
    }

    fn schedule<
        A: Arithmetic,
        F: Fn(&CentroidalProblem, &Vec<Scalar>) -> CentroidalMpcSolution,
    >(
        &mut self,
        ar: &A,
        output: ControllerOutput,
        busy: bool,
        waited: Scalar,
        one_iter: F,
    ) -> (r: CentroidalTick)
        requires
            solves_horizon(one_iter, old(self).centroidal_mpc.cfg.horizon_steps as int),
        ensures
            r.output == output,
            old(self).has_scheduled(ar, busy, waited, one_iter, r, *final(self)),
    {
        self.mpc_solve_accumulator_s = waited;
        let ghost clocked = *self;
        let mut submit: Option<CentroidalProblem> = None;
        if self.centroidal_mpc.cfg.dt_per_step.le(waited) {
            if self.async_mpc {
                if !busy {
                    submit = Some(self.build_problem(ar, &output));
                    self.mpc_solve_accumulator_s = zero();
                }
            } else {
                let problem = self.build_problem(ar, &output);
                assert(is_posed(ar, clocked, output, problem));
                let sol = self.centroidal_mpc.solve(&problem, one_iter);
                self.adopt(sol);
                self.mpc_solve_accumulator_s = zero();
            }
        }
        CentroidalTick { output, submit }
    }

    /// The controller with its solve-related parts as in `self`: between placing
    /// the feet and solving.
    pub open spec fn unsolved(self, c: CentroidalMpcGaitController) -> CentroidalMpcGaitController {
        CentroidalMpcGaitController { body_state: c.body_state, ..self }
    }

    /// `c` and `r` are the controller and what it hands back after a tick of `dt`:
    /// the pose has followed the command, every leg follows its planned step, a
    /// solution that finished is taken over, and a due solve is done or handed out.
    pub open spec fn has_ticked<
        A: Arithmetic,
        S: LegModel,
        F: Fn(&CentroidalProblem, &Vec<Scalar>) -> CentroidalMpcSolution,
    >(
        self,
        ar: &A,
        model: &S,
        phases: Seq<PhaseState>,
        dt: Scalar,
        finished: Option<CentroidalMpcSolution>,
        busy: bool,
        one_iter: F,
        r: CentroidalTick,
        c: CentroidalMpcGaitController,
    ) -> bool {
        &&& r.output.body_state == c.body_state
        &&& deterministic(ar) ==> c.body_state == followed(ar, self.body_state, self.cmd, dt)
        &&& forall|slot: int|
            0 <= slot < 4 ==> (#[trigger] r.output.legs@[slot]).leg == LegId::at_slot(slot)
                && r.output.legs@[slot].phase == phase_of(phases, LegId::at_slot(slot))
        &&& deterministic(ar) && steady(model) ==> forall|slot: int|
            0 <= slot < 4 ==> #[trigger] r.output.legs@[slot] == ({
                let kin = c.kin.of(LegId::at_slot(slot));
                let phase = phase_of(phases, LegId::at_slot(slot));
                let step = c.step_of(ar, kin, c.velocity_error(ar));
                let height = swing_height(ar, c.cfg.swing_height_m, c.cmd);
                leg_output(
                    ar,
                    kin,
                    c.knee_forward@[slot],
                    step,
                    foot_target(ar, model, step, height, phase),
                    phase,
                )
            })
        &&& exists|adopted: CentroidalMpcGaitController, waited: Scalar|
            {
                &&& #[trigger] self.unsolved(c).has_adopted(finished, adopted)
                &&& #[trigger] call_ensures(
                    A::plus,
                    (ar, self.mpc_solve_accumulator_s, dt),
                    waited,
                )
                &&& adopted.has_scheduled(ar, busy, waited, one_iter, r, c)
            }
    }

    /// One control tick: follow the command, plan and place the feet, take over a
    /// solution that `finished` in the background, and solve the predictive
    /// controller when its step has passed since the last solve. When solving in
    /// the background the due problem is handed back instead, unless one is being
    /// solved (`busy`).
    pub fn tick<
        A: Arithmetic,
        S: LegModel,
        F: Fn(&CentroidalProblem, &Vec<Scalar>) -> CentroidalMpcSolution,
    >(
        &mut self,
        ar: &A,
        model: &S,
        phases: &[PhaseState; 4],
        dt: Scalar,
        finished: Option<CentroidalMpcSolution>,
        busy: bool,
        one_iter: F,
    ) -> (r: CentroidalTick)
        requires
            covers_legs(phases@),
            solves_horizon(one_iter, old(self).centroidal_mpc.cfg.horizon_steps as int),
        ensures
            old(self).predictions_agree() ==> final(self).predictions_agree(),
            old(self).has_ticked(
                ar,
                model,
                phases@,
                dt,
                finished,
                busy,
                one_iter,
                r,
                *final(self),
            ),
    {
        let cmd = self.cmd;
        self.body_state.integrate(ar, &cmd, dt);
        let v_obs = world_to_body_horizontal(
            ar,
            self.v_observed_world,
            self.body_state.world_yaw,
        );
        let v_err = vec_minus(ar, v_obs, Vec3::new(self.cmd.vx, self.cmd.vy, zero()));
        let fl = self.leg_tick(ar, model, phases, v_err, LegId::FL);
        let fr = self.leg_tick(ar, model, phases, v_err, LegId::FR);
        let rl = self.leg_tick(ar, model, phases, v_err, LegId::RL);
        let rr = self.leg_tick(ar, model, phases, v_err, LegId::RR);
        let output = ControllerOutput { legs: [fl, fr, rl, rr], body_state: self.body_state };
        let ghost placed = *self;
        match finished {
            Some(sol) => {
                self.adopt(sol);
            },
            None => {},
        }
        let ghost adopted = *self;
        assert(placed.has_adopted(finished, adopted));
        let waited = ar.plus(self.mpc_solve_accumulator_s, dt);
        let r = self.schedule(ar, output, busy, waited, one_iter);
        assert(old(self).unsolved(*self) == placed);
        r
    }
}

/// The stance of one leg over a horizon of `n` steps by [`crude_stance`].
pub fn crude_column(holding: bool, long_duty: bool, now: bool, n: usize) -> (r: Vec<bool>)
    ensures
        r@.len() == n,
        forall|k: int|
            0 <= k < n ==> #[trigger] r@[k] == (if holding {
                true
            } else if k == 0 {
                now
            } else {
                long_duty
            }),
{
    let mut r: Vec<bool> = Vec::new();
    let mut k: usize = 0;
    while k < n
        invariant
            k <= n,
            r@.len() == k,
            forall|i: int|
                0 <= i < k ==> #[trigger] r@[i] == (if holding {
                    true
                } else if i == 0 {
                    now
                } else {
                    long_duty
                }),
        decreases n - k,
    {
        r.push(if holding { true } else if k == 0 { now } else { long_duty });
        k += 1;
    }
    r
}

/// While there is no command every leg is planned to stand throughout, so no
/// foot's force is pinned.
pub proof fn holding_plans_all_stance(cmd: VelocityCmd, duty: Scalar, now: bool, k: int)
    requires
        cmd.is_still(),
    ensures
        crude_stance(cmd, duty, now, k),
{
}

impl CentroidalMpcGaitController {
    /// Feedforward torques of the stance legs from the latest solution.
    pub fn stance_grf_torques<A: Arithmetic, S: LegModel>(
        &self,
        ar: &A,
        model: &S,
        output: &ControllerOutput,
    ) -> (r: [Option<[Scalar; 3]>; 4])
        ensures
            are_stance_torques(
                ar,
                model,
                self.kin,
                self.body_state.world_yaw,
                self.tuning.stance_grf_min,
                self.last_solution_compat,
                *output,
                r@,
            ),
    {
        stance_grf_torques(
            ar,
            model,
            &self.kin,
            self.body_state.world_yaw,
            self.tuning.stance_grf_min,
            &self.last_solution_compat,
            output,
        )
    }
}

} // verus!
