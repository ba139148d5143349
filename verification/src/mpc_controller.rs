//! Settings of the gait controller with a body-root predictive controller.
//!
//! The predictive controller itself and its parameters, of type `C`, belong to
//! the caller.

use vstd::prelude::*;
use crate::arith::Arithmetic;
use crate::body_state::BodyState;
use crate::closed_loop::{are_stance_torques, stance_grf_torques, Tuning};
use crate::config::{slot_of, GaitConfig, KinematicsConfig, KneePattern, LegId, VelocityCmd};
use crate::controller::{ControllerOutput, LegModel};
use crate::mpc_solution::MpcSolution;
use crate::scalar::{Scalar, Vec3};

verus! {

/// State and settings of the controller.
#[derive(Debug)]
pub struct MpcGaitController<C> {
    /// Gait parameters.
    pub cfg: GaitConfig,
    /// Leg geometry.
    pub kin: KinematicsConfig,
    /// Body pose.
    pub body_state: BodyState,
    /// Velocity command.
    pub cmd: VelocityCmd,
    /// Whether each knee bends forward, in slot order.
    pub knee_forward: [bool; 4],
    /// Tuning.
    pub tuning: Tuning,
    /// Capture-point gain (s).
    pub k_capture: Scalar,
    /// Observed linear velocity, world frame (m/s).
    pub v_observed_world: Vec3,
    /// Observed angular velocity, world frame (rad/s).
    pub omega_observed_world: Vec3,
    /// Parameters of the predictive controller.
    pub srbd: C,
    /// Latest solution.
    pub last_solution: Option<MpcSolution>,
    /// Whether solves run in the background.
    pub async_mpc: bool,
}

impl<C> MpcGaitController<C> {
    /// A controller that has not solved yet, with every setting at its default;
    /// command and knees are left open.
    pub open spec fn is_fresh(
        self,
        cfg: GaitConfig,
        kin: KinematicsConfig,
        tuning: Tuning,
        srbd: C,
    ) -> bool {
        &&& self.cfg == cfg
        &&& self.kin == kin
        &&& self.body_state == BodyState::new()
        &&& self.tuning == tuning
        &&& self.k_capture == tuning.capture_gain_s
        &&& self.v_observed_world == Vec3::zeros()
        &&& self.omega_observed_world == Vec3::zeros()
        &&& self.srbd == srbd
        &&& self.last_solution is None
        &&& !self.async_mpc
    }

    /// A controller at rest that has not solved yet.
    pub fn new(cfg: GaitConfig, kin: KinematicsConfig, tuning: Tuning, srbd: C) -> (r:
        MpcGaitController<C>)
        ensures
            r.is_fresh(cfg, kin, tuning, srbd),
            r.cmd == VelocityCmd::zero(),
            r.knee_forward@ == seq![false, false, false, false],
    {
        MpcGaitController {
            cfg,
            kin,
            body_state: BodyState::new(),
            cmd: VelocityCmd::zero(),
            knee_forward: [false, false, false, false],
            tuning,
            k_capture: tuning.capture_gain_s,
            v_observed_world: Vec3::zeros(),
            omega_observed_world: Vec3::zeros(),
            srbd,
            last_solution: None,
            async_mpc: false,
        }
    }

    /// Feedforward torques of the stance legs from the latest solution.
    pub fn stance_grf_torques<A: Arithmetic, S: LegModel>(
        &self,
        ar: &A,
        model: &S,
        output: &ControllerOutput,
    ) -> (r: [Option<[Scalar; 3]>; 4])
        ensures
            are_stance_torques(
                ar,
                model,
                self.kin,
                self.body_state.world_yaw,
                self.tuning.stance_grf_min,
                self.last_solution,
                *output,
                r@,
            ),
    {
        stance_grf_torques(
            ar,
            model,
            &self.kin,
            self.body_state.world_yaw,
            self.tuning.stance_grf_min,
            &self.last_solution,
            output,
        )
    }

    /// Sets the bend of one knee.
    pub fn set_knee_forward(&mut self, leg: LegId, forward: bool)
        ensures
            final(self).knee_forward@ == old(self).knee_forward@.update(leg.slot(), forward),
            *final(self) == (MpcGaitController {
                knee_forward: final(self).knee_forward,
                ..*old(self)
            }),
    {
        self.knee_forward[slot_of(leg)] = forward;
    }

    /// Sets the bend of all knees.
    pub fn set_knee_pattern(&mut self, pattern: KneePattern)
        ensures
            final(self).knee_forward@ == seq![
                pattern.front_forward(),
                pattern.front_forward(),
                pattern.rear_forward(),
                pattern.rear_forward(),
            ],
            *final(self) == (MpcGaitController {
                knee_forward: final(self).knee_forward,
                ..*old(self)
            }),
    {
        self.knee_forward = pattern.to_knee_forward();
        assert(self.knee_forward@ =~= seq![
            pattern.front_forward(),
            pattern.front_forward(),
            pattern.rear_forward(),
            pattern.rear_forward(),
        ]);
    }

    /// Back to the start: pose at the origin, no command, no solution.
    pub fn reset(&mut self)
        ensures
            *final(self) == (MpcGaitController {
                body_state: BodyState::new(),
                cmd: VelocityCmd::zero(),
                last_solution: None,
                ..*old(self)
            }),
    {
        self.body_state = BodyState::new();
        self.cmd = VelocityCmd::zero();
        self.last_solution = None;
    }
}

} // verus!
