//! One interface over the gait controllers, with a choice of mode.

use vstd::prelude::*;
use crate::arith::Arithmetic;
use crate::body_state::BodyState;
use crate::centroidal_controller::CentroidalMpcGaitController;
use crate::centroidal_mpc::{CentroidalMpc, CentroidalMpcConfig, CentroidalMpcSolution};
use crate::closed_loop::{are_stance_torques, Tuning};
use crate::config::{
    slot_of, GaitConfig, KinematicsConfig, KneePattern, LegId, VelocityCmd, FLOOR_BITS,
};
use crate::controller::{ControllerOutput, GaitController, LegModel};
use crate::full_centroidal_controller::FullCentroidalMpcGaitController;
use crate::full_centroidal_mpc::{
    FullCentroidalMpc, FullCentroidalMpcConfig, FullCentroidalMpcSolution,
};
use crate::goal::GoalPoseWorld;
use crate::linear_crawl::{LinearCrawlConfig, LinearCrawlController};
use crate::linear_crawl_gen::{is_derived, LinearCrawlGen, SUPPORT_BITS};
use crate::mpc_controller::MpcGaitController;
use crate::mpc_solution::MpcSolution;
use crate::scalar::{infinity, zero, Scalar, Vec3};

verus! {

/// Which controller is active.
#[derive(Clone, Copy, Debug, PartialEq, Eq, Structural)]
pub enum GaitMode {
    /// Open loop.
    Champ,
    /// Body-root predictive controller with capture-point feedback.
    Mpc,
    /// Centroidal predictive controller.
    CentroidalSrbd,
    /// Full-centroidal predictive controller.
    FullCentroidal,
    /// Open-loop crawl with a linear trunk.
    LinearCrawl,
}

impl Default for GaitMode {
    fn default() -> (r: GaitMode)
        ensures
            r == GaitMode::Champ,
    {
        GaitMode::Champ
    }
}

impl GaitMode {
    /// All modes.
    pub const ALL: [GaitMode; 5] = [
        GaitMode::Champ,
        GaitMode::Mpc,
        GaitMode::CentroidalSrbd,
        GaitMode::FullCentroidal,
        GaitMode::LinearCrawl,
    ];

    /// Short description.
    pub open spec fn text(self) -> &'static str {
        match self {
            GaitMode::Champ => "CHAMP (open-loop)",
            GaitMode::Mpc => "MPC (capture-point)",
            GaitMode::CentroidalSrbd => "MPC (centroidal-SRBD)",
            GaitMode::FullCentroidal => "MPC (full-centroidal 24s)",
            GaitMode::LinearCrawl => "Linear crawl (open-loop)",
        }
    }

    /// Short description for a list of choices.
    pub fn label(self) -> (r: &'static str)
        ensures
            r == self.text(),
    {
        match self {
            GaitMode::Champ => "CHAMP (open-loop)",
            GaitMode::Mpc => "MPC (capture-point)",
            GaitMode::CentroidalSrbd => "MPC (centroidal-SRBD)",
            GaitMode::FullCentroidal => "MPC (full-centroidal 24s)",
            GaitMode::LinearCrawl => "Linear crawl (open-loop)",
        }
    }
}

/// What a new controller starts from beyond gait and geometry.
#[derive(Clone, Copy, Debug)]
pub struct Setup<C> {
    /// Tuning of the closed-loop modes.
    pub tuning: Tuning,
    /// Parameters of the body-root predictive controller.
    pub srbd: C,
}

/// The active controller.
#[derive(Debug)]
pub enum AnyGaitController<C> {
    /// Open loop.
    Champ(GaitController),
    /// Body-root predictive controller.
    Mpc(MpcGaitController<C>),
    /// Centroidal predictive controller.
    CentroidalSrbd(CentroidalMpcGaitController),
    /// Full-centroidal predictive controller.
    FullCentroidal(FullCentroidalMpcGaitController),
    /// Crawl with a linear trunk.
    LinearCrawl(LinearCrawlGen),
}

/// What an optional reference refers to.
pub open spec fn opt_view<T>(r: Option<&T>) -> Option<T> {
    match r {
        Some(x) => Some(*x),
        None => None,
    }
}

/// A bend per pair as a bend per leg.
pub open spec fn pair_bends(front: bool, rear: bool) -> Seq<bool> {
    seq![front, front, rear, rear]
}

impl<C> AnyGaitController<C> {
    /// The active mode.
    pub open spec fn kind(self) -> GaitMode {
        match self {
            AnyGaitController::Champ(_) => GaitMode::Champ,
            AnyGaitController::Mpc(_) => GaitMode::Mpc,
            AnyGaitController::CentroidalSrbd(_) => GaitMode::CentroidalSrbd,
            AnyGaitController::FullCentroidal(_) => GaitMode::FullCentroidal,
            AnyGaitController::LinearCrawl(_) => GaitMode::LinearCrawl,
        }
    }

    /// The velocity command.
    pub open spec fn command(self) -> VelocityCmd {
        match self {
            AnyGaitController::Champ(c) => c.cmd,
            AnyGaitController::Mpc(c) => c.cmd,
            AnyGaitController::CentroidalSrbd(c) => c.cmd,
            AnyGaitController::FullCentroidal(c) => c.cmd,
            AnyGaitController::LinearCrawl(c) => c.cmd,
        }
    }

    /// The gait parameters.
    pub open spec fn gait(self) -> GaitConfig {
        match self {
            AnyGaitController::Champ(c) => c.cfg,
            AnyGaitController::Mpc(c) => c.cfg,
            AnyGaitController::CentroidalSrbd(c) => c.cfg,
            AnyGaitController::FullCentroidal(c) => c.cfg,
            AnyGaitController::LinearCrawl(c) => c.host_cfg,
        }
    }

    /// The leg geometry.
    pub open spec fn geometry(self) -> KinematicsConfig {
        match self {
            AnyGaitController::Champ(c) => c.kin,
            AnyGaitController::Mpc(c) => c.kin,
            AnyGaitController::CentroidalSrbd(c) => c.kin,
            AnyGaitController::FullCentroidal(c) => c.kin,
            AnyGaitController::LinearCrawl(c) => c.ctrl.kin,
        }
    }

    /// Whether each knee bends forward, in slot order.
    pub open spec fn knees(self) -> Seq<bool> {
        match self {
            AnyGaitController::Champ(c) => c.knee_forward@,
            AnyGaitController::Mpc(c) => c.knee_forward@,
            AnyGaitController::CentroidalSrbd(c) => c.knee_forward@,
            AnyGaitController::FullCentroidal(c) => c.knee_forward@,
            AnyGaitController::LinearCrawl(c) => c.knee_forward@,
        }
    }

    /// The body pose.
    pub open spec fn pose(self) -> BodyState {
        match self {
            AnyGaitController::Champ(c) => c.body_state,
            AnyGaitController::Mpc(c) => c.body_state,
            AnyGaitController::CentroidalSrbd(c) => c.body_state,
            AnyGaitController::FullCentroidal(c) => c.body_state,
            AnyGaitController::LinearCrawl(c) => c.body_state,
        }
    }

    /// The latest solution in the shared shape, in the modes that solve.
    pub open spec fn shared_prediction(self) -> Option<MpcSolution> {
        match self {
            AnyGaitController::Mpc(c) => c.last_solution,
            AnyGaitController::CentroidalSrbd(c) => c.last_solution_compat,
            AnyGaitController::FullCentroidal(c) => c.last_solution_compat,
            _ => None,
        }
    }

    /// The latest solution of the centroidal mode.
    pub open spec fn centroidal_prediction(self) -> Option<CentroidalMpcSolution> {
        match self {
            AnyGaitController::CentroidalSrbd(c) => c.last_solution,
            _ => None,
        }
    }

    /// The latest solution of the full-centroidal mode.
    pub open spec fn full_prediction(self) -> Option<FullCentroidalMpcSolution> {
        match self {
            AnyGaitController::FullCentroidal(c) => c.last_solution,
            _ => None,
        }
    }

    /// The prediction of a mode and its shared shape stand together.
    pub open spec fn predictions_agree(self) -> bool {
        match self {
            AnyGaitController::CentroidalSrbd(c) => c.predictions_agree(),
            AnyGaitController::FullCentroidal(c) => c.predictions_agree(),
            _ => true,
        }
    }

    /// The planner of a crawl is consistent.
    pub open spec fn wf(self) -> bool {
        match self {
            AnyGaitController::LinearCrawl(c) => c.wf(),
            _ => true,
        }
    }

    /// A controller of a mode with every setting at its default and the pose at
    /// the origin, for a gait and a geometry; command and knees are left open.
    #[verifier::opaque]
    pub open spec fn is_fresh(
        self,
        mode: GaitMode,
        cfg: GaitConfig,
        kin: KinematicsConfig,
        setup: Setup<C>,
    ) -> bool {
        &&& self.kind() == mode
        &&& self.gait() == cfg
        &&& self.geometry() == kin
        &&& self.pose() == BodyState::new()
        &&& self.wf()
        &&& match self {
            AnyGaitController::Champ(_) => true,
            AnyGaitController::Mpc(c) => c.is_fresh(cfg, kin, setup.tuning, setup.srbd),
            AnyGaitController::CentroidalSrbd(c) => c.is_fresh(cfg, kin, setup.tuning),
            AnyGaitController::FullCentroidal(c) => c.is_fresh(cfg, kin, setup.tuning),
            AnyGaitController::LinearCrawl(c) => {
                &&& c.four_support_fraction == (Scalar { bits: SUPPORT_BITS })
                &&& c.body_height_m == kin.fl.nominal_foot_body.z.neg_spec().max_spec(
                    Scalar { bits: FLOOR_BITS },
                )
                &&& c.ctrl.t == zero()
                &&& c.ctrl.wall_t == zero()
                &&& !c.ctrl.holding
                &&& c.ctrl.cfg.speed_mps == c.cmd.vx
                &&& is_derived(
                    cfg,
                    c.four_support_fraction,
                    c.body_height_m,
                    c.knee_forward@,
                    (LinearCrawlConfig { speed_mps: zero(), ..c.ctrl.cfg }),
                )
            },
        }
    }

    /// A controller at rest, knees backward.
    #[verifier::spinoff_prover]
    pub fn new(mode: GaitMode, cfg: GaitConfig, kin: KinematicsConfig, setup: Setup<C>) -> (r:
        AnyGaitController<C>)
        ensures
            r.predictions_agree(),
            r.is_fresh(mode, cfg, kin, setup),
            r.command() == VelocityCmd::zero(),
            r.knees() == seq![false, false, false, false],
    {
        reveal(AnyGaitController::is_fresh);
        match mode {
            GaitMode::Champ => AnyGaitController::Champ(GaitController::new(cfg, kin)),
            GaitMode::Mpc => AnyGaitController::Mpc(
                MpcGaitController::new(cfg, kin, setup.tuning, setup.srbd),
            ),
            GaitMode::CentroidalSrbd => AnyGaitController::CentroidalSrbd(
                CentroidalMpcGaitController::new(cfg, kin, setup.tuning),
            ),
            GaitMode::FullCentroidal => AnyGaitController::FullCentroidal(
                FullCentroidalMpcGaitController::new(cfg, kin, setup.tuning),
            ),
            GaitMode::LinearCrawl => AnyGaitController::LinearCrawl(LinearCrawlGen::new(cfg, kin)),
        }
    }

    /// The active mode.
    pub fn mode(&self) -> (r: GaitMode)
        ensures
            r == self.kind(),
    {
        match self {
            AnyGaitController::Champ(_) => GaitMode::Champ,
            AnyGaitController::Mpc(_) => GaitMode::Mpc,
            AnyGaitController::CentroidalSrbd(_) => GaitMode::CentroidalSrbd,
            AnyGaitController::FullCentroidal(_) => GaitMode::FullCentroidal,
            AnyGaitController::LinearCrawl(_) => GaitMode::LinearCrawl,
        }
    }

    /// The velocity command.
    pub fn velocity_cmd(&self) -> (r: VelocityCmd)
        ensures
            r == self.command(),
    {
        match self {
            AnyGaitController::Champ(c) => c.cmd,
            AnyGaitController::Mpc(c) => c.cmd,
            AnyGaitController::CentroidalSrbd(c) => c.cmd,
            AnyGaitController::FullCentroidal(c) => c.cmd,
            AnyGaitController::LinearCrawl(c) => c.cmd,
        }
    }

    /// The gait parameters.
    pub fn config(&self) -> (r: &GaitConfig)
        ensures
            *r == self.gait(),
    {
        match self {
            AnyGaitController::Champ(c) => &c.cfg,
            AnyGaitController::Mpc(c) => &c.cfg,
            AnyGaitController::CentroidalSrbd(c) => &c.cfg,
            AnyGaitController::FullCentroidal(c) => &c.cfg,
            AnyGaitController::LinearCrawl(c) => &c.host_cfg,
        }
    }

    /// The leg geometry.
    pub fn kinematics(&self) -> (r: &KinematicsConfig)
        ensures
            *r == self.geometry(),
    {
        match self {
            AnyGaitController::Champ(c) => &c.kin,
            AnyGaitController::Mpc(c) => &c.kin,
            AnyGaitController::CentroidalSrbd(c) => &c.kin,
            AnyGaitController::FullCentroidal(c) => &c.kin,
            AnyGaitController::LinearCrawl(c) => &c.ctrl.kin,
        }
    }

    /// Whether each knee bends forward, in slot order.
    pub fn knee_forward(&self) -> (r: [bool; 4])
        ensures
            r@ == self.knees(),
    {
        match self {
            AnyGaitController::Champ(c) => c.knee_forward,
            AnyGaitController::Mpc(c) => c.knee_forward,
            AnyGaitController::CentroidalSrbd(c) => c.knee_forward,
            AnyGaitController::FullCentroidal(c) => c.knee_forward,
            AnyGaitController::LinearCrawl(c) => c.knee_forward,
        }
    }

    /// The pattern of the left legs.
    pub fn knee_pattern(&self) -> (r: KneePattern)
        ensures
            r == KneePattern::with_bends(self.knees()[0], self.knees()[2]),
    {
        KneePattern::from_knee_forward(self.knee_forward())
    }

    /// The controller with another command and no goal.
    pub open spec fn with_command(self, cmd: VelocityCmd) -> AnyGaitController<C> {
        match self {
            AnyGaitController::Champ(c) => AnyGaitController::Champ(GaitController { cmd, ..c }),
            AnyGaitController::Mpc(c) => AnyGaitController::Mpc(MpcGaitController { cmd, ..c }),
            AnyGaitController::CentroidalSrbd(c) => AnyGaitController::CentroidalSrbd(
                CentroidalMpcGaitController { cmd, ..c },
            ),
            AnyGaitController::FullCentroidal(c) => AnyGaitController::FullCentroidal(
                FullCentroidalMpcGaitController { cmd, goal_pose: None, ..c },
            ),
            AnyGaitController::LinearCrawl(c) => AnyGaitController::LinearCrawl(
                LinearCrawlGen {
                    cmd,
                    ctrl: LinearCrawlController {
                        cfg: LinearCrawlConfig { speed_mps: cmd.vx, ..c.ctrl.cfg },
                        ..c.ctrl
                    },
                    ..c
                },
            ),
        }
    }

    /// Sets the velocity command. A goal is dropped.
    #[verifier::spinoff_prover]
    pub fn set_velocity_cmd(&mut self, cmd: VelocityCmd)
        ensures
            final(self).kind() == old(self).kind(),
            old(self).predictions_agree() ==> final(self).predictions_agree(),
            *final(self) == old(self).with_command(cmd),
    {
        match self {
            AnyGaitController::Champ(c) => c.set_velocity_cmd(cmd),
            AnyGaitController::Mpc(c) => {
                c.cmd = cmd;
            },
            AnyGaitController::CentroidalSrbd(c) => c.set_velocity_cmd(cmd),
            AnyGaitController::FullCentroidal(c) => c.set_velocity_cmd(cmd),
            AnyGaitController::LinearCrawl(c) => c.set_velocity_cmd(cmd),
        }
    }
}

impl<C> AnyGaitController<C> {
    /// Sets the goal of the full-centroidal mode; other modes have none.
    #[verifier::spinoff_prover]
    pub fn set_goal_pose_world(&mut self, goal: GoalPoseWorld)
        ensures
            final(self).kind() == old(self).kind(),
            old(self).predictions_agree() ==> final(self).predictions_agree(),
            *final(self) == (match *old(self) {
                AnyGaitController::FullCentroidal(c) => AnyGaitController::FullCentroidal(
                    FullCentroidalMpcGaitController { goal_pose: Some(goal), ..c },
                ),
                _ => *old(self),
            }),
    {
        if let AnyGaitController::FullCentroidal(c) = self {
            c.set_goal_pose_world(goal);
        }
    }

    /// Drops the goal of the full-centroidal mode.
    #[verifier::spinoff_prover]
    pub fn clear_goal_pose(&mut self)
        ensures
            final(self).kind() == old(self).kind(),
            old(self).predictions_agree() ==> final(self).predictions_agree(),
            *final(self) == (match *old(self) {
                AnyGaitController::FullCentroidal(c) => AnyGaitController::FullCentroidal(
                    FullCentroidalMpcGaitController { goal_pose: None, ..c },
                ),
                _ => *old(self),
            }),
    {
        if let AnyGaitController::FullCentroidal(c) = self {
            c.clear_goal_pose();
        }
    }

    /// Switches footholds that follow the predicted base, in the full-centroidal
    /// mode.
    #[verifier::spinoff_prover]
    pub fn set_use_mpc_predicted_footstep(&mut self, enable: bool)
        ensures
            final(self).kind() == old(self).kind(),
            old(self).predictions_agree() ==> final(self).predictions_agree(),
            *final(self) == (match *old(self) {
                AnyGaitController::FullCentroidal(c) => AnyGaitController::FullCentroidal(
                    FullCentroidalMpcGaitController { use_mpc_predicted_footstep: enable, ..c },
                ),
                _ => *old(self),
            }),
    {
        if let AnyGaitController::FullCentroidal(c) = self {
            c.set_use_mpc_predicted_footstep(enable);
        }
    }

    /// Switches the nominal joint reference of the full-centroidal mode.
    #[verifier::spinoff_prover]
    pub fn set_parity_use_nominal_q_ref(&mut self, enable: bool)
        ensures
            final(self).kind() == old(self).kind(),
            old(self).predictions_agree() ==> final(self).predictions_agree(),
            *final(self) == (match *old(self) {
                AnyGaitController::FullCentroidal(c) => AnyGaitController::FullCentroidal(
                    FullCentroidalMpcGaitController { parity_use_nominal_q_ref: enable, ..c },
                ),
                _ => *old(self),
            }),
    {
        if let AnyGaitController::FullCentroidal(c) = self {
            c.set_parity_use_nominal_q_ref(enable);
        }
    }

    /// Sets the steep branch of the capture feedback of the full-centroidal mode,
    /// neither part negative.
    #[verifier::spinoff_prover]
    pub fn set_capture_point_pulse(&mut self, k_pulse: Scalar, v_db: Scalar)
        ensures
            final(self).kind() == old(self).kind(),
            old(self).predictions_agree() ==> final(self).predictions_agree(),
            *final(self) == (match *old(self) {
                AnyGaitController::FullCentroidal(c) => AnyGaitController::FullCentroidal(
                    FullCentroidalMpcGaitController {
                        k_capture_pulse: k_pulse.max_spec(zero()),
                        v_capture_deadband: v_db.max_spec(zero()),
                        ..c
                    },
                ),
                _ => *old(self),
            }),
    {
        if let AnyGaitController::FullCentroidal(c) = self {
            c.set_capture_point_pulse(k_pulse, v_db);
        }
    }

    /// Switches the projected contact schedule of the full-centroidal mode, and
    /// with it the swing velocity constraint.
    #[verifier::spinoff_prover]
    pub fn set_legged_control_parity(&mut self, enable: bool)
        ensures
            final(self).kind() == old(self).kind(),
            old(self).predictions_agree() ==> final(self).predictions_agree(),
            *final(self) == (match *old(self) {
                AnyGaitController::FullCentroidal(c) => AnyGaitController::FullCentroidal(
                    FullCentroidalMpcGaitController {
                        legged_control_parity: enable,
                        full_centroidal_mpc: FullCentroidalMpc {
                            cfg: FullCentroidalMpcConfig {
                                enable_swing_normal_velocity_constraint: enable,
                                ..c.full_centroidal_mpc.cfg
                            },
                            ..c.full_centroidal_mpc
                        },
                        ..c
                    },
                ),
                _ => *old(self),
            }),
    {
        if let AnyGaitController::FullCentroidal(c) = self {
            c.set_legged_control_parity(enable);
        }
    }

    /// Replaces the parameters of the full-centroidal mode; other modes do not
    /// change.
    #[verifier::spinoff_prover]
    pub fn set_full_centroidal_mpc_config(&mut self, cfg: FullCentroidalMpcConfig)
        ensures
            final(self).kind() == old(self).kind(),
            old(self).predictions_agree() ==> final(self).predictions_agree(),
            *final(self) == (match *old(self) {
                AnyGaitController::FullCentroidal(c) => AnyGaitController::FullCentroidal(
                    FullCentroidalMpcGaitController {
                        full_centroidal_mpc: c.full_centroidal_mpc.with_config(cfg),
                        ..c
                    },
                ),
                _ => *old(self),
            }),
    {
        if let AnyGaitController::FullCentroidal(c) = self {
            c.set_full_centroidal_mpc_config(cfg);
        }
    }

    /// Replaces the parameters of the centroidal mode; other modes do not change.
    #[verifier::spinoff_prover]
    pub fn set_centroidal_mpc_config(&mut self, cfg: CentroidalMpcConfig)
        ensures
            final(self).kind() == old(self).kind(),
            old(self).predictions_agree() ==> final(self).predictions_agree(),
            *final(self) == (match *old(self) {
                AnyGaitController::CentroidalSrbd(c) => AnyGaitController::CentroidalSrbd(
                    CentroidalMpcGaitController { centroidal_mpc: CentroidalMpc { cfg }, ..c },
                ),
                _ => *old(self),
            }),
    {
        if let AnyGaitController::CentroidalSrbd(c) = self {
            c.set_centroidal_mpc_config(cfg);
        }
    }

    /// Replaces the parameters of the body-root mode; other modes do not change.
    #[verifier::spinoff_prover]
    pub fn set_srbd_mpc_config(&mut self, cfg: C)
        ensures
            final(self).kind() == old(self).kind(),
            old(self).predictions_agree() ==> final(self).predictions_agree(),
            *final(self) == (match *old(self) {
                AnyGaitController::Mpc(c) => AnyGaitController::Mpc(
                    MpcGaitController { srbd: cfg, ..c },
                ),
                _ => *old(self),
            }),
    {
        if let AnyGaitController::Mpc(c) = self {
            c.srbd = cfg;
        }
    }

    /// Switches background solving in the modes that can.
    #[verifier::spinoff_prover]
    pub fn set_async_mpc(&mut self, enabled: bool)
        ensures
            final(self).kind() == old(self).kind(),
            old(self).predictions_agree() ==> final(self).predictions_agree(),
            *final(self) == (match *old(self) {
                AnyGaitController::Mpc(c) => AnyGaitController::Mpc(
                    MpcGaitController { async_mpc: enabled, ..c },
                ),
                AnyGaitController::CentroidalSrbd(c) => AnyGaitController::CentroidalSrbd(
                    CentroidalMpcGaitController { async_mpc: enabled, ..c },
                ),
                AnyGaitController::FullCentroidal(c) => AnyGaitController::FullCentroidal(
                    FullCentroidalMpcGaitController { async_mpc: enabled, ..c },
                ),
                _ => *old(self),
            }),
    {
        match self {
            AnyGaitController::Mpc(c) => {
                c.async_mpc = enabled;
            },
            AnyGaitController::CentroidalSrbd(c) => c.set_async_mpc(enabled),
            AnyGaitController::FullCentroidal(c) => c.set_async_mpc(enabled),
            _ => {},
        }
    }

    /// Sets the capture-point gain of the closed-loop modes, not negative.
    #[verifier::spinoff_prover]
    #[verifier::rlimit(40)]
    pub fn set_capture_point_gain(&mut self, k: Scalar)
        ensures
            final(self).kind() == old(self).kind(),
            *final(self) == (match *old(self) {
                AnyGaitController::Mpc(c) => AnyGaitController::Mpc(
                    MpcGaitController { k_capture: k.max_spec(zero()), ..c },
                ),
                AnyGaitController::CentroidalSrbd(c) => AnyGaitController::CentroidalSrbd(
                    CentroidalMpcGaitController { k_capture: k.max_spec(zero()), ..c },
                ),
                AnyGaitController::FullCentroidal(c) => AnyGaitController::FullCentroidal(
                    FullCentroidalMpcGaitController { k_capture: k.max_spec(zero()), ..c },
                ),
                _ => *old(self),
            }),
    {
        match self {
            AnyGaitController::Mpc(c) => {
                c.k_capture = k.max(zero());
            },
            AnyGaitController::CentroidalSrbd(c) => c.set_capture_point_gain(k),
            AnyGaitController::FullCentroidal(c) => c.set_capture_point_gain(k),
            _ => {},
        }
    }

    /// The latest forces of the modes that predict.
    pub fn predicted_grfs(&self) -> (r: Option<&MpcSolution>)
        ensures
            opt_view(r) == self.shared_prediction(),
    {
        match self {
            AnyGaitController::Champ(_) => None,
            AnyGaitController::Mpc(c) => c.last_solution.as_ref(),
            AnyGaitController::CentroidalSrbd(c) => c.predicted_grfs(),
            AnyGaitController::FullCentroidal(c) => c.predicted_grfs(),
            AnyGaitController::LinearCrawl(_) => None,
        }
    }

    /// The latest solution of the centroidal mode.
    pub fn predicted_centroidal_solution(&self) -> (r: Option<&CentroidalMpcSolution>)
        ensures
            opt_view(r) == self.centroidal_prediction(),
    {
        match self {
            AnyGaitController::CentroidalSrbd(c) => c.predicted_centroidal_solution(),
            _ => None,
        }
    }

    /// The latest solution of the full-centroidal mode.
    pub fn predicted_full_centroidal_solution(&self) -> (r: Option<&FullCentroidalMpcSolution>)
        ensures
            opt_view(r) == self.full_prediction(),
    {
        match self {
            AnyGaitController::FullCentroidal(c) => c.predicted_full_centroidal_solution(),
            _ => None,
        }
    }

    /// The parameters of the body-root mode.
    pub fn srbd_mpc_config(&self) -> (r: Option<&C>)
        ensures
            opt_view(r) == (match *self {
                AnyGaitController::Mpc(c) => Some(c.srbd),
                _ => None,
            }),
    {
        match self {
            AnyGaitController::Mpc(c) => Some(&c.srbd),
            _ => None,
        }
    }

    /// The parameters of the centroidal mode.
    pub fn centroidal_mpc_config(&self) -> (r: Option<&CentroidalMpcConfig>)
        ensures
            opt_view(r) == (match *self {
                AnyGaitController::CentroidalSrbd(c) => Some(c.centroidal_mpc.cfg),
                _ => None,
            }),
    {
        match self {
            AnyGaitController::CentroidalSrbd(c) => Some(c.centroidal_mpc_config()),
            _ => None,
        }
    }

    /// The parameters of the full-centroidal mode.
    pub fn full_centroidal_mpc_config(&self) -> (r: Option<&FullCentroidalMpcConfig>)
        ensures
            opt_view(r) == (match *self {
                AnyGaitController::FullCentroidal(c) => Some(c.full_centroidal_mpc.cfg),
                _ => None,
            }),
    {
        match self {
            AnyGaitController::FullCentroidal(c) => Some(c.full_centroidal_mpc_config()),
            _ => None,
        }
    }

    /// The goal of the full-centroidal mode.
    pub fn goal_pose_world(&self) -> (r: Option<GoalPoseWorld>)
        ensures
            r == (match *self {
                AnyGaitController::FullCentroidal(c) => c.goal_pose,
                _ => None,
            }),
    {
        match self {
            AnyGaitController::FullCentroidal(c) => c.goal_pose_world(),
            _ => None,
        }
    }

    /// The steep branch of the capture feedback of the full-centroidal mode.
    pub fn capture_point_pulse(&self) -> (r: Option<(Scalar, Scalar)>)
        ensures
            r == (match *self {
                AnyGaitController::FullCentroidal(c) => Some(
                    (c.k_capture_pulse, c.v_capture_deadband),
                ),
                _ => None,
            }),
    {
        match self {
            AnyGaitController::FullCentroidal(c) => Some(c.capture_point_pulse()),
            _ => None,
        }
    }

    /// Whether footholds follow the predicted base; `None` outside of the
    /// full-centroidal mode.
    pub fn use_mpc_predicted_footstep(&self) -> (r: Option<bool>)
        ensures
            r == (match *self {
                AnyGaitController::FullCentroidal(c) => Some(c.use_mpc_predicted_footstep),
                _ => None,
            }),
    {
        match self {
            AnyGaitController::FullCentroidal(c) => Some(c.use_mpc_predicted_footstep()),
            _ => None,
        }
    }

    /// Whether the contact schedule follows the projected phases; `None` outside
    /// of the full-centroidal mode.
    pub fn legged_control_parity(&self) -> (r: Option<bool>)
        ensures
            r == (match *self {
                AnyGaitController::FullCentroidal(c) => Some(c.legged_control_parity),
                _ => None,
            }),
    {
        match self {
            AnyGaitController::FullCentroidal(c) => Some(c.legged_control_parity()),
            _ => None,
        }
    }

    /// Whether the joint reference is the nominal pose; `None` outside of the
    /// full-centroidal mode.
    pub fn parity_use_nominal_q_ref(&self) -> (r: Option<bool>)
        ensures
            r == (match *self {
                AnyGaitController::FullCentroidal(c) => Some(c.parity_use_nominal_q_ref),
                _ => None,
            }),
    {
        match self {
            AnyGaitController::FullCentroidal(c) => Some(c.parity_use_nominal_q_ref()),
            _ => None,
        }
    }
}

impl<C> AnyGaitController<C> {
    /// The controller with other knees, outside of a crawl.
    pub open spec fn with_knees(self, k: [bool; 4]) -> AnyGaitController<C> {
        match self {
            AnyGaitController::Champ(x) => AnyGaitController::Champ(
                GaitController { knee_forward: k, ..x },
            ),
            AnyGaitController::Mpc(x) => AnyGaitController::Mpc(
                MpcGaitController { knee_forward: k, ..x },
            ),
            AnyGaitController::CentroidalSrbd(x) => AnyGaitController::CentroidalSrbd(
                CentroidalMpcGaitController { knee_forward: k, ..x },
            ),
            AnyGaitController::FullCentroidal(x) => AnyGaitController::FullCentroidal(
                FullCentroidalMpcGaitController { knee_forward: k, ..x },
            ),
            AnyGaitController::LinearCrawl(_) => self,
        }
    }

    #[verifier::spinoff_prover]
    fn put_knees(&mut self, knees: [bool; 4])
        ensures
            *final(self) == old(self).with_knees(knees),
    {
        match self {
            AnyGaitController::Champ(c) => {
                c.knee_forward = knees;
            },
            AnyGaitController::Mpc(c) => {
                c.knee_forward = knees;
            },
            AnyGaitController::CentroidalSrbd(c) => {
                c.knee_forward = knees;
            },
            AnyGaitController::FullCentroidal(c) => {
                c.knee_forward = knees;
            },
            AnyGaitController::LinearCrawl(_) => {},
        }
    }
}

/// A fresh controller stays fresh with another command and other knees.
proof fn stays_fresh<C>(
    c: AnyGaitController<C>,
    cmd: VelocityCmd,
    k: [bool; 4],
    mode: GaitMode,
    cfg: GaitConfig,
    kin: KinematicsConfig,
    setup: Setup<C>,
)
    requires
        !(c is LinearCrawl),
        c.is_fresh(mode, cfg, kin, setup),
    ensures
        c.with_command(cmd).with_knees(k).knees() == k@,
        c.with_command(cmd).with_knees(k).command() == cmd,
        c.with_command(cmd).with_knees(k).is_fresh(mode, cfg, kin, setup),
{
    reveal(AnyGaitController::is_fresh);
}

impl<C> AnyGaitController<C> {
    /// `b` is a crawl that differs from `self` in its knees alone; its planner is
    /// built anew and goes on from where it was, at the commanded speed.
    pub open spec fn bends_crawl(self, b: AnyGaitController<C>) -> bool {
        &&& self is LinearCrawl
        &&& b is LinearCrawl
        &&& self->LinearCrawl_0.rebuilds(b->LinearCrawl_0)
        &&& b->LinearCrawl_0 == (LinearCrawlGen {
            knee_forward: b->LinearCrawl_0.knee_forward,
            ctrl: b->LinearCrawl_0.ctrl,
            ..self->LinearCrawl_0
        })
    }

    /// Sets the bend of one knee, in every mode.
    #[verifier::spinoff_prover]
    pub fn set_knee_forward(&mut self, leg: LegId, forward: bool)
        ensures
            final(self).kind() == old(self).kind(),
            old(self).predictions_agree() ==> final(self).predictions_agree(),
            final(self).knees() == old(self).knees().update(leg.slot(), forward),
            *old(self) is LinearCrawl ==> old(self).bends_crawl(*final(self)),
            !(*old(self) is LinearCrawl) ==> exists|k: [bool; 4]|
                *final(self) == #[trigger] old(self).with_knees(k),
    {
        let mut knees = self.knee_forward();
        knees[slot_of(leg)] = forward;
        if let AnyGaitController::LinearCrawl(c) = self {
            c.set_knee_forward(leg, forward);
        } else {
            self.put_knees(knees);
        }
    }

    /// Sets the bend of all knees.
    #[verifier::spinoff_prover]
    pub fn set_knee_pattern(&mut self, pattern: KneePattern)
        ensures
            final(self).kind() == old(self).kind(),
            old(self).predictions_agree() ==> final(self).predictions_agree(),
            final(self).knees() == pair_bends(pattern.front_forward(), pattern.rear_forward()),
            *old(self) is LinearCrawl ==> old(self).bends_crawl(*final(self)),
            !(*old(self) is LinearCrawl) ==> exists|k: [bool; 4]|
                *final(self) == #[trigger] old(self).with_knees(k),
    {
        let knees = pattern.to_knee_forward();
        assert(knees@ =~= pair_bends(pattern.front_forward(), pattern.rear_forward()));
        if let AnyGaitController::LinearCrawl(c) = self {
            c.set_knee_pattern(pattern);
        } else {
            self.put_knees(knees);
        }
    }
}

impl<C> AnyGaitController<C> {
    /// Switches the mode. Command, gait, geometry and the bend of every knee carry
    /// over; the rest starts anew. Nothing happens when the mode is active already.
    #[verifier::spinoff_prover]
    pub fn set_mode(&mut self, mode: GaitMode, setup: Setup<C>)
        ensures
            old(self).predictions_agree() ==> final(self).predictions_agree(),
            final(self).kind() == mode,
            final(self).command() == old(self).command(),
            final(self).gait() == old(self).gait(),
            final(self).geometry() == old(self).geometry(),
            final(self).knees() == old(self).knees(),
            mode == old(self).kind() ==> *final(self) == *old(self),
            mode != old(self).kind() ==> final(self).is_fresh(
                mode,
                old(self).gait(),
                old(self).geometry(),
                setup,
            ),
    {
        if mode == self.mode() {
            return;
        }
        let cmd = self.velocity_cmd();
        let cfg = *self.config();
        let kin = self.kinematics().clone();
        let knee = self.knee_forward();
        if mode == GaitMode::LinearCrawl {
            *self = crawl_with(cfg, kin, cmd, knee, setup);
        } else {
            let mut new = AnyGaitController::new(mode, cfg, kin, setup);
            proof {
                a_fresh_controller_has_no_past(new, mode, cfg, kin, setup);
                stays_fresh(new, cmd, knee, mode, cfg, kin, setup);
            }
            new.set_velocity_cmd(cmd);
            new.put_knees(knee);
            *self = new;
        }
        proof {
            a_fresh_controller_has_no_past(
                *self,
                mode,
                old(self).gait(),
                old(self).geometry(),
                setup,
            );
        }
    }
}

/// A crawl controller with a command and knees.
fn crawl_with<C>(
    cfg: GaitConfig,
    kin: KinematicsConfig,
    cmd: VelocityCmd,
    knee: [bool; 4],
    setup: Setup<C>,
) -> (r: AnyGaitController<C>)
    ensures
        r.is_fresh(GaitMode::LinearCrawl, cfg, kin, setup),
        r.command() == cmd,
        r.knees() == knee@,
{
    reveal(AnyGaitController::is_fresh);
    let mut r = LinearCrawlGen::new(cfg, kin);
    r.set_velocity_cmd(cmd);
    r.set_knee_forward(LegId::FL, knee[0]);
    r.set_knee_forward(LegId::FR, knee[1]);
    r.set_knee_forward(LegId::RL, knee[2]);
    r.set_knee_forward(LegId::RR, knee[3]);
    assert(r.knee_forward@ =~= knee@);
    AnyGaitController::LinearCrawl(r)
}

/// A change that leaves the predictions alone leaves them in agreement.
pub proof fn settings_keep_the_predictions<C>(a: AnyGaitController<C>, b: AnyGaitController<C>)
    requires
        a.predictions_agree(),
        b.kind() == a.kind(),
        b.shared_prediction() == a.shared_prediction(),
        b.centroidal_prediction() == a.centroidal_prediction(),
        b.full_prediction() == a.full_prediction(),
    ensures
        b.predictions_agree(),
{
}

/// The predictions of a mode agree in every state that the operations lead to: a
/// mode has a solution of its own only with the shared one, and the two hold the
/// same forces and the same verdict.
pub proof fn predictions_of_a_mode_agree<C>(c: AnyGaitController<C>)
    requires
        c.predictions_agree(),
    ensures
        c.centroidal_prediction() is Some ==> c.kind() == GaitMode::CentroidalSrbd,
        c.full_prediction() is Some ==> c.kind() == GaitMode::FullCentroidal,
        c.kind() == GaitMode::CentroidalSrbd ==> {
            let own = c.centroidal_prediction();
            let shared = c.shared_prediction();
            &&& own is Some <==> shared is Some
            &&& own is Some ==> shared->0.grfs_first_step == own->0.grfs_first_step
                && shared->0.grfs_all_steps@ == own->0.grfs_all_steps@ && shared->0.solved
                == own->0.solved
        },
        c.kind() == GaitMode::FullCentroidal ==> {
            let own = c.full_prediction();
            let shared = c.shared_prediction();
            &&& own is Some <==> shared is Some
            &&& own is Some ==> shared->0.grfs_first_step == own->0.first_input.grfs_world
                && shared->0.solved == own->0.solved
        },
{
    reveal(crate::centroidal_controller::is_compat);
    reveal(crate::full_centroidal_tick::is_compat);
}

/// A fresh controller has no prediction and no goal, its switches are off, its
/// pose is the origin and the clock of a crawl stands at the start.
pub proof fn a_fresh_controller_has_no_past<C>(
    c: AnyGaitController<C>,
    mode: GaitMode,
    cfg: GaitConfig,
    kin: KinematicsConfig,
    setup: Setup<C>,
)
    requires
        c.is_fresh(mode, cfg, kin, setup),
    ensures
        c.kind() == mode,
        c.gait() == cfg,
        c.geometry() == kin,
        c.pose() == BodyState::new(),
        c.shared_prediction() is None,
        c.centroidal_prediction() is None,
        c.full_prediction() is None,
        c.predictions_agree(),
        c matches AnyGaitController::FullCentroidal(x) ==> {
            &&& x.goal_pose is None
            &&& !x.legged_control_parity
            &&& !x.parity_use_nominal_q_ref
            &&& !x.use_mpc_predicted_footstep
        },
        c matches AnyGaitController::LinearCrawl(x) ==> {
            &&& x.ctrl.t == zero()
            &&& x.ctrl.wall_t == zero()
            &&& !x.ctrl.holding
        },
{
    reveal(AnyGaitController::is_fresh);
}

impl<C> AnyGaitController<C> {
    /// Replaces the gait parameters. The full-centroidal mode mirrors the shared
    /// switches; a crawl builds its planner anew and goes on from where it was.
    #[verifier::spinoff_prover]
    pub fn set_config(&mut self, cfg: GaitConfig)
        ensures
            final(self).kind() == old(self).kind(),
            old(self).predictions_agree() ==> final(self).predictions_agree(),
            match *old(self) {
                AnyGaitController::Champ(c) => *final(self) == AnyGaitController::<C>::Champ(
                    GaitController { cfg, ..c },
                ),
                AnyGaitController::Mpc(c) => *final(self) == AnyGaitController::Mpc(
                    MpcGaitController { cfg, ..c },
                ),
                AnyGaitController::CentroidalSrbd(c) => *final(self)
                    == AnyGaitController::<C>::CentroidalSrbd(
                    CentroidalMpcGaitController { cfg, ..c },
                ),
                AnyGaitController::FullCentroidal(c) => *final(self)
                    == AnyGaitController::<C>::FullCentroidal(
                    FullCentroidalMpcGaitController {
                        cfg,
                        full_centroidal_mpc: c.mirrored_mpc(cfg),
                        ..c
                    },
                ),
                AnyGaitController::LinearCrawl(c) => {
                    &&& *final(self) is LinearCrawl
                    &&& c.rebuilds(final(self)->LinearCrawl_0)
                    &&& final(self)->LinearCrawl_0 == (LinearCrawlGen {
                        host_cfg: cfg,
                        ctrl: final(self)->LinearCrawl_0.ctrl,
                        ..c
                    })
                },
            },
    {
        match self {
            AnyGaitController::Champ(c) => c.set_config(cfg),
            AnyGaitController::Mpc(c) => {
                c.cfg = cfg;
            },
            AnyGaitController::CentroidalSrbd(c) => c.set_config(cfg),
            AnyGaitController::FullCentroidal(c) => c.set_config(cfg),
            AnyGaitController::LinearCrawl(c) => c.set_config(cfg),
        }
    }

    /// The controller at the start: pose at the origin, no command, no solution.
    pub open spec fn restarted(self) -> AnyGaitController<C> {
        let body_state = BodyState::new();
        let cmd = VelocityCmd::zero();
        match self {
            AnyGaitController::Champ(c) => AnyGaitController::Champ(
                GaitController { body_state, cmd, ..c },
            ),
            AnyGaitController::Mpc(c) => AnyGaitController::Mpc(
                MpcGaitController { body_state, cmd, last_solution: None, ..c },
            ),
            AnyGaitController::CentroidalSrbd(c) => AnyGaitController::CentroidalSrbd(
                CentroidalMpcGaitController {
                    body_state,
                    cmd,
                    last_solution: None,
                    last_solution_compat: None,
                    mpc_solve_accumulator_s: infinity(),
                    ..c
                },
            ),
            AnyGaitController::FullCentroidal(c) => AnyGaitController::FullCentroidal(
                FullCentroidalMpcGaitController {
                    body_state,
                    cmd,
                    last_solution: None,
                    last_solution_compat: None,
                    mpc_solve_accumulator_s: infinity(),
                    swing_locked_touch_down_body: [None, None, None, None],
                    prev_leg_is_stance: [true, true, true, true],
                    ..c
                },
            ),
            AnyGaitController::LinearCrawl(c) => AnyGaitController::LinearCrawl(
                LinearCrawlGen {
                    body_state,
                    cmd,
                    ctrl: LinearCrawlController {
                        cfg: LinearCrawlConfig { speed_mps: zero(), ..c.ctrl.cfg },
                        t: zero(),
                        wall_t: zero(),
                        holding: false,
                        ..c.ctrl
                    },
                    ..c
                },
            ),
        }
    }

    /// Back to the start: pose at the origin, no command, no solution.
    #[verifier::spinoff_prover]
    pub fn reset(&mut self)
        ensures
            final(self).kind() == old(self).kind(),
            final(self).predictions_agree(),
            *final(self) == old(self).restarted(),
    {
        match self {
            AnyGaitController::Champ(c) => c.reset(),
            AnyGaitController::Mpc(c) => c.reset(),
            AnyGaitController::CentroidalSrbd(c) => c.reset(),
            AnyGaitController::FullCentroidal(c) => c.reset(),
            AnyGaitController::LinearCrawl(c) => c.reset(),
        }
    }

    /// Takes the observed velocities into the closed-loop modes.
    #[verifier::spinoff_prover]
    #[verifier::rlimit(40)]
    pub fn set_body_state_observed(&mut self, v_world: Vec3, omega_world: Vec3)
        ensures
            final(self).kind() == old(self).kind(),
            *final(self) == (match *old(self) {
                AnyGaitController::Mpc(c) => AnyGaitController::Mpc(
                    MpcGaitController {
                        v_observed_world: v_world,
                        omega_observed_world: omega_world,
                        ..c
                    },
                ),
                AnyGaitController::CentroidalSrbd(c) => AnyGaitController::CentroidalSrbd(
                    CentroidalMpcGaitController {
                        v_observed_world: v_world,
                        omega_observed_world: omega_world,
                        ..c
                    },
                ),
                AnyGaitController::FullCentroidal(c) => AnyGaitController::FullCentroidal(
                    FullCentroidalMpcGaitController {
                        v_observed_world: v_world,
                        omega_observed_world: omega_world,
                        ..c
                    },
                ),
                _ => *old(self),
            }),
    {
        match self {
            AnyGaitController::Mpc(c) => {
                c.v_observed_world = v_world;
                c.omega_observed_world = omega_world;
            },
            AnyGaitController::CentroidalSrbd(c) => c.set_body_state_observed(v_world, omega_world),
            AnyGaitController::FullCentroidal(c) => c.set_body_state_observed(v_world, omega_world),
            _ => {},
        }
    }

    /// Takes the observed pose into the closed-loop modes.
    #[verifier::spinoff_prover]
    #[verifier::rlimit(40)]
    pub fn set_body_pose_observed(&mut self, world_yaw: Scalar, world_position: Vec3)
        ensures
            final(self).kind() == old(self).kind(),
            *final(self) == (match *old(self) {
                AnyGaitController::Mpc(c) => AnyGaitController::Mpc(
                    MpcGaitController { body_state: BodyState { world_position, world_yaw }, ..c },
                ),
                AnyGaitController::CentroidalSrbd(c) => AnyGaitController::CentroidalSrbd(
                    CentroidalMpcGaitController {
                        body_state: BodyState { world_position, world_yaw },
                        ..c
                    },
                ),
                AnyGaitController::FullCentroidal(c) => AnyGaitController::FullCentroidal(
                    FullCentroidalMpcGaitController {
                        body_state: BodyState { world_position, world_yaw },
                        ..c
                    },
                ),
                _ => *old(self),
            }),
    {
        match self {
            AnyGaitController::Mpc(c) => {
                c.body_state = BodyState { world_position, world_yaw };
            },
            AnyGaitController::CentroidalSrbd(c) => {
                c.set_body_pose_observed(world_yaw, world_position)
            },
            AnyGaitController::FullCentroidal(c) => {
                c.set_body_pose_observed(world_yaw, world_position)
            },
            _ => {},
        }
    }

    /// Sets the height of the trunk in a crawl; other modes have no such target.
    #[verifier::spinoff_prover]
    pub fn set_body_height_m(&mut self, h: Scalar)
        ensures
            final(self).kind() == old(self).kind(),
            old(self).predictions_agree() ==> final(self).predictions_agree(),
            !(*old(self) is LinearCrawl) ==> *final(self) == *old(self),
            *old(self) is LinearCrawl ==> {
                &&& *final(self) is LinearCrawl
                &&& old(self)->LinearCrawl_0.rebuilds(final(self)->LinearCrawl_0)
                &&& final(self)->LinearCrawl_0 == (LinearCrawlGen {
                    body_height_m: h.max_spec(Scalar { bits: FLOOR_BITS }),
                    ctrl: final(self)->LinearCrawl_0.ctrl,
                    ..old(self)->LinearCrawl_0
                })
            },
    {
        if let AnyGaitController::LinearCrawl(c) = self {
            c.set_body_height_m(h);
        }
    }

    /// Feedforward torques of the stance legs from the latest solution; none in
    /// the open-loop modes.
    pub fn stance_grf_torques<A: Arithmetic, S: LegModel>(
        &self,
        ar: &A,
        model: &S,
        output: &ControllerOutput,
    ) -> (r: [Option<[Scalar; 3]>; 4])
        ensures
            match *self {
                AnyGaitController::Mpc(c) => are_stance_torques(
                    ar,
                    model,
                    c.kin,
                    c.body_state.world_yaw,
                    c.tuning.stance_grf_min,
                    c.last_solution,
                    *output,
                    r@,
                ),
                AnyGaitController::CentroidalSrbd(c) => are_stance_torques(
                    ar,
                    model,
                    c.kin,
                    c.body_state.world_yaw,
                    c.tuning.stance_grf_min,
                    c.last_solution_compat,
                    *output,
                    r@,
                ),
                AnyGaitController::FullCentroidal(c) => are_stance_torques(
                    ar,
                    model,
                    c.kin,
                    c.body_state.world_yaw,
                    c.tuning.stance_grf_min,
                    c.last_solution_compat,
                    *output,
                    r@,
                ),
                _ => forall|slot: int| 0 <= slot < 4 ==> #[trigger] r@[slot] is None,
            },
    {
        match self {
            AnyGaitController::Champ(_) => [None, None, None, None],
            AnyGaitController::Mpc(c) => c.stance_grf_torques(ar, model, output),
            AnyGaitController::CentroidalSrbd(c) => c.stance_grf_torques(ar, model, output),
            AnyGaitController::FullCentroidal(c) => c.stance_grf_torques(ar, model, output),
            AnyGaitController::LinearCrawl(_) => [None, None, None, None],
        }
    }
}

impl<C> AnyGaitController<C> {
    /// Replaces the leg geometry. The full-centroidal mode hands it on to its
    /// predictive controller; a crawl builds its planner anew at rest, and only
    /// its gait clock is kept.
    #[verifier::spinoff_prover]
    #[verifier::rlimit(40)]
    pub fn set_kinematics(&mut self, kin: KinematicsConfig)
        ensures
            final(self).kind() == old(self).kind(),
            match *old(self) {
                AnyGaitController::Champ(c) => *final(self) == AnyGaitController::<C>::Champ(
                    GaitController { kin, ..c },
                ),
                AnyGaitController::Mpc(c) => *final(self) == AnyGaitController::Mpc(
                    MpcGaitController { kin, ..c },
                ),
                AnyGaitController::CentroidalSrbd(c) => *final(self)
                    == AnyGaitController::<C>::CentroidalSrbd(
                    CentroidalMpcGaitController { kin, ..c },
                ),
                AnyGaitController::FullCentroidal(c) => *final(self)
                    == AnyGaitController::<C>::FullCentroidal(
                    FullCentroidalMpcGaitController {
                        kin,
                        full_centroidal_mpc: FullCentroidalMpc {
                            cfg: FullCentroidalMpcConfig {
                                kinematics: kin,
                                ..c.full_centroidal_mpc.cfg
                            },
                            ..c.full_centroidal_mpc
                        },
                        ..c
                    },
                ),
                AnyGaitController::LinearCrawl(c) => {
                    let d = final(self)->LinearCrawl_0;
                    &&& *final(self) is LinearCrawl
                    &&& d.wf()
                    &&& d == (LinearCrawlGen { ctrl: d.ctrl, ..c })
                    &&& d.ctrl.kin == kin
                    &&& d.ctrl.t == c.ctrl.t
                    &&& d.ctrl.wall_t == zero()
                    &&& !d.ctrl.holding
                    &&& is_derived(
                        c.host_cfg,
                        c.four_support_fraction,
                        c.body_height_m,
                        c.knee_forward@,
                        d.ctrl.cfg,
                    )
                },
            },
    {
        match self {
            AnyGaitController::Champ(c) => c.set_kinematics(kin),
            AnyGaitController::Mpc(c) => {
                c.kin = kin;
            },
            AnyGaitController::CentroidalSrbd(c) => c.set_kinematics(kin),
            AnyGaitController::FullCentroidal(c) => c.set_kinematics(kin),
            AnyGaitController::LinearCrawl(c) => c.set_kinematics(kin),
        }
    }
}

} // verus!
