//! Experimental settings of the controllers, described by a table and read and
//! written by name.

use vstd::prelude::*;
use crate::config::GaitConfig;
use crate::full_centroidal_controller::FullCentroidalMpcGaitController;
use crate::full_centroidal_mpc::{FullCentroidalMpc, FullCentroidalMpcConfig};
use crate::generator::AnyGaitController;
use crate::scalar::Scalar;
use crate::text::{join, same};

verus! {

/// Value of a setting.
#[derive(Clone, Copy, Debug, PartialEq, Eq, Structural)]
pub enum ExpValue {
    /// A switch.
    Bool(bool),
    /// A number.
    F64(Scalar),
}

impl ExpValue {
    /// The state of a switch.
    pub fn as_bool(self) -> (r: Option<bool>)
        ensures
            r == (match self {
                ExpValue::Bool(b) => Some(b),
                ExpValue::F64(_) => None,
            }),
    {
        match self {
            ExpValue::Bool(b) => Some(b),
            ExpValue::F64(_) => None,
        }
    }

    /// The value of a number.
    pub fn as_f64(self) -> (r: Option<Scalar>)
        ensures
            r == (match self {
                ExpValue::F64(v) => Some(v),
                ExpValue::Bool(_) => None,
            }),
    {
        match self {
            ExpValue::F64(v) => Some(v),
            ExpValue::Bool(_) => None,
        }
    }
}

/// How a setting is shown.
#[derive(Clone, Copy, Debug)]
pub enum ExpKind {
    /// As a switch.
    Bool,
    /// As a slider.
    F64 {
        /// Lower end.
        min: Scalar,
        /// Upper end.
        max: Scalar,
        /// Whether the scale is logarithmic.
        logarithmic: bool,
        /// Decimals shown.
        decimals: u8,
    },
}

/// A setting.
#[derive(Clone, Copy, Debug)]
pub struct ExpKey {
    /// Name it is read and written by.
    pub key: &'static str,
    /// Short description.
    pub label: &'static str,
    /// How it is shown.
    pub kind: ExpKind,
    /// What it does.
    pub help: &'static str,
}

/// Why a setting was not written.
#[derive(Clone, Debug)]
pub enum ExpError {
    /// The active mode has no setting of that name.
    UnknownKey(String),
    /// The value is not of the setting's kind.
    WrongKind {
        /// Name of the setting.
        key: &'static str,
    },
}

/// Help text of `legged_control_parity`.
pub const LEGGED_CONTROL_PARITY_HELP: &'static str = "Per-step phase projection + NormalVelocityConstraintCppAd analogue (swing leg vertical foot velocity equality). Bench note: didn't fix lateral 4N+ fall on its own (cap-pt 0.05 did). Kept for A/B and as the prerequisite for transition_fraction below.";

/// Help text of `parity_use_nominal_q_ref`.
pub const PARITY_USE_NOMINAL_Q_REF_HELP: &'static str = "Parity sub-flag: use the URDF nominal pose as the joint_q tracking reference (legged_control DEFAULT_JOINT_STATE analogue) instead of the IK-projected reference. Only effective while parity is on.";

/// Help text of `transition_fraction`.
pub const TRANSITION_FRACTION_HELP: &'static str = "C1 experiment: ramps the per-leg GRF reference at touchdown / lift-off. By itself (cost-side) bench was bit-exact identical to off — `r_diag[GRF]` is too small to make the MPC track the ramp. Pair with the constraint-side toggle for the real effect.";

/// Help text of `transition_enforce_constraint`.
pub const TRANSITION_ENFORCE_CONSTRAINT_HELP: &'static str = "C1-2: ramps the per-leg `max_normal_force` upper bound at touchdown / lift-off as a HARD QP inequality. Bench: lateral 6N peak roll −30 %, forward 6N peak |dy| −42 % at trans_fraction = 0.05. Off when transition_fraction = 0.";

/// Help text of `friction_cone_soft`.
pub const FRICTION_CONE_SOFT_HELP: &'static str = "A3: relaxes the friction pyramid via per-(leg, step) slack variables `s_x, s_y ≥ 0` with quadratic penalty `λ · s²`. Useful at the pyramid corner (μ=0.5 lateral 4-6N regime) where the hard form returns AlmostSolved or falls back to the reference. f_z bounds stay hard. legged_control analogue: FrictionConeConstraint + RelaxedBarrierPenalty.";

/// Help text of `friction_cone_slack_penalty`.
pub const FRICTION_CONE_SLACK_PENALTY_HELP: &'static str = "Quadratic cost on each `s_i`. Larger → cone stays closer to hard. Smaller → more slack budget under disturbance. Only effective when A3 is on.";

/// Help text of `warm_start`.
pub const WARM_START_HELP: &'static str = "B3: seed each MPC tick's SQP iter 0 from the previous tick's solved trajectory (shifted by one step) instead of the gravity-balanced cmd reference. Same convergence point at steady state, but fewer iterations to get there — typical 2× speed-up on cmd-held workloads. legged_control analogue: OCS2's solverObservation warm-start.";

/// Help text of `mpc_optimized_footstep`.
pub const MPC_OPTIMIZED_FOOTSTEP_HELP: &'static str = "A1: adds a soft cost penalising the predicted foot-XY vs the planner-supplied touchdown target. The MPC deviates the swing-leg joint trajectory to land at the target, self-consistently with its predicted base motion. Closes the loop that P2 couldn't.";

/// Help text of `q_foot_xy_world`.
pub const Q_FOOT_XY_WORLD_HELP: &'static str = "Weight on the foot-XY tracking residual. Only active when A1 is on. Higher → more aggressive footstep tracking, may overshoot on jumpy planner targets.";

/// Help text of `use_mpc_predicted_footstep`.
pub const USE_MPC_PREDICTED_FOOTSTEP_HELP: &'static str = "Replaces cap-pt feedback with a footstep correction derived from the MPC's predicted base trajectory (legged_control SwingTrajectoryPlanner analogue). Bench: **made lateral push worse** because without A1 the MPC doesn't optimise foot XY — the predicted base reflects sliding, not restoring. Kept as a documented negative result.";

/// The settings in the order of the table.
#[derive(Clone, Copy, Debug, PartialEq, Eq, Structural)]
pub enum Knob {
    /// `legged_control_parity`.
    LeggedControlParity,
    /// `parity_use_nominal_q_ref`.
    ParityUseNominalQRef,
    /// `transition_fraction`.
    TransitionFraction,
    /// `transition_enforce_constraint`.
    TransitionEnforceConstraint,
    /// `friction_cone_soft`.
    FrictionConeSoft,
    /// `friction_cone_slack_penalty`.
    FrictionConeSlackPenalty,
    /// `warm_start`.
    WarmStart,
    /// `mpc_optimized_footstep`.
    MpcOptimizedFootstep,
    /// `q_foot_xy_world`.
    QFootXyWorld,
    /// `use_mpc_predicted_footstep`.
    UseMpcPredictedFootstep,
}

impl Knob {
    /// Name of the setting.
    pub open spec fn name(self) -> &'static str {
        match self {
            Knob::LeggedControlParity => "legged_control_parity",
            Knob::ParityUseNominalQRef => "parity_use_nominal_q_ref",
            Knob::TransitionFraction => "transition_fraction",
            Knob::TransitionEnforceConstraint => "transition_enforce_constraint",
            Knob::FrictionConeSoft => "friction_cone_soft",
            Knob::FrictionConeSlackPenalty => "friction_cone_slack_penalty",
            Knob::WarmStart => "warm_start",
            Knob::MpcOptimizedFootstep => "mpc_optimized_footstep",
            Knob::QFootXyWorld => "q_foot_xy_world",
            Knob::UseMpcPredictedFootstep => "use_mpc_predicted_footstep",
        }
    }

    /// Place in the table.
    pub open spec fn place(self) -> int {
        match self {
            Knob::LeggedControlParity => 0,
            Knob::ParityUseNominalQRef => 1,
            Knob::TransitionFraction => 2,
            Knob::TransitionEnforceConstraint => 3,
            Knob::FrictionConeSoft => 4,
            Knob::FrictionConeSlackPenalty => 5,
            Knob::WarmStart => 6,
            Knob::MpcOptimizedFootstep => 7,
            Knob::QFootXyWorld => 8,
            Knob::UseMpcPredictedFootstep => 9,
        }
    }

    /// Whether the setting is a switch.
    pub open spec fn is_switch(self) -> bool {
        match self {
            Knob::LeggedControlParity => true,
            Knob::ParityUseNominalQRef => true,
            Knob::TransitionFraction => false,
            Knob::TransitionEnforceConstraint => true,
            Knob::FrictionConeSoft => true,
            Knob::FrictionConeSlackPenalty => false,
            Knob::WarmStart => true,
            Knob::MpcOptimizedFootstep => true,
            Knob::QFootXyWorld => false,
            Knob::UseMpcPredictedFootstep => true,
        }
    }

    /// Whether a value is of the setting's kind.
    pub open spec fn fits(self, v: ExpValue) -> bool {
        v is Bool == self.is_switch()
    }

    /// The setting's name.
    fn key(self) -> (r: &'static str)
        ensures
            r == self.name(),
    {
        match self {
            Knob::LeggedControlParity => "legged_control_parity",
            Knob::ParityUseNominalQRef => "parity_use_nominal_q_ref",
            Knob::TransitionFraction => "transition_fraction",
            Knob::TransitionEnforceConstraint => "transition_enforce_constraint",
            Knob::FrictionConeSoft => "friction_cone_soft",
            Knob::FrictionConeSlackPenalty => "friction_cone_slack_penalty",
            Knob::WarmStart => "warm_start",
            Knob::MpcOptimizedFootstep => "mpc_optimized_footstep",
            Knob::QFootXyWorld => "q_foot_xy_world",
            Knob::UseMpcPredictedFootstep => "use_mpc_predicted_footstep",
        }
    }

    /// The setting of a name.
    pub fn find(key: &str) -> (r: Option<Knob>)
        ensures
            match r {
                Some(k) => key@ == k.name()@,
                None => forall|k: Knob| key@ != #[trigger] k.name()@,
            },
    {
        if same(key, "legged_control_parity") {
            Some(Knob::LeggedControlParity)
        } else if same(key, "parity_use_nominal_q_ref") {
            Some(Knob::ParityUseNominalQRef)
        } else if same(key, "transition_fraction") {
            Some(Knob::TransitionFraction)
        } else if same(key, "transition_enforce_constraint") {
            Some(Knob::TransitionEnforceConstraint)
        } else if same(key, "friction_cone_soft") {
            Some(Knob::FrictionConeSoft)
        } else if same(key, "friction_cone_slack_penalty") {
            Some(Knob::FrictionConeSlackPenalty)
        } else if same(key, "warm_start") {
            Some(Knob::WarmStart)
        } else if same(key, "mpc_optimized_footstep") {
            Some(Knob::MpcOptimizedFootstep)
        } else if same(key, "q_foot_xy_world") {
            Some(Knob::QFootXyWorld)
        } else if same(key, "use_mpc_predicted_footstep") {
            Some(Knob::UseMpcPredictedFootstep)
        } else {
            None
        }
    }

    /// The table entry of the setting.
    pub open spec fn entry(self) -> ExpKey {
        match self {
            Knob::LeggedControlParity => ExpKey {
                key: "legged_control_parity",
                label: "legged_control parity",
                kind: ExpKind::Bool,
                help: LEGGED_CONTROL_PARITY_HELP,
            },
            Knob::ParityUseNominalQRef => ExpKey {
                key: "parity_use_nominal_q_ref",
                label: "parity: nominal q_ref",
                kind: ExpKind::Bool,
                help: PARITY_USE_NOMINAL_Q_REF_HELP,
            },
            Knob::TransitionFraction => ExpKey {
                key: "transition_fraction",
                label: "transition_fraction",
                kind: ExpKind::F64 {
                    min: Scalar { bits: 0x0000000000000000 },
                    max: Scalar { bits: 0x3FD3333333333333 },
                    logarithmic: false,
                    decimals: 2,
                },
                help: TRANSITION_FRACTION_HELP,
            },
            Knob::TransitionEnforceConstraint => ExpKey {
                key: "transition_enforce_constraint",
                label: "transition: enforce as hard constraint (C1-2)",
                kind: ExpKind::Bool,
                help: TRANSITION_ENFORCE_CONSTRAINT_HELP,
            },
            Knob::FrictionConeSoft => ExpKey {
                key: "friction_cone_soft",
                label: "friction cone soft + slack (A3)",
                kind: ExpKind::Bool,
                help: FRICTION_CONE_SOFT_HELP,
            },
            Knob::FrictionConeSlackPenalty => ExpKey {
                key: "friction_cone_slack_penalty",
                label: "slack penalty",
                kind: ExpKind::F64 {
                    min: Scalar { bits: 0x4024000000000000 },
                    max: Scalar { bits: 0x40C3880000000000 },
                    logarithmic: true,
                    decimals: 0,
                },
                help: FRICTION_CONE_SLACK_PENALTY_HELP,
            },
            Knob::WarmStart => ExpKey {
                key: "warm_start",
                label: "MPC warm-start (B3)",
                kind: ExpKind::Bool,
                help: WARM_START_HELP,
            },
            Knob::MpcOptimizedFootstep => ExpKey {
                key: "mpc_optimized_footstep",
                label: "MPC-optimised footstep XY (A1)",
                kind: ExpKind::Bool,
                help: MPC_OPTIMIZED_FOOTSTEP_HELP,
            },
            Knob::QFootXyWorld => ExpKey {
                key: "q_foot_xy_world",
                label: "q_foot_xy_world",
                kind: ExpKind::F64 {
                    min: Scalar { bits: 0x4024000000000000 },
                    max: Scalar { bits: 0x40B3880000000000 },
                    logarithmic: true,
                    decimals: 0,
                },
                help: Q_FOOT_XY_WORLD_HELP,
            },
            Knob::UseMpcPredictedFootstep => ExpKey {
                key: "use_mpc_predicted_footstep",
                label: "MPC-predicted footstep (P2)",
                kind: ExpKind::Bool,
                help: USE_MPC_PREDICTED_FOOTSTEP_HELP,
            },
        }
    }

    /// The table entry of the setting.
    pub fn describe(self) -> (r: ExpKey)
        ensures
            r == self.entry(),
    {
        match self {
            Knob::LeggedControlParity => ExpKey {
                key: "legged_control_parity",
                label: "legged_control parity",
                kind: ExpKind::Bool,
                help: LEGGED_CONTROL_PARITY_HELP,
            },
            Knob::ParityUseNominalQRef => ExpKey {
                key: "parity_use_nominal_q_ref",
                label: "parity: nominal q_ref",
                kind: ExpKind::Bool,
                help: PARITY_USE_NOMINAL_Q_REF_HELP,
            },
            Knob::TransitionFraction => ExpKey {
                key: "transition_fraction",
                label: "transition_fraction",
                kind: ExpKind::F64 {
                    min: Scalar { bits: 0x0000000000000000 },
                    max: Scalar { bits: 0x3FD3333333333333 },
                    logarithmic: false,
                    decimals: 2,
                },
                help: TRANSITION_FRACTION_HELP,
            },
            Knob::TransitionEnforceConstraint => ExpKey {
                key: "transition_enforce_constraint",
                label: "transition: enforce as hard constraint (C1-2)",
                kind: ExpKind::Bool,
                help: TRANSITION_ENFORCE_CONSTRAINT_HELP,
            },
            Knob::FrictionConeSoft => ExpKey {
                key: "friction_cone_soft",
                label: "friction cone soft + slack (A3)",
                kind: ExpKind::Bool,
                help: FRICTION_CONE_SOFT_HELP,
            },
            Knob::FrictionConeSlackPenalty => ExpKey {
                key: "friction_cone_slack_penalty",
                label: "slack penalty",
                kind: ExpKind::F64 {
                    min: Scalar { bits: 0x4024000000000000 },
                    max: Scalar { bits: 0x40C3880000000000 },
                    logarithmic: true,
                    decimals: 0,
                },
                help: FRICTION_CONE_SLACK_PENALTY_HELP,
            },
            Knob::WarmStart => ExpKey {
                key: "warm_start",
                label: "MPC warm-start (B3)",
                kind: ExpKind::Bool,
                help: WARM_START_HELP,
            },
            Knob::MpcOptimizedFootstep => ExpKey {
                key: "mpc_optimized_footstep",
                label: "MPC-optimised footstep XY (A1)",
                kind: ExpKind::Bool,
                help: MPC_OPTIMIZED_FOOTSTEP_HELP,
            },
            Knob::QFootXyWorld => ExpKey {
                key: "q_foot_xy_world",
                label: "q_foot_xy_world",
                kind: ExpKind::F64 {
                    min: Scalar { bits: 0x4024000000000000 },
                    max: Scalar { bits: 0x40B3880000000000 },
                    logarithmic: true,
                    decimals: 0,
                },
                help: Q_FOOT_XY_WORLD_HELP,
            },
            Knob::UseMpcPredictedFootstep => ExpKey {
                key: "use_mpc_predicted_footstep",
                label: "MPC-predicted footstep (P2)",
                kind: ExpKind::Bool,
                help: USE_MPC_PREDICTED_FOOTSTEP_HELP,
            },
        }
    }

    /// All settings in the order they are shown.
    pub const ALL: [Knob; 10] = [
        Knob::LeggedControlParity,
        Knob::ParityUseNominalQRef,
        Knob::TransitionFraction,
        Knob::TransitionEnforceConstraint,
        Knob::FrictionConeSoft,
        Knob::FrictionConeSlackPenalty,
        Knob::WarmStart,
        Knob::MpcOptimizedFootstep,
        Knob::QFootXyWorld,
        Knob::UseMpcPredictedFootstep,
    ];
}

impl ExpError {
    /// The error in words.
    pub fn message(&self) -> (r: String)
        ensures
            r@ == (match *self {
                ExpError::UnknownKey(k) => "unknown experimental key '"@ + k@ + "'"@,
                ExpError::WrongKind { key } => "wrong value kind for experimental key '"@ + key@
                    + "'"@,
            }),
    {
        match self {
            ExpError::UnknownKey(k) => join("unknown experimental key '", k.as_str(), "'"),
            ExpError::WrongKind { key } => join(
                "wrong value kind for experimental key '",
                key,
                "'",
            ),
        }
    }
}

/// Number of characters of a name.
spec fn name_len(k: Knob) -> nat {
    match k {
        Knob::LeggedControlParity => 21,
        Knob::ParityUseNominalQRef => 24,
        Knob::TransitionFraction => 19,
        Knob::TransitionEnforceConstraint => 29,
        Knob::FrictionConeSoft => 18,
        Knob::FrictionConeSlackPenalty => 27,
        Knob::WarmStart => 10,
        Knob::MpcOptimizedFootstep => 22,
        Knob::QFootXyWorld => 15,
        Knob::UseMpcPredictedFootstep => 26,
    }
}

proof fn names_have_lengths(k: Knob)
    ensures
        k.name()@.len() == name_len(k),
{
    match k {
        Knob::LeggedControlParity => {
            reveal_strlit("legged_control_parity");
        },
        Knob::ParityUseNominalQRef => {
            reveal_strlit("parity_use_nominal_q_ref");
        },
        Knob::TransitionFraction => {
            reveal_strlit("transition_fraction");
        },
        Knob::TransitionEnforceConstraint => {
            reveal_strlit("transition_enforce_constraint");
        },
        Knob::FrictionConeSoft => {
            reveal_strlit("friction_cone_soft");
        },
        Knob::FrictionConeSlackPenalty => {
            reveal_strlit("friction_cone_slack_penalty");
        },
        Knob::WarmStart => {
            reveal_strlit("warm_start");
        },
        Knob::MpcOptimizedFootstep => {
            reveal_strlit("mpc_optimized_footstep");
        },
        Knob::QFootXyWorld => {
            reveal_strlit("q_foot_xy_world");
        },
        Knob::UseMpcPredictedFootstep => {
            reveal_strlit("use_mpc_predicted_footstep");
        },
    }
}

/// Different settings have different names.
pub proof fn knob_names_are_distinct(a: Knob, b: Knob)
    requires
        a.name()@ == b.name()@,
    ensures
        a == b,
{
    names_have_lengths(a);
    names_have_lengths(b);
}

/// The value of a setting that lives in the gait parameters.
pub open spec fn gait_reading(cfg: GaitConfig, k: Knob) -> ExpValue {
    match k {
        Knob::TransitionFraction => ExpValue::F64(cfg.transition_fraction),
        Knob::TransitionEnforceConstraint => ExpValue::Bool(cfg.transition_enforce_constraint),
        Knob::FrictionConeSoft => ExpValue::Bool(cfg.friction_cone_soft),
        Knob::FrictionConeSlackPenalty => ExpValue::F64(cfg.friction_cone_slack_penalty),
        Knob::WarmStart => ExpValue::Bool(cfg.warm_start),
        Knob::MpcOptimizedFootstep => ExpValue::Bool(cfg.mpc_optimized_footstep),
        _ => ExpValue::F64(cfg.q_foot_xy_world),
    }
}

/// The value of a setting.
pub open spec fn reading(c: FullCentroidalMpcGaitController, k: Knob) -> ExpValue {
    match k {
        Knob::LeggedControlParity => ExpValue::Bool(c.legged_control_parity),
        Knob::ParityUseNominalQRef => ExpValue::Bool(c.parity_use_nominal_q_ref),
        Knob::UseMpcPredictedFootstep => ExpValue::Bool(c.use_mpc_predicted_footstep),
        _ => gait_reading(c.cfg, k),
    }
}

/// The gait parameters with a setting that lives there written.
pub open spec fn with_setting(cfg: GaitConfig, k: Knob, v: ExpValue) -> GaitConfig {
    match k {
        Knob::TransitionFraction => GaitConfig { transition_fraction: v->F64_0, ..cfg },
        Knob::TransitionEnforceConstraint => GaitConfig {
            transition_enforce_constraint: v->Bool_0,
            ..cfg
        },
        Knob::FrictionConeSoft => GaitConfig { friction_cone_soft: v->Bool_0, ..cfg },
        Knob::FrictionConeSlackPenalty => GaitConfig {
            friction_cone_slack_penalty: v->F64_0,
            ..cfg
        },
        Knob::WarmStart => GaitConfig { warm_start: v->Bool_0, ..cfg },
        Knob::MpcOptimizedFootstep => GaitConfig { mpc_optimized_footstep: v->Bool_0, ..cfg },
        _ => GaitConfig { q_foot_xy_world: v->F64_0, ..cfg },
    }
}

/// The controller with a setting written, for a value of its kind. Settings of
/// the gait go through the gait parameters, so that the predictive controller
/// sees them.
pub open spec fn written(c: FullCentroidalMpcGaitController, k: Knob, v: ExpValue) -> FullCentroidalMpcGaitController {
    match k {
        Knob::LeggedControlParity => with_parity(c, v->Bool_0),
        Knob::ParityUseNominalQRef => with_nominal(c, v->Bool_0),
        Knob::UseMpcPredictedFootstep => with_predicted(c, v->Bool_0),
        _ => with_gait(c, with_setting(c.cfg, k, v)),
    }
}

/// The controller with other gait parameters.
#[verifier::opaque]
pub open spec fn with_gait(c: FullCentroidalMpcGaitController, cfg: GaitConfig) -> FullCentroidalMpcGaitController {
    FullCentroidalMpcGaitController { cfg, full_centroidal_mpc: c.mirrored_mpc(cfg), ..c }
}

proof fn gait_settings_read_back(cfg: GaitConfig, k: Knob, v: ExpValue, other: Knob)
    requires
        k.fits(v),
        !is_flag(k),
        !is_flag(other),
    ensures
        gait_reading(with_setting(cfg, k, v), k) == v,
        other != k ==> gait_reading(with_setting(cfg, k, v), other) == gait_reading(cfg, other),
{
}

/// The setting lives in the controller, not in its gait parameters.
pub open spec fn is_flag(k: Knob) -> bool {
    k == Knob::LeggedControlParity || k == Knob::ParityUseNominalQRef
        || k == Knob::UseMpcPredictedFootstep
}

/// A setting that was written reads back, and every other reads as before.
pub proof fn settings_read_back(
    c: FullCentroidalMpcGaitController,
    k: Knob,
    v: ExpValue,
    other: Knob,
)
    requires
        k.fits(v),
    ensures
        reading(written(c, k, v), k) == v,
        other != k ==> reading(written(c, k, v), other) == reading(c, other),
{
    let cfg = with_setting(c.cfg, k, v);
    gait_is_written(c, cfg);
    parity_is_written(c, v->Bool_0);
    nominal_is_written(c, v->Bool_0);
    predicted_is_written(c, v->Bool_0);
    if !is_flag(k) {
        assert(written(c, k, v) == with_gait(c, cfg));
        gait_settings_read_back(c.cfg, k, v, k);
        if !is_flag(other) {
            gait_settings_read_back(c.cfg, k, v, other);
        }
    }
}

proof fn gait_is_written(c: FullCentroidalMpcGaitController, cfg: GaitConfig)
    ensures
        with_gait(c, cfg).cfg == cfg,
        with_gait(c, cfg).legged_control_parity == c.legged_control_parity,
        with_gait(c, cfg).parity_use_nominal_q_ref == c.parity_use_nominal_q_ref,
        with_gait(c, cfg).use_mpc_predicted_footstep == c.use_mpc_predicted_footstep,
{
    reveal(with_gait);
}

proof fn parity_is_written(c: FullCentroidalMpcGaitController, b: bool)
    ensures
        with_parity(c, b).cfg == c.cfg,
        with_parity(c, b).legged_control_parity == b,
        with_parity(c, b).parity_use_nominal_q_ref == c.parity_use_nominal_q_ref,
        with_parity(c, b).use_mpc_predicted_footstep == c.use_mpc_predicted_footstep,
{
    reveal(with_parity);
}

proof fn nominal_is_written(c: FullCentroidalMpcGaitController, b: bool)
    ensures
        with_nominal(c, b).cfg == c.cfg,
        with_nominal(c, b).legged_control_parity == c.legged_control_parity,
        with_nominal(c, b).parity_use_nominal_q_ref == b,
        with_nominal(c, b).use_mpc_predicted_footstep == c.use_mpc_predicted_footstep,
{
    reveal(with_nominal);
}

proof fn predicted_is_written(c: FullCentroidalMpcGaitController, b: bool)
    ensures
        with_predicted(c, b).cfg == c.cfg,
        with_predicted(c, b).legged_control_parity == c.legged_control_parity,
        with_predicted(c, b).parity_use_nominal_q_ref == c.parity_use_nominal_q_ref,
        with_predicted(c, b).use_mpc_predicted_footstep == b,
{
    reveal(with_predicted);
}

fn read(c: &FullCentroidalMpcGaitController, k: Knob) -> (r: ExpValue)
    ensures
        r == reading(*c, k),
{
    match k {
        Knob::LeggedControlParity => ExpValue::Bool(c.legged_control_parity()),
        Knob::ParityUseNominalQRef => ExpValue::Bool(c.parity_use_nominal_q_ref()),
        Knob::UseMpcPredictedFootstep => ExpValue::Bool(c.use_mpc_predicted_footstep()),
        Knob::TransitionFraction => ExpValue::F64(c.cfg.transition_fraction),
        Knob::TransitionEnforceConstraint => ExpValue::Bool(c.cfg.transition_enforce_constraint),
        Knob::FrictionConeSoft => ExpValue::Bool(c.cfg.friction_cone_soft),
        Knob::FrictionConeSlackPenalty => ExpValue::F64(c.cfg.friction_cone_slack_penalty),
        Knob::WarmStart => ExpValue::Bool(c.cfg.warm_start),
        Knob::MpcOptimizedFootstep => ExpValue::Bool(c.cfg.mpc_optimized_footstep),
        Knob::QFootXyWorld => ExpValue::F64(c.cfg.q_foot_xy_world),
    }
}

fn with_flag(cfg: GaitConfig, k: Knob, b: bool) -> (r: GaitConfig)
    requires
        !is_flag(k),
        k.is_switch(),
    ensures
        r == with_setting(cfg, k, ExpValue::Bool(b)),
{
    match k {
        Knob::TransitionEnforceConstraint => GaitConfig { transition_enforce_constraint: b, ..cfg },
        Knob::FrictionConeSoft => GaitConfig { friction_cone_soft: b, ..cfg },
        Knob::WarmStart => GaitConfig { warm_start: b, ..cfg },
        _ => GaitConfig { mpc_optimized_footstep: b, ..cfg },
    }
}

fn with_number(cfg: GaitConfig, k: Knob, x: Scalar) -> (r: GaitConfig)
    requires
        !k.is_switch(),
    ensures
        r == with_setting(cfg, k, ExpValue::F64(x)),
{
    match k {
        Knob::TransitionFraction => GaitConfig { transition_fraction: x, ..cfg },
        Knob::FrictionConeSlackPenalty => GaitConfig { friction_cone_slack_penalty: x, ..cfg },
        _ => GaitConfig { q_foot_xy_world: x, ..cfg },
    }
}

fn write_gait(c: &mut FullCentroidalMpcGaitController, cfg: GaitConfig)
    ensures
        *final(c) == with_gait(*old(c), cfg),
{
    reveal(with_gait);
    c.set_config(cfg);
}

/// The controller with the swing velocity constraint switched along with parity.
#[verifier::opaque]
pub open spec fn with_parity(c: FullCentroidalMpcGaitController, b: bool) -> FullCentroidalMpcGaitController {
    FullCentroidalMpcGaitController {
        legged_control_parity: b,
        full_centroidal_mpc: FullCentroidalMpc {
            cfg: FullCentroidalMpcConfig {
                enable_swing_normal_velocity_constraint: b,
                ..c.full_centroidal_mpc.cfg
            },
            ..c.full_centroidal_mpc
        },
        ..c
    }
}

/// The controller with the nominal joint reference switched.
#[verifier::opaque]
pub open spec fn with_nominal(c: FullCentroidalMpcGaitController, b: bool) -> FullCentroidalMpcGaitController {
    FullCentroidalMpcGaitController { parity_use_nominal_q_ref: b, ..c }
}

/// The controller with predicted footholds switched.
#[verifier::opaque]
pub open spec fn with_predicted(c: FullCentroidalMpcGaitController, b: bool) -> FullCentroidalMpcGaitController {
    FullCentroidalMpcGaitController { use_mpc_predicted_footstep: b, ..c }
}

fn write_parity(c: &mut FullCentroidalMpcGaitController, b: bool)
    ensures
        *final(c) == with_parity(*old(c), b),
{
    reveal(with_parity);
    c.set_legged_control_parity(b);
}

fn write_nominal(c: &mut FullCentroidalMpcGaitController, b: bool)
    ensures
        *final(c) == with_nominal(*old(c), b),
{
    reveal(with_nominal);
    c.set_parity_use_nominal_q_ref(b);
}

fn write_predicted(c: &mut FullCentroidalMpcGaitController, b: bool)
    ensures
        *final(c) == with_predicted(*old(c), b),
{
    reveal(with_predicted);
    c.set_use_mpc_predicted_footstep(b);
}

fn write_flag(c: &mut FullCentroidalMpcGaitController, k: Knob, b: bool)
    requires
        k.is_switch(),
    ensures
        *final(c) == written(*old(c), k, ExpValue::Bool(b)),
{
    match k {
        Knob::LeggedControlParity => write_parity(c, b),
        Knob::ParityUseNominalQRef => write_nominal(c, b),
        Knob::UseMpcPredictedFootstep => write_predicted(c, b),
        _ => {
            let cfg = with_flag(c.cfg, k, b);
            write_gait(c, cfg);
        },
    }
}

fn write_number(c: &mut FullCentroidalMpcGaitController, k: Knob, x: Scalar)
    requires
        !k.is_switch(),
    ensures
        *final(c) == written(*old(c), k, ExpValue::F64(x)),
{
    let cfg = with_number(c.cfg, k, x);
    write_gait(c, cfg);
}

/// Whether a value is of a setting's kind.
fn fits(k: Knob, v: ExpValue) -> (r: bool)
    ensures
        r == k.fits(v),
{
    let number = matches!(
        k,
        Knob::TransitionFraction | Knob::FrictionConeSlackPenalty | Knob::QFootXyWorld
    );
    match v {
        ExpValue::Bool(_) => !number,
        ExpValue::F64(_) => number,
    }
}

impl<C> AnyGaitController<C> {
    /// Whether the active mode has the setting of a name, and which it is.
    pub open spec fn has_knob(self, key: Seq<char>, k: Knob) -> bool {
        self is FullCentroidal && k.name()@ == key
    }

    /// The settings of the active mode, in the order they are shown.
    pub fn experimental_keys(&self) -> (r: Vec<ExpKey>)
        ensures
            !(self is FullCentroidal) ==> r@.len() == 0,
            self is FullCentroidal ==> r@.len() == 10 && forall|k: Knob|
                r@[#[trigger] k.place()] == k.entry(),
    {
        let mut r: Vec<ExpKey> = Vec::new();
        if let AnyGaitController::FullCentroidal(_) = self {
            r.push(Knob::LeggedControlParity.describe());
            r.push(Knob::ParityUseNominalQRef.describe());
            r.push(Knob::TransitionFraction.describe());
            r.push(Knob::TransitionEnforceConstraint.describe());
            r.push(Knob::FrictionConeSoft.describe());
            r.push(Knob::FrictionConeSlackPenalty.describe());
            r.push(Knob::WarmStart.describe());
            r.push(Knob::MpcOptimizedFootstep.describe());
            r.push(Knob::QFootXyWorld.describe());
            r.push(Knob::UseMpcPredictedFootstep.describe());
        }
        r
    }

    /// Reads a setting; `None` if the active mode has none of that name.
    pub fn get_experimental(&self, key: &str) -> (r: Option<ExpValue>)
        ensures
            match r {
                Some(v) => exists|k: Knob| #[trigger]
                    self.has_knob(key@, k) && v == reading(self->FullCentroidal_0, k),
                None => forall|k: Knob| !#[trigger] self.has_knob(key@, k),
            },
    {
        match self {
            AnyGaitController::FullCentroidal(c) => match Knob::find(key) {
                Some(k) => {
                    assert(self.has_knob(key@, k));
                    Some(read(c, k))
                },
                None => None,
            },
            _ => None,
        }
    }

    /// Writes a setting. Nothing changes on an error.
    pub fn set_experimental(&mut self, key: &str, value: ExpValue) -> (r: Result<(), ExpError>)
        ensures
            final(self).kind() == old(self).kind(),
            match r {
                Ok(_) => exists|k: Knob| #[trigger]
                    old(self).has_knob(key@, k) && k.fits(value) && *final(self)
                        == AnyGaitController::<C>::FullCentroidal(
                        written(old(self)->FullCentroidal_0, k, value),
                    ),
                Err(ExpError::UnknownKey(name)) => name@ == key@ && *final(self) == *old(self)
                    && forall|k: Knob| !#[trigger] old(self).has_knob(key@, k),
                Err(ExpError::WrongKind { key: name }) => *final(self) == *old(self)
                    && exists|k: Knob| #[trigger]
                    old(self).has_knob(key@, k) && name == k.name() && !k.fits(value),
            },
    {
        let known = match self {
            AnyGaitController::FullCentroidal(_) => Knob::find(key),
            _ => None,
        };
        match known {
            None => Err(ExpError::UnknownKey(key.to_owned())),
            Some(k) => {
                assert(old(self).has_knob(key@, k));
                if !fits(k, value) {
                    return Err(ExpError::WrongKind { key: k.key() });
                }
                if let AnyGaitController::FullCentroidal(c) = self {
                    match value {
                        ExpValue::Bool(b) => write_flag(c, k, b),
                        ExpValue::F64(x) => write_number(c, k, x),
                    }
                }
                Ok(())
            },
        }
    }
}

} // verus!
