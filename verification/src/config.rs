//! Configuration types: leg kinematics, gait parameters, leg identifiers.

use vstd::prelude::*;
use crate::arith::{deterministic, difference, product, quotient, root, sum, Arithmetic};
use crate::scalar::{one, zero, Scalar, Vec3};
use crate::text::same;

verus! {

/// The four legs of a quadruped: front-left, front-right, rear-left, rear-right.
///
/// The variants in order are the slots of every per-leg array.
#[derive(Clone, Copy, Debug, PartialEq, Eq, Hash, Structural)]
pub enum LegId {
    FL,
    FR,
    RL,
    RR,
}

impl LegId {
    /// All legs in slot order.
    pub const ALL: [LegId; 4] = [LegId::FL, LegId::FR, LegId::RL, LegId::RR];

    /// Slot of the leg in per-leg arrays.
    pub open spec fn slot(self) -> int {
        match self {
            LegId::FL => 0,
            LegId::FR => 1,
            LegId::RL => 2,
            LegId::RR => 3,
        }
    }

    /// The leg's two-letter name.
    pub open spec fn name(self) -> Seq<char> {
        match self {
            LegId::FL => "FL"@,
            LegId::FR => "FR"@,
            LegId::RL => "RL"@,
            LegId::RR => "RR"@,
        }
    }

    /// The leg in a slot.
    pub open spec fn at_slot(slot: int) -> LegId {
        if slot == 0 {
            LegId::FL
        } else if slot == 1 {
            LegId::FR
        } else if slot == 2 {
            LegId::RL
        } else {
            LegId::RR
        }
    }

    /// The leg's two-letter name.
    pub fn label(self) -> (r: &'static str)
        ensures
            r@ == self.name(),
    {
        match self {
            LegId::FL => "FL",
            LegId::FR => "FR",
            LegId::RL => "RL",
            LegId::RR => "RR",
        }
    }

    /// Whether the leg is on the front half of the body.
    pub fn is_front(self) -> (r: bool)
        ensures
            r == (self == LegId::FL || self == LegId::FR),
    {
        matches!(self, LegId::FL | LegId::FR)
    }

    /// Whether the leg is on the left side of the body.
    pub fn is_left(self) -> (r: bool)
        ensures
            r == (self == LegId::FL || self == LegId::RL),
    {
        matches!(self, LegId::FL | LegId::RL)
    }
}

/// Slot of a leg in per-leg arrays.
pub fn slot_of(leg: LegId) -> (r: usize)
    ensures
        r == leg.slot(),
        r < 4,
{
    match leg {
        LegId::FL => 0,
        LegId::FR => 1,
        LegId::RL => 2,
        LegId::RR => 3,
    }
}

/// Two legs in the same slot are the same leg, and every slot has its leg.
pub proof fn slots_are_distinct(a: LegId, b: LegId)
    ensures
        a.slot() == b.slot() ==> a == b,
        0 <= a.slot() < 4,
        LegId::at_slot(a.slot()) == a,
{
}

/// Body-frame velocity command: forward, left and yaw rate.
#[derive(Clone, Copy, Debug, PartialEq, Eq, Structural)]
pub struct VelocityCmd {
    /// Forward velocity (m/s).
    pub vx: Scalar,
    /// Lateral velocity, body-left positive (m/s).
    pub vy: Scalar,
    /// Yaw rate (rad/s).
    pub wz: Scalar,
}

impl Default for VelocityCmd {
    fn default() -> (r: VelocityCmd)
        ensures
            r == VelocityCmd::zero(),
    {
        VelocityCmd::zero()
    }
}

impl VelocityCmd {
    /// No motion.
    #[verifier::allow_in_spec]
    pub fn zero() -> VelocityCmd
        returns
            (VelocityCmd { vx: zero(), vy: zero(), wz: zero() }),
    {
        VelocityCmd { vx: zero(), vy: zero(), wz: zero() }
    }

    /// Every component is a zero of either sign.
    pub open spec fn is_still(self) -> bool {
        self.vx.magnitude() == 0 && self.vy.magnitude() == 0 && self.wz.magnitude() == 0
    }

    /// Whether the command is exactly zero.
    pub fn is_zero(&self) -> (r: bool)
        ensures
            r == self.is_still(),
    {
        self.vx.eq_value(zero()) && self.vy.eq_value(zero()) && self.wz.eq_value(zero())
    }

    /// Speed of the linear part.
    pub open spec fn speed<A: Arithmetic>(self, ar: &A) -> Scalar {
        root(ar, sum(ar, product(ar, self.vx, self.vx), product(ar, self.vy, self.vy)))
    }

    /// Speed of the linear part (m/s).
    pub fn linear_speed<A: Arithmetic>(&self, ar: &A) -> (r: Scalar)
        ensures
            deterministic(ar) ==> r == self.speed(ar),
    {
        ar.sqrt(ar.plus(ar.times(self.vx, self.vx), ar.times(self.vy, self.vy)))
    }
}

/// High-level gait family.
#[derive(Clone, Copy, Debug, PartialEq, Eq, Structural)]
pub enum GaitType {
    /// Diagonal pairs in phase: FL+RR against FR+RL.
    Trot,
    /// All four legs a quarter cycle apart.
    Walk,
    /// Lateral pairs in phase: FL+RL against FR+RR.
    Pace,
    /// Front pair against rear pair.
    Bound,
}

/// Bits of one quarter.
pub const QUARTER_BITS: u64 = 0x3FD0_0000_0000_0000;

/// Bits of one half.
pub const HALF_BITS: u64 = 0x3FE0_0000_0000_0000;

/// Bits of three quarters.
pub const THREE_QUARTERS_BITS: u64 = 0x3FE8_0000_0000_0000;

impl GaitType {
    /// All gaits.
    pub const ALL: [GaitType; 4] = [
        GaitType::Trot,
        GaitType::Walk,
        GaitType::Pace,
        GaitType::Bound,
    ];

    /// The gait's name.
    pub open spec fn name(self) -> Seq<char> {
        match self {
            GaitType::Trot => "Trot"@,
            GaitType::Walk => "Walk"@,
            GaitType::Pace => "Pace"@,
            GaitType::Bound => "Bound"@,
        }
    }

    /// The gait's name.
    pub fn label(self) -> (r: &'static str)
        ensures
            r@ == self.name(),
    {
        match self {
            GaitType::Trot => "Trot",
            GaitType::Walk => "Walk",
            GaitType::Pace => "Pace",
            GaitType::Bound => "Bound",
        }
    }

    /// How far a leg lags the cycle start, in cycles.
    pub open spec fn offset(self, leg: LegId) -> Scalar {
        let half = Scalar { bits: HALF_BITS };
        match self {
            GaitType::Trot => if leg == LegId::FL || leg == LegId::RR {
                zero()
            } else {
                half
            },
            GaitType::Walk => match leg {
                LegId::FL => zero(),
                LegId::RR => Scalar { bits: QUARTER_BITS },
                LegId::FR => half,
                LegId::RL => Scalar { bits: THREE_QUARTERS_BITS },
            },
            GaitType::Pace => if leg == LegId::FL || leg == LegId::RL {
                zero()
            } else {
                half
            },
            GaitType::Bound => if leg == LegId::FL || leg == LegId::FR {
                zero()
            } else {
                half
            },
        }
    }

    /// Phase offset of each leg, each leg once, in the order of the phases.
    pub fn phase_offsets(self) -> (r: [(LegId, Scalar); 4])
        ensures
            forall|i: int| 0 <= i < 4 ==> (#[trigger] r@[i]).1 == self.offset(r@[i].0),
            r@[0].0 == LegId::FL,
            r@[1].0 == (if self == GaitType::Pace {
                LegId::RL
            } else if self == GaitType::Bound {
                LegId::FR
            } else {
                LegId::RR
            }),
            r@[2].0 == (if self == GaitType::Bound { LegId::RL } else { LegId::FR }),
            r@[3].0 == (if self == GaitType::Pace || self == GaitType::Bound {
                LegId::RR
            } else {
                LegId::RL
            }),
    {
        let none = zero();
        let quarter = Scalar { bits: QUARTER_BITS };
        let half = Scalar { bits: HALF_BITS };
        let three_quarters = Scalar { bits: THREE_QUARTERS_BITS };
        match self {
            GaitType::Trot => [
                (LegId::FL, none),
                (LegId::RR, none),
                (LegId::FR, half),
                (LegId::RL, half),
            ],
            GaitType::Walk => [
                (LegId::FL, none),
                (LegId::RR, quarter),
                (LegId::FR, half),
                (LegId::RL, three_quarters),
            ],
            GaitType::Pace => [
                (LegId::FL, none),
                (LegId::RL, none),
                (LegId::FR, half),
                (LegId::RR, half),
            ],
            GaitType::Bound => [
                (LegId::FL, none),
                (LegId::FR, none),
                (LegId::RL, half),
                (LegId::RR, half),
            ],
        }
    }

    /// Default fraction of the cycle each foot spends in stance.
    pub fn default_duty_factor(self) -> (r: Scalar)
        ensures
            r.bits == (if self == GaitType::Walk { THREE_QUARTERS_BITS } else { HALF_BITS }),
    {
        match self {
            GaitType::Walk => Scalar { bits: THREE_QUARTERS_BITS },
            _ => Scalar { bits: HALF_BITS },
        }
    }
}

/// The legs of a pair move together and the two pairs half a cycle apart:
/// diagonal pairs in a trot, lateral pairs in a pace, front and rear in a bound.
/// No two legs of a walk share a phase.
pub proof fn gait_pairs(a: LegId, b: LegId)
    requires
        a != b,
    ensures
        GaitType::Trot.offset(LegId::FL) == GaitType::Trot.offset(LegId::RR),
        GaitType::Trot.offset(LegId::FR) == GaitType::Trot.offset(LegId::RL),
        GaitType::Trot.offset(LegId::FL) != GaitType::Trot.offset(LegId::FR),
        GaitType::Pace.offset(LegId::FL) == GaitType::Pace.offset(LegId::RL),
        GaitType::Pace.offset(LegId::FR) == GaitType::Pace.offset(LegId::RR),
        GaitType::Pace.offset(LegId::FL) != GaitType::Pace.offset(LegId::FR),
        GaitType::Bound.offset(LegId::FL) == GaitType::Bound.offset(LegId::FR),
        GaitType::Bound.offset(LegId::RL) == GaitType::Bound.offset(LegId::RR),
        GaitType::Bound.offset(LegId::FL) != GaitType::Bound.offset(LegId::RL),
        GaitType::Walk.offset(a) != GaitType::Walk.offset(b),
{
}

/// Timing and footstep sizing of a gait.
#[derive(Clone, Copy, Debug, PartialEq, Eq, Structural)]
pub struct GaitConfig {
    /// Gait family.
    pub gait_type: GaitType,
    /// Total cycle period (s).
    pub cycle_period_s: Scalar,
    /// Fraction of the cycle the foot spends on the ground.
    pub duty_factor: Scalar,
    /// Peak swing-foot height above the stance plane (m).
    pub swing_height_m: Scalar,
    /// Maximum forward step length (m).
    pub max_step_length_m: Scalar,
    /// Fraction of the stance phase treated as a load or unload transition.
    pub transition_fraction: Scalar,
    /// Whether the transition also tightens the vertical force bound.
    pub transition_enforce_constraint: bool,
    /// Whether the friction cone is relaxed by slack variables.
    pub friction_cone_soft: bool,
    /// Quadratic penalty on each friction-cone slack.
    pub friction_cone_slack_penalty: Scalar,
    /// Whether each solve starts from the previous solution.
    pub warm_start: bool,
    /// Whether the optimiser tracks the planned footholds.
    pub mpc_optimized_footstep: bool,
    /// Weight of the foothold tracking cost.
    pub q_foot_xy_world: Scalar,
}

/// Bits of 0.05: the shortest cycle period and the smallest duty factor.
pub const FLOOR_BITS: u64 = 0x3FA9_9999_9999_999A;

/// Bits of 0.95: the largest duty factor.
pub const DUTY_MAX_BITS: u64 = 0x3FEE_6666_6666_6666;

impl GaitConfig {
    /// Default for a small quadruped: a 0.4 s trot at half duty.
    pub fn trot() -> (r: GaitConfig)
        ensures
            r.gait_type == GaitType::Trot,
            r.cycle_period_s.bits == 0x3FD9_9999_9999_999Au64,
            r.duty_factor.bits == HALF_BITS,
            r.swing_height_m.bits == 0x3FA4_7AE1_47AE_147Bu64,
            r.max_step_length_m.bits == 0x3FB9_9999_9999_999Au64,
            r.transition_fraction == zero(),
            !r.transition_enforce_constraint,
            !r.friction_cone_soft,
            r.friction_cone_slack_penalty.bits == 0x408F_4000_0000_0000u64,
            !r.warm_start,
            !r.mpc_optimized_footstep,
            r.q_foot_xy_world.bits == 0x407F_4000_0000_0000u64,
    {
        GaitConfig {
            gait_type: GaitType::Trot,
            cycle_period_s: Scalar { bits: 0x3FD9_9999_9999_999A },
            duty_factor: Scalar { bits: HALF_BITS },
            swing_height_m: Scalar { bits: 0x3FA4_7AE1_47AE_147B },
            max_step_length_m: Scalar { bits: 0x3FB9_9999_9999_999A },
            transition_fraction: zero(),
            transition_enforce_constraint: false,
            friction_cone_soft: false,
            friction_cone_slack_penalty: Scalar { bits: 0x408F_4000_0000_0000 },
            warm_start: false,
            mpc_optimized_footstep: false,
            q_foot_xy_world: Scalar { bits: 0x407F_4000_0000_0000 },
        }
    }

    /// The same configuration with another cycle period, at least 0.05 s.
    pub fn with_cycle_period(self, s: Scalar) -> (r: GaitConfig)
        ensures
            r == (GaitConfig { cycle_period_s: s.max_spec(Scalar { bits: FLOOR_BITS }), ..self }),
    {
        GaitConfig { cycle_period_s: s.max(Scalar { bits: FLOOR_BITS }), ..self }
    }

    /// The same configuration with another swing height, not negative.
    pub fn with_swing_height(self, m: Scalar) -> (r: GaitConfig)
        ensures
            r == (GaitConfig { swing_height_m: m.max_spec(zero()), ..self }),
    {
        GaitConfig { swing_height_m: m.max(zero()), ..self }
    }

    /// The same configuration with another duty factor, within 0.05 and 0.95.
    pub fn with_duty_factor(self, d: Scalar) -> (r: GaitConfig)
        ensures
            r == (GaitConfig {
                duty_factor: d.clamp_spec(
                    Scalar { bits: FLOOR_BITS },
                    Scalar { bits: DUTY_MAX_BITS },
                ),
                ..self
            }),
    {
        GaitConfig {
            duty_factor: d.clamp(Scalar { bits: FLOOR_BITS }, Scalar { bits: DUTY_MAX_BITS }),
            ..self
        }
    }

    /// The same configuration with another step length limit, not negative.
    pub fn with_max_step_length(self, m: Scalar) -> (r: GaitConfig)
        ensures
            r == (GaitConfig { max_step_length_m: m.max_spec(zero()), ..self }),
    {
        GaitConfig { max_step_length_m: m.max(zero()), ..self }
    }

    /// The same configuration with another transition fraction, within 0 and one half.
    pub fn with_transition_fraction(self, tf: Scalar) -> (r: GaitConfig)
        ensures
            r == (GaitConfig {
                transition_fraction: tf.clamp_spec(zero(), Scalar { bits: HALF_BITS }),
                ..self
            }),
    {
        GaitConfig {
            transition_fraction: tf.clamp(zero(), Scalar { bits: HALF_BITS }),
            ..self
        }
    }

    /// The same configuration with the transition constraint switched.
    pub fn with_transition_enforce_constraint(self, enable: bool) -> (r: GaitConfig)
        ensures
            r == (GaitConfig { transition_enforce_constraint: enable, ..self }),
    {
        GaitConfig { transition_enforce_constraint: enable, ..self }
    }
}

/// The load weight from the two ramps: each capped at one, the smaller of the
/// two, and not below zero.
pub open spec fn ramp_weight(up: Scalar, down: Scalar) -> Scalar {
    up.min_spec(one()).min_spec(down.min_spec(one())).max_spec(zero())
}

/// Load weight at stance fraction `sub` for a transition `tf`: one without a
/// transition, else the ramps `s / tw` and `(1 - s) / tw`.
pub open spec fn stance_weight<A: Arithmetic>(ar: &A, sub: Scalar, tf: Scalar) -> Scalar {
    let s = sub.clamp_spec(zero(), one());
    let tw = tf.clamp_spec(zero(), Scalar { bits: HALF_BITS });
    if tw.le_spec(zero()) {
        one()
    } else {
        ramp_weight(quotient(ar, s, tw), quotient(ar, difference(ar, one(), s), tw))
    }
}

/// Load weight of a stance leg at a fraction of its stance phase.
///
/// The weight ramps up over the first `transition_fraction` of the stance,
/// holds at one, and ramps down over the last. A transition of zero gives one
/// everywhere. Whatever the arithmetic, the weight lies between zero and one.
pub fn stance_weight_at<A: Arithmetic>(
    ar: &A,
    sub_fraction: Scalar,
    transition_fraction: Scalar,
) -> (r: Scalar)
    ensures
        deterministic(ar) ==> r == stance_weight(ar, sub_fraction, transition_fraction),
        transition_fraction.le_spec(zero()) ==> r == one(),
        zero().le_spec(r) && r.le_spec(one()),
{
    let s = sub_fraction.clamp(zero(), one());
    let tw = transition_fraction.clamp(zero(), Scalar { bits: HALF_BITS });
    if tw.le(zero()) {
        return one();
    }
    let up = ar.over(s, tw);
    let down = ar.over(ar.minus(one(), s), tw);
    up.min(one()).min(down.min(one())).max(zero())
}

/// The load weight lies between zero and one, whatever the ramps.
pub proof fn ramp_weight_is_a_fraction(up: Scalar, down: Scalar)
    ensures
        zero().le_spec(ramp_weight(up, down)),
        ramp_weight(up, down).le_spec(one()),
{
}

/// Geometry of one leg: a serial roll-pitch-pitch chain from the body to the foot.
#[derive(Debug)]
pub struct LegKinematics {
    /// Which leg this is.
    pub leg: LegId,
    /// Name of the hip roll joint.
    pub hip_joint: String,
    /// Name of the thigh pitch joint.
    pub thigh_joint: String,
    /// Name of the calf pitch joint.
    pub calf_joint: String,
    /// Name of the foot link.
    pub foot_link: String,
    /// From the body origin to the hip roll axis, body frame.
    pub hip_offset: Vec3,
    /// Lateral offset from the hip roll axis to the thigh pitch axis.
    pub hip_to_thigh_y: Scalar,
    /// Length of the upper segment (m).
    pub upper_leg_m: Scalar,
    /// Length of the lower segment (m).
    pub lower_leg_m: Scalar,
    /// Foot position at neutral stance, body frame.
    pub nominal_foot_body: Vec3,
}

impl Clone for LegKinematics {
    fn clone(&self) -> (r: LegKinematics)
        ensures
            r == *self,
    {
        LegKinematics {
            leg: self.leg,
            hip_joint: self.hip_joint.clone(),
            thigh_joint: self.thigh_joint.clone(),
            calf_joint: self.calf_joint.clone(),
            foot_link: self.foot_link.clone(),
            hip_offset: self.hip_offset,
            hip_to_thigh_y: self.hip_to_thigh_y,
            upper_leg_m: self.upper_leg_m,
            lower_leg_m: self.lower_leg_m,
            nominal_foot_body: self.nominal_foot_body,
        }
    }
}

impl LegKinematics {
    /// A leg with its nominal foot straight below the thigh axis.
    ///
    /// The foot sits at the hip's x, shifted outward by `hip_to_thigh_y` (left
    /// for a left leg, right for a right leg) and down by both segment lengths.
    pub fn new<A: Arithmetic>(
        ar: &A,
        leg: LegId,
        hip_joint: String,
        thigh_joint: String,
        calf_joint: String,
        foot_link: String,
        hip_offset: Vec3,
        hip_to_thigh_y: Scalar,
        upper_leg_m: Scalar,
        lower_leg_m: Scalar,
    ) -> (r: LegKinematics)
        ensures
            r.leg == leg,
            r.hip_joint == hip_joint,
            r.thigh_joint == thigh_joint,
            r.calf_joint == calf_joint,
            r.foot_link == foot_link,
            r.hip_offset == hip_offset,
            r.hip_to_thigh_y == hip_to_thigh_y,
            r.upper_leg_m == upper_leg_m,
            r.lower_leg_m == lower_leg_m,
            r.nominal_foot_body.x == hip_offset.x,
            deterministic(ar) ==> r.nominal_foot_body == nominal_foot(
                ar,
                leg,
                hip_offset,
                hip_to_thigh_y,
                upper_leg_m,
                lower_leg_m,
            ),
    {
        let lateral = if leg.is_left() { hip_to_thigh_y } else { hip_to_thigh_y.neg() };
        let y = ar.plus(hip_offset.y, lateral);
        let length = ar.plus(upper_leg_m, lower_leg_m);
        let z = ar.minus(hip_offset.z, length);
        LegKinematics {
            leg,
            hip_joint,
            thigh_joint,
            calf_joint,
            foot_link,
            hip_offset,
            hip_to_thigh_y,
            upper_leg_m,
            lower_leg_m,
            nominal_foot_body: Vec3 { x: hip_offset.x, y, z },
        }
    }
}

/// The place straight below the thigh axis of a leg: at the hip's x, outward by
/// the offset of the thigh and down by both segments.
pub open spec fn nominal_foot<A: Arithmetic>(
    ar: &A,
    leg: LegId,
    hip_offset: Vec3,
    hip_to_thigh_y: Scalar,
    upper_leg_m: Scalar,
    lower_leg_m: Scalar,
) -> Vec3 {
    Vec3::new(
        hip_offset.x,
        sum(
            ar,
            hip_offset.y,
            if leg == LegId::FL || leg == LegId::RL {
                hip_to_thigh_y
            } else {
                hip_to_thigh_y.neg_spec()
            },
        ),
        difference(ar, hip_offset.z, sum(ar, upper_leg_m, lower_leg_m)),
    )
}

/// One [`LegKinematics`] per leg.
#[derive(Debug)]
pub struct KinematicsConfig {
    /// Front-left leg.
    pub fl: LegKinematics,
    /// Front-right leg.
    pub fr: LegKinematics,
    /// Rear-left leg.
    pub rl: LegKinematics,
    /// Rear-right leg.
    pub rr: LegKinematics,
}

impl Clone for KinematicsConfig {
    fn clone(&self) -> (r: KinematicsConfig)
        ensures
            r == *self,
    {
        KinematicsConfig {
            fl: self.fl.clone(),
            fr: self.fr.clone(),
            rl: self.rl.clone(),
            rr: self.rr.clone(),
        }
    }
}

impl KinematicsConfig {
    /// The geometry of a leg.
    pub open spec fn of(self, id: LegId) -> LegKinematics {
        match id {
            LegId::FL => self.fl,
            LegId::FR => self.fr,
            LegId::RL => self.rl,
            LegId::RR => self.rr,
        }
    }

    /// The geometry of a leg.
    pub fn leg(&self, id: LegId) -> (r: &LegKinematics)
        ensures
            *r == self.of(id),
    {
        match id {
            LegId::FL => &self.fl,
            LegId::FR => &self.fr,
            LegId::RL => &self.rl,
            LegId::RR => &self.rr,
        }
    }

    /// All four legs in slot order.
    pub fn legs(&self) -> (r: [&LegKinematics; 4])
        ensures
            forall|slot: int|
                0 <= slot < 4 ==> *(#[trigger] r@[slot]) == self.of(LegId::at_slot(slot)),
    {
        [&self.fl, &self.fr, &self.rl, &self.rr]
    }
}

/// The foot links assumed when none are configured.
pub const DEFAULT_FOOT_LINKS: [(LegId, &'static str); 4] = [
    (LegId::FL, "FL_foot"),
    (LegId::FR, "FR_foot"),
    (LegId::RL, "RL_foot"),
    (LegId::RR, "RR_foot"),
];

/// Bend of the knees, the same on both sides of the body. In the two-character
/// shorthand the front pair comes first; `<` bends backward, `>` forward.
#[derive(Clone, Copy, Debug, PartialEq, Eq, Structural)]
pub enum KneePattern {
    /// `<<`: every knee bends backward.
    BothBack,
    /// `<>`: front knees backward, rear knees forward.
    MammalianForward,
    /// `><`: front knees forward, rear knees backward.
    MammalianReverse,
    /// `>>`: every knee bends forward.
    BothForward,
}

impl KneePattern {
    /// All patterns.
    pub const ALL: [KneePattern; 4] = [
        KneePattern::BothBack,
        KneePattern::MammalianForward,
        KneePattern::MammalianReverse,
        KneePattern::BothForward,
    ];

    /// Whether the front knees bend forward.
    pub open spec fn front_forward(self) -> bool {
        self == KneePattern::MammalianReverse || self == KneePattern::BothForward
    }

    /// Whether the rear knees bend forward.
    pub open spec fn rear_forward(self) -> bool {
        self == KneePattern::MammalianForward || self == KneePattern::BothForward
    }

    /// The pattern with the given front and rear bends.
    pub open spec fn with_bends(front: bool, rear: bool) -> KneePattern {
        if front {
            if rear {
                KneePattern::BothForward
            } else {
                KneePattern::MammalianReverse
            }
        } else if rear {
            KneePattern::MammalianForward
        } else {
            KneePattern::BothBack
        }
    }

    /// The shorthand: one character for the front pair, one for the rear pair.
    pub open spec fn shorthand(self) -> Seq<char> {
        seq![
            if self.front_forward() { '>' } else { '<' },
            if self.rear_forward() { '>' } else { '<' },
        ]
    }

    /// The two-character shorthand.
    pub fn label(self) -> (r: &'static str)
        ensures
            r@ == self.shorthand(),
    {
        proof {
            reveal_strlit("<<");
            reveal_strlit("<>");
            reveal_strlit("><");
            reveal_strlit(">>");
        }
        match self {
            KneePattern::BothBack => "<<",
            KneePattern::MammalianForward => "<>",
            KneePattern::MammalianReverse => "><",
            KneePattern::BothForward => ">>",
        }
    }

    /// Reads a shorthand; `None` for anything else.
    pub fn from_label(s: &str) -> (r: Option<Self>)
        ensures
            match r {
                Some(p) => s@ == p.shorthand(),
                None => forall|p: KneePattern| s@ != #[trigger] p.shorthand(),
            },
    {
        proof {
            reveal_strlit("<<");
            reveal_strlit("<>");
            reveal_strlit("><");
            reveal_strlit(">>");
            assert("<<"@ =~= KneePattern::BothBack.shorthand());
            assert("<>"@ =~= KneePattern::MammalianForward.shorthand());
            assert("><"@ =~= KneePattern::MammalianReverse.shorthand());
            assert(">>"@ =~= KneePattern::BothForward.shorthand());
        }
        if same(s, "<<") {
            Some(KneePattern::BothBack)
        } else if same(s, "<>") {
            Some(KneePattern::MammalianForward)
        } else if same(s, "><") {
            Some(KneePattern::MammalianReverse)
        } else if same(s, ">>") {
            Some(KneePattern::BothForward)
        } else {
            None
        }
    }

    /// Whether each knee bends forward, in slot order.
    pub fn to_knee_forward(self) -> (r: [bool; 4])
        ensures
            r@[0] == self.front_forward(),
            r@[1] == self.front_forward(),
            r@[2] == self.rear_forward(),
            r@[3] == self.rear_forward(),
    {
        match self {
            KneePattern::BothBack => [false, false, false, false],
            KneePattern::MammalianForward => [false, false, true, true],
            KneePattern::MammalianReverse => [true, true, false, false],
            KneePattern::BothForward => [true, true, true, true],
        }
    }

    /// The pattern of the left legs; the right ones are not looked at.
    pub fn from_knee_forward(arr: [bool; 4]) -> (r: Self)
        ensures
            r == KneePattern::with_bends(arr@[0], arr@[2]),
    {
        match (arr[0], arr[2]) {
            (false, false) => KneePattern::BothBack,
            (false, true) => KneePattern::MammalianForward,
            (true, false) => KneePattern::MammalianReverse,
            (true, true) => KneePattern::BothForward,
        }
    }
}

/// Different patterns have different shorthands, so reading a label back gives
/// the pattern.
pub proof fn knee_labels_are_distinct(a: KneePattern, b: KneePattern)
    ensures
        a.shorthand() == b.shorthand() ==> a == b,
{
    if a.shorthand() == b.shorthand() {
        assert(a.shorthand()[0] == b.shorthand()[0]);
        assert(a.shorthand()[1] == b.shorthand()[1]);
    }
}

/// A pattern survives the trip through the per-leg array, and so does an array
/// that is the same on both sides.
pub proof fn knee_arrays_round_trip(p: KneePattern, front: bool, rear: bool)
    ensures
        KneePattern::with_bends(p.front_forward(), p.rear_forward()) == p,
        KneePattern::with_bends(front, rear).front_forward() == front,
        KneePattern::with_bends(front, rear).rear_forward() == rear,
{
}

} // verus!
