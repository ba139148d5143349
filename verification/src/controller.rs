//! Open-loop gait controller: footsteps, swing and stance targets, leg angles.
//!
//! The phase of each leg and the leg models come from the caller.

use vstd::prelude::*;
use crate::arith::{
    deterministic, difference, product, quotient, sum, vec_difference, vec_sum, Arithmetic,
};
use crate::body_state::{followed, BodyState};
use crate::config::{
    slot_of, GaitConfig, KinematicsConfig, KneePattern, LegId, LegKinematics, VelocityCmd,
    HALF_BITS,
};
use crate::footstep::{compute_footstep, planned_step, stance_position, Footstep};
use crate::ik::{knee_branches_mirror, leg_ik, solve_leg_ik};
use crate::scalar::{one, zero, Mat3, Scalar, Vec3};

verus! {

/// Phase of a leg: stance or swing, and how far through it.
#[derive(Clone, Copy, Debug, PartialEq, Eq, Structural)]
pub struct PhaseState {
    /// Which leg.
    pub leg: LegId,
    /// Fraction of the cycle that has passed for the leg.
    pub cycle_position: Scalar,
    /// Whether the foot is on the ground.
    pub is_stance: bool,
    /// Fraction of the stance or swing that has passed.
    pub sub_fraction: Scalar,
}

/// The numeric models of a leg, supplied by the caller.
pub trait LegModel {
    /// Foot position at a fraction of the swing.
    fn position(&self, lift_off: Vec3, touch_down: Vec3, height: Scalar, frac: Scalar) -> Vec3;

    /// Vertical foot velocity at a fraction of a swing of the given duration.
    fn vertical_velocity(&self, height: Scalar, frac: Scalar, duration: Scalar) -> Scalar;

    /// Derivative of the foot position by the joint angles, body frame.
    fn jacobian(&self, kin: &LegKinematics, hip: Scalar, thigh: Scalar, calf: Scalar) -> Mat3;

    /// Foothold shift for a velocity error: linear, with a steeper branch past
    /// a deadband.
    fn capture_step(&self, v_err: Scalar, gain: Scalar, pulse: Scalar, deadband: Scalar) -> Scalar;
}

/// The swing position given by a model.
pub open spec fn swing_point<S: LegModel>(
    model: &S,
    lift_off: Vec3,
    touch_down: Vec3,
    height: Scalar,
    frac: Scalar,
) -> Vec3 {
    choose|r: Vec3| call_ensures(S::position, (model, lift_off, touch_down, height, frac), r)
}

/// The vertical swing velocity given by a model.
pub open spec fn swing_rate<S: LegModel>(
    model: &S,
    height: Scalar,
    frac: Scalar,
    duration: Scalar,
) -> Scalar {
    choose|r: Scalar| call_ensures(S::vertical_velocity, (model, height, frac, duration), r)
}

/// The Jacobian given for a leg.
pub open spec fn foot_jacobian<S: LegModel>(
    model: &S,
    kin: LegKinematics,
    hip: Scalar,
    thigh: Scalar,
    calf: Scalar,
) -> Mat3 {
    choose|r: Mat3| call_ensures(S::jacobian, (model, &kin, hip, thigh, calf), r)
}

/// The foothold shift given for a velocity error.
pub open spec fn capture_shift<S: LegModel>(
    model: &S,
    v_err: Scalar,
    gain: Scalar,
    pulse: Scalar,
    deadband: Scalar,
) -> Scalar {
    choose|r: Scalar| call_ensures(S::capture_step, (model, v_err, gain, pulse, deadband), r)
}

/// The model is a function of its arguments.
pub open spec fn steady<S: LegModel>(model: &S) -> bool {
    &&& forall|a: Vec3, b: Vec3, h: Scalar, f: Scalar, r: Vec3| #[trigger]
        call_ensures(S::position, (model, a, b, h, f), r) ==> r == swing_point(model, a, b, h, f)
    &&& forall|h: Scalar, f: Scalar, d: Scalar, r: Scalar| #[trigger]
        call_ensures(S::vertical_velocity, (model, h, f, d), r) ==> r == swing_rate(model, h, f, d)
    &&& forall|kin: LegKinematics, h: Scalar, t: Scalar, c: Scalar, r: Mat3| #[trigger]
        call_ensures(S::jacobian, (model, &kin, h, t, c), r) ==> r == foot_jacobian(
            model,
            kin,
            h,
            t,
            c,
        )
    &&& forall|v: Scalar, k: Scalar, p: Scalar, d: Scalar, r: Scalar| #[trigger]
        call_ensures(S::capture_step, (model, v, k, p, d), r) ==> r == capture_shift(
            model,
            v,
            k,
            p,
            d,
        )
}

/// What the controller asks of one leg.
#[derive(Debug)]
pub struct LegOutput {
    /// Which leg.
    pub leg: LegId,
    /// Name of the hip joint.
    pub hip_joint: String,
    /// Name of the thigh joint.
    pub thigh_joint: String,
    /// Name of the calf joint.
    pub calf_joint: String,
    /// Hip angle (rad).
    pub q_hip: Scalar,
    /// Thigh angle (rad).
    pub q_thigh: Scalar,
    /// Calf angle (rad).
    pub q_calf: Scalar,
    /// Foot target, body frame (m).
    pub foot_body: Vec3,
    /// Planned step.
    pub footstep: Footstep,
    /// Phase of the leg.
    pub phase: PhaseState,
    /// Whether the foot target is within reach.
    pub reachable: bool,
}

/// Output of a tick, legs in slot order.
#[derive(Debug)]
pub struct ControllerOutput {
    /// One output per leg.
    pub legs: [LegOutput; 4],
    /// Body pose at the end of the tick.
    pub body_state: BodyState,
}

/// Name and angle of joint `j` of a leg: hip, thigh, calf.
pub open spec fn joint_of(leg: LegOutput, j: int) -> (Seq<char>, Scalar) {
    if j == 0 {
        (leg.hip_joint@, leg.q_hip)
    } else if j == 1 {
        (leg.thigh_joint@, leg.q_thigh)
    } else {
        (leg.calf_joint@, leg.q_calf)
    }
}

impl ControllerOutput {
    /// The twelve joint names with their target angles, legs in slot order, each
    /// as hip, thigh, calf.
    pub fn iter_joint_targets(&self) -> (r: Vec<(&str, Scalar)>)
        ensures
            r@.len() == 12,
            forall|i: int|
                0 <= i < 12 ==> ((#[trigger] r@[i]).0@, r@[i].1) == joint_of(
                    self.legs@[i / 3],
                    i % 3,
                ),
    {
        let mut r: Vec<(&str, Scalar)> = Vec::new();
        let mut slot: usize = 0;
        while slot < 4
            invariant
                slot <= 4,
                r@.len() == 3 * slot,
                forall|i: int|
                    0 <= i < 3 * slot ==> ((#[trigger] r@[i]).0@, r@[i].1) == joint_of(
                        self.legs@[i / 3],
                        i % 3,
                    ),
            decreases 4 - slot,
        {
            let l = &self.legs[slot];
            r.push((l.hip_joint.as_str(), l.q_hip));
            r.push((l.thigh_joint.as_str(), l.q_thigh));
            r.push((l.calf_joint.as_str(), l.q_calf));
            slot += 1;
        }
        r
    }

    /// The output of a leg.
    pub fn leg(&self, leg: LegId) -> (r: &LegOutput)
        ensures
            *r == self.legs@[leg.slot()],
    {
        &self.legs[slot_of(leg)]
    }

    /// Whether all four feet are within reach.
    pub fn all_reachable(&self) -> (r: bool)
        ensures
            r == forall|slot: int| 0 <= slot < 4 ==> (#[trigger] self.legs@[slot]).reachable,
    {
        let r = self.legs[0].reachable && self.legs[1].reachable && self.legs[2].reachable
            && self.legs[3].reachable;
        assert(r == forall|slot: int| 0 <= slot < 4 ==> (#[trigger] self.legs@[slot]).reachable) by {
            assert(self.legs@[0] == self.legs[0]);
            assert(self.legs@[1] == self.legs[1]);
            assert(self.legs@[2] == self.legs[2]);
            assert(self.legs@[3] == self.legs[3]);
        }
        r
    }
}

/// Bits of 0.3: lateral speed at which the swing height is reduced in full (m/s).
pub const VY_REF_BITS: u64 = 0x3FD3_3333_3333_3333;

/// Bits of 0.6: the largest reduction of the swing height.
pub const MAX_REDUCTION_BITS: u64 = 0x3FE3_3333_3333_3333;

/// Swing height under turning and sideways motion: reduced by up to 0.6 of the
/// base as the mean of `|wz| / 1.0` and `|vy| / 0.3`, each at most one, grows.
pub open spec fn swing_height<A: Arithmetic>(ar: &A, base: Scalar, cmd: VelocityCmd) -> Scalar {
    let yaw = quotient(ar, cmd.wz.abs_spec(), one()).min_spec(one());
    let lateral = quotient(ar, cmd.vy.abs_spec(), Scalar { bits: VY_REF_BITS }).min_spec(one());
    let r = product(ar, sum(ar, yaw, lateral), Scalar { bits: HALF_BITS }).clamp_spec(
        zero(),
        one(),
    );
    product(ar, base, difference(ar, one(), product(ar, Scalar { bits: MAX_REDUCTION_BITS }, r)))
}

/// Swing height under turning and sideways motion.
pub fn effective_swing_height<A: Arithmetic>(ar: &A, base_h: Scalar, cmd: &VelocityCmd) -> (r: Scalar)
    ensures
        deterministic(ar) ==> r == swing_height(ar, base_h, *cmd),
{
    let yaw = ar.over(cmd.wz.abs(), one()).min(one());
    let lateral = ar.over(cmd.vy.abs(), Scalar { bits: VY_REF_BITS }).min(one());
    let r = ar.times(ar.plus(yaw, lateral), Scalar { bits: HALF_BITS }).clamp(zero(), one());
    ar.times(base_h, ar.minus(one(), ar.times(Scalar { bits: MAX_REDUCTION_BITS }, r)))
}

/// Foot target of a leg: along the stance line, or along the swing curve.
pub open spec fn foot_target<A: Arithmetic, S: LegModel>(
    ar: &A,
    model: &S,
    step: Footstep,
    height: Scalar,
    phase: PhaseState,
) -> Vec3 {
    if phase.is_stance {
        stance_position(ar, step, phase.sub_fraction)
    } else {
        swing_point(model, step.lift_off, step.touch_down, height, phase.sub_fraction)
    }
}

/// The output of a leg that follows `step` with the foot at `target`.
pub open spec fn leg_output<A: Arithmetic>(
    ar: &A,
    kin: LegKinematics,
    knee_forward: bool,
    step: Footstep,
    target: Vec3,
    phase: PhaseState,
) -> LegOutput {
    let ik = leg_ik(ar, kin, target, knee_forward);
    let q = ik.joint_angles();
    LegOutput {
        leg: phase.leg,
        hip_joint: kin.hip_joint,
        thigh_joint: kin.thigh_joint,
        calf_joint: kin.calf_joint,
        q_hip: q.0,
        q_thigh: q.1,
        q_calf: q.2,
        foot_body: target,
        footstep: step,
        phase,
        reachable: ik is Reached,
    }
}

/// Builds the output of one leg for a planned step.
pub fn make_leg_output<A: Arithmetic, S: LegModel>(
    ar: &A,
    model: &S,
    kin: &LegKinematics,
    knee_forward: bool,
    step: Footstep,
    height: Scalar,
    phase: PhaseState,
) -> (r: LegOutput)
    ensures
        r.leg == phase.leg,
        r.phase == phase,
        r.footstep == step,
        r.hip_joint == kin.hip_joint,
        r.thigh_joint == kin.thigh_joint,
        r.calf_joint == kin.calf_joint,
        deterministic(ar) && steady(model) ==> r == leg_output(
            ar,
            *kin,
            knee_forward,
            step,
            foot_target(ar, model, step, height, phase),
            phase,
        ),
{
    let target = if phase.is_stance {
        step.stance_at(ar, phase.sub_fraction)
    } else {
        model.position(step.lift_off, step.touch_down, height, phase.sub_fraction)
    };
    let sol = solve_leg_ik(ar, kin, target, knee_forward);
    let q = sol.angles();
    LegOutput {
        leg: phase.leg,
        hip_joint: kin.hip_joint.clone(),
        thigh_joint: kin.thigh_joint.clone(),
        calf_joint: kin.calf_joint.clone(),
        q_hip: q.0,
        q_thigh: q.1,
        q_calf: q.2,
        foot_body: target,
        footstep: step,
        phase,
        reachable: sol.is_reachable(),
    }
}

/// A leg has a phase.
pub open spec fn lists_leg(phases: Seq<PhaseState>, leg: LegId) -> bool {
    exists|i: int| 0 <= i < phases.len() && (#[trigger] phases[i]).leg == leg
}

/// Every leg has a phase.
pub open spec fn covers_legs(phases: Seq<PhaseState>) -> bool {
    forall|leg: LegId| #[trigger] lists_leg(phases, leg)
}

/// The phase of a leg: the last one listed for it.
pub open spec fn phase_of(phases: Seq<PhaseState>, leg: LegId) -> PhaseState
    decreases phases.len(),
{
    if phases.len() == 0 || phases.last().leg == leg {
        phases.last()
    } else {
        phase_of(phases.drop_last(), leg)
    }
}

/// The phase listed for a leg is one of the list and belongs to the leg.
pub proof fn phase_of_is_listed(phases: Seq<PhaseState>, leg: LegId)
    requires
        lists_leg(phases, leg),
    ensures
        phase_of(phases, leg).leg == leg,
        phases.contains(phase_of(phases, leg)),
    decreases phases.len(),
{
    let i = choose|i: int| 0 <= i < phases.len() && (#[trigger] phases[i]).leg == leg;
    if phases.last().leg != leg {
        let rest = phases.drop_last();
        assert(rest[i].leg == leg);
        phase_of_is_listed(rest, leg);
        let j = choose|j: int| 0 <= j < rest.len() && rest[j] == phase_of(rest, leg);
        assert(phases[j] == phase_of(phases, leg));
    } else {
        assert(phases[phases.len() - 1] == phase_of(phases, leg));
    }
}

/// Finds the phase of a leg.
pub fn find_phase(phases: &[PhaseState; 4], leg: LegId) -> (r: PhaseState)
    requires
        covers_legs(phases@),
    ensures
        r == phase_of(phases@, leg),
        r.leg == leg,
{
    proof {
        assert(lists_leg(phases@, leg));
        phase_of_is_listed(phases@, leg);
        reveal_with_fuel(phase_of, 5);
        assert(phases@.drop_last().last() == phases@[2]);
        assert(phases@.drop_last().drop_last().last() == phases@[1]);
        assert(phases@.drop_last().drop_last().drop_last().last() == phases@[0]);
    }
    if phases[3].leg == leg {
        phases[3]
    } else if phases[2].leg == leg {
        phases[2]
    } else if phases[1].leg == leg {
        phases[1]
    } else {
        phases[0]
    }
}

/// Open-loop gait controller. One per robot.
#[derive(Debug)]
pub struct GaitController {
    /// Gait parameters.
    pub cfg: GaitConfig,
    /// Leg geometry.
    pub kin: KinematicsConfig,
    /// Integrated body pose.
    pub body_state: BodyState,
    /// Velocity command.
    pub cmd: VelocityCmd,
    /// Whether each knee bends forward, in slot order.
    pub knee_forward: [bool; 4],
}

impl GaitController {
    /// A controller at rest: no command, knees backward.
    pub fn new(cfg: GaitConfig, kin: KinematicsConfig) -> (r: GaitController)
        ensures
            r.cfg == cfg,
            r.kin == kin,
            r.body_state == BodyState::new(),
            r.cmd == VelocityCmd::zero(),
            r.knee_forward@ == seq![false, false, false, false],
    {
        GaitController {
            cfg,
            kin,
            body_state: BodyState::new(),
            cmd: VelocityCmd::zero(),
            knee_forward: [false, false, false, false],
        }
    }

    /// The gait parameters.
    pub fn config(&self) -> (r: &GaitConfig)
        ensures
            *r == self.cfg,
    {
        &self.cfg
    }

    /// The leg geometry.
    pub fn kinematics(&self) -> (r: &KinematicsConfig)
        ensures
            *r == self.kin,
    {
        &self.kin
    }

    /// The velocity command.
    pub fn velocity_cmd(&self) -> (r: VelocityCmd)
        ensures
            r == self.cmd,
    {
        self.cmd
    }

    /// The integrated body pose.
    pub fn body_state(&self) -> (r: BodyState)
        ensures
            r == self.body_state,
    {
        self.body_state
    }

    /// Sets the velocity command.
    pub fn set_velocity_cmd(&mut self, cmd: VelocityCmd)
        ensures
            *final(self) == (GaitController { cmd, ..*old(self) }),
    {
        self.cmd = cmd;
    }

    /// Replaces the gait parameters.
    pub fn set_config(&mut self, cfg: GaitConfig)
        ensures
            *final(self) == (GaitController { cfg, ..*old(self) }),
    {
        self.cfg = cfg;
    }

    /// Replaces the leg geometry.
    pub fn set_kinematics(&mut self, kin: KinematicsConfig)
        ensures
            *final(self) == (GaitController { kin, ..*old(self) }),
    {
        self.kin = kin;
    }

    /// Sets the bend of one knee.
    pub fn set_knee_forward(&mut self, leg: LegId, forward: bool)
        ensures
            final(self).knee_forward@ == old(self).knee_forward@.update(leg.slot(), forward),
            final(self).cfg == old(self).cfg,
            final(self).kin == old(self).kin,
            final(self).body_state == old(self).body_state,
            final(self).cmd == old(self).cmd,
    {
        self.knee_forward[slot_of(leg)] = forward;
    }

    /// Sets the bend of all knees.
    pub fn set_knee_pattern(&mut self, pattern: KneePattern)
        ensures
            final(self).knee_forward@ == seq![
                pattern.front_forward(),
                pattern.front_forward(),
                pattern.rear_forward(),
                pattern.rear_forward(),
            ],
            final(self).cfg == old(self).cfg,
            final(self).kin == old(self).kin,
            final(self).body_state == old(self).body_state,
            final(self).cmd == old(self).cmd,
    {
        self.knee_forward = pattern.to_knee_forward();
        assert(self.knee_forward@ =~= seq![
            pattern.front_forward(),
            pattern.front_forward(),
            pattern.rear_forward(),
            pattern.rear_forward(),
        ]);
    }

    /// The pattern of the left legs.
    pub fn knee_pattern(&self) -> (r: KneePattern)
        ensures
            r == KneePattern::with_bends(self.knee_forward@[0], self.knee_forward@[2]),
    {
        KneePattern::from_knee_forward(self.knee_forward)
    }

    /// Whether each knee bends forward, in slot order.
    pub fn knee_forward(&self) -> (r: [bool; 4])
        ensures
            r == self.knee_forward,
    {
        self.knee_forward
    }

    /// Back to the start: pose at the origin, no command.
    pub fn reset(&mut self)
        ensures
            *final(self) == (GaitController {
                body_state: BodyState::new(),
                cmd: VelocityCmd::zero(),
                ..*old(self)
            }),
    {
        self.body_state.reset();
        self.cmd = VelocityCmd::zero();
    }

    fn leg_tick<A: Arithmetic, S: LegModel>(
        &self,
        ar: &A,
        model: &S,
        phases: &[PhaseState; 4],
        height: Scalar,
        leg: LegId,
    ) -> (r: LegOutput)
        requires
            covers_legs(phases@),
        ensures
            r.leg == leg,
            r.phase == phase_of(phases@, leg),
            r.hip_joint == self.kin.of(leg).hip_joint,
            r.thigh_joint == self.kin.of(leg).thigh_joint,
            r.calf_joint == self.kin.of(leg).calf_joint,
            deterministic(ar) && steady(model) ==> r == leg_output(
                ar,
                self.kin.of(leg),
                self.knee_forward@[leg.slot()],
                planned_step(ar, self.kin.of(leg), self.cfg, self.cmd),
                foot_target(
                    ar,
                    model,
                    planned_step(ar, self.kin.of(leg), self.cfg, self.cmd),
                    height,
                    phase_of(phases@, leg),
                ),
                phase_of(phases@, leg),
            ),
    {
        let kin = self.kin.leg(leg);
        let step = compute_footstep(ar, kin, &self.cfg, &self.cmd);
        let phase = find_phase(phases, leg);
        make_leg_output(ar, model, kin, self.knee_forward[slot_of(leg)], step, height, phase)
    }

    /// `c` and `r` are the controller and its output after a tick of `dt`: the pose
    /// has followed the command, and every leg follows its planned step.
    pub open spec fn has_ticked<A: Arithmetic, S: LegModel>(
        self,
        ar: &A,
        model: &S,
        phases: Seq<PhaseState>,
        dt: Scalar,
        r: ControllerOutput,
        c: GaitController,
    ) -> bool {
        &&& c == (GaitController { body_state: c.body_state, ..self })
        &&& r.body_state == c.body_state
        &&& deterministic(ar) ==> c.body_state == followed(ar, self.body_state, self.cmd, dt)
        &&& forall|slot: int|
            0 <= slot < 4 ==> (#[trigger] r.legs@[slot]).leg == LegId::at_slot(slot)
                && r.legs@[slot].phase == phase_of(phases, LegId::at_slot(slot))
        &&& deterministic(ar) && steady(model) ==> forall|slot: int|
            0 <= slot < 4 ==> #[trigger] r.legs@[slot] == ({
                let kin = self.kin.of(LegId::at_slot(slot));
                let phase = phase_of(phases, LegId::at_slot(slot));
                let step = planned_step(ar, kin, self.cfg, self.cmd);
                let height = swing_height(ar, self.cfg.swing_height_m, self.cmd);
                leg_output(
                    ar,
                    kin,
                    self.knee_forward@[slot],
                    step,
                    foot_target(ar, model, step, height, phase),
                    phase,
                )
            })
    }

    /// Advances the body pose by `dt` and computes the output of every leg from
    /// its phase.
    pub fn tick<A: Arithmetic, S: LegModel>(
        &mut self,
        ar: &A,
        model: &S,
        phases: &[PhaseState; 4],
        dt: Scalar,
    ) -> (r: ControllerOutput)
        requires
            covers_legs(phases@),
        ensures
            old(self).has_ticked(ar, model, phases@, dt, r, *final(self)),
    {
        let cmd = self.cmd;
        self.body_state.integrate(ar, &cmd, dt);
        let height = effective_swing_height(ar, self.cfg.swing_height_m, &self.cmd);
        let fl = self.leg_tick(ar, model, phases, height, LegId::FL);
        let fr = self.leg_tick(ar, model, phases, height, LegId::FR);
        let rl = self.leg_tick(ar, model, phases, height, LegId::RL);
        let rr = self.leg_tick(ar, model, phases, height, LegId::RR);
        ControllerOutput { legs: [fl, fr, rl, rr], body_state: self.body_state }
    }
}

/// How the knee bends has no say in where the foot goes: foot target, step, phase
/// and hip angle are the same either way, and the target is reached by both bends
/// or by neither.
pub proof fn feet_ignore_the_knees<A: Arithmetic>(
    ar: &A,
    kin: LegKinematics,
    step: Footstep,
    target: Vec3,
    phase: PhaseState,
)
    ensures
        ({
            let back = leg_output(ar, kin, false, step, target, phase);
            let front = leg_output(ar, kin, true, step, target, phase);
            &&& back.foot_body == front.foot_body
            &&& back.footstep == front.footstep
            &&& back.phase == front.phase
            &&& back.q_hip == front.q_hip
            &&& back.reachable == front.reachable
        }),
{
    knee_branches_mirror(ar, kin, target);
}

} // verus!
