//! The crawl behind the interface of the gait controllers.

use vstd::prelude::*;
use crate::arith::{
    deterministic, difference, product, quotient, remainder, sum, whole_part, Arithmetic,
};
use crate::body_state::{followed, BodyState};
use crate::config::{
    slot_of, GaitConfig, KinematicsConfig, KneePattern, LegId, LegKinematics, VelocityCmd,
    DUTY_MAX_BITS, FLOOR_BITS, HALF_BITS, QUARTER_BITS,
};
use crate::controller::{ControllerOutput, LegOutput, PhaseState};
use crate::footstep::Footstep;
use crate::ik::TWO_BITS;
use crate::linear_crawl::{LinearCrawlConfig, LinearCrawlController, LinearCrawlOutput};
use crate::scalar::{one, zero, Scalar, Vec3};

verus! {

/// Bits of 0.85, the fraction of each quarter cycle with all feet down at first.
pub const SUPPORT_BITS: u64 = 0x3FEB_3333_3333_3333;

/// Crawl controller driven by a velocity command.
#[derive(Debug)]
pub struct LinearCrawlGen {
    /// Planner.
    pub ctrl: LinearCrawlController,
    /// Gait parameters.
    pub host_cfg: GaitConfig,
    /// Fraction of each quarter cycle with all feet down.
    pub four_support_fraction: Scalar,
    /// Velocity command.
    pub cmd: VelocityCmd,
    /// Whether each knee bends forward, in slot order.
    pub knee_forward: [bool; 4],
    /// Body pose.
    pub body_state: BodyState,
    /// Height of the trunk above the feet (m).
    pub body_height_m: Scalar,
}

/// `r` holds the planner parameters for the gait parameters, at rest.
pub open spec fn is_derived(
    host: GaitConfig,
    support: Scalar,
    body_height_m: Scalar,
    knees: Seq<bool>,
    r: LinearCrawlConfig,
) -> bool {
    &&& r.speed_mps == zero()
    &&& r.body_height_m == body_height_m
    &&& r.cycle_period_s == host.cycle_period_s.max_spec(Scalar { bits: FLOOR_BITS })
    &&& r.four_support_fraction == support.clamp_spec(
        Scalar { bits: FLOOR_BITS },
        Scalar { bits: DUTY_MAX_BITS },
    )
    &&& r.swing_height_m == host.swing_height_m.max_spec(zero())
    &&& r.leg_order@ == seq![LegId::RL, LegId::FR, LegId::RR, LegId::FL]
    &&& r.knee_forward@ == knees
    &&& r.soft_start_duration_s == (Scalar { bits: HALF_BITS })
}

/// The planner parameters for the gait parameters, at rest.
pub fn derive_linear_cfg(
    host: &GaitConfig,
    support: Scalar,
    body_height_m: Scalar,
    knees: [bool; 4],
) -> (r: LinearCrawlConfig)
    ensures
        is_derived(*host, support, body_height_m, knees@, r),
{
    LinearCrawlConfig {
        speed_mps: zero(),
        body_height_m,
        cycle_period_s: host.cycle_period_s.max(Scalar { bits: FLOOR_BITS }),
        four_support_fraction: support.clamp(
            Scalar { bits: FLOOR_BITS },
            Scalar { bits: DUTY_MAX_BITS },
        ),
        swing_height_m: host.swing_height_m.max(zero()),
        leg_order: [LegId::RL, LegId::FR, LegId::RR, LegId::FL],
        knee_forward: knees,
        soft_start_duration_s: Scalar { bits: HALF_BITS },
    }
}

impl LinearCrawlGen {
    /// The planner is consistent.
    pub open spec fn wf(self) -> bool {
        self.ctrl.wf()
    }

    /// The planner of `c` was built anew from the settings of `c`, with the
    /// clocks, the freeze and the geometry of `self`, at the commanded speed.
    pub open spec fn rebuilds(self, c: LinearCrawlGen) -> bool {
        &&& c.wf()
        &&& is_derived(
            c.host_cfg,
            c.four_support_fraction,
            c.body_height_m,
            c.knee_forward@,
            (LinearCrawlConfig { speed_mps: zero(), ..c.ctrl.cfg }),
        )
        &&& c.ctrl.cfg.speed_mps == c.cmd.vx
        &&& c.ctrl.kin == self.ctrl.kin
        &&& c.ctrl.t == self.ctrl.t
        &&& c.ctrl.wall_t == self.ctrl.wall_t
        &&& c.ctrl.holding == self.ctrl.holding
    }

    /// A controller at rest. The trunk is as high as the nominal front-left foot
    /// is low, at least 0.05 m.
    pub fn new(cfg: GaitConfig, kin: KinematicsConfig) -> (r: LinearCrawlGen)
        ensures
            r.wf(),
            r.host_cfg == cfg,
            r.four_support_fraction == (Scalar { bits: SUPPORT_BITS }),
            r.cmd == VelocityCmd::zero(),
            r.knee_forward@ == seq![false, false, false, false],
            r.body_state == BodyState::new(),
            r.body_height_m == kin.fl.nominal_foot_body.z.neg_spec().max_spec(
                Scalar { bits: FLOOR_BITS },
            ),
            r.ctrl.kin == kin,
            r.ctrl.t == zero(),
            r.ctrl.wall_t == zero(),
            !r.ctrl.holding,
            is_derived(
                cfg,
                r.four_support_fraction,
                r.body_height_m,
                r.knee_forward@,
                r.ctrl.cfg,
            ),
    {
        let body_height_m = kin.fl.nominal_foot_body.z.neg().max(Scalar { bits: FLOOR_BITS });
        let support = Scalar { bits: SUPPORT_BITS };
        let knees = [false, false, false, false];
        let lc_cfg = derive_linear_cfg(&cfg, support, body_height_m, knees);
        LinearCrawlGen {
            ctrl: LinearCrawlController::new(kin, lc_cfg),
            host_cfg: cfg,
            four_support_fraction: support,
            cmd: VelocityCmd::zero(),
            knee_forward: knees,
            body_state: BodyState::new(),
            body_height_m,
        }
    }

    fn rebuild_inner_cfg(&mut self)
        ensures
            old(self).rebuilds(*final(self)),
            *final(self) == (LinearCrawlGen { ctrl: final(self).ctrl, ..*old(self) }),
    {
        let lc_cfg = derive_linear_cfg(
            &self.host_cfg,
            self.four_support_fraction,
            self.body_height_m,
            self.knee_forward,
        );
        let mut ctrl = LinearCrawlController::new(self.ctrl.kin.clone(), lc_cfg);
        ctrl.t = self.ctrl.t;
        ctrl.wall_t = self.ctrl.wall_t;
        ctrl.holding = self.ctrl.holding;
        ctrl.set_speed(self.cmd.vx);
        self.ctrl = ctrl;
    }

    /// Sets the height of the trunk, at least 0.05 m.
    pub fn set_body_height_m(&mut self, h: Scalar)
        ensures
            old(self).rebuilds(*final(self)),
            *final(self) == (LinearCrawlGen {
                body_height_m: h.max_spec(Scalar { bits: FLOOR_BITS }),
                ctrl: final(self).ctrl,
                ..*old(self)
            }),
    {
        self.body_height_m = h.max(Scalar { bits: FLOOR_BITS });
        self.rebuild_inner_cfg();
    }

    /// Height of the trunk (m).
    pub fn body_height_m(&self) -> (r: Scalar)
        ensures
            r == self.body_height_m,
    {
        self.body_height_m
    }

    /// Sets the fraction of each quarter cycle with all feet down.
    pub fn set_four_support_fraction(&mut self, fraction: Scalar)
        ensures
            old(self).rebuilds(*final(self)),
            *final(self) == (LinearCrawlGen {
                four_support_fraction: fraction,
                ctrl: final(self).ctrl,
                ..*old(self)
            }),
    {
        self.four_support_fraction = fraction;
        self.rebuild_inner_cfg();
    }

    /// Sets the command; the trunk moves at its forward part.
    pub fn set_velocity_cmd(&mut self, cmd: VelocityCmd)
        ensures
            *final(self) == (LinearCrawlGen {
                cmd,
                ctrl: LinearCrawlController {
                    cfg: LinearCrawlConfig { speed_mps: cmd.vx, ..old(self).ctrl.cfg },
                    ..old(self).ctrl
                },
                ..*old(self)
            }),
    {
        self.cmd = cmd;
        self.ctrl.set_speed(cmd.vx);
    }

    /// The command.
    pub fn velocity_cmd(&self) -> (r: VelocityCmd)
        ensures
            r == self.cmd,
    {
        self.cmd
    }

    /// Back to the start: clocks and pose at zero, no command.
    pub fn reset(&mut self)
        ensures
            *final(self) == (LinearCrawlGen {
                cmd: VelocityCmd::zero(),
                body_state: BodyState::new(),
                ctrl: LinearCrawlController {
                    cfg: LinearCrawlConfig { speed_mps: zero(), ..old(self).ctrl.cfg },
                    t: zero(),
                    wall_t: zero(),
                    holding: false,
                    ..old(self).ctrl
                },
                ..*old(self)
            }),
    {
        self.ctrl.reset();
        self.body_state.reset();
        self.cmd = VelocityCmd::zero();
        self.ctrl.set_speed(zero());
    }

    /// The gait parameters.
    pub fn config(&self) -> (r: &GaitConfig)
        ensures
            *r == self.host_cfg,
    {
        &self.host_cfg
    }

    /// Sets the gait parameters; the cycle goes on from where it is.
    pub fn set_config(&mut self, cfg: GaitConfig)
        ensures
            old(self).rebuilds(*final(self)),
            *final(self) == (LinearCrawlGen {
                host_cfg: cfg,
                ctrl: final(self).ctrl,
                ..*old(self)
            }),
    {
        self.host_cfg = cfg;
        self.rebuild_inner_cfg();
    }

    /// The leg geometry.
    pub fn kinematics(&self) -> (r: &KinematicsConfig)
        ensures
            *r == self.ctrl.kin,
    {
        &self.ctrl.kin
    }

    /// Sets the leg geometry: the planner is built anew, at rest and with the
    /// soft start ahead; only the gait clock is kept.
    pub fn set_kinematics(&mut self, kin: KinematicsConfig)
        ensures
            final(self).wf(),
            *final(self) == (LinearCrawlGen { ctrl: final(self).ctrl, ..*old(self) }),
            final(self).ctrl.kin == kin,
            final(self).ctrl.t == old(self).ctrl.t,
            final(self).ctrl.wall_t == zero(),
            !final(self).ctrl.holding,
            is_derived(
                old(self).host_cfg,
                old(self).four_support_fraction,
                old(self).body_height_m,
                old(self).knee_forward@,
                final(self).ctrl.cfg,
            ),
    {
        let lc_cfg = derive_linear_cfg(
            &self.host_cfg,
            self.four_support_fraction,
            self.body_height_m,
            self.knee_forward,
        );
        let mut ctrl = LinearCrawlController::new(kin, lc_cfg);
        ctrl.t = self.ctrl.t;
        self.ctrl = ctrl;
    }

    /// Sets the bend of one knee.
    pub fn set_knee_forward(&mut self, leg: LegId, forward: bool)
        ensures
            old(self).rebuilds(*final(self)),
            final(self).knee_forward@ == old(self).knee_forward@.update(leg.slot(), forward),
            *final(self) == (LinearCrawlGen {
                knee_forward: final(self).knee_forward,
                ctrl: final(self).ctrl,
                ..*old(self)
            }),
    {
        let mut knees = self.knee_forward;
        knees[slot_of(leg)] = forward;
        self.knee_forward = knees;
        self.rebuild_inner_cfg();
    }

    /// Sets the bend of all knees.
    pub fn set_knee_pattern(&mut self, pattern: KneePattern)
        ensures
            old(self).rebuilds(*final(self)),
            final(self).knee_forward@ == seq![
                pattern.front_forward(),
                pattern.front_forward(),
                pattern.rear_forward(),
                pattern.rear_forward(),
            ],
            *final(self) == (LinearCrawlGen {
                knee_forward: final(self).knee_forward,
                ctrl: final(self).ctrl,
                ..*old(self)
            }),
    {
        self.knee_forward = pattern.to_knee_forward();
        assert(self.knee_forward@ =~= seq![
            pattern.front_forward(),
            pattern.front_forward(),
            pattern.rear_forward(),
            pattern.rear_forward(),
        ]);
        self.rebuild_inner_cfg();
    }

    /// The pattern of the left legs.
    pub fn knee_pattern(&self) -> (r: KneePattern)
        ensures
            r == KneePattern::with_bends(self.knee_forward@[0], self.knee_forward@[2]),
    {
        KneePattern::from_knee_forward(self.knee_forward)
    }

    /// Whether each knee bends forward, in slot order.
    pub fn knee_forward(&self) -> (r: [bool; 4])
        ensures
            r == self.knee_forward,
    {
        self.knee_forward
    }
}

impl LinearCrawlGen {
    /// Fraction of a quarter cycle with all feet down that is in use.
    pub open spec fn support(self) -> Scalar {
        self.four_support_fraction.clamp_spec(
            Scalar { bits: FLOOR_BITS },
            Scalar { bits: DUTY_MAX_BITS },
        )
    }

    /// Fraction of the cycle a leg swings.
    pub open spec fn swing_share<A: Arithmetic>(self, ar: &A) -> Scalar {
        product(ar, difference(ar, one(), self.support()), Scalar { bits: QUARTER_BITS })
    }

    /// Half the way a foot recedes during stance.
    pub open spec fn half_stride<A: Arithmetic>(self, ar: &A) -> Scalar {
        quotient(
            ar,
            product(
                ar,
                product(ar, self.cmd.vx, difference(ar, one(), self.swing_share(ar))),
                self.ctrl.cfg.cycle_period_s,
            ),
            Scalar { bits: TWO_BITS },
        )
    }

    /// Fraction of the cycle that has passed.
    pub open spec fn cycle_position<A: Arithmetic>(self, ar: &A) -> Scalar {
        remainder(ar, quotient(ar, self.ctrl.t, self.ctrl.cfg.cycle_period_s), one())
    }

    /// The step of a leg: half a stride to each side of its nominal place, on
    /// the ground.
    pub open spec fn step_of<A: Arithmetic>(self, ar: &A, kin: LegKinematics) -> Footstep {
        let p = kin.nominal_foot_body;
        let ground = self.body_height_m.neg_spec();
        Footstep {
            lift_off: Vec3 { x: difference(ar, p.x, self.half_stride(ar)), y: p.y, z: ground },
            touch_down: Vec3 { x: sum(ar, p.x, self.half_stride(ar)), y: p.y, z: ground },
        }
    }

    /// Fraction reported for a leg: of the swing window of the present quarter,
    /// or a half in stance.
    pub open spec fn sub_fraction<A: Arithmetic>(self, ar: &A, in_swing: bool) -> Scalar {
        let quarter = Scalar { bits: QUARTER_BITS };
        let p = self.cycle_position(ar);
        if in_swing {
            let start = sum(
                ar,
                product(ar, whole_part(ar, quotient(ar, p, quarter)), quarter),
                product(ar, self.support(), quarter),
            );
            quotient(ar, difference(ar, p, start), self.swing_share(ar)).clamp_spec(zero(), one())
        } else {
            Scalar { bits: HALF_BITS }
        }
    }

    /// `l` reports what the planner gave for the leg in a slot; names and leg
    /// come from the geometry.
    pub open spec fn reports(self, out: LinearCrawlOutput, slot: int, l: LegOutput) -> bool {
        let leg = LegId::at_slot(slot);
        let kin = self.ctrl.kin.of(leg);
        let foot = out.foot_body_xyz@[slot]@;
        &&& l.leg == leg
        &&& l.hip_joint == kin.hip_joint
        &&& l.thigh_joint == kin.thigh_joint
        &&& l.calf_joint == kin.calf_joint
        &&& (l.q_hip, l.q_thigh, l.q_calf) == out.angles@[slot]
        &&& l.foot_body == (Vec3 { x: foot[0], y: foot[1], z: foot[2] })
        &&& l.phase.leg == leg
        &&& l.phase.is_stance == !out.in_swing@[slot]
        &&& !out.in_swing@[slot] ==> l.phase.sub_fraction == (Scalar { bits: HALF_BITS })
        &&& l.reachable == out.foot_reachable@[slot]
    }

    /// The computed parts of `l`.
    pub open spec fn places<A: Arithmetic>(
        self,
        ar: &A,
        out: LinearCrawlOutput,
        slot: int,
        l: LegOutput,
    ) -> bool {
        &&& l.footstep == self.step_of(ar, self.ctrl.kin.of(LegId::at_slot(slot)))
        &&& l.phase.cycle_position == self.cycle_position(ar)
        &&& l.phase.sub_fraction == self.sub_fraction(ar, out.in_swing@[slot])
    }

    /// `r` reports every leg.
    pub open spec fn reports_all<A: Arithmetic>(
        self,
        ar: &A,
        out: LinearCrawlOutput,
        r: Seq<LegOutput>,
    ) -> bool {
        &&& forall|slot: int| 0 <= slot < 4 ==> self.reports(out, slot, #[trigger] r[slot])
        &&& deterministic(ar) ==> forall|slot: int|
            0 <= slot < 4 ==> self.places(ar, out, slot, #[trigger] r[slot])
    }

    fn leg_output<A: Arithmetic>(
        &self,
        ar: &A,
        out: &LinearCrawlOutput,
        kin: &LegKinematics,
        leg: LegId,
    ) -> (r: LegOutput)
        requires
            *kin == self.ctrl.kin.of(leg),
        ensures
            self.reports(*out, leg.slot(), r),
            deterministic(ar) ==> self.places(ar, *out, leg.slot(), r),
    {
        let i: usize = slot_of(leg);
        let quarter = Scalar { bits: QUARTER_BITS };
        let alpha = self.four_support_fraction.clamp(
            Scalar { bits: FLOOR_BITS },
            Scalar { bits: DUTY_MAX_BITS },
        );
        let swing = ar.times(ar.minus(one(), alpha), quarter);
        let stance = ar.minus(one(), swing);
        let period = self.ctrl.cfg.cycle_period_s;
        let cycle_position = ar.wrap(ar.over(self.ctrl.t, period), one());
        let half_stride = ar.over(
            ar.times(ar.times(self.cmd.vx, stance), period),
            Scalar { bits: TWO_BITS },
        );
        let p = kin.nominal_foot_body;
        let ground = self.body_height_m.neg();
        let lift_off = Vec3::new(ar.minus(p.x, half_stride), p.y, ground);
        let touch_down = Vec3::new(ar.plus(p.x, half_stride), p.y, ground);
        let in_swing = out.in_swing[i];
        let sub_fraction = if in_swing {
            let quarters_passed = ar.floor(ar.over(cycle_position, quarter));
            let start = ar.plus(ar.times(quarters_passed, quarter), ar.times(alpha, quarter));
            ar.over(ar.minus(cycle_position, start), swing).clamp(zero(), one())
        } else {
            Scalar { bits: HALF_BITS }
        };
        let q = out.angles[i];
        let foot = out.foot_body_xyz[i];
        LegOutput {
            leg,
            hip_joint: kin.hip_joint.clone(),
            thigh_joint: kin.thigh_joint.clone(),
            calf_joint: kin.calf_joint.clone(),
            q_hip: q.0,
            q_thigh: q.1,
            q_calf: q.2,
            foot_body: Vec3::new(foot[0], foot[1], foot[2]),
            footstep: Footstep { lift_off, touch_down },
            phase: PhaseState { leg, cycle_position, is_stance: !in_swing, sub_fraction },
            reachable: out.foot_reachable[i],
        }
    }

    fn leg_outputs<A: Arithmetic>(&self, ar: &A, out: &LinearCrawlOutput) -> (r: [LegOutput; 4])
        ensures
            self.reports_all(ar, *out, r@),
    {
        let kin = &self.ctrl.kin;
        [
            self.leg_output(ar, out, &kin.fl, LegId::FL),
            self.leg_output(ar, out, &kin.fr, LegId::FR),
            self.leg_output(ar, out, &kin.rl, LegId::RL),
            self.leg_output(ar, out, &kin.rr, LegId::RR),
        ]
    }

    /// The planner with the commanded speed.
    pub open spec fn driven(self) -> LinearCrawlController {
        LinearCrawlController {
            cfg: LinearCrawlConfig { speed_mps: self.cmd.vx, ..self.ctrl.cfg },
            ..self.ctrl
        }
    }

    /// `c` and `r` are the controller and its output after a tick of `dt`: the
    /// planner has ticked at the commanded speed, the pose has followed the command,
    /// and the output reports what the planner gave.
    pub open spec fn has_ticked<A: Arithmetic>(
        self,
        ar: &A,
        dt: Scalar,
        r: ControllerOutput,
        c: LinearCrawlGen,
    ) -> bool {
        &&& c.wf()
        &&& c == (LinearCrawlGen { ctrl: c.ctrl, body_state: c.body_state, ..self })
        &&& r.body_state == c.body_state
        &&& deterministic(ar) ==> r.body_state == followed(ar, self.body_state, self.cmd, dt)
        &&& exists|out: LinearCrawlOutput|
            #![trigger c.reports_all(ar, out, r.legs@)]
            self.driven().ticks(ar, dt, c.ctrl, out) && c.reports_all(ar, out, r.legs@)
    }

    /// One control tick: plan at the commanded speed and follow the command.
    pub fn tick<A: Arithmetic>(&mut self, ar: &A, dt: Scalar) -> (r: ControllerOutput)
        requires
            old(self).wf(),
        ensures
            old(self).has_ticked(ar, dt, r, *final(self)),
    {
        self.ctrl.set_speed(self.cmd.vx);
        let out = self.ctrl.tick(ar, dt);
        assert(old(self).driven().ticks(ar, dt, self.ctrl, out));
        let cmd = self.cmd;
        self.body_state.integrate(ar, &cmd, dt);
        let legs = self.leg_outputs(ar, &out);
        let r = ControllerOutput { legs, body_state: self.body_state };
        assert(self.reports_all(ar, out, r.legs@));
        r
    }
}

} // verus!
