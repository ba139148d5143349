//! Open-loop crawl with a linear trunk.
//!
//! The trunk is held on a straight line along x at a fixed height, level and
//! without yaw. A cycle has four equal parts, one per leg in a configured order:
//! each part begins with all feet down and ends with the swing of its leg. A
//! stance foot stays where it is in the world, so it recedes under the trunk; a
//! swing foot moves ahead along a quintic smoothstep and up along a half sine.

use vstd::prelude::*;
use crate::arith::{
    counted, deterministic, difference, divides, keeps_order, keeps_signs, product, quotient,
    remainder, sine, sum, Arithmetic,
};
use crate::config::{
    KinematicsConfig, LegId, LegKinematics, DUTY_MAX_BITS, FLOOR_BITS, HALF_BITS, QUARTER_BITS,
    THREE_QUARTERS_BITS,
};
use crate::ik::{leg_ik, solve_leg_ik, PI_BITS, TWO_BITS};
use crate::scalar::{one, zero, Scalar, Vec3};

verus! {

/// Bits of 1e-6, the least cycle period (s).
pub const LEAST_PERIOD_BITS: u64 = 0x3EB0_C6F7_A0B5_ED8D;

/// Bits of 1e-9, the speed below which a stop is wanted (m/s).
pub const STOP_SPEED_BITS: u64 = 0x3E11_2E0B_E826_D695;

/// Bits of six.
pub const SIX_BITS: u64 = 0x4018_0000_0000_0000;

/// Bits of ten.
pub const TEN_BITS: u64 = 0x4024_0000_0000_0000;

/// Bits of fifteen.
pub const FIFTEEN_BITS: u64 = 0x402E_0000_0000_0000;

/// Parameters of the crawl.
#[derive(Clone, Copy, Debug, PartialEq, Eq)]
pub struct LinearCrawlConfig {
    /// Forward speed of the trunk (m/s).
    pub speed_mps: Scalar,
    /// Height of the trunk above the feet (m).
    pub body_height_m: Scalar,
    /// Duration of a cycle (s).
    pub cycle_period_s: Scalar,
    /// Fraction of each quarter cycle with all feet down.
    pub four_support_fraction: Scalar,
    /// Peak height of a swing (m).
    pub swing_height_m: Scalar,
    /// Order in which the legs swing.
    pub leg_order: [LegId; 4],
    /// Whether each knee bends forward, in slot order.
    pub knee_forward: [bool; 4],
    /// Time over which the gait clock comes up to speed; zero for none (s).
    pub soft_start_duration_s: Scalar,
}

impl Default for LinearCrawlConfig {
    fn default() -> (r: LinearCrawlConfig)
        ensures
            r.speed_mps == (Scalar { bits: 0x3FA9_9999_9999_999A }),
            r.body_height_m == (Scalar { bits: 0x3FD1_47AE_147A_E148 }),
            r.cycle_period_s == (Scalar { bits: 0x3FFA_AC08_3126_E979 }),
            r.four_support_fraction == (Scalar { bits: 0x3FEB_3333_3333_3333 }),
            r.swing_height_m == (Scalar { bits: 0x3F74_7AE1_47AE_147B }),
            r.leg_order@ == seq![LegId::RL, LegId::FR, LegId::RR, LegId::FL],
            r.knee_forward@ == seq![false, false, false, false],
            r.soft_start_duration_s == (Scalar { bits: HALF_BITS }),
    {
        LinearCrawlConfig {
            speed_mps: Scalar { bits: 0x3FA9_9999_9999_999A },
            body_height_m: Scalar { bits: 0x3FD1_47AE_147A_E148 },
            cycle_period_s: Scalar { bits: 0x3FFA_AC08_3126_E979 },
            four_support_fraction: Scalar { bits: 0x3FEB_3333_3333_3333 },
            swing_height_m: Scalar { bits: 0x3F74_7AE1_47AE_147B },
            leg_order: [LegId::RL, LegId::FR, LegId::RR, LegId::FL],
            knee_forward: [false, false, false, false],
            soft_start_duration_s: Scalar { bits: HALF_BITS },
        }
    }
}

/// Output of a tick. All arrays are in slot order.
#[derive(Clone, Copy, Debug)]
pub struct LinearCrawlOutput {
    /// Hip, thigh and calf angle of each leg (rad).
    pub angles: [(Scalar, Scalar, Scalar); 4],
    /// Whether each leg swings.
    pub in_swing: [bool; 4],
    /// Target position of the trunk, world frame (m).
    pub trunk_world_xyz: [Scalar; 3],
    /// Target of each foot, body frame (m).
    pub foot_body_xyz: [[Scalar; 3]; 4],
    /// Whether each foot target is within reach.
    pub foot_reachable: [bool; 4],
}

/// Position of a leg in the swing order: the last place it is listed at, or zero.
pub open spec fn order_index(order: Seq<LegId>, leg: LegId) -> int {
    if order[3] == leg {
        3
    } else if order[2] == leg {
        2
    } else if order[1] == leg {
        1
    } else {
        0
    }
}

fn order_index_of(order: &[LegId; 4], leg: LegId) -> (r: usize)
    ensures
        r == order_index(order@, leg),
{
    if order[3] == leg {
        3
    } else if order[2] == leg {
        2
    } else if order[1] == leg {
        1
    } else {
        0
    }
}

/// Every leg is listed in the swing order.
pub open spec fn is_order(order: Seq<LegId>) -> bool {
    &&& order.len() == 4
    &&& forall|i: int, j: int| 0 <= i < j < 4 ==> #[trigger] order[i] != #[trigger] order[j]
}

impl LinearCrawlConfig {
    /// Cycle period in use.
    pub open spec fn period(self) -> Scalar {
        self.cycle_period_s.max_spec(Scalar { bits: LEAST_PERIOD_BITS })
    }

    /// Fraction of a quarter cycle with all feet down that is in use.
    pub open spec fn support(self) -> Scalar {
        self.four_support_fraction.clamp_spec(
            Scalar { bits: FLOOR_BITS },
            Scalar { bits: DUTY_MAX_BITS },
        )
    }

    /// Fraction of the cycle a leg swings.
    pub open spec fn swing_share<A: Arithmetic>(self, ar: &A) -> Scalar {
        product(ar, difference(ar, one(), self.support()), Scalar { bits: QUARTER_BITS })
    }

    /// Fraction of the cycle a leg stands.
    pub open spec fn stance_share<A: Arithmetic>(self, ar: &A) -> Scalar {
        difference(ar, one(), self.swing_share(ar))
    }

    /// Fraction of the cycle that has passed at time `t`.
    pub open spec fn phase_at<A: Arithmetic>(self, ar: &A, t: Scalar) -> Scalar {
        remainder(ar, quotient(ar, t, self.period()), one())
    }

    /// Phase at which the leg in place `i` of the order lifts off.
    pub open spec fn lift_phase<A: Arithmetic>(self, ar: &A, i: int) -> Scalar {
        sum(
            ar,
            quarters(ar, i),
            product(ar, self.support(), Scalar { bits: QUARTER_BITS }),
        )
    }

    /// Whether the leg in place `i` of the order swings at a phase.
    pub open spec fn swings<A: Arithmetic>(self, ar: &A, i: int, phase: Scalar) -> bool {
        self.lift_phase(ar, i).le_spec(phase) && phase.lt_spec(quarters(ar, i + 1))
    }

    /// Half the way a foot recedes during stance.
    pub open spec fn half_stride<A: Arithmetic>(self, ar: &A) -> Scalar {
        quotient(
            ar,
            product(ar, product(ar, self.speed_mps, self.stance_share(ar)), self.period()),
            Scalar { bits: TWO_BITS },
        )
    }

    /// Fraction of the swing that has passed at a phase.
    pub open spec fn swing_fraction<A: Arithmetic>(self, ar: &A, i: int, phase: Scalar) -> Scalar {
        quotient(ar, difference(ar, phase, self.lift_phase(ar, i)), self.swing_share(ar))
    }

    /// Forward foot position at fraction `u` of a swing: a quintic smoothstep from
    /// the rear to the front end of the stride.
    pub open spec fn swing_x<A: Arithmetic>(self, ar: &A, x: Scalar, u: Scalar) -> Scalar {
        let lift = difference(ar, x, self.half_stride(ar));
        let land = sum(ar, x, self.half_stride(ar));
        sum(ar, lift, product(ar, difference(ar, land, lift), ramp(ar, u)))
    }

    /// Foot height at fraction `u` of a swing: a half sine above the ground.
    pub open spec fn swing_z<A: Arithmetic>(self, ar: &A, z: Scalar, u: Scalar) -> Scalar {
        let arc = sine(ar, product(ar, Scalar { bits: PI_BITS }, u));
        sum(ar, z, product(ar, self.swing_height_m, arc))
    }

    /// Forward foot position in stance: at the nominal place in the middle of
    /// the stance, receding at the trunk speed.
    pub open spec fn stance_x<A: Arithmetic>(self, ar: &A, i: int, x: Scalar, phase: Scalar) -> Scalar {
        let half = Scalar { bits: HALF_BITS };
        let mid = remainder(
            ar,
            sum(
                ar,
                quarters(ar, i + 1),
                quotient(ar, self.stance_share(ar), Scalar { bits: TWO_BITS }),
            ),
            one(),
        );
        let delta = difference(
            ar,
            remainder(ar, sum(ar, difference(ar, phase, mid), half), one()),
            half,
        );
        difference(
            ar,
            x,
            product(ar, product(ar, self.speed_mps, delta), self.period()),
        )
    }

    /// Foot target of the leg in place `i` of the order at a phase, body frame.
    pub open spec fn foot_at<A: Arithmetic>(
        self,
        ar: &A,
        i: int,
        nominal: Vec3,
        phase: Scalar,
    ) -> Vec3 {
        if self.swings(ar, i, phase) {
            let u = self.swing_fraction(ar, i, phase);
            Vec3 {
                x: self.swing_x(ar, nominal.x, u),
                y: nominal.y,
                z: self.swing_z(ar, nominal.z, u),
            }
        } else {
            Vec3 { x: self.stance_x(ar, i, nominal.x, phase), y: nominal.y, z: nominal.z }
        }
    }

    /// Part of a time step `dt` that passes on the gait clock when the wall
    /// clock shows `wall` at its end: a smooth ramp over the soft start, then all.
    pub open spec fn clock_step<A: Arithmetic>(self, ar: &A, wall: Scalar, dt: Scalar) -> Scalar {
        let dur = self.soft_start_duration_s;
        if zero().lt_spec(dur) && wall.lt_spec(sum(ar, dur, dt)) {
            product(ar, dt, ramp(ar, quotient(ar, wall, dur).clamp_spec(zero(), one())))
        } else {
            dt
        }
    }

    /// Whether a stop is wanted.
    pub open spec fn wants_stop(self) -> bool {
        self.speed_mps.abs_spec().lt_spec(Scalar { bits: STOP_SPEED_BITS })
    }
}

/// `n` quarters of a cycle.
pub open spec fn quarters<A: Arithmetic>(ar: &A, n: int) -> Scalar {
    product(ar, counted(ar, n as usize), Scalar { bits: QUARTER_BITS })
}

/// The quintic `u^3 (u (6 u - 15) + 10)`, which rises from zero to one with flat
/// ends.
pub open spec fn ramp<A: Arithmetic>(ar: &A, u: Scalar) -> Scalar {
    let cube = product(ar, product(ar, u, u), u);
    let inner = difference(
        ar,
        product(ar, u, Scalar { bits: SIX_BITS }),
        Scalar { bits: FIFTEEN_BITS },
    );
    product(ar, cube, sum(ar, product(ar, u, inner), Scalar { bits: TEN_BITS }))
}

fn ramp_at<A: Arithmetic>(ar: &A, u: Scalar) -> (r: Scalar)
    ensures
        deterministic(ar) ==> r == ramp(ar, u),
{
    let cube = ar.times(ar.times(u, u), u);
    let inner = ar.minus(ar.times(u, Scalar { bits: SIX_BITS }), Scalar { bits: FIFTEEN_BITS });
    ar.times(cube, ar.plus(ar.times(u, inner), Scalar { bits: TEN_BITS }))
}

/// A leg of the output.
struct CrawlLeg {
    foot: Vec3,
    in_swing: bool,
    angles: (Scalar, Scalar, Scalar),
    reachable: bool,
}

impl LinearCrawlConfig {
    fn half_stride_now<A: Arithmetic>(&self, ar: &A, stance: Scalar) -> (r: Scalar)
        ensures
            deterministic(ar) && stance == self.stance_share(ar) ==> r == self.half_stride(ar),
    {
        let period = self.cycle_period_s.max(Scalar { bits: LEAST_PERIOD_BITS });
        ar.over(
            ar.times(ar.times(self.speed_mps, stance), period),
            Scalar { bits: TWO_BITS },
        )
    }

    /// Foot target of the leg in place `i` of the order at a phase, and whether
    /// it swings.
    fn foot_now<A: Arithmetic>(&self, ar: &A, i: usize, nominal: Vec3, phase: Scalar) -> (r: (
        Vec3,
        bool,
    ))
        requires
            i < 4,
        ensures
            r.0.y == nominal.y,
            !r.1 ==> r.0.z == nominal.z,
            deterministic(ar) ==> r.1 == self.swings(ar, i as int, phase) && r.0 == self.foot_at(
                ar,
                i as int,
                nominal,
                phase,
            ),
    {
        let quarter = Scalar { bits: QUARTER_BITS };
        let two = Scalar { bits: TWO_BITS };
        let v = self.speed_mps;
        let period = self.cycle_period_s.max(Scalar { bits: LEAST_PERIOD_BITS });
        let alpha = self.four_support_fraction.clamp(
            Scalar { bits: FLOOR_BITS },
            Scalar { bits: DUTY_MAX_BITS },
        );
        let swing = ar.times(ar.minus(one(), alpha), quarter);
        let stance = ar.minus(one(), swing);
        let lift_phase = ar.plus(ar.times(ar.from_count(i), quarter), ar.times(alpha, quarter));
        let land_phase = ar.times(ar.from_count(i + 1), quarter);
        if lift_phase.le(phase) && phase.lt(land_phase) {
            let u = ar.over(ar.minus(phase, lift_phase), swing);
            let half_stride = self.half_stride_now(ar, stance);
            let lift = ar.minus(nominal.x, half_stride);
            let land = ar.plus(nominal.x, half_stride);
            let x = ar.plus(lift, ar.times(ar.minus(land, lift), ramp_at(ar, u)));
            let arc = ar.sin(ar.times(Scalar { bits: PI_BITS }, u));
            let z = ar.plus(nominal.z, ar.times(self.swing_height_m, arc));
            (Vec3::new(x, nominal.y, z), true)
        } else {
            let half = Scalar { bits: HALF_BITS };
            let mid = ar.wrap(ar.plus(land_phase, ar.over(stance, two)), one());
            let delta = ar.minus(ar.wrap(ar.plus(ar.minus(phase, mid), half), one()), half);
            let x = ar.minus(nominal.x, ar.times(ar.times(v, delta), period));
            (Vec3::new(x, nominal.y, nominal.z), false)
        }
    }

    fn phase_now<A: Arithmetic>(&self, ar: &A, t: Scalar) -> (r: Scalar)
        ensures
            deterministic(ar) ==> r == self.phase_at(ar, t),
    {
        let period = self.cycle_period_s.max(Scalar { bits: LEAST_PERIOD_BITS });
        ar.wrap(ar.over(t, period), one())
    }

    fn clock_step_now<A: Arithmetic>(&self, ar: &A, wall: Scalar, dt: Scalar) -> (r: Scalar)
        ensures
            deterministic(ar) ==> r == self.clock_step(ar, wall, dt),
            !zero().lt_spec(self.soft_start_duration_s) ==> r == dt,
    {
        let dur = self.soft_start_duration_s;
        if zero().lt(dur) && wall.lt(ar.plus(dur, dt)) {
            let u = ar.over(wall, dur).clamp(zero(), one());
            ar.times(dt, ramp_at(ar, u))
        } else {
            dt
        }
    }
}

/// Planner of the crawl.
#[derive(Debug)]
pub struct LinearCrawlController {
    /// Parameters.
    pub cfg: LinearCrawlConfig,
    /// Leg geometry.
    pub kin: KinematicsConfig,
    /// Gait clock (s).
    pub t: Scalar,
    /// Wall clock since the start (s).
    pub wall_t: Scalar,
    /// Place of each leg in the swing order, in slot order.
    pub sub_cycle_index: [usize; 4],
    /// Foot position of each leg below the trunk, body frame, in slot order.
    pub nominal_body: [Vec3; 4],
    /// Whether the cycle is frozen.
    pub holding: bool,
}

/// Foot position of a leg below a trunk at height `h`.
pub open spec fn planted(kin: LegKinematics, h: Scalar) -> Vec3 {
    Vec3 { x: kin.nominal_foot_body.x, y: kin.nominal_foot_body.y, z: h.neg_spec() }
}

fn planted_at(kin: &LegKinematics, h: Scalar) -> (r: Vec3)
    ensures
        r == planted(*kin, h),
{
    Vec3::new(kin.nominal_foot_body.x, kin.nominal_foot_body.y, h.neg())
}

/// No leg swings.
pub open spec fn all_stance(in_swing: Seq<bool>) -> bool {
    !in_swing[0] && !in_swing[1] && !in_swing[2] && !in_swing[3]
}

impl LinearCrawlController {
    /// The derived fields agree with the parameters.
    pub open spec fn wf(self) -> bool {
        &&& forall|slot: int|
            0 <= slot < 4 ==> #[trigger] self.sub_cycle_index@[slot] == order_index(
                self.cfg.leg_order@,
                LegId::at_slot(slot),
            )
        &&& forall|slot: int|
            0 <= slot < 4 ==> #[trigger] self.nominal_body@[slot] == planted(
                self.kin.of(LegId::at_slot(slot)),
                self.cfg.body_height_m,
            )
    }

    /// A planner at the start of a cycle.
    pub fn new(kin: KinematicsConfig, cfg: LinearCrawlConfig) -> (r: LinearCrawlController)
        ensures
            r.wf(),
            r.cfg == cfg,
            r.kin == kin,
            r.t == zero(),
            r.wall_t == zero(),
            !r.holding,
    {
        let h = cfg.body_height_m;
        let sub_cycle_index = [
            order_index_of(&cfg.leg_order, LegId::FL),
            order_index_of(&cfg.leg_order, LegId::FR),
            order_index_of(&cfg.leg_order, LegId::RL),
            order_index_of(&cfg.leg_order, LegId::RR),
        ];
        let nominal_body = [
            planted_at(&kin.fl, h),
            planted_at(&kin.fr, h),
            planted_at(&kin.rl, h),
            planted_at(&kin.rr, h),
        ];
        LinearCrawlController {
            cfg,
            kin,
            t: zero(),
            wall_t: zero(),
            sub_cycle_index,
            nominal_body,
            holding: false,
        }
    }

    /// The parameters.
    pub fn config(&self) -> (r: &LinearCrawlConfig)
        ensures
            *r == self.cfg,
    {
        &self.cfg
    }

    /// The gait clock.
    pub fn elapsed(&self) -> (r: Scalar)
        ensures
            r == self.t,
    {
        self.t
    }

    /// Back to the start of a cycle.
    pub fn reset(&mut self)
        ensures
            *final(self) == (LinearCrawlController {
                t: zero(),
                wall_t: zero(),
                holding: false,
                ..*old(self)
            }),
    {
        self.t = zero();
        self.wall_t = zero();
        self.holding = false;
    }

    /// Starts the gait from the start of a cycle.
    pub fn enable(&mut self)
        ensures
            *final(self) == (LinearCrawlController {
                t: zero(),
                wall_t: zero(),
                holding: false,
                ..*old(self)
            }),
    {
        self.reset();
    }

    /// Whether the cycle is frozen.
    pub fn is_holding(&self) -> (r: bool)
        ensures
            r == self.holding,
    {
        self.holding
    }

    /// Forward target of the trunk now (m).
    pub fn trunk_world_x<A: Arithmetic>(&self, ar: &A) -> (r: Scalar)
        ensures
            deterministic(ar) ==> r == product(ar, self.cfg.speed_mps, self.t),
    {
        ar.times(self.cfg.speed_mps, self.t)
    }

    /// Sets the forward speed; the cycle goes on from where it is.
    pub fn set_speed(&mut self, v: Scalar)
        ensures
            *final(self) == (LinearCrawlController {
                cfg: LinearCrawlConfig { speed_mps: v, ..old(self).cfg },
                ..*old(self)
            }),
    {
        self.cfg.speed_mps = v;
    }

    /// Whether the leg in a slot swings at time `t`.
    pub open spec fn swings_at<A: Arithmetic>(self, ar: &A, slot: int, t: Scalar) -> bool {
        self.cfg.swings(ar, self.sub_cycle_index@[slot] as int, self.cfg.phase_at(ar, t))
    }

    /// Foot target of the leg in a slot at time `t`, body frame.
    pub open spec fn foot_at<A: Arithmetic>(self, ar: &A, slot: int, t: Scalar) -> Vec3 {
        self.cfg.foot_at(
            ar,
            self.sub_cycle_index@[slot] as int,
            self.nominal_body@[slot],
            self.cfg.phase_at(ar, t),
        )
    }

    /// What holds of an output whatever the arithmetic: the trunk is on its line
    /// at its height, the feet keep their lateral place, and the feet of stance
    /// legs are on the ground.
    pub open spec fn is_grounded(self, out: LinearCrawlOutput) -> bool {
        &&& out.trunk_world_xyz@[1] == zero()
        &&& out.trunk_world_xyz@[2] == self.cfg.body_height_m
        &&& forall|slot: int|
            0 <= slot < 4 ==> (#[trigger] out.foot_body_xyz@[slot])@[1]
                == self.nominal_body@[slot].y && (!out.in_swing@[slot]
                ==> out.foot_body_xyz@[slot]@[2] == self.nominal_body@[slot].z)
    }

    /// `out` is the output at time `t`.
    pub open spec fn is_output<A: Arithmetic>(
        self,
        ar: &A,
        t: Scalar,
        out: LinearCrawlOutput,
    ) -> bool {
        &&& out.trunk_world_xyz@[0] == product(ar, self.cfg.speed_mps, t)
        &&& forall|slot: int|
            0 <= slot < 4 ==> #[trigger] self.outputs_leg(ar, t, out, slot)
    }

    /// The part of the output at time `t` for the leg in a slot.
    pub open spec fn outputs_leg<A: Arithmetic>(
        self,
        ar: &A,
        t: Scalar,
        out: LinearCrawlOutput,
        slot: int,
    ) -> bool {
        let foot = self.foot_at(ar, slot, t);
        let kin = self.kin.of(LegId::at_slot(slot));
        let ik = leg_ik(ar, kin, foot, self.cfg.knee_forward@[slot]);
        &&& out.foot_body_xyz@[slot]@ == seq![foot.x, foot.y, foot.z]
        &&& out.in_swing@[slot] == self.swings_at(ar, slot, t)
        &&& out.angles@[slot] == ik.joint_angles()
        &&& out.foot_reachable@[slot] == (ik is Reached)
    }

    fn leg_now<A: Arithmetic>(&self, ar: &A, kin: &LegKinematics, slot: usize, phase: Scalar) -> (r:
        CrawlLeg)
        requires
            slot < 4,
            self.wf(),
            *kin == self.kin.of(LegId::at_slot(slot as int)),
        ensures
            r.foot.y == self.nominal_body@[slot as int].y,
            !r.in_swing ==> r.foot.z == self.nominal_body@[slot as int].z,
            deterministic(ar) ==> {
                let i = self.sub_cycle_index@[slot as int] as int;
                let foot = self.cfg.foot_at(ar, i, self.nominal_body@[slot as int], phase);
                let ik = leg_ik(ar, *kin, foot, self.cfg.knee_forward@[slot as int]);
                &&& r.foot == foot
                &&& r.in_swing == self.cfg.swings(ar, i, phase)
                &&& r.angles == ik.joint_angles()
                &&& r.reachable == (ik is Reached)
            },
    {
        let i: usize = self.sub_cycle_index[slot];
        let foot = self.cfg.foot_now(ar, i, self.nominal_body[slot], phase);
        let sol = solve_leg_ik(ar, kin, foot.0, self.cfg.knee_forward[slot]);
        CrawlLeg {
            foot: foot.0,
            in_swing: foot.1,
            angles: sol.angles(),
            reachable: sol.is_reachable(),
        }
    }

    /// The output at time `t`; the clocks do not move.
    pub fn output_at<A: Arithmetic>(&self, ar: &A, t: Scalar) -> (r: LinearCrawlOutput)
        requires
            self.wf(),
        ensures
            self.is_grounded(r),
            deterministic(ar) ==> self.is_output(ar, t, r),
    {
        let trunk_x = ar.times(self.cfg.speed_mps, t);
        let phase = self.cfg.phase_now(ar, t);
        let fl = self.leg_now(ar, &self.kin.fl, 0, phase);
        let fr = self.leg_now(ar, &self.kin.fr, 1, phase);
        let rl = self.leg_now(ar, &self.kin.rl, 2, phase);
        let rr = self.leg_now(ar, &self.kin.rr, 3, phase);
        let r = LinearCrawlOutput {
            angles: [fl.angles, fr.angles, rl.angles, rr.angles],
            in_swing: [fl.in_swing, fr.in_swing, rl.in_swing, rr.in_swing],
            trunk_world_xyz: [trunk_x, zero(), self.cfg.body_height_m],
            foot_body_xyz: [
                [fl.foot.x, fl.foot.y, fl.foot.z],
                [fr.foot.x, fr.foot.y, fr.foot.z],
                [rl.foot.x, rl.foot.y, rl.foot.z],
                [rr.foot.x, rr.foot.y, rr.foot.z],
            ],
            foot_reachable: [fl.reachable, fr.reachable, rl.reachable, rr.reachable],
        };
        proof {
            if deterministic(ar) {
                assert(self.outputs_leg(ar, t, r, 0));
                assert(self.outputs_leg(ar, t, r, 1));
                assert(self.outputs_leg(ar, t, r, 2));
                assert(self.outputs_leg(ar, t, r, 3));
            }
        }
        r
    }

    /// `c` and `out` are the planner and its output after a tick of `dt`: only
    /// the clocks and the freeze change; frozen with a stop wanted, nothing does.
    pub open spec fn ticks<A: Arithmetic>(
        self,
        ar: &A,
        dt: Scalar,
        c: LinearCrawlController,
        out: LinearCrawlOutput,
    ) -> bool {
        let frozen = self.holding && self.cfg.wants_stop();
        &&& c.wf()
        &&& c == (LinearCrawlController {
            t: c.t,
            wall_t: c.wall_t,
            holding: c.holding,
            ..self
        })
        &&& c.holding == (frozen || (self.cfg.wants_stop() && all_stance(out.in_swing@)))
        &&& frozen ==> c == self
        &&& c.is_grounded(out)
        &&& deterministic(ar) ==> c.is_output(ar, c.t, out)
        &&& deterministic(ar) && !frozen ==> c.wall_t == sum(ar, self.wall_t, dt) && c.t == sum(
            ar,
            self.t,
            self.cfg.clock_step(ar, c.wall_t, dt),
        )
        &&& !frozen && !zero().lt_spec(self.cfg.soft_start_duration_s) ==> call_ensures(
            A::plus,
            (ar, self.t, dt),
            c.t,
        )
    }

    /// Moves the clocks on by `dt` and gives the output. When a stop is wanted
    /// the cycle goes on until no leg swings and then freezes; it goes on from
    /// there once a speed is set.
    pub fn tick<A: Arithmetic>(&mut self, ar: &A, dt: Scalar) -> (r: LinearCrawlOutput)
        requires
            old(self).wf(),
        ensures
            old(self).ticks(ar, dt, *final(self), r),
    {
        let stop = self.cfg.speed_mps.abs().lt(Scalar { bits: STOP_SPEED_BITS });
        if self.holding {
            if stop {
                return self.output_at(ar, self.t);
            }
            self.holding = false;
        }
        self.wall_t = ar.plus(self.wall_t, dt);
        let step = self.cfg.clock_step_now(ar, self.wall_t, dt);
        self.t = ar.plus(self.t, step);
        let out = self.output_at(ar, self.t);
        let ghost moved = *self;
        if stop && !out.in_swing[0] && !out.in_swing[1] && !out.in_swing[2] && !out.in_swing[3] {
            self.holding = true;
        }
        proof {
            if deterministic(ar) {
                assert forall|slot: int| 0 <= slot < 4 implies #[trigger] self.outputs_leg(
                    ar,
                    self.t,
                    out,
                    slot,
                ) by {
                    assert(moved.outputs_leg(ar, moved.t, out, slot));
                }
            }
        }
        out
    }
}

/// Counts of up to four quarters are exact.
pub open spec fn counts_quarters<A: Arithmetic>(ar: &A) -> bool {
    &&& quarters(ar, 0) == zero()
    &&& quarters(ar, 1) == (Scalar { bits: QUARTER_BITS })
    &&& quarters(ar, 2) == (Scalar { bits: HALF_BITS })
    &&& quarters(ar, 3) == (Scalar { bits: THREE_QUARTERS_BITS })
    &&& quarters(ar, 4) == one()
}

/// The plan repeats with the cycle: at times of the same phase the same legs
/// swing, and every foot is at the same place under the trunk.
pub proof fn feet_repeat_with_the_cycle<A: Arithmetic>(
    ar: &A,
    c: LinearCrawlController,
    t: Scalar,
    later: Scalar,
    slot: int,
)
    requires
        c.wf(),
        0 <= slot < 4,
        c.cfg.phase_at(ar, later) == c.cfg.phase_at(ar, t),
    ensures
        c.swings_at(ar, slot, later) == c.swings_at(ar, slot, t),
        c.foot_at(ar, slot, later) == c.foot_at(ar, slot, t),
{
}

/// At most one leg swings at a time when each leg has its own place in the
/// order, in an arithmetic that keeps signs and counts quarters exactly.
pub proof fn at_most_one_leg_swings<A: Arithmetic>(
    ar: &A,
    c: LinearCrawlController,
    t: Scalar,
    a: int,
    b: int,
)
    requires
        c.wf(),
        is_order(c.cfg.leg_order@),
        keeps_signs(ar),
        counts_quarters(ar),
        0 <= a < 4,
        0 <= b < 4,
        c.swings_at(ar, a, t),
        c.swings_at(ar, b, t),
    ensures
        a == b,
{
    if a != b {
        let i = c.sub_cycle_index@[a] as int;
        let j = c.sub_cycle_index@[b] as int;
        let order = c.cfg.leg_order@;
        assert(LegId::at_slot(a) != LegId::at_slot(b));
        assert(order[0] != order[1] && order[0] != order[2] && order[0] != order[3]);
        assert(order[1] != order[2] && order[1] != order[3] && order[2] != order[3]);
        assert(i != j);
        swing_is_in_quarter(ar, c.cfg, i, c.cfg.phase_at(ar, t));
        swing_is_in_quarter(ar, c.cfg, j, c.cfg.phase_at(ar, t));
    }
}

/// A leg swings only within its own quarter of the cycle, in an arithmetic that
/// keeps signs and counts quarters exactly.
pub proof fn swing_is_in_quarter<A: Arithmetic>(
    ar: &A,
    cfg: LinearCrawlConfig,
    i: int,
    phase: Scalar,
)
    requires
        keeps_signs(ar),
        counts_quarters(ar),
        0 <= i < 4,
        cfg.swings(ar, i, phase),
    ensures
        quarters(ar, i).le_spec(phase),
        phase.lt_spec(quarters(ar, i + 1)),
{
    let alpha = cfg.support();
    let quarter = Scalar { bits: QUARTER_BITS };
    let window = product(ar, alpha, quarter);
    if alpha.is_nan_spec() {
        assert(window.is_nan_spec());
        assert(sum(ar, quarters(ar, i), window).is_nan_spec());
    } else {
        assert(zero().le_spec(alpha) && alpha.is_finite_spec());
        assert(zero().le_spec(window));
        assert(quarters(ar, i).le_spec(sum(ar, quarters(ar, i), window)));
    }
}

/// The sine lies between zero and one on the half wave.
pub open spec fn arches<A: Arithmetic>(ar: &A) -> bool {
    forall|u: Scalar|
        zero().le_spec(u) && u.le_spec(one()) ==> {
            let arc = #[trigger] sine(ar, product(ar, Scalar { bits: PI_BITS }, u));
            zero().le_spec(arc) && arc.le_spec(one())
        }
}

/// A foot is on the ground in stance, and in a swing between the ground and the
/// swing height above it.
pub proof fn a_swing_stays_within_its_height<A: Arithmetic>(
    ar: &A,
    c: LinearCrawlController,
    t: Scalar,
    slot: int,
)
    requires
        c.wf(),
        0 <= slot < 4,
        keeps_signs(ar),
        keeps_order(ar),
        arches(ar),
        c.cfg.body_height_m.is_finite_spec(),
        c.cfg.swing_height_m.is_finite_spec(),
        zero().le_spec(c.cfg.swing_height_m),
        c.swings_at(ar, slot, t) ==> {
            let u = c.cfg.swing_fraction(
                ar,
                c.sub_cycle_index@[slot] as int,
                c.cfg.phase_at(ar, t),
            );
            zero().le_spec(u) && u.le_spec(one())
        },
    ensures
        ({
            let ground = c.cfg.body_height_m.neg_spec();
            let z = c.foot_at(ar, slot, t).z;
            &&& !c.swings_at(ar, slot, t) ==> z == ground
            &&& ground.le_spec(z)
            &&& z.le_spec(sum(ar, ground, c.cfg.swing_height_m))
        }),
{
    let ground = c.cfg.body_height_m.neg_spec();
    let height = c.cfg.swing_height_m;
    assert(c.nominal_body@[slot].z == ground);
    assert(ground.is_finite_spec());
    assert(ground.le_spec(sum(ar, ground, height)));
    if c.swings_at(ar, slot, t) {
        let u = c.cfg.swing_fraction(
            ar,
            c.sub_cycle_index@[slot] as int,
            c.cfg.phase_at(ar, t),
        );
        let arc = sine(ar, product(ar, Scalar { bits: PI_BITS }, u));
        assert(zero().le_spec(arc) && arc.le_spec(one()));
        let lift = product(ar, height, arc);
        assert(lift.le_spec(product(ar, height, one())));
        assert(zero().le_spec(lift) && lift.is_finite_spec());
        assert(sum(ar, ground, lift).le_spec(sum(ar, ground, height)));
    }
}

/// The ramp of the soft start lies between zero and one on the unit interval.
pub open spec fn ramps_within<A: Arithmetic>(ar: &A) -> bool {
    forall|u: Scalar|
        zero().le_spec(u) && u.le_spec(one()) ==> zero().le_spec(#[trigger] ramp(ar, u)) && ramp(
            ar,
            u,
        ).le_spec(one())
}

/// A tick moves the gait clock on by at least nothing and at most the time that
/// passed.
pub proof fn the_gait_clock_keeps_pace<A: Arithmetic>(
    ar: &A,
    before: LinearCrawlController,
    dt: Scalar,
    after: LinearCrawlController,
    out: LinearCrawlOutput,
)
    requires
        deterministic(ar),
        keeps_signs(ar),
        keeps_order(ar),
        divides(ar),
        ramps_within(ar),
        before.ticks(ar, dt, after, out),
        before.t.is_finite_spec(),
        before.cfg.soft_start_duration_s.is_finite_spec(),
        dt.is_finite_spec(),
        zero().le_spec(dt),
    ensures
        before.t.le_spec(after.t),
        after.t.le_spec(sum(ar, before.t, dt)),
{
    assert(before.t.le_spec(sum(ar, before.t, dt)));
    if !(before.holding && before.cfg.wants_stop()) {
        let step = before.cfg.clock_step(ar, after.wall_t, dt);
        let dur = before.cfg.soft_start_duration_s;
        if zero().lt_spec(dur) && after.wall_t.lt_spec(sum(ar, dur, dt)) {
            let u = quotient(ar, after.wall_t, dur).clamp_spec(zero(), one());
            assert(zero().le_spec(u) && u.le_spec(one()));
            let r = ramp(ar, u);
            assert(step == product(ar, dt, r));
            assert(step.le_spec(product(ar, dt, one())));
        }
        assert(zero().le_spec(step) && step.le_spec(dt) && step.is_finite_spec());
        assert(sum(ar, before.t, step).le_spec(sum(ar, before.t, dt)));
    }
}

/// A crawl that is to stop goes on until no leg swings, and halts then: it never
/// halts with a foot in the air.
pub proof fn a_halt_waits_for_the_feet<A: Arithmetic>(
    ar: &A,
    before: LinearCrawlController,
    dt: Scalar,
    after: LinearCrawlController,
    out: LinearCrawlOutput,
)
    requires
        !before.holding,
        before.ticks(ar, dt, after, out),
    ensures
        after.holding == (before.cfg.wants_stop() && all_stance(out.in_swing@)),
{
}

/// A halted crawl stays as it is, tick after tick, until a speed is set.
pub proof fn a_halted_crawl_stays_put<A: Arithmetic>(
    ar: &A,
    before: LinearCrawlController,
    dt: Scalar,
    after: LinearCrawlController,
    out: LinearCrawlOutput,
)
    requires
        before.holding,
        before.cfg.wants_stop(),
        before.ticks(ar, dt, after, out),
    ensures
        after == before,
        deterministic(ar) ==> before.is_output(ar, before.t, out),
{
}

/// A halted crawl that is given a speed goes on from the phase it halted in.
pub proof fn a_halted_crawl_resumes_where_it_was<A: Arithmetic>(
    ar: &A,
    halted: LinearCrawlController,
    cfg: LinearCrawlConfig,
    dt: Scalar,
    after: LinearCrawlController,
    out: LinearCrawlOutput,
)
    requires
        deterministic(ar),
        !cfg.wants_stop(),
        (LinearCrawlController { cfg, ..halted }).ticks(ar, dt, after, out),
    ensures
        !after.holding,
        after.t == sum(ar, halted.t, cfg.clock_step(ar, after.wall_t, dt)),
{
}

/// What holds of the plan at any time: at most one leg swings; every foot keeps its
/// lateral place; a foot in stance is on the ground, and one in a swing between the
/// ground and the swing height above it; the trunk is on its line at its height; and at
/// a time of the same phase every foot is at the same place under the trunk.
pub proof fn the_plan_at_a_time<A: Arithmetic>(
    ar: &A,
    c: LinearCrawlController,
    t: Scalar,
    out: LinearCrawlOutput,
    later: Scalar,
    out_later: LinearCrawlOutput,
)
    requires
        c.wf(),
        is_order(c.cfg.leg_order@),
        keeps_signs(ar),
        keeps_order(ar),
        counts_quarters(ar),
        arches(ar),
        c.cfg.body_height_m.is_finite_spec(),
        c.cfg.swing_height_m.is_finite_spec(),
        zero().le_spec(c.cfg.swing_height_m),
        forall|slot: int|
            0 <= slot < 4 && #[trigger] c.swings_at(ar, slot, t) ==> {
                let u = c.cfg.swing_fraction(
                    ar,
                    c.sub_cycle_index@[slot] as int,
                    c.cfg.phase_at(ar, t),
                );
                zero().le_spec(u) && u.le_spec(one())
            },
        c.is_grounded(out),
        c.is_output(ar, t, out),
        c.is_output(ar, later, out_later),
        c.cfg.phase_at(ar, later) == c.cfg.phase_at(ar, t),
    ensures
        forall|a: int, b: int|
            0 <= a < 4 && 0 <= b < 4 && #[trigger] out.in_swing@[a] && #[trigger] out.in_swing@[b]
                ==> a == b,
        forall|slot: int|
            0 <= slot < 4 ==> {
                let foot = (#[trigger] out.foot_body_xyz@[slot])@;
                let ground = c.cfg.body_height_m.neg_spec();
                &&& foot[1] == c.nominal_body@[slot].y
                &&& !out.in_swing@[slot] ==> foot[2] == ground
                &&& ground.le_spec(foot[2])
                &&& foot[2].le_spec(sum(ar, ground, c.cfg.swing_height_m))
                &&& out_later.foot_body_xyz@[slot]@ == foot
                &&& out_later.in_swing@[slot] == out.in_swing@[slot]
            },
        out.trunk_world_xyz@[0] == product(ar, c.cfg.speed_mps, t),
        out.trunk_world_xyz@[1] == zero(),
        out.trunk_world_xyz@[2] == c.cfg.body_height_m,
{
    assert forall|a: int, b: int|
        0 <= a < 4 && 0 <= b < 4 && #[trigger] out.in_swing@[a] && #[trigger] out.in_swing@[b]
            implies a == b by {
        assert(c.outputs_leg(ar, t, out, a));
        assert(c.outputs_leg(ar, t, out, b));
        at_most_one_leg_swings(ar, c, t, a, b);
    }
    assert forall|slot: int| 0 <= slot < 4 implies {
        let foot = (#[trigger] out.foot_body_xyz@[slot])@;
        let ground = c.cfg.body_height_m.neg_spec();
        &&& foot[1] == c.nominal_body@[slot].y
        &&& !out.in_swing@[slot] ==> foot[2] == ground
        &&& ground.le_spec(foot[2])
        &&& foot[2].le_spec(sum(ar, ground, c.cfg.swing_height_m))
        &&& out_later.foot_body_xyz@[slot]@ == foot
        &&& out_later.in_swing@[slot] == out.in_swing@[slot]
    } by {
        assert(c.outputs_leg(ar, t, out, slot));
        assert(c.outputs_leg(ar, later, out_later, slot));
        a_swing_stays_within_its_height(ar, c, t, slot);
        feet_repeat_with_the_cycle(ar, c, t, later, slot);
    }
}

/// What a tick does: halted with a stop wanted it changes nothing and gives the plan at
/// its clock; otherwise the clock moves on by at least nothing and at most the time that
/// passed, the plan at the new clock is given, and the crawl halts exactly when a stop is
/// wanted and no leg swings.
pub proof fn a_tick_of_the_crawl<A: Arithmetic>(
    ar: &A,
    before: LinearCrawlController,
    dt: Scalar,
    after: LinearCrawlController,
    out: LinearCrawlOutput,
)
    requires
        deterministic(ar),
        keeps_signs(ar),
        keeps_order(ar),
        divides(ar),
        ramps_within(ar),
        before.ticks(ar, dt, after, out),
        before.t.is_finite_spec(),
        before.cfg.soft_start_duration_s.is_finite_spec(),
        dt.is_finite_spec(),
        zero().le_spec(dt),
    ensures
        after.is_output(ar, after.t, out),
        before.cfg.wants_stop() && before.holding ==> after == before,
        before.cfg.wants_stop() && !before.holding ==> after.holding == all_stance(out.in_swing@),
        !before.cfg.wants_stop() ==> !after.holding,
        before.t.le_spec(after.t),
        after.t.le_spec(sum(ar, before.t, dt)),
{
    the_gait_clock_keeps_pace(ar, before, dt, after, out);
}

} // verus!
