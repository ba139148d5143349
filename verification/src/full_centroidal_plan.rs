//! Planned phases of the legs over the horizon: when they stand, how hard they
//! may push, how they swing and where they land.

use vstd::prelude::*;
use crate::arith::{
    counted, deterministic, difference, product, quotient, remainder, sum, vec_difference,
    vec_minus, Arithmetic,
};
use crate::closed_loop::{to_body, world_to_body_horizontal};
use crate::config::{slot_of, stance_weight, stance_weight_at, LegId, HALF_BITS};
use crate::controller::{
    effective_swing_height, steady, swing_height, swing_rate, LegModel, PhaseState,
};
use crate::full_centroidal_controller::FullCentroidalMpcGaitController;
use crate::full_centroidal_footstep::LEAST_STEP_BITS;
use crate::full_centroidal_mpc::FootTarget;
use crate::scalar::{infinity, one, zero, Scalar, Vec3};

verus! {

/// Bits of the largest duty used for timing (1 - 1e-6).
pub const DUTY_CEILING_BITS: u64 = 0x3FEF_FFFD_E721_0BE9;

/// Planned phase of a leg at a step of the horizon.
#[derive(Clone, Copy, Debug, PartialEq, Eq, Structural)]
pub struct StepPhase {
    /// Whether the leg stands.
    pub stance: bool,
    /// Fraction of the stance or swing.
    pub sub: Scalar,
    /// Whether the leg is known to swing.
    pub swing: bool,
}

/// Phase of a leg at cycle position `pos`: stance below its duty, swing above.
pub open spec fn phase_at<A: Arithmetic>(ar: &A, pos: Scalar, duty: Scalar) -> StepPhase {
    if pos.lt_spec(duty) {
        StepPhase { stance: true, sub: quotient(ar, pos, duty), swing: false }
    } else {
        StepPhase {
            stance: false,
            sub: quotient(ar, difference(ar, pos, duty), difference(ar, one(), duty)),
            swing: true,
        }
    }
}

fn find_phase_at<A: Arithmetic>(ar: &A, pos: Scalar, duty: Scalar) -> (r: StepPhase)
    ensures
        deterministic(ar) ==> r == phase_at(ar, pos, duty),
        r.swing == !r.stance,
        r.stance == pos.lt_spec(duty),
{
    if pos.lt(duty) {
        StepPhase { stance: true, sub: ar.over(pos, duty), swing: false }
    } else {
        StepPhase {
            stance: false,
            sub: ar.over(ar.minus(pos, duty), ar.minus(one(), duty)),
            swing: true,
        }
    }
}

/// A leg touches down at step `k`: it stands there and swung the step before.
pub open spec fn is_touchdown(column: Seq<bool>, k: int) -> bool {
    0 < k < column.len() && column[k] && !column[k - 1]
}

/// Step `k` is the first touch-down of the horizon.
pub open spec fn lands_first(column: Seq<bool>, k: int) -> bool {
    is_touchdown(column, k) && forall|j: int| 0 <= j < k ==> !#[trigger] is_touchdown(column, j)
}

/// The first touch-down of a leg over the horizon.
pub fn first_touchdown(column: &Vec<bool>) -> (r: Option<usize>)
    ensures
        match r {
            Some(k) => lands_first(column@, k as int),
            None => forall|k: int| !#[trigger] is_touchdown(column@, k),
        },
{
    let mut k: usize = 1;
    while k < column.len()
        invariant
            1 <= k,
            forall|j: int| j < k ==> !#[trigger] is_touchdown(column@, j),
        decreases column@.len() - k,
    {
        if column[k] && !column[k - 1] {
            return Some(k);
        }
        k += 1;
    }
    None
}

/// A first touch-down is unique.
pub proof fn first_touchdown_is_unique(column: Seq<bool>, a: int, b: int)
    requires
        lands_first(column, a),
        lands_first(column, b),
    ensures
        a == b,
{
    if a < b {
        assert(!is_touchdown(column, a));
    } else if b < a {
        assert(!is_touchdown(column, b));
    }
}

/// Plan of one leg over the horizon.
pub struct LegPlan {
    /// Whether the leg stands.
    pub stance: Vec<bool>,
    /// Fraction of the stance or swing.
    pub sub: Vec<Scalar>,
    /// Planned vertical foot velocity.
    pub vz: Vec<Scalar>,
    /// Bound on the vertical force.
    pub f_max: Vec<Scalar>,
}

impl FullCentroidalMpcGaitController {
    /// Duty used for timing.
    pub open spec fn timing_duty(self) -> Scalar {
        self.cfg.duty_factor.clamp_spec(
            Scalar { bits: LEAST_STEP_BITS },
            Scalar { bits: DUTY_CEILING_BITS },
        )
    }

    /// Cycle period used for timing.
    pub open spec fn timing_period(self) -> Scalar {
        self.cfg.cycle_period_s.max_spec(Scalar { bits: LEAST_STEP_BITS })
    }

    /// Cycle position of a leg at step `k`.
    pub open spec fn position_at<A: Arithmetic>(
        self,
        ar: &A,
        cycle_phase: Scalar,
        leg: LegId,
        k: int,
    ) -> Scalar {
        let t = product(ar, counted(ar, k as usize), self.full_centroidal_mpc.cfg.dt_per_step);
        let cycle = remainder(
            ar,
            sum(ar, cycle_phase, quotient(ar, t, self.timing_period())),
            one(),
        );
        remainder(ar, sum(ar, cycle, self.cfg.gait_type.offset(leg)), one())
    }

    /// Planned phase of a leg at step `k`: mid-stance while there is no command;
    /// with the projected schedule the present phase now and the projected one
    /// later; otherwise the present stance now, and later stance for a duty above
    /// one half.
    pub open spec fn planned<A: Arithmetic>(
        self,
        ar: &A,
        cycle_phase: Scalar,
        leg: LegId,
        now: PhaseState,
        k: int,
    ) -> StepPhase {
        let half = Scalar { bits: HALF_BITS };
        let duty = self.leg_duty(leg.slot());
        if self.cmd.is_still() {
            StepPhase { stance: true, sub: half, swing: false }
        } else if self.legged_control_parity {
            if k == 0 {
                StepPhase {
                    stance: now.is_stance,
                    sub: now.sub_fraction,
                    swing: !now.is_stance,
                }
            } else {
                phase_at(ar, self.position_at(ar, cycle_phase, leg, k), duty)
            }
        } else if k == 0 {
            StepPhase { stance: now.is_stance, sub: half, swing: false }
        } else {
            StepPhase { stance: half.lt_spec(duty), sub: half, swing: false }
        }
    }

    /// Planned phase of a leg at step `k`.
    pub fn planned_phase<A: Arithmetic>(
        &self,
        ar: &A,
        cycle_phase: Scalar,
        leg: LegId,
        now: PhaseState,
        k: usize,
    ) -> (r: StepPhase)
        ensures
            deterministic(ar) ==> r == self.planned(ar, cycle_phase, leg, now, k as int),
            self.cmd.is_still() ==> r.stance,
            k == 0 && !self.cmd.is_still() ==> r.stance == now.is_stance,
            k > 0 && !self.cmd.is_still() && !self.legged_control_parity ==> r.stance == (Scalar {
                bits: HALF_BITS,
            }).lt_spec(self.leg_duty(leg.slot())),
    {
        let half = Scalar { bits: HALF_BITS };
        let duty = self.duty_for_slot(slot_of(leg));
        if self.cmd.is_zero() {
            StepPhase { stance: true, sub: half, swing: false }
        } else if self.legged_control_parity {
            if k == 0 {
                StepPhase {
                    stance: now.is_stance,
                    sub: now.sub_fraction,
                    swing: !now.is_stance,
                }
            } else {
                let t = ar.times(ar.from_count(k), self.full_centroidal_mpc.cfg.dt_per_step);
                let period = self.cfg.cycle_period_s.max(Scalar { bits: LEAST_STEP_BITS });
                let cycle = ar.wrap(ar.plus(cycle_phase, ar.over(t, period)), one());
                let offset = self.offset_of(leg);
                let pos = ar.wrap(ar.plus(cycle, offset), one());
                find_phase_at(ar, pos, duty)
            }
        } else if k == 0 {
            StepPhase { stance: now.is_stance, sub: half, swing: false }
        } else {
            StepPhase { stance: half.lt(duty), sub: half, swing: false }
        }
    }

    fn offset_of(&self, leg: LegId) -> (r: Scalar)
        ensures
            r == self.cfg.gait_type.offset(leg),
    {
        let offsets = self.cfg.gait_type.phase_offsets();
        if offsets[0].0 == leg {
            offsets[0].1
        } else if offsets[1].0 == leg {
            offsets[1].1
        } else if offsets[2].0 == leg {
            offsets[2].1
        } else {
            offsets[3].1
        }
    }

    /// Swing duration used for timing.
    pub open spec fn timing_swing<A: Arithmetic>(self, ar: &A) -> Scalar {
        product(ar, self.timing_period(), difference(ar, one(), self.timing_duty()))
    }

    /// Planned vertical foot velocity: along the swing curve where the leg is
    /// known to swing, else zero.
    pub open spec fn planned_vz<A: Arithmetic, S: LegModel>(
        self,
        ar: &A,
        model: &S,
        p: StepPhase,
    ) -> Scalar {
        if p.swing && self.legged_control_parity {
            swing_rate(
                model,
                swing_height(ar, self.cfg.swing_height_m, self.cmd),
                p.sub,
                self.timing_swing(ar),
            )
        } else {
            zero()
        }
    }

    /// Whether the force bound of stance legs follows the transition ramp.
    pub open spec fn ramps_bound(self) -> bool {
        self.legged_control_parity && self.cfg.transition_enforce_constraint && zero().lt_spec(
            self.cfg.transition_fraction,
        )
    }

    /// Bound on the vertical force: ramped in stance when asked for, else none.
    pub open spec fn planned_bound<A: Arithmetic>(self, ar: &A, p: StepPhase) -> Scalar {
        if p.stance && self.ramps_bound() {
            product(
                ar,
                self.full_centroidal_mpc.cfg.max_normal_force.max_spec(zero()),
                stance_weight(ar, p.sub, self.cfg.transition_fraction),
            )
        } else {
            infinity()
        }
    }

    /// Plans one leg over a horizon of `n` steps.
    pub fn plan_leg<A: Arithmetic, S: LegModel>(
        &self,
        ar: &A,
        model: &S,
        cycle_phase: Scalar,
        leg: LegId,
        now: PhaseState,
        n: usize,
    ) -> (r: LegPlan)
        ensures
            r.stance@.len() == n,
            r.sub@.len() == n,
            r.vz@.len() == n,
            r.f_max@.len() == n,
            forall|k: int|
                0 <= k < n && self.cmd.is_still() ==> #[trigger] r.stance@[k],
            n > 0 && !self.cmd.is_still() ==> r.stance@[0] == now.is_stance,
            forall|k: int|
                0 <= k < n && (!r.stance@[k] || !self.ramps_bound())
                    ==> #[trigger] r.f_max@[k] == infinity(),
            deterministic(ar) ==> forall|k: int|
                0 <= k < n ==> #[trigger] r.stance@[k] == self.planned(ar, cycle_phase, leg, now, k).stance,
            deterministic(ar) ==> forall|k: int|
                0 <= k < n ==> #[trigger] r.sub@[k] == self.planned(ar, cycle_phase, leg, now, k).sub,
            deterministic(ar) ==> forall|k: int|
                0 <= k < n ==> #[trigger] r.f_max@[k] == self.planned_bound(
                    ar,
                    self.planned(ar, cycle_phase, leg, now, k),
                ),
            deterministic(ar) && steady(model) ==> forall|k: int|
                0 <= k < n ==> #[trigger] r.vz@[k] == self.planned_vz(
                    ar,
                    model,
                    self.planned(ar, cycle_phase, leg, now, k),
                ),
    {
        let mut r = LegPlan {
            stance: Vec::new(),
            sub: Vec::new(),
            vz: Vec::new(),
            f_max: Vec::new(),
        };
        let duty = self.cfg.duty_factor.clamp(
            Scalar { bits: LEAST_STEP_BITS },
            Scalar { bits: DUTY_CEILING_BITS },
        );
        let period = self.cfg.cycle_period_s.max(Scalar { bits: LEAST_STEP_BITS });
        let swing_duration = ar.times(period, ar.minus(one(), duty));
        let height = effective_swing_height(ar, self.cfg.swing_height_m, &self.cmd);
        let ramps = self.legged_control_parity && self.cfg.transition_enforce_constraint
            && zero().lt(self.cfg.transition_fraction);
        let mut k: usize = 0;
        while k < n
            invariant
                k <= n,
                r.stance@.len() == k,
                r.sub@.len() == k,
                r.vz@.len() == k,
                r.f_max@.len() == k,
                ramps == self.ramps_bound(),
                deterministic(ar) ==> height == swing_height(ar, self.cfg.swing_height_m, self.cmd),
                deterministic(ar) ==> swing_duration == self.timing_swing(ar),
                forall|i: int| 0 <= i < k && self.cmd.is_still() ==> #[trigger] r.stance@[i],
                k > 0 && !self.cmd.is_still() ==> r.stance@[0] == now.is_stance,
                forall|i: int|
                    0 <= i < k && (!r.stance@[i] || !self.ramps_bound())
                        ==> #[trigger] r.f_max@[i] == infinity(),
                deterministic(ar) ==> forall|i: int|
                    0 <= i < k ==> #[trigger] r.stance@[i] == self.planned(ar, cycle_phase, leg, now, i).stance,
                deterministic(ar) ==> forall|i: int|
                    0 <= i < k ==> #[trigger] r.sub@[i] == self.planned(ar, cycle_phase, leg, now, i).sub,
                deterministic(ar) ==> forall|i: int|
                    0 <= i < k ==> #[trigger] r.f_max@[i] == self.planned_bound(
                        ar,
                        self.planned(ar, cycle_phase, leg, now, i),
                    ),
                deterministic(ar) && steady(model) ==> forall|i: int|
                    0 <= i < k ==> #[trigger] r.vz@[i] == self.planned_vz(
                        ar,
                        model,
                        self.planned(ar, cycle_phase, leg, now, i),
                    ),
            decreases n - k,
        {
            let p = self.planned_phase(ar, cycle_phase, leg, now, k);
            let vz = if p.swing && self.legged_control_parity {
                model.vertical_velocity(height, p.sub, swing_duration)
            } else {
                zero()
            };
            let bound = if p.stance && ramps {
                let most = self.full_centroidal_mpc.cfg.max_normal_force.max(zero());
                ar.times(most, stance_weight_at(ar, p.sub, self.cfg.transition_fraction))
            } else {
                infinity()
            };
            r.stance.push(p.stance);
            r.sub.push(p.sub);
            r.vz.push(vz);
            r.f_max.push(bound);
            k += 1;
        }
        r
    }

    /// Velocity error in the body frame.
    pub open spec fn velocity_error<A: Arithmetic>(self, ar: &A) -> Vec3 {
        vec_difference(
            ar,
            to_body(ar, self.v_observed_world, self.body_state.world_yaw),
            Vec3 { x: self.cmd.vx, y: self.cmd.vy, z: zero() },
        )
    }

    /// Velocity error in the body frame.
    pub fn velocity_error_now<A: Arithmetic>(&self, ar: &A) -> (r: Vec3)
        ensures
            deterministic(ar) ==> r == self.velocity_error(ar),
    {
        let v = world_to_body_horizontal(ar, self.v_observed_world, self.body_state.world_yaw);
        vec_minus(ar, v, Vec3::new(self.cmd.vx, self.cmd.vy, zero()))
    }

    /// Foothold targets of a leg: its planned touch-down at the first landing of
    /// the horizon when footsteps are optimised, none elsewhere.
    pub fn plan_target<A: Arithmetic, S: LegModel>(
        &self,
        ar: &A,
        model: &S,
        leg: LegId,
        v_err: Vec3,
        stance: &Vec<bool>,
    ) -> (r: Vec<Option<FootTarget>>)
        requires
            self.prediction_ready(),
        ensures
            r@.len() == stance@.len(),
            forall|k: int|
                0 <= k < stance@.len() ==> ((#[trigger] r@[k]) is Some <==> (
                self.cfg.mpc_optimized_footstep && !self.cmd.is_still() && lands_first(
                    stance@,
                    k,
                ))),
            deterministic(ar) && steady(model) ==> forall|k: int|
                0 <= k < stance@.len() && (#[trigger] r@[k]) is Some ==> {
                    let td = self.landing(ar, model, self.kin.of(leg), v_err);
                    r@[k]->0 == (FootTarget::BodyOffset { x: td.x, y: td.y })
                },
    {
        let n: usize = stance.len();
        let mut r: Vec<Option<FootTarget>> = vec![None; n];
        if self.cfg.mpc_optimized_footstep && !self.cmd.is_zero() {
            match first_touchdown(stance) {
                None => {},
                Some(k) => {
                    let step = self.compute_mpc_footstep(ar, model, self.kin.leg(leg), v_err);
                    let td = step.touch_down;
                    r[k] = Some(FootTarget::BodyOffset { x: td.x, y: td.y });
                    proof {
                        assert forall|i: int| 0 <= i < n && lands_first(stance@, i) implies i
                            == k by {
                            first_touchdown_is_unique(stance@, i, k as int);
                        }
                    }
                },
            }
        }
        r
    }
}

} // verus!
