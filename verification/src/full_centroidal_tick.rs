//! The control tick of the full-centroidal controller.

use vstd::prelude::*;
use crate::arith::{
    deterministic, difference, product, quotient, sum, Arithmetic,
};
use crate::body_state::followed;
use crate::closed_loop::{to_body, world_to_body_horizontal};
use crate::config::{slot_of, LegId, VelocityCmd, HALF_BITS};
use crate::controller::{
    covers_legs, effective_swing_height, find_phase, foot_target, leg_output, make_leg_output,
    phase_of, steady, swing_height, ControllerOutput, LegModel, LegOutput, PhaseState,
};
use crate::footstep::Footstep;
use crate::full_centroidal_controller::FullCentroidalMpcGaitController;
use crate::full_centroidal_mpc::{
    caches, is_solution, solves_horizon, FullCentroidalContactSchedule, FullCentroidalInput,
    FullCentroidalMpcSolution, FullCentroidalReference, FullCentroidalState,
};
use crate::full_centroidal_problem::FullCentroidalProblem;
use crate::goal::{goal_command, velocity_cmd_for_goal};
use crate::mpc_solution::{MpcSolution, SrbdState};
use crate::scalar::{one, zero, Scalar, Vec3};

verus! {

/// Bits of the time constant of the speed filter (0.15 s).
pub const SPEED_TAU_BITS: u64 = 0x3FC3_3333_3333_3333;

/// A value drawn toward `x` over a time `dt` with time constant `tau`.
pub open spec fn smoothed<A: Arithmetic>(
    ar: &A,
    value: Scalar,
    x: Scalar,
    dt: Scalar,
    tau: Scalar,
) -> Scalar {
    let alpha = quotient(ar, dt, sum(ar, tau, dt)).clamp_spec(zero(), one());
    sum(ar, value, product(ar, alpha, difference(ar, x, value)))
}

fn smooth<A: Arithmetic>(ar: &A, value: Scalar, x: Scalar, dt: Scalar, tau: Scalar) -> (r: Scalar)
    ensures
        deterministic(ar) ==> r == smoothed(ar, value, x, dt, tau),
{
    let alpha = ar.over(dt, ar.plus(tau, dt)).clamp(zero(), one());
    ar.plus(value, ar.times(alpha, ar.minus(x, value)))
}

/// A pair of footholds made symmetric about the middle plane: mean x and z, and
/// opposite y of half their distance.
pub open spec fn mirrored_left<A: Arithmetic>(ar: &A, l: Vec3, r: Vec3) -> Vec3 {
    let half = Scalar { bits: HALF_BITS };
    Vec3 {
        x: product(ar, half, sum(ar, l.x, r.x)),
        y: product(ar, half, difference(ar, l.y, r.y)),
        z: product(ar, half, sum(ar, l.z, r.z)),
    }
}

/// The right foothold of a symmetric pair.
pub open spec fn mirrored_right<A: Arithmetic>(ar: &A, l: Vec3, r: Vec3) -> Vec3 {
    let m = mirrored_left(ar, l, r);
    Vec3 { y: m.y.neg_spec(), ..m }
}

/// Four locks with each pair whose feet are both locked made symmetric.
pub open spec fn symmetric<A: Arithmetic>(ar: &A, l: Seq<Option<Vec3>>) -> Seq<Option<Vec3>> {
    seq![
        pair_left(ar, l[0], l[1]),
        pair_right(ar, l[0], l[1]),
        pair_left(ar, l[2], l[3]),
        pair_right(ar, l[2], l[3]),
    ]
}

/// The left lock of a pair after symmetrizing.
pub open spec fn pair_left<A: Arithmetic>(ar: &A, l: Option<Vec3>, r: Option<Vec3>) -> Option<
    Vec3,
> {
    if l is Some && r is Some {
        Some(mirrored_left(ar, l->0, r->0))
    } else {
        l
    }
}

/// The right lock of a pair after symmetrizing.
pub open spec fn pair_right<A: Arithmetic>(ar: &A, l: Option<Vec3>, r: Option<Vec3>) -> Option<
    Vec3,
> {
    if l is Some && r is Some {
        Some(mirrored_right(ar, l->0, r->0))
    } else {
        r
    }
}

/// Makes a pair of locked footholds symmetric when both are locked.
pub fn symmetrize<A: Arithmetic>(ar: &A, left: Option<Vec3>, right: Option<Vec3>) -> (r: (
    Option<Vec3>,
    Option<Vec3>,
))
    ensures
        left is None || right is None ==> r == (left, right),
        left is Some && right is Some ==> r.0 is Some && r.1 is Some && r.1->0.x == r.0->0.x
            && r.1->0.z == r.0->0.z && r.1->0.y == r.0->0.y.neg_spec(),
        deterministic(ar) ==> r.0 == pair_left(ar, left, right) && r.1 == pair_right(
            ar,
            left,
            right,
        ),
{
    match (left, right) {
        (Some(l), Some(r)) => {
            let half = Scalar { bits: HALF_BITS };
            let x = ar.times(half, ar.plus(l.x, r.x));
            let z = ar.times(half, ar.plus(l.z, r.z));
            let a = ar.times(half, ar.minus(l.y, r.y));
            (Some(Vec3::new(x, a, z)), Some(Vec3::new(x, a.neg(), z)))
        },
        _ => (left, right),
    }
}

/// `r` is `sol` in the shared shape.
#[verifier::opaque]
pub open spec fn is_compat(sol: FullCentroidalMpcSolution, r: MpcSolution) -> bool {
    &&& r.grfs_first_step == sol.first_input.grfs_world
    &&& r.grfs_all_steps@ == sol.inputs_all_steps@.map_values(
        |u: FullCentroidalInput| u.grfs_world,
    )
    &&& r.predicted_body_states@ == sol.predicted_states@.map_values(
        |s: FullCentroidalState| body_of(s),
    )
    &&& r.objective == sol.objective
    &&& r.solved == sol.solved
}

/// The body part of a state in the shared shape.
pub open spec fn body_of(s: FullCentroidalState) -> SrbdState {
    SrbdState {
        orientation_rpy: s.base_euler_zyx,
        position: s.base_pos_world,
        angular_velocity: s.angular_velocity_world,
        linear_velocity: s.v_com_world,
    }
}

/// A solution in the shared shape.
pub fn to_compat_mpc_solution_full(sol: &FullCentroidalMpcSolution) -> (r: MpcSolution)
    ensures
        is_compat(*sol, r),
{
    reveal(is_compat);
    let mut states: Vec<SrbdState> = Vec::new();
    let ghost goal = sol.predicted_states@.map_values(|s: FullCentroidalState| body_of(s));
    let mut i: usize = 0;
    while i < sol.predicted_states.len()
        invariant
            i <= sol.predicted_states@.len(),
            goal == sol.predicted_states@.map_values(|s: FullCentroidalState| body_of(s)),
            states@ == goal.subrange(0, i as int),
        decreases sol.predicted_states@.len() - i,
    {
        let s = &sol.predicted_states[i];
        states.push(
            SrbdState {
                orientation_rpy: s.base_euler_zyx,
                position: s.base_pos_world,
                angular_velocity: s.angular_velocity_world,
                linear_velocity: s.v_com_world,
            },
        );
        i += 1;
        assert(states@ =~= goal.subrange(0, i as int));
    }
    assert(states@ =~= goal);
    let mut forces: Vec<[Vec3; 4]> = Vec::new();
    let ghost force_goal = sol.inputs_all_steps@.map_values(|u: FullCentroidalInput| u.grfs_world);
    let mut k: usize = 0;
    while k < sol.inputs_all_steps.len()
        invariant
            k <= sol.inputs_all_steps@.len(),
            force_goal == sol.inputs_all_steps@.map_values(|u: FullCentroidalInput| u.grfs_world),
            forces@ == force_goal.subrange(0, k as int),
        decreases sol.inputs_all_steps@.len() - k,
    {
        forces.push(sol.inputs_all_steps[k].grfs_world);
        k += 1;
        assert(forces@ =~= force_goal.subrange(0, k as int));
    }
    assert(forces@ =~= force_goal);
    MpcSolution {
        grfs_first_step: sol.first_input.grfs_world,
        grfs_all_steps: forces,
        predicted_body_states: states,
        objective: sol.objective,
        solved: sol.solved,
    }
}

impl FullCentroidalMpcGaitController {
    /// With a goal, derives the command from it and the present pose. Comes
    /// before the phases advance.
    #[verifier::spinoff_prover]
    pub fn refresh_command<A: Arithmetic>(&mut self, ar: &A)
        ensures
            old(self).predictions_agree() ==> final(self).predictions_agree(),
            *final(self) == (FullCentroidalMpcGaitController { cmd: final(self).cmd, ..*old(self) }),
            old(self).goal_pose is None ==> final(self).cmd == old(self).cmd,
            old(self).goal_pose is Some && deterministic(ar) ==> final(self).cmd == goal_command(
                ar,
                old(self).goal_pose->0,
                old(self).body_state.world_position,
                old(self).body_state.world_yaw,
            ),
    {
        match self.goal_pose {
            Some(goal) => {
                self.cmd = velocity_cmd_for_goal(
                    ar,
                    goal,
                    self.body_state.world_position,
                    self.body_state.world_yaw,
                );
            },
            None => {},
        }
    }

    /// Whether a pitch placement gain is set.
    pub open spec fn shifts_for_pitch(self) -> bool {
        !self.bound_pitch_placement_gain.eq_spec_value(zero())
            || !self.bound_pitch_rate_placement_gain.eq_spec_value(zero())
    }

    /// Foothold shift before the drift blocker: the deviation of pitch and pitch
    /// rate from the trim, or from level without one, times the gains.
    pub open spec fn raw_shift<A: Arithmetic>(self, ar: &A, cycle_phase: Scalar) -> Scalar {
        let trim = self.trim_at(ar, cycle_phase);
        let pitch = match trim {
            Some(s) => s.pitch,
            None => zero(),
        };
        let rate = match trim {
            Some(s) => s.pitch_rate,
            None => zero(),
        };
        sum(
            ar,
            product(
                ar,
                self.bound_pitch_placement_gain,
                difference(ar, self.pitch_observed, pitch),
            ),
            product(
                ar,
                self.bound_pitch_rate_placement_gain,
                difference(ar, self.omega_observed_world.y, rate),
            ),
        )
    }

    /// Slow part of the foothold shift after a tick.
    pub open spec fn slow_shift<A: Arithmetic>(
        self,
        ar: &A,
        cycle_phase: Scalar,
        dt: Scalar,
    ) -> Scalar {
        if !self.shifts_for_pitch() {
            zero()
        } else if zero().lt_spec(self.bound_pitch_placement_dc_tau) {
            smoothed(
                ar,
                self.pitch_placement_shift_dc,
                self.raw_shift(ar, cycle_phase),
                dt,
                self.bound_pitch_placement_dc_tau,
            )
        } else {
            self.pitch_placement_shift_dc
        }
    }

    /// Foothold shift after a tick: none without a gain; the raw shift, less its
    /// slow part when the drift blocker is on.
    pub open spec fn fast_shift<A: Arithmetic>(
        self,
        ar: &A,
        cycle_phase: Scalar,
        dt: Scalar,
    ) -> Scalar {
        if !self.shifts_for_pitch() {
            zero()
        } else if zero().lt_spec(self.bound_pitch_placement_dc_tau) {
            difference(
                ar,
                self.raw_shift(ar, cycle_phase),
                self.slow_shift(ar, cycle_phase, dt),
            )
        } else {
            self.raw_shift(ar, cycle_phase)
        }
    }

    #[verifier::spinoff_prover]
    fn update_pitch_shift<A: Arithmetic>(&mut self, ar: &A, cycle_phase: Scalar, dt: Scalar)
        requires
            old(self).trim_is_valid(ar),
        ensures
            *final(self) == (FullCentroidalMpcGaitController {
                pitch_placement_shift: final(self).pitch_placement_shift,
                pitch_placement_shift_dc: final(self).pitch_placement_shift_dc,
                ..*old(self)
            }),
            !old(self).shifts_for_pitch() ==> final(self).pitch_placement_shift == zero() && final(
                self).pitch_placement_shift_dc == zero(),
            deterministic(ar) ==> final(self).pitch_placement_shift == old(self).fast_shift(
                ar,
                cycle_phase,
                dt,
            ) && final(self).pitch_placement_shift_dc == old(self).slow_shift(ar, cycle_phase, dt),
    {
        if !self.bound_pitch_placement_gain.eq_value(zero())
            || !self.bound_pitch_rate_placement_gain.eq_value(zero()) {
            let mut pitch = zero();
            let mut rate = zero();
            match self.sample_trim(ar, cycle_phase) {
                Some(s) => {
                    pitch = s.pitch;
                    rate = s.pitch_rate;
                },
                None => {},
            }
            let pitch_err = ar.minus(self.pitch_observed, pitch);
            let rate_err = ar.minus(self.omega_observed_world.y, rate);
            let raw = ar.plus(
                ar.times(self.bound_pitch_placement_gain, pitch_err),
                ar.times(self.bound_pitch_rate_placement_gain, rate_err),
            );
            if zero().lt(self.bound_pitch_placement_dc_tau) {
                let dc = smooth(
                    ar,
                    self.pitch_placement_shift_dc,
                    raw,
                    dt,
                    self.bound_pitch_placement_dc_tau,
                );
                self.pitch_placement_shift_dc = dc;
                self.pitch_placement_shift = ar.minus(raw, dc);
            } else {
                self.pitch_placement_shift = raw;
            }
        } else {
            self.pitch_placement_shift = zero();
            self.pitch_placement_shift_dc = zero();
        }
    }

    /// The touch-down locked for a leg given its phase: taken from the prediction
    /// as the swing begins, kept through the swing, dropped in stance.
    pub open spec fn lock_of<A: Arithmetic>(self, ar: &A, leg: LegId, is_stance: bool) -> Option<Vec3> {
        if is_stance {
            None
        } else if self.prev_leg_is_stance@[leg.slot()] {
            self.swing_target(ar, leg, zero(), self.swing_time(ar))
        } else {
            self.swing_locked_touch_down_body@[leg.slot()]
        }
    }

    fn lock<A: Arithmetic>(&self, ar: &A, leg: LegId, is_stance: bool) -> (r: Option<Vec3>)
        requires
            self.prediction_ready(),
        ensures
            is_stance ==> r is None,
            !is_stance && !self.prev_leg_is_stance@[leg.slot()] ==> r
                == self.swing_locked_touch_down_body@[leg.slot()],
            deterministic(ar) ==> r == self.lock_of(ar, leg, is_stance),
    {
        if is_stance {
            None
        } else if self.prev_leg_is_stance[slot_of(leg)] {
            let swing_duration = ar.times(
                self.cfg.cycle_period_s,
                ar.minus(one(), self.cfg.duty_factor),
            );
            self.mpc_predicted_swing_target_body(ar, leg, zero(), swing_duration)
        } else {
            self.swing_locked_touch_down_body[slot_of(leg)]
        }
    }

    /// The locks as the legs enter their phases, before any symmetrizing.
    pub open spec fn own_locks<A: Arithmetic>(self, ar: &A, phases: Seq<PhaseState>) -> Seq<
        Option<Vec3>,
    > {
        Seq::new(
            4,
            |slot: int|
                self.lock_of(
                    ar,
                    LegId::at_slot(slot),
                    phase_of(phases, LegId::at_slot(slot)).is_stance,
                ),
        )
    }

    /// The locks after the legs have entered their phases: the own ones, made
    /// symmetric by pairs when asked for; unchanged without optimised footsteps.
    pub open spec fn locks_after<A: Arithmetic>(self, ar: &A, phases: Seq<PhaseState>) -> Seq<
        Option<Vec3>,
    > {
        if !self.cfg.mpc_optimized_footstep {
            self.swing_locked_touch_down_body@
        } else if self.shaping.symmetric_foothold {
            symmetric(ar, self.own_locks(ar, phases))
        } else {
            self.own_locks(ar, phases)
        }
    }

    fn locks_now<A: Arithmetic>(&self, ar: &A, phases: &[PhaseState; 4]) -> (r: [Option<Vec3>; 4])
        requires
            self.prediction_ready(),
            covers_legs(phases@),
        ensures
            forall|slot: int|
                0 <= slot < 4 && phase_of(phases@, LegId::at_slot(slot)).is_stance
                    ==> #[trigger] r@[slot] is None,
            deterministic(ar) ==> r@ == self.own_locks(ar, phases@),
    {
        let fl = self.lock(ar, LegId::FL, find_phase(phases, LegId::FL).is_stance);
        let fr = self.lock(ar, LegId::FR, find_phase(phases, LegId::FR).is_stance);
        let rl = self.lock(ar, LegId::RL, find_phase(phases, LegId::RL).is_stance);
        let rr = self.lock(ar, LegId::RR, find_phase(phases, LegId::RR).is_stance);
        [fl, fr, rl, rr]
    }

    #[verifier::spinoff_prover]
    fn update_locks<A: Arithmetic>(&mut self, ar: &A, phases: &[PhaseState; 4])
        requires
            old(self).prediction_ready(),
            covers_legs(phases@),
        ensures
            *final(self) == (FullCentroidalMpcGaitController {
                swing_locked_touch_down_body: final(self).swing_locked_touch_down_body,
                ..*old(self)
            }),
            !old(self).cfg.mpc_optimized_footstep ==> final(self).swing_locked_touch_down_body
                == old(self).swing_locked_touch_down_body,
            old(self).cfg.mpc_optimized_footstep ==> forall|slot: int|
                0 <= slot < 4 && phase_of(phases@, LegId::at_slot(slot)).is_stance
                    ==> #[trigger] final(self).swing_locked_touch_down_body@[slot] is None,
            deterministic(ar) ==> final(self).swing_locked_touch_down_body@ == old(
                self).locks_after(ar, phases@),
    {
        if self.cfg.mpc_optimized_footstep {
            let own = self.locks_now(ar, phases);
            if self.shaping.symmetric_foothold {
                let front = symmetrize(ar, own[0], own[1]);
                let rear = symmetrize(ar, own[2], own[3]);
                let locks = [front.0, front.1, rear.0, rear.1];
                assert(deterministic(ar) ==> locks@ =~= symmetric(ar, own@));
                self.swing_locked_touch_down_body = locks;
            } else {
                self.swing_locked_touch_down_body = own;
            }
        }
    }

    /// The step a leg follows: the planned one, landing at the locked touch-down
    /// in a swing with optimised footsteps.
    pub open spec fn followed_step<A: Arithmetic, S: LegModel>(
        self,
        ar: &A,
        model: &S,
        leg: LegId,
        is_stance: bool,
    ) -> Footstep {
        let step = self.step_of(ar, model, self.kin.of(leg), self.velocity_error(ar));
        match self.swing_locked_touch_down_body@[leg.slot()] {
            Some(td) => if self.cfg.mpc_optimized_footstep && !is_stance {
                Footstep { touch_down: td, ..step }
            } else {
                step
            },
            None => step,
        }
    }

    #[verifier::spinoff_prover]
    fn leg_tick<A: Arithmetic, S: LegModel>(
        &self,
        ar: &A,
        model: &S,
        phases: &[PhaseState; 4],
        v_err: Vec3,
        leg: LegId,
    ) -> (r: LegOutput)
        requires
            covers_legs(phases@),
            self.prediction_ready(),
            deterministic(ar) ==> v_err == self.velocity_error(ar),
        ensures
            r.leg == leg,
            r.phase == phase_of(phases@, leg),
            self.cfg.mpc_optimized_footstep && !r.phase.is_stance
                && self.swing_locked_touch_down_body@[leg.slot()] is Some
                ==> r.footstep.touch_down == self.swing_locked_touch_down_body@[leg.slot()]->0,
            deterministic(ar) && steady(model) ==> r == leg_output(
                ar,
                self.kin.of(leg),
                self.knee_forward@[leg.slot()],
                self.followed_step(ar, model, leg, phase_of(phases@, leg).is_stance),
                foot_target(
                    ar,
                    model,
                    self.followed_step(ar, model, leg, phase_of(phases@, leg).is_stance),
                    swing_height(ar, self.cfg.swing_height_m, self.cmd),
                    phase_of(phases@, leg),
                ),
                phase_of(phases@, leg),
            ),
    {
        let kin = self.kin.leg(leg);
        let mut step = self.compute_mpc_footstep(ar, model, kin, v_err);
        let phase = find_phase(phases, leg);
        if self.cfg.mpc_optimized_footstep && !phase.is_stance {
            match self.swing_locked_touch_down_body[slot_of(leg)] {
                Some(td) => {
                    step.touch_down = td;
                },
                None => {},
            }
        }
        let height = effective_swing_height(ar, self.cfg.swing_height_m, &self.cmd);
        make_leg_output(ar, model, kin, self.knee_forward[slot_of(leg)], step, height, phase)
    }

    /// The controller after the first part of a tick: the pose has followed the
    /// command, the speed filter and the pitch shift have moved on, the locks
    /// have been taken.
    pub open spec fn is_prepared<A: Arithmetic>(
        self,
        ar: &A,
        phases: Seq<PhaseState>,
        cycle_phase: Scalar,
        dt: Scalar,
        c: FullCentroidalMpcGaitController,
    ) -> bool {
        &&& c == (FullCentroidalMpcGaitController {
            body_state: c.body_state,
            v_fore_aft_filtered: c.v_fore_aft_filtered,
            pitch_placement_shift: c.pitch_placement_shift,
            pitch_placement_shift_dc: c.pitch_placement_shift_dc,
            swing_locked_touch_down_body: c.swing_locked_touch_down_body,
            ..self
        })
        &&& !self.shifts_for_pitch() ==> c.pitch_placement_shift == zero()
        &&& !self.cfg.mpc_optimized_footstep ==> c.swing_locked_touch_down_body
            == self.swing_locked_touch_down_body
        &&& self.cfg.mpc_optimized_footstep ==> forall|slot: int|
            0 <= slot < 4 && phase_of(phases, LegId::at_slot(slot)).is_stance
                ==> #[trigger] c.swing_locked_touch_down_body@[slot] is None
        &&& deterministic(ar) ==> {
            &&& c.body_state == followed(ar, self.body_state, self.cmd, dt)
            &&& c.v_fore_aft_filtered == smoothed(
                ar,
                self.v_fore_aft_filtered,
                to_body(ar, self.v_observed_world, c.body_state.world_yaw).x,
                dt,
                Scalar { bits: SPEED_TAU_BITS },
            )
            &&& c.pitch_placement_shift == self.fast_shift(ar, cycle_phase, dt)
            &&& c.pitch_placement_shift_dc == self.slow_shift(ar, cycle_phase, dt)
            &&& c.swing_locked_touch_down_body@ == (FullCentroidalMpcGaitController {
                swing_locked_touch_down_body: self.swing_locked_touch_down_body,
                ..c
            }).locks_after(ar, phases)
        }
    }

    #[verifier::spinoff_prover]
    fn prepare<A: Arithmetic>(
        &mut self,
        ar: &A,
        phases: &[PhaseState; 4],
        cycle_phase: Scalar,
        dt: Scalar,
    )
        requires
            covers_legs(phases@),
            old(self).prediction_ready(),
            old(self).trim_is_valid(ar),
        ensures
            old(self).is_prepared(ar, phases@, cycle_phase, dt, *final(self)),
    {
        let cmd = self.cmd;
        self.body_state.integrate(ar, &cmd, dt);
        let v_obs = world_to_body_horizontal(
            ar,
            self.v_observed_world,
            self.body_state.world_yaw,
        );
        self.v_fore_aft_filtered = smooth(
            ar,
            self.v_fore_aft_filtered,
            v_obs.x,
            dt,
            Scalar { bits: SPEED_TAU_BITS },
        );
        self.update_pitch_shift(ar, cycle_phase, dt);
        self.update_locks(ar, phases);
    }

    /// The outputs of the legs from a prepared controller.
    pub open spec fn outputs_of<A: Arithmetic, S: LegModel>(
        self,
        ar: &A,
        model: &S,
        phases: Seq<PhaseState>,
        out: ControllerOutput,
    ) -> bool {
        &&& out.body_state == self.body_state
        &&& forall|slot: int|
            0 <= slot < 4 ==> (#[trigger] out.legs@[slot]).leg == LegId::at_slot(slot)
                && out.legs@[slot].phase == phase_of(phases, LegId::at_slot(slot))
        &&& forall|slot: int|
            0 <= slot < 4 && self.cfg.mpc_optimized_footstep && !(
            #[trigger] out.legs@[slot]).phase.is_stance
                && self.swing_locked_touch_down_body@[slot] is Some
                ==> out.legs@[slot].footstep.touch_down
                == self.swing_locked_touch_down_body@[slot]->0
        &&& deterministic(ar) && steady(model) ==> forall|slot: int|
            0 <= slot < 4 ==> #[trigger] out.legs@[slot] == ({
                let leg = LegId::at_slot(slot);
                let phase = phase_of(phases, leg);
                let step = self.followed_step(ar, model, leg, phase.is_stance);
                let height = swing_height(ar, self.cfg.swing_height_m, self.cmd);
                leg_output(
                    ar,
                    self.kin.of(leg),
                    self.knee_forward@[slot],
                    step,
                    foot_target(ar, model, step, height, phase),
                    phase,
                )
            })
    }

    #[verifier::spinoff_prover]
    fn legs_now<A: Arithmetic, S: LegModel>(&self, ar: &A, model: &S, phases: &[PhaseState; 4]) -> (r:
        ControllerOutput)
        requires
            covers_legs(phases@),
            self.prediction_ready(),
        ensures
            self.outputs_of(ar, model, phases@, r),
    {
        let v_err = self.velocity_error_now(ar);
        let fl = self.leg_tick(ar, model, phases, v_err, LegId::FL);
        let fr = self.leg_tick(ar, model, phases, v_err, LegId::FR);
        let rl = self.leg_tick(ar, model, phases, v_err, LegId::RL);
        let rr = self.leg_tick(ar, model, phases, v_err, LegId::RR);
        ControllerOutput { legs: [fl, fr, rl, rr], body_state: self.body_state }
    }

    #[verifier::spinoff_prover]
    fn adopt(&mut self, sol: FullCentroidalMpcSolution)
        ensures
            *final(self) == (FullCentroidalMpcGaitController {
                last_solution: Some(sol),
                last_solution_compat: final(self).last_solution_compat,
                ..*old(self)
            }),
            final(self).last_solution_compat is Some,
            is_compat(sol, final(self).last_solution_compat->0),
    {
        self.last_solution_compat = Some(to_compat_mpc_solution_full(&sol));
        self.last_solution = Some(sol);
    }
}

/// Whether each leg is in stance, in slot order.
pub open spec fn stances(phases: Seq<PhaseState>) -> Seq<bool> {
    Seq::new(4, |slot: int| phase_of(phases, LegId::at_slot(slot)).is_stance)
}

fn stances_now(phases: &[PhaseState; 4]) -> (r: [bool; 4])
    requires
        covers_legs(phases@),
    ensures
        r@ == stances(phases@),
{
    [
        find_phase(phases, LegId::FL).is_stance,
        find_phase(phases, LegId::FR).is_stance,
        find_phase(phases, LegId::RL).is_stance,
        find_phase(phases, LegId::RR).is_stance,
    ]
}

/// What a tick hands back.
#[derive(Debug)]
pub struct FullCentroidalTick {
    /// Leg targets and pose.
    pub output: ControllerOutput,
    /// Problem to solve in the background, if one is due.
    pub submit: Option<FullCentroidalProblem>,
}

impl FullCentroidalMpcGaitController {
    /// `c` with its solve-related parts as in `self`: the controller between
    /// placing the feet and solving.
    pub open spec fn unsolved(self, c: FullCentroidalMpcGaitController) -> FullCentroidalMpcGaitController {
        FullCentroidalMpcGaitController {
            full_centroidal_mpc: self.full_centroidal_mpc,
            last_solution: self.last_solution,
            last_solution_compat: self.last_solution_compat,
            mpc_solve_accumulator_s: self.mpc_solve_accumulator_s,
            prev_leg_is_stance: self.prev_leg_is_stance,
            ..c
        }
    }

    /// `c` has taken over a solution that finished in the background, if any,
    /// and remembers the stance of the legs; nothing else moved.
    pub open spec fn has_adopted(
        self,
        phases: Seq<PhaseState>,
        finished: Option<FullCentroidalMpcSolution>,
        c: FullCentroidalMpcGaitController,
    ) -> bool {
        &&& c == (FullCentroidalMpcGaitController {
            last_solution: c.last_solution,
            last_solution_compat: c.last_solution_compat,
            prev_leg_is_stance: c.prev_leg_is_stance,
            ..self
        })
        &&& c.prev_leg_is_stance@ == stances(phases)
        &&& finished is None ==> c.last_solution == self.last_solution && c.last_solution_compat
            == self.last_solution_compat
        &&& finished is Some ==> c.last_solution == finished && c.last_solution_compat is Some
            && is_compat(finished->0, c.last_solution_compat->0)
    }

    /// `p` is the problem the controller poses for an output.
    pub open spec fn asks<A: Arithmetic, S: LegModel>(
        self,
        ar: &A,
        model: &S,
        out: ControllerOutput,
        cycle_phase: Scalar,
        p: FullCentroidalProblem,
    ) -> bool {
        exists|subs: Seq<Seq<Scalar>>| #[trigger]
            self.poses(ar, model, out, cycle_phase, subs, p)
    }

    /// `c` has solved the problem it poses and restarted the clock.
    pub open spec fn has_solved<
        A: Arithmetic,
        S: LegModel,
        F: Fn(
            &FullCentroidalState,
            &FullCentroidalReference,
            &FullCentroidalContactSchedule,
        ) -> FullCentroidalMpcSolution,
    >(
        self,
        ar: &A,
        model: &S,
        out: ControllerOutput,
        cycle_phase: Scalar,
        one_iter: F,
        c: FullCentroidalMpcGaitController,
    ) -> bool {
        &&& c == (FullCentroidalMpcGaitController {
            full_centroidal_mpc: c.full_centroidal_mpc,
            last_solution: c.last_solution,
            last_solution_compat: c.last_solution_compat,
            mpc_solve_accumulator_s: zero(),
            ..self
        })
        &&& c.last_solution is Some
        &&& c.last_solution->0.spans(self.full_centroidal_mpc.cfg.horizon_steps as int)
        &&& c.last_solution_compat is Some
        &&& is_compat(c.last_solution->0, c.last_solution_compat->0)
        &&& caches(self.full_centroidal_mpc, c.last_solution->0, c.full_centroidal_mpc)
        &&& exists|p: FullCentroidalProblem|
            {
                &&& #[trigger] self.asks(ar, model, out, cycle_phase, p)
                &&& is_solution(
                    one_iter,
                    self.full_centroidal_mpc,
                    p.state_now,
                    p.reference,
                    p.contact,
                    c.last_solution->0,
                )
            }
    }

    /// The step from `self`, which has adopted, to `c`: with `waited` since the
    /// last solve, a due solve is done on the spot, or handed out when solving in
    /// the background and nothing is being solved; else the clock runs on.
    pub open spec fn has_scheduled<
        A: Arithmetic,
        S: LegModel,
        F: Fn(
            &FullCentroidalState,
            &FullCentroidalReference,
            &FullCentroidalContactSchedule,
        ) -> FullCentroidalMpcSolution,
    >(
        self,
        ar: &A,
        model: &S,
        cycle_phase: Scalar,
        busy: bool,
        waited: Scalar,
        one_iter: F,
        r: FullCentroidalTick,
        c: FullCentroidalMpcGaitController,
    ) -> bool {
        let due = self.full_centroidal_mpc.cfg.dt_per_step.le_spec(waited);
        let clocked = FullCentroidalMpcGaitController { mpc_solve_accumulator_s: waited, ..self };
        if due && !self.async_mpc {
            &&& r.submit is None
            &&& clocked.has_solved(ar, model, r.output, cycle_phase, one_iter, c)
        } else if due && !busy {
            &&& r.submit is Some
            &&& clocked.asks(ar, model, r.output, cycle_phase, r.submit->0)
            &&& c == (FullCentroidalMpcGaitController { mpc_solve_accumulator_s: zero(), ..self })
        } else {
            &&& r.submit is None
            &&& c == clocked
        }
    }

    #[verifier::spinoff_prover]
    fn take_over(&mut self, phases: &[PhaseState; 4], finished: Option<FullCentroidalMpcSolution>)
        requires
            covers_legs(phases@),
        ensures
            old(self).has_adopted(phases@, finished, *final(self)),
    {
        self.prev_leg_is_stance = stances_now(phases);
        match finished {
            Some(sol) => {
                self.adopt(sol);
            },
            None => {},
        }
    }

    #[verifier::spinoff_prover]
    fn solve_now<
        A: Arithmetic,
        S: LegModel,
        F: Fn(
            &FullCentroidalState,
            &FullCentroidalReference,
            &FullCentroidalContactSchedule,
        ) -> FullCentroidalMpcSolution,
    >(&mut self, ar: &A, model: &S, output: &ControllerOutput, cycle_phase: Scalar, one_iter: F)
        requires
            old(self).prediction_ready(),
            old(self).trim_is_valid(ar),
            old(self).bound_tabulated_reference is Some ==> old(
                self).bound_tabulated_reference->0@.len() > 0,
            solves_horizon(one_iter, old(self).full_centroidal_mpc.cfg.horizon_steps as int),
        ensures
            old(self).has_solved(ar, model, *output, cycle_phase, one_iter, *final(self)),
    {
        let p = self.build_full_centroidal_inputs(ar, model, output, cycle_phase);
        assert(self.asks(ar, model, *output, cycle_phase, p));
        let ghost before = *self;
        let sol = self.full_centroidal_mpc.solve(p.state_now, &p.reference, &p.contact, one_iter);
        self.adopt(sol);
        self.mpc_solve_accumulator_s = zero();
        assert(before.asks(ar, model, *output, cycle_phase, p));
    }

    #[verifier::spinoff_prover]
    fn schedule<
        A: Arithmetic,
        S: LegModel,
        F: Fn(
            &FullCentroidalState,
            &FullCentroidalReference,
            &FullCentroidalContactSchedule,
        ) -> FullCentroidalMpcSolution,
    >(
        &mut self,
        ar: &A,
        model: &S,
        output: ControllerOutput,
        cycle_phase: Scalar,
        busy: bool,
        waited: Scalar,
        one_iter: F,
    ) -> (r: FullCentroidalTick)
        requires
            old(self).prediction_ready(),
            old(self).trim_is_valid(ar),
            old(self).bound_tabulated_reference is Some ==> old(
                self).bound_tabulated_reference->0@.len() > 0,
            solves_horizon(one_iter, old(self).full_centroidal_mpc.cfg.horizon_steps as int),
        ensures
            r.output == output,
            old(self).has_scheduled(
                ar,
                model,
                cycle_phase,
                busy,
                waited,
                one_iter,
                r,
                *final(self),
            ),
    {
        self.mpc_solve_accumulator_s = waited;
        let ghost clocked = *self;
        let mut submit: Option<FullCentroidalProblem> = None;
        if self.full_centroidal_mpc.cfg.dt_per_step.le(waited) {
            if self.async_mpc {
                if !busy {
                    let p = self.build_full_centroidal_inputs(ar, model, &output, cycle_phase);
                    assert(clocked.asks(ar, model, output, cycle_phase, p));
                    submit = Some(p);
                    self.mpc_solve_accumulator_s = zero();
                }
            } else {
                self.solve_now(ar, model, &output, cycle_phase, one_iter);
            }
        }
        FullCentroidalTick { output, submit }
    }

    /// The step from `self` to `c` over a tick of `dt` with the legs in their
    /// phases: the pose follows the command, the feet are placed, a solution that
    /// finished is taken over, and a due solve is done or handed out.
    pub open spec fn has_ticked<
        A: Arithmetic,
        S: LegModel,
        F: Fn(
            &FullCentroidalState,
            &FullCentroidalReference,
            &FullCentroidalContactSchedule,
        ) -> FullCentroidalMpcSolution,
    >(
        self,
        ar: &A,
        model: &S,
        phases: Seq<PhaseState>,
        cycle_phase: Scalar,
        dt: Scalar,
        finished: Option<FullCentroidalMpcSolution>,
        busy: bool,
        one_iter: F,
        r: FullCentroidalTick,
        c: FullCentroidalMpcGaitController,
    ) -> bool {
        let prepared = self.unsolved(c);
        &&& self.is_prepared(ar, phases, cycle_phase, dt, prepared)
        &&& prepared.outputs_of(ar, model, phases, r.output)
        &&& exists|adopted: FullCentroidalMpcGaitController, waited: Scalar|
            {
                &&& #[trigger] prepared.has_adopted(phases, finished, adopted)
                &&& #[trigger] call_ensures(
                    A::plus,
                    (ar, self.mpc_solve_accumulator_s, dt),
                    waited,
                )
                &&& adopted.has_scheduled(
                    ar,
                    model,
                    cycle_phase,
                    busy,
                    waited,
                    one_iter,
                    r,
                    c,
                )
            }
    }

    /// One control tick: follow the command, filter what was observed, place the
    /// feet, take over a solution that `finished` in the background, and solve
    /// the predictive controller when its step has passed since the last solve.
    /// When solving in the background the due problem is handed back instead,
    /// unless one is being solved (`busy`).
    #[verifier::spinoff_prover]
    pub fn tick<
        A: Arithmetic,
        S: LegModel,
        F: Fn(
            &FullCentroidalState,
            &FullCentroidalReference,
            &FullCentroidalContactSchedule,
        ) -> FullCentroidalMpcSolution,
    >(
        &mut self,
        ar: &A,
        model: &S,
        phases: &[PhaseState; 4],
        cycle_phase: Scalar,
        dt: Scalar,
        finished: Option<FullCentroidalMpcSolution>,
        busy: bool,
        one_iter: F,
    ) -> (r: FullCentroidalTick)
        requires
            covers_legs(phases@),
            old(self).prediction_ready(),
            old(self).trim_is_valid(ar),
            old(self).bound_tabulated_reference is Some ==> old(
                self).bound_tabulated_reference->0@.len() > 0,
            finished is Some && finished->0.solved ==> finished->0.predicted_states@.len() > 0,
            solves_horizon(one_iter, old(self).full_centroidal_mpc.cfg.horizon_steps as int),
        ensures
            old(self).predictions_agree() ==> final(self).predictions_agree(),
            old(self).has_ticked(
                ar,
                model,
                phases@,
                cycle_phase,
                dt,
                finished,
                busy,
                one_iter,
                r,
                *final(self),
            ),
    {
        self.prepare(ar, phases, cycle_phase, dt);
        let ghost prepared = *self;
        let output = self.legs_now(ar, model, phases);
        self.take_over(phases, finished);
        let ghost adopted = *self;
        let waited = ar.plus(self.mpc_solve_accumulator_s, dt);
        let r = self.schedule(ar, model, output, cycle_phase, busy, waited, one_iter);
        assert(old(self).unsolved(*self) == prepared);
        assert(prepared.has_adopted(phases@, finished, adopted));
        r
    }
}

impl FullCentroidalMpcGaitController {
    /// The controller under another command.
    pub open spec fn commanded(self, cmd: VelocityCmd) -> FullCentroidalMpcGaitController {
        FullCentroidalMpcGaitController { cmd, ..self }
    }

    /// The command of the next step: derived from the goal and the present pose, or
    /// the present one without a goal.
    pub open spec fn next_command<A: Arithmetic>(self, ar: &A) -> VelocityCmd {
        match self.goal_pose {
            Some(goal) => goal_command(
                ar,
                goal,
                self.body_state.world_position,
                self.body_state.world_yaw,
            ),
            None => self.cmd,
        }
    }

    /// `c` and `r` are the controller and what it hands back after a whole step of
    /// `dt`: the goal is kept and gives the command, the pose has followed that
    /// command, and the tick is made with the phases that `clock` gave for it.
    pub open spec fn has_driven<
        A: Arithmetic,
        S: LegModel,
        P: FnOnce(VelocityCmd, Scalar) -> ([PhaseState; 4], Scalar),
        F: Fn(
            &FullCentroidalState,
            &FullCentroidalReference,
            &FullCentroidalContactSchedule,
        ) -> FullCentroidalMpcSolution,
    >(
        self,
        ar: &A,
        model: &S,
        clock: P,
        dt: Scalar,
        finished: Option<FullCentroidalMpcSolution>,
        busy: bool,
        one_iter: F,
        r: FullCentroidalTick,
        c: FullCentroidalMpcGaitController,
    ) -> bool {
        &&& c.goal_pose == self.goal_pose
        &&& self.goal_pose is None ==> c.cmd == self.cmd
        &&& deterministic(ar) ==> c.cmd == self.next_command(ar)
        &&& r.output.body_state == c.body_state
        &&& deterministic(ar) ==> r.output.body_state == followed(ar, self.body_state, c.cmd, dt)
        &&& exists|phases: [PhaseState; 4], cycle_phase: Scalar|
            {
                &&& #[trigger] call_ensures(clock, (c.cmd, dt), (phases, cycle_phase))
                &&& self.commanded(c.cmd).has_ticked(
                    ar,
                    model,
                    phases@,
                    cycle_phase,
                    dt,
                    finished,
                    busy,
                    one_iter,
                    r,
                    c,
                )
            }
    }

    /// One whole step: derive the command from the goal, if there is one, move
    /// the cycle on under that command, and tick. `clock` moves the cycle on by a
    /// time under a command and gives the phase of each leg and of the cycle.
    #[verifier::spinoff_prover]
    pub fn drive<
        A: Arithmetic,
        S: LegModel,
        P: FnOnce(VelocityCmd, Scalar) -> ([PhaseState; 4], Scalar),
        F: Fn(
            &FullCentroidalState,
            &FullCentroidalReference,
            &FullCentroidalContactSchedule,
        ) -> FullCentroidalMpcSolution,
    >(
        &mut self,
        ar: &A,
        model: &S,
        clock: P,
        dt: Scalar,
        finished: Option<FullCentroidalMpcSolution>,
        busy: bool,
        one_iter: F,
    ) -> (r: FullCentroidalTick)
        requires
            forall|cmd: VelocityCmd| #[trigger] call_requires(clock, (cmd, dt)),
            forall|cmd: VelocityCmd, out: ([PhaseState; 4], Scalar)| #[trigger]
                call_ensures(clock, (cmd, dt), out) ==> covers_legs(out.0@),
            old(self).prediction_ready(),
            old(self).commanded(old(self).next_command(ar)).trim_is_valid(ar),
            old(self).bound_tabulated_reference is Some ==> old(
                self).bound_tabulated_reference->0@.len() > 0,
            finished is Some && finished->0.solved ==> finished->0.predicted_states@.len() > 0,
            solves_horizon(one_iter, old(self).full_centroidal_mpc.cfg.horizon_steps as int),
        ensures
            old(self).predictions_agree() ==> final(self).predictions_agree(),
            old(self).has_driven(
                ar,
                model,
                clock,
                dt,
                finished,
                busy,
                one_iter,
                r,
                *final(self),
            ),
    {
        self.refresh_command(ar);
        let ghost ready = *self;
        assert(ready == old(self).commanded(self.cmd));
        let now = clock(self.cmd, dt);
        let r = self.tick(ar, model, &now.0, now.1, dt, finished, busy, one_iter);
        assert(self.cmd == ready.cmd);
        assert(call_ensures(clock, (self.cmd, dt), (now.0, now.1)));
        r
    }
}

/// A touch-down that was locked as the swing began is kept through the swing and
/// dropped in stance, when footholds are not made symmetric.
pub proof fn a_lock_lasts_through_the_swing<A: Arithmetic>(
    ar: &A,
    c: FullCentroidalMpcGaitController,
    phases: Seq<PhaseState>,
    slot: int,
)
    requires
        0 <= slot < 4,
        c.cfg.mpc_optimized_footstep,
        !c.shaping.symmetric_foothold,
    ensures
        phase_of(phases, LegId::at_slot(slot)).is_stance ==> c.locks_after(ar, phases)[slot] is None,
        !phase_of(phases, LegId::at_slot(slot)).is_stance && !c.prev_leg_is_stance@[slot]
            ==> c.locks_after(ar, phases)[slot] == c.swing_locked_touch_down_body@[slot],
{
}

} // verus!
