//! Footholds of the full-centroidal controller.

use vstd::prelude::*;
use crate::arith::{
    counted, deterministic, difference, nearest, norm, product, quotient, remainder, sum,
    vec_difference, vec_minus, vec_norm, vec_plus, vec_scaled, vec_sum, vec_times, Arithmetic,
};
use crate::centroidal_controller::{commanded_half, correct_half, corrected_half};
use crate::closed_loop::{
    body_to_world_horizontal, horizon_weight, to_body, to_world, world_to_body_horizontal,
};
use crate::config::{slot_of, LegId, LegKinematics, HALF_BITS};
use crate::controller::{capture_shift, steady, LegModel};
use crate::footstep::{hip_velocity_of, Footstep};
use crate::full_centroidal_controller::FullCentroidalMpcGaitController;
use crate::full_centroidal_mpc::FullCentroidalMpcSolution;
use crate::ik::{foot_position, forward_leg_kinematics};
use crate::scalar::{one, zero, Scalar, Vec3};

verus! {

/// Bits of the shortest step time (1e-6 s).
pub const LEAST_STEP_BITS: u64 = 0x3EB0_C6F7_A0B5_ED8D;

/// Bits of the height above which a predicted foot is rejected (-0.05 m).
pub const FOOT_CEILING_BITS: u64 = 0xBFA9_9999_9999_999A;

/// Bits of the shortest span between table rows (1e-9).
pub const LEAST_SPAN_BITS: u64 = 0x3E11_2E0B_E826_D695;

/// A predicted step index within the horizon of a solution.
pub open spec fn within(sol: FullCentroidalMpcSolution, k: usize) -> int {
    if k < sol.predicted_states@.len() {
        k as int
    } else {
        sol.predicted_states@.len() - 1
    }
}

/// Index of the first row whose phase exceeds `ph`, or the number of rows.
pub open spec fn first_above(table: Seq<[Scalar; 6]>, ph: Scalar) -> int
    decreases table.len(),
{
    if table.len() == 0 {
        0
    } else if ph.lt_spec(table[0]@[0]) {
        0
    } else {
        1 + first_above(table.subrange(1, table.len() as int), ph)
    }
}

/// Column `j` of a table interpolated at phase `ph` between the rows around it;
/// before the first row and after the last one the table wraps.
pub open spec fn interpolated<A: Arithmetic>(
    ar: &A,
    table: Seq<[Scalar; 6]>,
    ph: Scalar,
    j: int,
) -> Scalar {
    let n = table.len() as int;
    let hi = first_above(table, ph);
    let last = table[n - 1]@;
    let a = if hi == 0 || hi == n { last } else { table[hi - 1]@ };
    let b = if hi == 0 || hi == n { table[0]@ } else { table[hi]@ };
    let from = if hi == 0 { difference(ar, last[0], one()) } else { a[0] };
    let to = if hi == n && hi != 0 { sum(ar, b[0], one()) } else { b[0] };
    let span = difference(ar, to, from).max_spec(Scalar { bits: LEAST_SPAN_BITS });
    let frac = quotient(ar, difference(ar, ph, from), span).clamp_spec(zero(), one());
    sum(ar, a[j], product(ar, frac, difference(ar, b[j], a[j])))
}

fn find_first_above(table: &Vec<[Scalar; 6]>, ph: Scalar) -> (r: usize)
    ensures
        r == first_above(table@, ph),
        r <= table@.len(),
{
    let mut i: usize = 0;
    assert(table@.subrange(0, table@.len() as int) =~= table@);
    while i < table.len()
        invariant
            i <= table@.len(),
            first_above(table@, ph) == i + first_above(
                table@.subrange(i as int, table@.len() as int),
                ph,
            ),
        ensures
            i == first_above(table@, ph),
            i <= table@.len(),
        decreases table@.len() - i,
    {
        let ghost rest = table@.subrange(i as int, table@.len() as int);
        assert(rest[0] == table@[i as int]);
        if ph.lt(table[i][0]) {
            break;
        }
        assert(rest.subrange(1, rest.len() as int) =~= table@.subrange(
            i + 1,
            table@.len() as int,
        ));
        i += 1;
    }
    i
}

/// Interpolates all value columns of a table.
pub fn sample_table<A: Arithmetic>(ar: &A, table: &Vec<[Scalar; 6]>, phase: Scalar) -> (r: [Scalar; 5])
    requires
        table@.len() > 0,
    ensures
        deterministic(ar) ==> forall|j: int|
            0 <= j < 5 ==> #[trigger] r@[j] == interpolated(
                ar,
                table@,
                remainder(ar, phase, one()),
                j + 1,
            ),
{
    let ph = ar.wrap(phase, one());
    let n: usize = table.len();
    let hi: usize = find_first_above(table, ph);
    let wraps = hi == 0 || hi == n;
    let a = if wraps { table[n - 1] } else { table[hi - 1] };
    let b = if wraps { table[0] } else { table[hi] };
    let from = if hi == 0 { ar.minus(a[0], one()) } else { a[0] };
    let to = if hi == n && hi != 0 { ar.plus(b[0], one()) } else { b[0] };
    let span = ar.minus(to, from).max(Scalar { bits: LEAST_SPAN_BITS });
    let frac = ar.over(ar.minus(ph, from), span).clamp(zero(), one());
    let z = ar.plus(a[1], ar.times(frac, ar.minus(b[1], a[1])));
    let pitch = ar.plus(a[2], ar.times(frac, ar.minus(b[2], a[2])));
    let vx = ar.plus(a[3], ar.times(frac, ar.minus(b[3], a[3])));
    let vz = ar.plus(a[4], ar.times(frac, ar.minus(b[4], a[4])));
    let w = ar.plus(a[5], ar.times(frac, ar.minus(b[5], a[5])));
    let r = [z, pitch, vx, vz, w];
    proof {
        if deterministic(ar) {
            let p = remainder(ar, phase, one());
            assert(r@[0] == interpolated(ar, table@, p, 1));
            assert(r@[1] == interpolated(ar, table@, p, 2));
            assert(r@[2] == interpolated(ar, table@, p, 3));
            assert(r@[3] == interpolated(ar, table@, p, 4));
            assert(r@[4] == interpolated(ar, table@, p, 5));
        }
    }
    r
}

/// No row before the one found lies above the phase, and the one found does.
pub proof fn first_above_is_first(table: Seq<[Scalar; 6]>, ph: Scalar, i: int)
    requires
        0 <= i < table.len(),
    ensures
        0 <= first_above(table, ph) <= table.len(),
        i < first_above(table, ph) ==> !ph.lt_spec(table[i]@[0]),
        i == first_above(table, ph) ==> ph.lt_spec(table[i]@[0]),
    decreases table.len(),
{
    if !ph.lt_spec(table[0]@[0]) {
        let rest = table.subrange(1, table.len() as int);
        if rest.len() > 0 {
            if i > 0 {
                first_above_is_first(rest, ph, i - 1);
            } else {
                first_above_is_first(rest, ph, 0);
            }
        } else {
            assert(first_above(rest, ph) == 0);
        }
    }
}

/// Until there is a solution, footholds that follow the predicted base are the
/// ones from the capture point.
pub proof fn footholds_fall_back_without_a_solution<A: Arithmetic, S: LegModel>(
    ar: &A,
    model: &S,
    a: FullCentroidalMpcGaitController,
    b: FullCentroidalMpcGaitController,
    kin: LegKinematics,
    v_err: Vec3,
)
    requires
        a.last_solution is None,
        b == (FullCentroidalMpcGaitController {
            use_mpc_predicted_footstep: !a.use_mpc_predicted_footstep,
            ..a
        }),
    ensures
        a.step_of(ar, model, kin, v_err) == b.step_of(ar, model, kin, v_err),
{
    assert(a.correction(ar, model, v_err) == b.correction(ar, model, v_err));
    assert(a.neutral_half(ar, kin) == b.neutral_half(ar, kin));
}

impl FullCentroidalMpcGaitController {
    /// A solved solution predicts at least one step.
    pub open spec fn prediction_ready(self) -> bool {
        self.last_solution is Some && self.last_solution->0.solved
            ==> self.last_solution->0.predicted_states@.len() > 0
    }

    /// The value columns of the tabulated orbit at a phase, if there is one.
    pub fn sample_tabulated_reference<A: Arithmetic>(&self, ar: &A, phase: Scalar) -> (r: Option<
        [Scalar; 5],
    >)
        requires
            self.bound_tabulated_reference is Some ==> self.bound_tabulated_reference->0@.len() > 0,
        ensures
            r is Some <==> self.bound_tabulated_reference is Some,
            r is Some && deterministic(ar) ==> forall|j: int|
                0 <= j < 5 ==> #[trigger] r->0@[j] == interpolated(
                    ar,
                    self.bound_tabulated_reference->0@,
                    remainder(ar, phase, one()),
                    j + 1,
                ),
    {
        match &self.bound_tabulated_reference {
            None => None,
            Some(t) => Some(sample_table(ar, t, phase)),
        }
    }

    /// Duty of the leg in a slot.
    pub open spec fn leg_duty(self, slot: int) -> Scalar {
        match self.shaping.rear_duty {
            Some(d) => if slot >= 2 {
                d
            } else {
                self.cfg.duty_factor
            },
            None => self.cfg.duty_factor,
        }
    }

    /// Duty of the leg in a slot.
    pub fn duty_for_slot(&self, slot: usize) -> (r: Scalar)
        ensures
            r == self.leg_duty(slot as int),
    {
        match self.shaping.rear_duty {
            Some(d) => if slot >= 2 {
                d
            } else {
                self.cfg.duty_factor
            },
            None => self.cfg.duty_factor,
        }
    }

    /// Step of the prediction at which a leg lands, `time` from now.
    pub open spec fn landing_step<A: Arithmetic>(self, ar: &A, time: Scalar) -> int {
        nearest(
            ar,
            quotient(
                ar,
                time,
                self.full_centroidal_mpc.cfg.dt_per_step.max_spec(
                    Scalar { bits: LEAST_STEP_BITS },
                ),
            ),
        ) as int
    }

    /// Foot position predicted for a leg at its landing.
    pub open spec fn predicted_foot<A: Arithmetic>(self, ar: &A, leg: LegId, time: Scalar) -> Vec3 {
        let q = self.last_solution->0.predicted_states@[self.landing_step(ar, time)].joint_q@;
        let s = 3 * leg.slot();
        foot_position(ar, self.kin.of(leg), q[s], q[s + 1], q[s + 2])
    }

    /// The foot position predicted at landing, when footholds are optimised, there
    /// is a solved prediction that reaches the landing, and the position is
    /// plausible: low enough and finite.
    pub open spec fn swing_target<A: Arithmetic>(
        self,
        ar: &A,
        leg: LegId,
        sub_fraction: Scalar,
        swing_duration: Scalar,
    ) -> Option<Vec3> {
        let time = product(
            ar,
            difference(ar, one(), sub_fraction.clamp_spec(zero(), one())),
            swing_duration,
        );
        if !self.cfg.mpc_optimized_footstep || self.last_solution is None
            || !self.last_solution->0.solved || self.landing_step(ar, time)
            >= self.last_solution->0.predicted_states@.len() {
            None
        } else {
            let foot = self.predicted_foot(ar, leg, time);
            if (Scalar { bits: FOOT_CEILING_BITS }).lt_spec(foot.z) || !foot.x.is_finite_spec()
                || !foot.y.is_finite_spec() {
                None
            } else {
                Some(foot)
            }
        }
    }

    /// The foot position predicted for a leg at its next landing, in the body frame
    /// predicted there.
    pub fn mpc_predicted_swing_target_body<A: Arithmetic>(
        &self,
        ar: &A,
        leg: LegId,
        sub_fraction: Scalar,
        swing_duration: Scalar,
    ) -> (r: Option<Vec3>)
        ensures
            deterministic(ar) ==> r == self.swing_target(ar, leg, sub_fraction, swing_duration),
            r is Some ==> self.cfg.mpc_optimized_footstep && self.last_solution is Some
                && self.last_solution->0.solved
                && !(Scalar { bits: FOOT_CEILING_BITS }).lt_spec(r->0.z)
                && r->0.x.is_finite_spec() && r->0.y.is_finite_spec(),
    {
        match &self.last_solution {
            None => None,
            Some(sol) => {
                if !self.cfg.mpc_optimized_footstep || !sol.solved {
                    return None;
                }
                let dt = self.full_centroidal_mpc.cfg.dt_per_step.max(
                    Scalar { bits: LEAST_STEP_BITS },
                );
                let left = ar.minus(one(), sub_fraction.clamp(zero(), one()));
                let time = ar.times(left, swing_duration);
                let k: usize = ar.round_to_count(ar.over(time, dt));
                if k >= sol.predicted_states.len() {
                    return None;
                }
                let s: usize = 3 * slot_of(leg);
                let q = &sol.predicted_states[k].joint_q;
                let foot = forward_leg_kinematics(ar, self.kin.leg(leg), q[s], q[s + 1], q[s + 2]);
                if (Scalar { bits: FOOT_CEILING_BITS }).lt(foot.z) || !foot.x.is_finite()
                    || !foot.y.is_finite() {
                    None
                } else {
                    Some(foot)
                }
            },
        }
    }

    /// Swing duration: the rest of the cycle.
    pub open spec fn swing_time<A: Arithmetic>(self, ar: &A) -> Scalar {
        product(ar, self.cfg.cycle_period_s, difference(ar, one(), self.cfg.duty_factor))
    }

    /// Foothold correction from the predicted base: where the base is predicted
    /// one swing ahead, less where the command alone would carry it.
    pub open spec fn predicted_correction<A: Arithmetic>(self, ar: &A) -> Vec3 {
        if self.last_solution is None || !self.last_solution->0.solved {
            Vec3::zeros()
        } else {
            let dt = self.full_centroidal_mpc.cfg.dt_per_step.max_spec(
                Scalar { bits: LEAST_STEP_BITS },
            );
            let wished = nearest(ar, quotient(ar, self.swing_time(ar), dt));
            let k = within(self.last_solution->0, if wished == 0 { 1 } else { wished });
            let moved = vec_difference(
                ar,
                self.last_solution->0.predicted_states@[k].base_pos_world,
                self.body_state.world_position,
            );
            let ahead = product(ar, counted(ar, (k + 1) as usize), dt);
            let expected = vec_scaled(
                ar,
                to_world(
                    ar,
                    Vec3 { x: self.cmd.vx, y: self.cmd.vy, z: zero() },
                    self.body_state.world_yaw,
                ),
                ahead,
            );
            to_body(
                ar,
                Vec3 {
                    x: difference(ar, moved.x, expected.x),
                    y: difference(ar, moved.y, expected.y),
                    z: zero(),
                },
                self.body_state.world_yaw,
            )
        }
    }

    /// Foothold correction from the predicted base.
    pub fn mpc_predicted_footstep_correction<A: Arithmetic>(&self, ar: &A) -> (r: Vec3)
        requires
            self.prediction_ready(),
        ensures
            deterministic(ar) ==> r == self.predicted_correction(ar),
            self.last_solution is None || !self.last_solution->0.solved ==> r == Vec3::zeros(),
    {
        match &self.last_solution {
            None => Vec3::zeros(),
            Some(sol) => {
                if !sol.solved {
                    return Vec3::zeros();
                }
                let swing_duration = ar.times(
                    self.cfg.cycle_period_s,
                    ar.minus(one(), self.cfg.duty_factor),
                );
                let dt = self.full_centroidal_mpc.cfg.dt_per_step.max(
                    Scalar { bits: LEAST_STEP_BITS },
                );
                let raw: usize = ar.round_to_count(ar.over(swing_duration, dt));
                let wished: usize = if raw == 0 { 1 } else { raw };
                let n: usize = sol.predicted_states.len();
                let k: usize = if wished < n { wished } else { n - 1 };
                let moved = vec_minus(
                    ar,
                    sol.predicted_states[k].base_pos_world,
                    self.body_state.world_position,
                );
                let ahead = ar.times(ar.from_count(k + 1), dt);
                let cmd_world = body_to_world_horizontal(
                    ar,
                    Vec3::new(self.cmd.vx, self.cmd.vy, zero()),
                    self.body_state.world_yaw,
                );
                let expected = vec_times(ar, cmd_world, ahead);
                let residual = Vec3::new(
                    ar.minus(moved.x, expected.x),
                    ar.minus(moved.y, expected.y),
                    zero(),
                );
                world_to_body_horizontal(ar, residual, self.body_state.world_yaw)
            },
        }
    }

    /// Foothold correction in use: from the predicted base when asked for and once
    /// there is a solution, else from the capture point; none without a command.
    pub open spec fn correction<A: Arithmetic, S: LegModel>(
        self,
        ar: &A,
        model: &S,
        v_err: Vec3,
    ) -> Vec3 {
        if self.use_mpc_predicted_footstep && self.last_solution is Some && !self.cmd.is_still() {
            self.predicted_correction(ar)
        } else {
            let w = horizon_weight(ar, self.tuning.horizon_steps);
            let shift = if self.cmd.is_still() {
                Vec3::zeros()
            } else {
                Vec3 {
                    x: capture_shift(
                        model,
                        v_err.x,
                        self.k_capture,
                        self.k_capture_pulse,
                        self.v_capture_deadband,
                    ),
                    y: capture_shift(
                        model,
                        v_err.y,
                        self.k_capture,
                        self.k_capture_pulse,
                        self.v_capture_deadband,
                    ),
                    z: zero(),
                }
            };
            let bias = if self.cmd.is_still() {
                Vec3::zeros()
            } else {
                Vec3 { x: product(ar, w, shift.x), y: product(ar, w, shift.y), z: zero() }
            };
            vec_sum(ar, shift, bias)
        }
    }

    /// Neutral half step: half a stance duration of hip motion. With a fore-aft
    /// placement gain its x follows the filtered speed and its error instead.
    pub open spec fn neutral_half<A: Arithmetic>(self, ar: &A, kin: LegKinematics) -> Vec3 {
        let stance = product(ar, self.cfg.cycle_period_s, self.leg_duty(kin.leg.slot()));
        let half = commanded_half(ar, kin, self.cmd, stance);
        let v = self.v_fore_aft_filtered;
        let k = self.bound_fore_aft_placement_gain;
        if !self.cmd.is_still() && !k.eq_spec_value(zero()) {
            Vec3 {
                x: sum(
                    ar,
                    product(ar, v, product(ar, Scalar { bits: HALF_BITS }, stance)),
                    product(ar, k, difference(ar, v, self.cmd.vx)),
                ),
                ..half
            }
        } else {
            half
        }
    }

    /// Longest half step of a leg.
    pub open spec fn longest_half<A: Arithmetic>(self, ar: &A, leg: LegId) -> Scalar {
        let scale = if leg == LegId::RL || leg == LegId::RR {
            self.shaping.rear_step_scale.max_spec(zero())
        } else {
            one()
        };
        product(
            ar,
            product(ar, Scalar { bits: HALF_BITS }, self.cfg.max_step_length_m),
            scale,
        )
    }

    /// Half step of a leg.
    pub open spec fn half_of<A: Arithmetic, S: LegModel>(
        self,
        ar: &A,
        model: &S,
        kin: LegKinematics,
        v_err: Vec3,
    ) -> Vec3 {
        corrected_half(
            ar,
            self.neutral_half(ar, kin),
            self.correction(ar, model, v_err),
            self.tuning.min_half_fraction,
            self.longest_half(ar, kin.leg),
        )
    }

    /// Landing point of a leg: its half step ahead of the nominal foot, moved
    /// fore or aft by the pitch shift and drawn in to the longest half step.
    pub open spec fn landing<A: Arithmetic, S: LegModel>(
        self,
        ar: &A,
        model: &S,
        kin: LegKinematics,
        v_err: Vec3,
    ) -> Vec3 {
        let nominal = kin.nominal_foot_body;
        let plain = vec_sum(ar, nominal, self.half_of(ar, model, kin, v_err));
        if self.pitch_placement_shift.eq_spec_value(zero()) {
            plain
        } else {
            let shifted = Vec3 { x: sum(ar, plain.x, self.pitch_placement_shift), ..plain };
            let rel = vec_difference(ar, shifted, nominal);
            let mag = norm(ar, rel);
            let limit = self.longest_half(ar, kin.leg);
            if limit.lt_spec(mag) && zero().lt_spec(mag) {
                vec_sum(ar, nominal, vec_scaled(ar, rel, quotient(ar, limit, mag)))
            } else {
                shifted
            }
        }
    }

    /// The step the controller plans for a leg.
    pub open spec fn step_of<A: Arithmetic, S: LegModel>(
        self,
        ar: &A,
        model: &S,
        kin: LegKinematics,
        v_err: Vec3,
    ) -> Footstep {
        Footstep {
            lift_off: vec_difference(
                ar,
                kin.nominal_foot_body,
                self.half_of(ar, model, kin, v_err),
            ),
            touch_down: self.landing(ar, model, kin, v_err),
        }
    }

    fn correction_now<A: Arithmetic, S: LegModel>(&self, ar: &A, model: &S, v_err: Vec3) -> (r: Vec3)
        requires
            self.prediction_ready(),
        ensures
            deterministic(ar) && steady(model) ==> r == self.correction(ar, model, v_err),
    {
        let still = self.cmd.is_zero();
        if self.use_mpc_predicted_footstep && self.last_solution.is_some() && !still {
            return self.mpc_predicted_footstep_correction(ar);
        }
        let mut shift = Vec3::zeros();
        let mut bias = Vec3::zeros();
        let w = ar.over(one(), ar.from_count(self.tuning.horizon_steps));
        if !still {
            shift.x = model.capture_step(
                v_err.x,
                self.k_capture,
                self.k_capture_pulse,
                self.v_capture_deadband,
            );
            shift.y = model.capture_step(
                v_err.y,
                self.k_capture,
                self.k_capture_pulse,
                self.v_capture_deadband,
            );
            bias.x = ar.times(w, shift.x);
            bias.y = ar.times(w, shift.y);
        }
        vec_plus(ar, shift, bias)
    }

    /// Plans the step of a leg.
    pub fn compute_mpc_footstep<A: Arithmetic, S: LegModel>(
        &self,
        ar: &A,
        model: &S,
        kin: &LegKinematics,
        v_err_body: Vec3,
    ) -> (r: Footstep)
        requires
            self.prediction_ready(),
        ensures
            deterministic(ar) && steady(model) ==> r == self.step_of(ar, model, *kin, v_err_body),
    {
        let half_scalar = Scalar { bits: HALF_BITS };
        let duty = self.duty_for_slot(slot_of(kin.leg));
        let stance = ar.times(self.cfg.cycle_period_s, duty);
        let v_hip = hip_velocity_of(ar, &self.cmd, kin.hip_offset);
        let mut half = vec_times(ar, v_hip, ar.times(half_scalar, stance));
        let closed_loop = self.correction_now(ar, model, v_err_body);
        let gain = self.bound_fore_aft_placement_gain;
        if !self.cmd.is_zero() && !gain.eq_value(zero()) {
            let v = self.v_fore_aft_filtered;
            let neutral = ar.times(v, ar.times(half_scalar, stance));
            half.x = ar.plus(neutral, ar.times(gain, ar.minus(v, self.cmd.vx)));
        }
        let scale = match kin.leg {
            LegId::RL | LegId::RR => self.shaping.rear_step_scale.max(zero()),
            _ => one(),
        };
        let limit = ar.times(ar.times(half_scalar, self.cfg.max_step_length_m), scale);
        let step = correct_half(ar, half, closed_loop, self.tuning.min_half_fraction, limit);
        let nominal = kin.nominal_foot_body;
        let mut touch_down = vec_plus(ar, nominal, step);
        if !self.pitch_placement_shift.eq_value(zero()) {
            touch_down.x = ar.plus(touch_down.x, self.pitch_placement_shift);
            let rel = vec_minus(ar, touch_down, nominal);
            let mag = vec_norm(ar, rel);
            if limit.lt(mag) && zero().lt(mag) {
                touch_down = vec_plus(ar, nominal, vec_times(ar, rel, ar.over(limit, mag)));
            }
        }
        Footstep { lift_off: vec_minus(ar, nominal, step), touch_down }
    }
}

} // verus!
