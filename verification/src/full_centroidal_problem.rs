//! The problem the full-centroidal controller poses to its predictive
//! controller.

use vstd::prelude::*;
use crate::arith::{deterministic, Arithmetic};
use crate::config::{stance_weight, stance_weight_at, LegId};
use crate::controller::{steady, ControllerOutput, LegModel};
use crate::full_centroidal_controller::FullCentroidalMpcGaitController;
use crate::full_centroidal_footstep::LEAST_STEP_BITS;
use crate::full_centroidal_mpc::{
    vec3_seq, FootTarget, FullCentroidalContactSchedule, FullCentroidalInput,
    FullCentroidalReference, FullCentroidalState,
};
use crate::full_centroidal_plan::{lands_first, DUTY_CEILING_BITS};
use crate::full_centroidal_reference::{cycle_phase_of, leg_force, reference_input, weight_sum};
use crate::scalar::{one, zero, Scalar, Vec3};

verus! {

/// What a full-centroidal solve works on.
#[derive(Debug)]
pub struct FullCentroidalProblem {
    /// Present state.
    pub state_now: FullCentroidalState,
    /// Trajectory to track.
    pub reference: FullCentroidalReference,
    /// Contact schedule.
    pub contact: FullCentroidalContactSchedule,
}

impl FullCentroidalProblem {
    /// Every part covers a horizon of `n` steps.
    pub open spec fn spans(self, n: int) -> bool {
        self.reference.spans(n) && self.contact.spans(n)
    }
}

/// Joint angles of an output, legs in slot order, each as hip, thigh, calf.
pub open spec fn joint_angles(out: ControllerOutput) -> Seq<Scalar> {
    let l = out.legs@;
    seq![
        l[0].q_hip, l[0].q_thigh, l[0].q_calf, l[1].q_hip, l[1].q_thigh, l[1].q_calf,
        l[2].q_hip, l[2].q_thigh, l[2].q_calf, l[3].q_hip, l[3].q_thigh, l[3].q_calf,
    ]
}

/// Stance of the four legs at step `k`.
pub open spec fn stance_row(contact: FullCentroidalContactSchedule, k: int) -> Seq<bool> {
    seq![contact.stance(0, k), contact.stance(1, k), contact.stance(2, k), contact.stance(3, k)]
}

impl FullCentroidalMpcGaitController {
    /// Present state as a flat vector: observed velocities, the pose with the
    /// body level, and the joints of the output.
    pub open spec fn present(self, out: ControllerOutput) -> Seq<Scalar> {
        vec3_seq(self.v_observed_world) + vec3_seq(self.omega_observed_world) + vec3_seq(
            self.body_state.world_position,
        ) + vec3_seq(Vec3 { x: zero(), y: zero(), z: self.body_state.world_yaw }) + joint_angles(
            out,
        )
    }

    /// The plan of the leg in a slot agrees with the schedule: `sub` holds its
    /// fractions.
    pub open spec fn schedules_leg<A: Arithmetic, S: LegModel>(
        self,
        ar: &A,
        model: &S,
        out: ControllerOutput,
        cycle_phase: Scalar,
        contact: FullCentroidalContactSchedule,
        sub: Seq<Scalar>,
        slot: int,
    ) -> bool {
        let n = self.full_centroidal_mpc.cfg.horizon_steps as int;
        let leg = LegId::at_slot(slot);
        let now = out.legs@[slot].phase;
        &&& sub.len() == n
        &&& forall|k: int|
            0 <= k < n && self.cmd.is_still() ==> #[trigger] contact.stance(slot, k)
        &&& n > 0 && !self.cmd.is_still() ==> contact.stance(slot, 0) == now.is_stance
        &&& forall|k: int|
            0 <= k < n ==> ((#[trigger] contact.foot_xy_target@[slot]@[k]) is Some <==> (
            self.cfg.mpc_optimized_footstep && !self.cmd.is_still() && lands_first(
                contact.is_stance@[slot]@,
                k,
            )))
        &&& deterministic(ar) ==> forall|k: int|
            0 <= k < n ==> #[trigger] contact.stance(slot, k) == self.planned(
                ar,
                cycle_phase,
                leg,
                now,
                k,
            ).stance
        &&& deterministic(ar) ==> forall|k: int|
            0 <= k < n ==> #[trigger] sub[k] == self.planned(ar, cycle_phase, leg, now, k).sub
        &&& deterministic(ar) ==> forall|k: int|
            0 <= k < n ==> #[trigger] contact.stance_f_max@[slot]@[k] == self.planned_bound(
                ar,
                self.planned(ar, cycle_phase, leg, now, k),
            )
        &&& deterministic(ar) && steady(model) ==> forall|k: int|
            0 <= k < n ==> #[trigger] contact.swing_z_velocity@[slot]@[k] == self.planned_vz(
                ar,
                model,
                self.planned(ar, cycle_phase, leg, now, k),
            )
        &&& deterministic(ar) && steady(model) ==> forall|k: int|
            0 <= k < n && (#[trigger] contact.foot_xy_target@[slot]@[k]) is Some ==> {
                let td = self.landing(ar, model, self.kin.of(leg), self.velocity_error(ar));
                contact.foot_xy_target@[slot]@[k]->0 == (FootTarget::BodyOffset {
                    x: td.x,
                    y: td.y,
                })
            }
    }

    /// Cycle phase at step `k`, from the front-left leg.
    pub open spec fn phase_at_step<A: Arithmetic>(
        self,
        ar: &A,
        contact: FullCentroidalContactSchedule,
        subs: Seq<Seq<Scalar>>,
        k: int,
    ) -> Scalar {
        cycle_phase_of(ar, contact.stance(0, k), subs[0][k], self.timing_duty())
    }

    /// Reference state at step `k` as a flat vector.
    pub open spec fn state_at<A: Arithmetic, S: LegModel>(
        self,
        ar: &A,
        model: &S,
        out: ControllerOutput,
        contact: FullCentroidalContactSchedule,
        subs: Seq<Seq<Scalar>>,
        k: int,
    ) -> Seq<Scalar> {
        let b = self.body_reference(ar, k, self.phase_at_step(ar, contact, subs, k));
        let q = |slot: int|
            self.joint_reference(
                ar,
                model,
                (out.legs@[slot].q_hip, out.legs@[slot].q_thigh, out.legs@[slot].q_calf),
                LegId::at_slot(slot),
                self.velocity_error(ar),
                contact.stance(slot, k),
                subs[slot][k],
            );
        vec3_seq(b.v) + vec3_seq(b.w) + vec3_seq(b.pos) + vec3_seq(b.euler) + seq![
            q(0).0, q(0).1, q(0).2, q(1).0, q(1).1, q(1).2,
            q(2).0, q(2).1, q(2).2, q(3).0, q(3).1, q(3).2,
        ]
    }

    /// Load weights of the legs at step `k`: by the transition ramp in stance,
    /// zero in swing.
    pub open spec fn weights_at<A: Arithmetic>(
        self,
        ar: &A,
        contact: FullCentroidalContactSchedule,
        subs: Seq<Seq<Scalar>>,
        k: int,
    ) -> Seq<Scalar> {
        Seq::new(
            4,
            |slot: int|
                if contact.stance(slot, k) {
                    stance_weight(ar, subs[slot][k], self.cfg.transition_fraction)
                } else {
                    zero()
                },
        )
    }

    /// Reference force of the leg in a slot at step `k`.
    pub open spec fn force_at<A: Arithmetic>(
        self,
        ar: &A,
        contact: FullCentroidalContactSchedule,
        subs: Seq<Seq<Scalar>>,
        k: int,
        slot: int,
    ) -> Vec3 {
        let w = self.weights_at(ar, contact, subs, k);
        leg_force(
            ar,
            self.force_shaping(ar, self.phase_at_step(ar, contact, subs, k)),
            contact.stance(slot, k),
            w[slot],
            weight_sum(ar, stance_row(contact, k), w, 4),
            slot,
        )
    }

    /// `p` is the problem posed after computing `out` at a cycle phase, for the
    /// stance and swing fractions `subs`.
    pub open spec fn poses<A: Arithmetic, S: LegModel>(
        self,
        ar: &A,
        model: &S,
        out: ControllerOutput,
        cycle_phase: Scalar,
        subs: Seq<Seq<Scalar>>,
        p: FullCentroidalProblem,
    ) -> bool {
        let n = self.full_centroidal_mpc.cfg.horizon_steps as int;
        &&& p.spans(n)
        &&& p.state_now@ == self.present(out)
        &&& subs.len() == 4
        &&& forall|slot: int|
            0 <= slot < 4 ==> self.schedules_leg(
                ar,
                model,
                out,
                cycle_phase,
                p.contact,
                #[trigger] subs[slot],
                slot,
            )
        &&& deterministic(ar) && steady(model) ==> forall|k: int|
            0 <= k < n ==> (#[trigger] p.reference.states@[k])@ == self.state_at(
                ar,
                model,
                out,
                p.contact,
                subs,
                k,
            )
        &&& forall|k: int, j: int|
            0 <= k < n && 0 <= j < 12 ==> #[trigger] p.reference.inputs@[k].joint_v@[j] == zero()
        &&& forall|k: int, slot: int|
            0 <= k < n && 0 <= slot < 4 && !p.contact.stance(slot, k)
                ==> #[trigger] p.reference.inputs@[k].grfs_world@[slot] == Vec3::zeros()
        &&& deterministic(ar) ==> forall|k: int, slot: int|
            0 <= k < n && 0 <= slot < 4
                ==> #[trigger] p.reference.inputs@[k].grfs_world@[slot] == self.force_at(
                ar,
                p.contact,
                subs,
                k,
                slot,
            )
    }

    /// Present state.
    pub fn state_now(&self, out: &ControllerOutput) -> (r: FullCentroidalState)
        ensures
            r@ == self.present(*out),
    {
        let l = &out.legs;
        let r = FullCentroidalState {
            v_com_world: self.v_observed_world,
            angular_velocity_world: self.omega_observed_world,
            base_pos_world: self.body_state.world_position,
            base_euler_zyx: Vec3::new(zero(), zero(), self.body_state.world_yaw),
            joint_q: [
                l[0].q_hip, l[0].q_thigh, l[0].q_calf, l[1].q_hip, l[1].q_thigh, l[1].q_calf,
                l[2].q_hip, l[2].q_thigh, l[2].q_calf, l[3].q_hip, l[3].q_thigh, l[3].q_calf,
            ],
        };
        assert(r@ =~= self.present(*out));
        r
    }
}

/// The fractions planned for the four legs.
pub open spec fn fractions(subs: [Vec<Scalar>; 4]) -> Seq<Seq<Scalar>> {
    seq![subs@[0]@, subs@[1]@, subs@[2]@, subs@[3]@]
}

impl FullCentroidalMpcGaitController {
    fn reference_state<A: Arithmetic, S: LegModel>(
        &self,
        ar: &A,
        model: &S,
        out: &ControllerOutput,
        contact: &FullCentroidalContactSchedule,
        subs: &[Vec<Scalar>; 4],
        v_err: Vec3,
        phase: Scalar,
        trim: &Option<crate::bound_reference::BoundTrimSample>,
        k: usize,
    ) -> (r: FullCentroidalState)
        requires
            self.prediction_ready(),
            self.bound_tabulated_reference is Some ==> self.bound_tabulated_reference->0@.len() > 0,
            contact.spans(self.full_centroidal_mpc.cfg.horizon_steps as int),
            forall|slot: int|
                0 <= slot < 4 ==> (#[trigger] subs@[slot])@.len()
                    == self.full_centroidal_mpc.cfg.horizon_steps,
            k < self.full_centroidal_mpc.cfg.horizon_steps,
            deterministic(ar) ==> v_err == self.velocity_error(ar),
            deterministic(ar) ==> phase == self.phase_at_step(
                ar,
                *contact,
                fractions(*subs),
                k as int,
            ),
            deterministic(ar) ==> *trim == self.trim_at(ar, phase),
        ensures
            deterministic(ar) && steady(model) ==> r@ == self.state_at(
                ar,
                model,
                *out,
                *contact,
                fractions(*subs),
                k as int,
            ),
    {
        let b = self.body_reference_at(ar, k, phase, trim);
        let l = &out.legs;
        let fl = self.joint_reference_of(
            ar,
            model,
            (l[0].q_hip, l[0].q_thigh, l[0].q_calf),
            LegId::FL,
            v_err,
            contact.is_stance[0][k],
            subs[0][k],
        );
        let fr = self.joint_reference_of(
            ar,
            model,
            (l[1].q_hip, l[1].q_thigh, l[1].q_calf),
            LegId::FR,
            v_err,
            contact.is_stance[1][k],
            subs[1][k],
        );
        let rl = self.joint_reference_of(
            ar,
            model,
            (l[2].q_hip, l[2].q_thigh, l[2].q_calf),
            LegId::RL,
            v_err,
            contact.is_stance[2][k],
            subs[2][k],
        );
        let rr = self.joint_reference_of(
            ar,
            model,
            (l[3].q_hip, l[3].q_thigh, l[3].q_calf),
            LegId::RR,
            v_err,
            contact.is_stance[3][k],
            subs[3][k],
        );
        let r = FullCentroidalState {
            v_com_world: b.v,
            angular_velocity_world: b.w,
            base_pos_world: b.pos,
            base_euler_zyx: b.euler,
            joint_q: [
                fl.0, fl.1, fl.2, fr.0, fr.1, fr.2, rl.0, rl.1, rl.2, rr.0, rr.1, rr.2,
            ],
        };
        proof {
            if deterministic(ar) && steady(model) {
                let goal = self.state_at(ar, model, *out, *contact, fractions(*subs), k as int);
                assert(r@ =~= goal);
            }
        }
        r
    }

    fn reference_forces<A: Arithmetic>(
        &self,
        ar: &A,
        contact: &FullCentroidalContactSchedule,
        subs: &[Vec<Scalar>; 4],
        phase: Scalar,
        trim: &Option<crate::bound_reference::BoundTrimSample>,
        k: usize,
    ) -> (r: FullCentroidalInput)
        requires
            contact.spans(self.full_centroidal_mpc.cfg.horizon_steps as int),
            forall|slot: int|
                0 <= slot < 4 ==> (#[trigger] subs@[slot])@.len()
                    == self.full_centroidal_mpc.cfg.horizon_steps,
            k < self.full_centroidal_mpc.cfg.horizon_steps,
            deterministic(ar) ==> phase == self.phase_at_step(
                ar,
                *contact,
                fractions(*subs),
                k as int,
            ),
            deterministic(ar) ==> *trim == self.trim_at(ar, phase),
        ensures
            forall|j: int| 0 <= j < 12 ==> #[trigger] r.joint_v@[j] == zero(),
            forall|slot: int|
                0 <= slot < 4 && !contact.stance(slot, k as int)
                    ==> #[trigger] r.grfs_world@[slot] == Vec3::zeros(),
            deterministic(ar) ==> forall|slot: int|
                0 <= slot < 4 ==> #[trigger] r.grfs_world@[slot] == self.force_at(
                    ar,
                    *contact,
                    fractions(*subs),
                    k as int,
                    slot,
                ),
    {
        let f = self.force_shaping_at(ar, Ghost(phase), trim);
        let stance = [
            contact.is_stance[0][k],
            contact.is_stance[1][k],
            contact.is_stance[2][k],
            contact.is_stance[3][k],
        ];
        let tw = self.cfg.transition_fraction;
        let w0 = if stance[0] { stance_weight_at(ar, subs[0][k], tw) } else { zero() };
        let w1 = if stance[1] { stance_weight_at(ar, subs[1][k], tw) } else { zero() };
        let w2 = if stance[2] { stance_weight_at(ar, subs[2][k], tw) } else { zero() };
        let w3 = if stance[3] { stance_weight_at(ar, subs[3][k], tw) } else { zero() };
        let weight = [w0, w1, w2, w3];
        let r = reference_input(ar, &f, &stance, &weight);
        proof {
            assert(stance@ =~= stance_row(*contact, k as int));
            if deterministic(ar) {
                let goal = self.weights_at(ar, *contact, fractions(*subs), k as int);
                assert(weight@ =~= goal);
                assert forall|slot: int| 0 <= slot < 4 implies #[trigger] r.grfs_world@[slot]
                    == self.force_at(ar, *contact, fractions(*subs), k as int, slot) by {
                    assert(stance@[slot] == contact.stance(slot, k as int));
                }
            }
            assert forall|slot: int| 0 <= slot < 4 && !contact.stance(slot, k as int) implies (
            #[trigger] r.grfs_world@[slot]) == Vec3::zeros() by {
                assert(!stance@[slot]);
            }
        }
        r
    }

    /// Builds the problem posed to the predictive controller after computing
    /// `output`.
    pub fn build_full_centroidal_inputs<A: Arithmetic, S: LegModel>(
        &self,
        ar: &A,
        model: &S,
        output: &ControllerOutput,
        cycle_phase: Scalar,
    ) -> (r: FullCentroidalProblem)
        requires
            self.prediction_ready(),
            self.trim_is_valid(ar),
            self.bound_tabulated_reference is Some ==> self.bound_tabulated_reference->0@.len() > 0,
        ensures
            exists|subs: Seq<Seq<Scalar>>| #[trigger]
                self.poses(ar, model, *output, cycle_phase, subs, r),
    {
        let n: usize = self.full_centroidal_mpc.cfg.horizon_steps;
        let state_now = self.state_now(output);
        let v_err = self.velocity_error_now(ar);
        let l = &output.legs;
        let fl = self.plan_leg(ar, model, cycle_phase, LegId::FL, l[0].phase, n);
        let fr = self.plan_leg(ar, model, cycle_phase, LegId::FR, l[1].phase, n);
        let rl = self.plan_leg(ar, model, cycle_phase, LegId::RL, l[2].phase, n);
        let rr = self.plan_leg(ar, model, cycle_phase, LegId::RR, l[3].phase, n);
        let t0 = self.plan_target(ar, model, LegId::FL, v_err, &fl.stance);
        let t1 = self.plan_target(ar, model, LegId::FR, v_err, &fr.stance);
        let t2 = self.plan_target(ar, model, LegId::RL, v_err, &rl.stance);
        let t3 = self.plan_target(ar, model, LegId::RR, v_err, &rr.stance);
        let contact = FullCentroidalContactSchedule {
            is_stance: [fl.stance, fr.stance, rl.stance, rr.stance],
            swing_z_velocity: [fl.vz, fr.vz, rl.vz, rr.vz],
            stance_f_max: [fl.f_max, fr.f_max, rl.f_max, rr.f_max],
            foot_xy_target: [t0, t1, t2, t3],
        };
        let subs = [fl.sub, fr.sub, rl.sub, rr.sub];
        assert(contact.spans(n as int));
        let duty = self.cfg.duty_factor.clamp(
            Scalar { bits: LEAST_STEP_BITS },
            Scalar { bits: DUTY_CEILING_BITS },
        );
        let mut states: Vec<FullCentroidalState> = Vec::new();
        let mut inputs: Vec<FullCentroidalInput> = Vec::new();
        let ghost fracs = fractions(subs);
        let mut k: usize = 0;
        while k < n
            invariant
                k <= n,
                n == self.full_centroidal_mpc.cfg.horizon_steps,
                self.prediction_ready(),
                self.trim_is_valid(ar),
                self.bound_tabulated_reference is Some
                    ==> self.bound_tabulated_reference->0@.len() > 0,
                contact.spans(n as int),
                forall|slot: int| 0 <= slot < 4 ==> (#[trigger] subs@[slot])@.len() == n,
                fracs == fractions(subs),
                duty == self.timing_duty(),
                deterministic(ar) ==> v_err == self.velocity_error(ar),
                states@.len() == k,
                inputs@.len() == k,
                deterministic(ar) && steady(model) ==> forall|i: int|
                    0 <= i < k ==> (#[trigger] states@[i])@ == self.state_at(
                        ar,
                        model,
                        *output,
                        contact,
                        fracs,
                        i,
                    ),
                forall|i: int, j: int|
                    0 <= i < k && 0 <= j < 12 ==> #[trigger] inputs@[i].joint_v@[j] == zero(),
                forall|i: int, slot: int|
                    0 <= i < k && 0 <= slot < 4 && !contact.stance(slot, i)
                        ==> #[trigger] inputs@[i].grfs_world@[slot] == Vec3::zeros(),
                deterministic(ar) ==> forall|i: int, slot: int|
                    0 <= i < k && 0 <= slot < 4 ==> #[trigger] inputs@[i].grfs_world@[slot]
                        == self.force_at(ar, contact, fracs, i, slot),
            decreases n - k,
        {
            let sub = subs[0][k];
            let phase = if contact.is_stance[0][k] {
                ar.times(sub, duty)
            } else {
                ar.plus(duty, ar.times(sub, ar.minus(one(), duty)))
            };
            let trim = self.sample_trim(ar, phase);
            let state = self.reference_state(
                ar,
                model,
                output,
                &contact,
                &subs,
                v_err,
                phase,
                &trim,
                k,
            );
            let input = self.reference_forces(ar, &contact, &subs, phase, &trim, k);
            states.push(state);
            inputs.push(input);
            k += 1;
        }
        let r = FullCentroidalProblem {
            state_now,
            reference: FullCentroidalReference { states, inputs },
            contact,
        };
        proof {
            assert(self.schedules_leg(ar, model, *output, cycle_phase, contact, fracs[0], 0));
            assert(self.schedules_leg(ar, model, *output, cycle_phase, contact, fracs[1], 1));
            assert(self.schedules_leg(ar, model, *output, cycle_phase, contact, fracs[2], 2));
            assert(self.schedules_leg(ar, model, *output, cycle_phase, contact, fracs[3], 3));
            assert(self.poses(ar, model, *output, cycle_phase, fracs, r));
        }
        r
    }
}

} // verus!
