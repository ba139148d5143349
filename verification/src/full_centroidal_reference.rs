//! Reference trajectory of the full-centroidal controller.

use vstd::prelude::*;
use crate::arith::{deterministic, difference, product, quotient, remainder, sum, Arithmetic};
use crate::bound_reference::{BoundTrimSample, GRAVITY_BITS};
use crate::centroidal_mpc::{end_of_step, move_on, moved_on, step_end};
use crate::closed_loop::{body_to_world_horizontal, to_world};
use crate::config::{slot_of, LegId};
use crate::controller::{effective_swing_height, steady, swing_height, swing_point, LegModel};
use crate::footstep::stance_position;
use crate::full_centroidal_controller::FullCentroidalMpcGaitController;
use crate::full_centroidal_footstep::{interpolated, LEAST_SPAN_BITS};
use crate::full_centroidal_mpc::FullCentroidalInput;
use crate::ik::{leg_ik, solve_leg_ik, TWO_BITS};
use crate::scalar::{one, zero, Scalar, Vec3};

verus! {

/// Reference of the body at a step.
#[derive(Clone, Copy, Debug, PartialEq, Eq, Structural)]
pub struct BodyReference {
    /// Linear velocity, world frame (m/s).
    pub v: Vec3,
    /// Angular velocity, world frame (rad/s).
    pub w: Vec3,
    /// Position, world frame (m).
    pub pos: Vec3,
    /// Roll, pitch, yaw (rad).
    pub euler: Vec3,
}

/// Cycle phase of a leg whose stance starts the cycle.
pub open spec fn cycle_phase_of<A: Arithmetic>(
    ar: &A,
    stance: bool,
    sub: Scalar,
    duty: Scalar,
) -> Scalar {
    if stance {
        product(ar, sub, duty)
    } else {
        sum(ar, duty, product(ar, sub, difference(ar, one(), duty)))
    }
}

/// A reference with the columns of a tabulated orbit: height, pitch, forward
/// and vertical velocity, pitch rate.
pub open spec fn with_table(b: BodyReference, t: Seq<Scalar>) -> BodyReference {
    BodyReference {
        v: Vec3 { x: t[2], z: t[3], ..b.v },
        w: Vec3 { y: t[4], ..b.w },
        pos: Vec3 { z: t[0], ..b.pos },
        euler: Vec3 { y: t[1], ..b.euler },
    }
}

/// A reference with the pitch of the trim, and its bounce when asked for.
pub open spec fn with_trim(b: BodyReference, s: BoundTrimSample, vertical: bool) -> BodyReference {
    BodyReference {
        v: if vertical {
            Vec3 { z: s.com_z_velocity, ..b.v }
        } else {
            b.v
        },
        euler: Vec3 { y: s.pitch, ..b.euler },
        ..b
    }
}

/// Sum of the load weights of the stance legs among the first `m`.
pub open spec fn weight_sum<A: Arithmetic>(
    ar: &A,
    stance: Seq<bool>,
    weight: Seq<Scalar>,
    m: int,
) -> Scalar
    decreases m,
{
    if m <= 0 {
        zero()
    } else if stance[m - 1] {
        sum(ar, weight_sum(ar, stance, weight, m - 1), weight[m - 1])
    } else {
        weight_sum(ar, stance, weight, m - 1)
    }
}

/// What shapes the force reference of a step.
pub struct ForceShaping {
    /// Total weight to carry (N).
    pub weight: Scalar,
    /// Forward force of a foot of the trim (N), if there is one.
    pub trim_fx: Option<Scalar>,
    /// Vertical force of a foot of the trim (N), if it is tracked.
    pub trim_fz: Option<Scalar>,
    /// Net forward force added (N).
    pub bias: Scalar,
    /// Share of it on the rear pair.
    pub rear_frac: Scalar,
}

/// Share of the added forward force on the leg in a slot.
pub open spec fn pair_gain<A: Arithmetic>(ar: &A, rear_frac: Scalar, slot: int) -> Scalar {
    let frac = rear_frac.clamp_spec(zero(), one());
    let two = Scalar { bits: TWO_BITS };
    if slot < 2 {
        product(ar, two, difference(ar, one(), frac))
    } else {
        product(ar, two, frac)
    }
}

/// `w f / total`, the share of a pair's force on a leg of weight `w`.
pub open spec fn shared<A: Arithmetic>(ar: &A, w: Scalar, f: Scalar, total: Scalar) -> Scalar {
    quotient(ar, product(ar, w, product(ar, f, Scalar { bits: TWO_BITS })), total)
}

/// Reference force of the leg in a slot: zero in swing. In stance it carries its
/// share of the weight by its load weight, with the forces of the trim and the
/// added forward force when the loads do not vanish.
pub open spec fn leg_force<A: Arithmetic>(
    ar: &A,
    f: ForceShaping,
    stance: bool,
    w: Scalar,
    total: Scalar,
    slot: int,
) -> Vec3 {
    let loaded = (Scalar { bits: LEAST_SPAN_BITS }).lt_spec(total);
    if !stance {
        Vec3::zeros()
    } else {
        let unit = if loaded { quotient(ar, f.weight, total) } else { zero() };
        let z = match f.trim_fz {
            Some(fz) => if loaded && f.trim_fx is Some {
                shared(ar, w, fz, total)
            } else {
                product(ar, w, unit)
            },
            None => product(ar, w, unit),
        };
        let x = match f.trim_fx {
            Some(fx) => if loaded {
                shared(ar, w, fx, total)
            } else {
                zero()
            },
            None => zero(),
        };
        let x2 = if !f.bias.eq_spec_value(zero()) && loaded {
            sum(
                ar,
                x,
                quotient(
                    ar,
                    product(ar, product(ar, w, pair_gain(ar, f.rear_frac, slot)), f.bias),
                    total,
                ),
            )
        } else {
            x
        };
        Vec3 { x: x2, y: zero(), z }
    }
}

fn share<A: Arithmetic>(ar: &A, w: Scalar, f: Scalar, total: Scalar) -> (r: Scalar)
    ensures
        deterministic(ar) ==> r == shared(ar, w, f, total),
{
    ar.over(ar.times(w, ar.times(f, Scalar { bits: TWO_BITS })), total)
}

fn force_of_leg<A: Arithmetic>(
    ar: &A,
    f: &ForceShaping,
    stance: bool,
    w: Scalar,
    total: Scalar,
    slot: usize,
) -> (r: Vec3)
    ensures
        deterministic(ar) ==> r == leg_force(ar, *f, stance, w, total, slot as int),
        !stance ==> r == Vec3::zeros(),
        r.y == zero(),
{
    if !stance {
        return Vec3::zeros();
    }
    let loaded = (Scalar { bits: LEAST_SPAN_BITS }).lt(total);
    let unit = if loaded { ar.over(f.weight, total) } else { zero() };
    let mut z = ar.times(w, unit);
    let mut x = zero();
    if loaded {
        match f.trim_fx {
            Some(fx) => {
                x = share(ar, w, fx, total);
                match f.trim_fz {
                    Some(fz) => {
                        z = share(ar, w, fz, total);
                    },
                    None => {},
                }
            },
            None => {},
        }
        if !f.bias.eq_value(zero()) {
            let frac = f.rear_frac.clamp(zero(), one());
            let two = Scalar { bits: TWO_BITS };
            let gain = if slot < 2 {
                ar.times(two, ar.minus(one(), frac))
            } else {
                ar.times(two, frac)
            };
            x = ar.plus(x, ar.over(ar.times(ar.times(w, gain), f.bias), total));
        }
    }
    Vec3 { x, y: zero(), z }
}

/// The force references of a step: the loads of the stance legs share the
/// weight; swing legs carry nothing; joint velocities are zero.
pub fn reference_input<A: Arithmetic>(
    ar: &A,
    f: &ForceShaping,
    stance: &[bool; 4],
    weight: &[Scalar; 4],
) -> (r: FullCentroidalInput)
    ensures
        forall|slot: int|
            0 <= slot < 4 && !(#[trigger] stance@[slot]) ==> r.grfs_world@[slot] == Vec3::zeros(),
        forall|j: int| 0 <= j < 12 ==> #[trigger] r.joint_v@[j] == zero(),
        deterministic(ar) ==> forall|slot: int|
            0 <= slot < 4 ==> #[trigger] r.grfs_world@[slot] == leg_force(
                ar,
                *f,
                stance@[slot],
                weight@[slot],
                weight_sum(ar, stance@, weight@, 4),
                slot,
            ),
{
    let mut total = zero();
    let mut slot: usize = 0;
    while slot < 4
        invariant
            slot <= 4,
            deterministic(ar) ==> total == weight_sum(ar, stance@, weight@, slot as int),
        decreases 4 - slot,
    {
        if stance[slot] {
            total = ar.plus(total, weight[slot]);
        }
        slot += 1;
    }
    let fl = force_of_leg(ar, f, stance[0], weight[0], total, 0);
    let fr = force_of_leg(ar, f, stance[1], weight[1], total, 1);
    let rl = force_of_leg(ar, f, stance[2], weight[2], total, 2);
    let rr = force_of_leg(ar, f, stance[3], weight[3], total, 3);
    let z = zero();
    let r = FullCentroidalInput {
        grfs_world: [fl, fr, rl, rr],
        joint_v: [z, z, z, z, z, z, z, z, z, z, z, z],
    };
    proof {
        assert(stance[0] == stance@[0] && stance[1] == stance@[1]);
        assert(stance[2] == stance@[2] && stance[3] == stance@[3]);
        assert(r.grfs_world@[0] == fl && r.grfs_world@[1] == fr);
        assert(r.grfs_world@[2] == rl && r.grfs_world@[3] == rr);
    }
    r
}

impl FullCentroidalMpcGaitController {
    /// The body at step `k` when it follows the command.
    pub open spec fn commanded_body<A: Arithmetic>(self, ar: &A, k: int) -> BodyReference {
        let yaw = self.body_state.world_yaw;
        let p = self.body_state.world_position;
        let v = to_world(ar, Vec3 { x: self.cmd.vx, y: self.cmd.vy, z: zero() }, yaw);
        let t = end_of_step(ar, k, self.full_centroidal_mpc.cfg.dt_per_step);
        BodyReference {
            v,
            w: Vec3 { x: zero(), y: zero(), z: self.cmd.wz },
            pos: Vec3 {
                x: moved_on(ar, p.x, v.x, t),
                y: moved_on(ar, p.y, v.y, t),
                z: moved_on(ar, p.z, v.z, t),
            },
            euler: Vec3 { x: zero(), y: zero(), z: moved_on(ar, yaw, self.cmd.wz, t) },
        }
    }

    /// The trim at a cycle phase, if one is in use.
    pub open spec fn trim_at<A: Arithmetic>(self, ar: &A, phase: Scalar) -> Option<BoundTrimSample> {
        match self.trim(ar) {
            Some(trim) => Some(trim.sampled(ar, phase)),
            None => None,
        }
    }

    /// The body reference at step `k`: the tabulated orbit over the command when
    /// there is one, else the trim when in use.
    pub open spec fn body_reference<A: Arithmetic>(
        self,
        ar: &A,
        k: int,
        phase: Scalar,
    ) -> BodyReference {
        let b = self.commanded_body(ar, k);
        match self.bound_tabulated_reference {
            Some(table) => with_table(
                b,
                Seq::new(
                    5,
                    |j: int| interpolated(ar, table@, remainder(ar, phase, one()), j + 1),
                ),
            ),
            None => match self.trim_at(ar, phase) {
                Some(s) => with_trim(b, s, self.shaping.trim_vertical_reference),
                None => b,
            },
        }
    }

    /// The friction bound of the trim in use is not negative.
    pub open spec fn trim_is_valid<A: Arithmetic>(self, ar: &A) -> bool {
        deterministic(ar) ==> match self.trim(ar) {
            Some(trim) => trim.velocity_ripple_fraction is None ==> zero().le_spec(
                trim.friction_bound(ar),
            ),
            None => true,
        }
    }

    /// The trim at a cycle phase, if one is in use.
    pub fn sample_trim<A: Arithmetic>(&self, ar: &A, phase: Scalar) -> (r: Option<BoundTrimSample>)
        requires
            self.trim_is_valid(ar),
        ensures
            deterministic(ar) ==> r == self.trim_at(ar, phase),
    {
        match self.bound_trim_config(ar) {
            Some(trim) => Some(trim.sample(ar, phase)),
            None => None,
        }
    }

    pub(crate) fn body_reference_at<A: Arithmetic>(
        &self,
        ar: &A,
        k: usize,
        phase: Scalar,
        trim: &Option<BoundTrimSample>,
    ) -> (r: BodyReference)
        requires
            k < usize::MAX,
            self.bound_tabulated_reference is Some ==> self.bound_tabulated_reference->0@.len() > 0,
            deterministic(ar) ==> *trim == self.trim_at(ar, phase),
        ensures
            deterministic(ar) ==> r == self.body_reference(ar, k as int, phase),
    {
        let yaw = self.body_state.world_yaw;
        let p = self.body_state.world_position;
        let v = body_to_world_horizontal(ar, Vec3::new(self.cmd.vx, self.cmd.vy, zero()), yaw);
        let t = step_end(ar, k, self.full_centroidal_mpc.cfg.dt_per_step);
        let mut b = BodyReference {
            v,
            w: Vec3::new(zero(), zero(), self.cmd.wz),
            pos: Vec3::new(
                move_on(ar, p.x, v.x, t),
                move_on(ar, p.y, v.y, t),
                move_on(ar, p.z, v.z, t),
            ),
            euler: Vec3::new(zero(), zero(), move_on(ar, yaw, self.cmd.wz, t)),
        };
        match self.sample_tabulated_reference(ar, phase) {
            Some(row) => {
                b.euler.y = row[1];
                b.v.x = row[2];
                b.v.z = row[3];
                b.pos.z = row[0];
                b.w.y = row[4];
            },
            None => {
                match trim {
                    Some(s) => {
                        b.euler.y = s.pitch;
                        if self.shaping.trim_vertical_reference {
                            b.v.z = s.com_z_velocity;
                        }
                    },
                    None => {},
                }
            },
        }
        b
    }

    /// Whether the joint reference follows the planned feet.
    pub open spec fn follows_feet(self) -> bool {
        self.dynamic_joint_q_reference && self.legged_control_parity && !self.cmd.is_still()
    }

    /// Joint reference of a leg: along its planned foot when asked for, else the
    /// nominal pose when asked for, else as the leg is now.
    pub open spec fn joint_reference<A: Arithmetic, S: LegModel>(
        self,
        ar: &A,
        model: &S,
        now: (Scalar, Scalar, Scalar),
        leg: LegId,
        v_err: Vec3,
        stance: bool,
        sub: Scalar,
    ) -> (Scalar, Scalar, Scalar) {
        let kin = self.kin.of(leg);
        let knee = self.knee_forward@[leg.slot()];
        if self.follows_feet() {
            let step = self.step_of(ar, model, kin, v_err);
            let height = swing_height(ar, self.cfg.swing_height_m, self.cmd);
            let target = if stance {
                stance_position(ar, step, sub)
            } else {
                swing_point(model, step.lift_off, step.touch_down, height, sub)
            };
            leg_ik(ar, kin, target, knee).joint_angles()
        } else if self.legged_control_parity && self.parity_use_nominal_q_ref {
            leg_ik(ar, kin, kin.nominal_foot_body, knee).joint_angles()
        } else {
            now
        }
    }

    pub(crate) fn joint_reference_of<A: Arithmetic, S: LegModel>(
        &self,
        ar: &A,
        model: &S,
        now: (Scalar, Scalar, Scalar),
        leg: LegId,
        v_err: Vec3,
        stance: bool,
        sub: Scalar,
    ) -> (r: (Scalar, Scalar, Scalar))
        requires
            self.prediction_ready(),
        ensures
            !self.legged_control_parity ==> r == now,
            deterministic(ar) && steady(model) ==> r == self.joint_reference(
                ar,
                model,
                now,
                leg,
                v_err,
                stance,
                sub,
            ),
    {
        let kin = self.kin.leg(leg);
        let knee = self.knee_forward[slot_of(leg)];
        if self.dynamic_joint_q_reference && self.legged_control_parity && !self.cmd.is_zero() {
            let step = self.compute_mpc_footstep(ar, model, kin, v_err);
            let height = effective_swing_height(ar, self.cfg.swing_height_m, &self.cmd);
            let target = if stance {
                step.stance_at(ar, sub)
            } else {
                model.position(step.lift_off, step.touch_down, height, sub)
            };
            solve_leg_ik(ar, kin, target, knee).angles()
        } else if self.legged_control_parity && self.parity_use_nominal_q_ref {
            solve_leg_ik(ar, kin, kin.nominal_foot_body, knee).angles()
        } else {
            now
        }
    }

    /// The weight and forces a step's force reference is shaped by.
    pub open spec fn force_shaping<A: Arithmetic>(self, ar: &A, phase: Scalar) -> ForceShaping {
        let trim = self.trim_at(ar, phase);
        ForceShaping {
            weight: product(
                ar,
                self.full_centroidal_mpc.cfg.mass_kg,
                Scalar { bits: GRAVITY_BITS },
            ),
            trim_fx: match trim {
                Some(s) => Some(s.f_x_per_leg),
                None => None,
            },
            trim_fz: match trim {
                Some(s) => if self.shaping.trim_vertical_reference {
                    Some(s.f_z_per_leg)
                } else {
                    None
                },
                None => None,
            },
            bias: self.shaping.fx_thrust_bias,
            rear_frac: self.shaping.fx_thrust_rear_frac,
        }
    }

    pub(crate) fn force_shaping_at<A: Arithmetic>(
        &self,
        ar: &A,
        Ghost(phase): Ghost<Scalar>,
        trim: &Option<BoundTrimSample>,
    ) -> (r: ForceShaping)
        requires
            deterministic(ar) ==> *trim == self.trim_at(ar, phase),
        ensures
            deterministic(ar) ==> r == self.force_shaping(ar, phase),
    {
        let weight = ar.times(
            self.full_centroidal_mpc.cfg.mass_kg,
            Scalar { bits: GRAVITY_BITS },
        );
        let mut trim_fx: Option<Scalar> = None;
        let mut trim_fz: Option<Scalar> = None;
        match trim {
            Some(s) => {
                trim_fx = Some(s.f_x_per_leg);
                if self.shaping.trim_vertical_reference {
                    trim_fz = Some(s.f_z_per_leg);
                }
            },
            None => {},
        }
        ForceShaping {
            weight,
            trim_fx,
            trim_fz,
            bias: self.shaping.fx_thrust_bias,
            rear_frac: self.shaping.fx_thrust_rear_frac,
        }
    }
}

} // verus!
