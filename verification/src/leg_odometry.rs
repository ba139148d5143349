//! Body velocity and position from the legs that stand.
//!
//! A foot on the ground does not move, so the body moves against it: in the body
//! frame by `-J q' - w x p`. The estimates of the stance legs are averaged, and
//! the position integrates the velocity.

use vstd::prelude::*;
use crate::arith::{
    counted, cross, deterministic, product, quotient, sum, vec_cross, vec_difference, vec_minus,
    vec_plus, vec_scaled, vec_sum, vec_times, Arithmetic,
};
use crate::closed_loop::{body_to_world_horizontal, to_world};
use crate::config::{KinematicsConfig, LegId, LegKinematics};
use crate::controller::{foot_jacobian, steady, LegModel};
use crate::ik::{foot_position, forward_leg_kinematics};
use crate::scalar::{zero, Mat3, Scalar, Vec3};

verus! {

/// What a leg measures.
#[derive(Clone, Copy, Debug, PartialEq, Eq, Structural)]
pub struct LegMeasurement {
    /// Hip, thigh and calf angle as the leg kinematics has them (rad); the factors of
    /// [`crate::autodetect::joint_signs`] take the angles and rates of a model there.
    pub q: Vec3,
    /// Hip, thigh and calf rate (rad/s).
    pub qd: Vec3,
    /// Whether the foot is on the ground.
    pub stance: bool,
}

/// Estimator of body velocity and position.
#[derive(Clone, Copy, Debug, PartialEq, Eq, Structural)]
pub struct LegOdometry {
    /// Position, world frame (m).
    pub position_world: Vec3,
    /// Latest velocity, world frame (m/s).
    pub last_velocity_world: Vec3,
}

/// A row times a vector.
pub open spec fn row_times<A: Arithmetic>(ar: &A, r: Vec3, v: Vec3) -> Scalar {
    sum(
        ar,
        sum(ar, product(ar, r.x, v.x), product(ar, r.y, v.y)),
        product(ar, r.z, v.z),
    )
}

/// A matrix times a vector.
pub open spec fn mat_times<A: Arithmetic>(ar: &A, m: Mat3, v: Vec3) -> Vec3 {
    Vec3 { x: row_times(ar, m.x, v), y: row_times(ar, m.y, v), z: row_times(ar, m.z, v) }
}

/// A vector with its direction reversed.
pub open spec fn reversed(v: Vec3) -> Vec3 {
    Vec3 { x: v.x.neg_spec(), y: v.y.neg_spec(), z: v.z.neg_spec() }
}

/// Body velocity in the body frame as a stance leg has it.
pub open spec fn leg_velocity<A: Arithmetic, S: LegModel>(
    ar: &A,
    model: &S,
    kin: LegKinematics,
    leg: LegMeasurement,
    omega: Vec3,
) -> Vec3 {
    let p = foot_position(ar, kin, leg.q.x, leg.q.y, leg.q.z);
    let j = foot_jacobian(model, kin, leg.q.x, leg.q.y, leg.q.z);
    vec_difference(ar, reversed(mat_times(ar, j, leg.qd)), cross(ar, omega, p))
}

/// Number of stance legs among the first `n`.
pub open spec fn stance_count(legs: Seq<LegMeasurement>, n: int) -> nat
    decreases n,
{
    if n <= 0 {
        0
    } else {
        stance_count(legs, n - 1) + if legs[n - 1].stance {
            1nat
        } else {
            0
        }
    }
}

/// Sum of the estimates of the stance legs among the first `n`.
pub open spec fn velocity_sum<A: Arithmetic, S: LegModel>(
    ar: &A,
    model: &S,
    kin: KinematicsConfig,
    legs: Seq<LegMeasurement>,
    omega: Vec3,
    n: int,
) -> Vec3
    decreases n,
{
    if n <= 0 {
        Vec3::zeros()
    } else {
        let before = velocity_sum(ar, model, kin, legs, omega, n - 1);
        if legs[n - 1].stance {
            vec_sum(
                ar,
                before,
                leg_velocity(ar, model, kin.of(LegId::at_slot(n - 1)), legs[n - 1], omega),
            )
        } else {
            before
        }
    }
}

/// The velocity after an update: the mean of the stance legs, turned into the
/// world frame; the previous one when no leg stands.
pub open spec fn new_velocity<A: Arithmetic, S: LegModel>(
    ar: &A,
    model: &S,
    kin: KinematicsConfig,
    legs: Seq<LegMeasurement>,
    omega: Vec3,
    yaw: Scalar,
    previous: Vec3,
) -> Vec3 {
    let n = stance_count(legs, 4);
    if n == 0 {
        previous
    } else {
        let v = velocity_sum(ar, model, kin, legs, omega, 4);
        let k = counted(ar, n as usize);
        let mean = Vec3 {
            x: quotient(ar, v.x, k),
            y: quotient(ar, v.y, k),
            z: quotient(ar, v.z, k),
        };
        to_world(ar, mean, yaw)
    }
}

/// The place after moving on from another at a velocity for a time.
pub open spec fn travelled<A: Arithmetic>(ar: &A, from: Vec3, v: Vec3, t: Scalar) -> Vec3 {
    vec_sum(ar, from, vec_scaled(ar, v, t))
}

/// A row times a vector.
pub fn row_times_of<A: Arithmetic>(ar: &A, r: Vec3, v: Vec3) -> (s: Scalar)
    ensures
        deterministic(ar) ==> s == row_times(ar, r, v),
{
    ar.plus(ar.plus(ar.times(r.x, v.x), ar.times(r.y, v.y)), ar.times(r.z, v.z))
}

/// A matrix times a vector.
pub fn mat_times_of<A: Arithmetic>(ar: &A, m: &Mat3, v: Vec3) -> (r: Vec3)
    ensures
        deterministic(ar) ==> r == mat_times(ar, *m, v),
{
    Vec3::new(row_times_of(ar, m.x, v), row_times_of(ar, m.y, v), row_times_of(ar, m.z, v))
}

fn leg_velocity_of<A: Arithmetic, S: LegModel>(
    ar: &A,
    model: &S,
    kin: &LegKinematics,
    leg: &LegMeasurement,
    omega: Vec3,
) -> (r: Vec3)
    ensures
        deterministic(ar) && steady(model) ==> r == leg_velocity(ar, model, *kin, *leg, omega),
{
    let p = forward_leg_kinematics(ar, kin, leg.q.x, leg.q.y, leg.q.z);
    let j = model.jacobian(kin, leg.q.x, leg.q.y, leg.q.z);
    let v = mat_times_of(ar, &j, leg.qd);
    vec_minus(ar, Vec3::new(v.x.neg(), v.y.neg(), v.z.neg()), vec_cross(ar, omega, p))
}

impl Default for LegOdometry {
    fn default() -> (r: LegOdometry)
        ensures
            r == (LegOdometry {
                position_world: Vec3::zeros(),
                last_velocity_world: Vec3::zeros(),
            }),
    {
        LegOdometry::new()
    }
}

impl LegOdometry {
    /// At the origin, at rest.
    pub fn new() -> (r: LegOdometry)
        ensures
            r == (LegOdometry {
                position_world: Vec3::zeros(),
                last_velocity_world: Vec3::zeros(),
            }),
    {
        LegOdometry { position_world: Vec3::zeros(), last_velocity_world: Vec3::zeros() }
    }

    /// Back to the origin, at rest.
    pub fn reset(&mut self)
        ensures
            *final(self) == (LegOdometry {
                position_world: Vec3::zeros(),
                last_velocity_world: Vec3::zeros(),
            }),
    {
        self.position_world = Vec3::zeros();
        self.last_velocity_world = Vec3::zeros();
    }

    /// Sets the position.
    pub fn set_position(&mut self, p: Vec3)
        ensures
            *final(self) == (LegOdometry { position_world: p, ..*old(self) }),
    {
        self.position_world = p;
    }

    /// The position (m).
    pub fn position_world(&self) -> (r: Vec3)
        ensures
            r == self.position_world,
    {
        self.position_world
    }

    /// The latest velocity (m/s).
    pub fn last_velocity_world(&self) -> (r: Vec3)
        ensures
            r == self.last_velocity_world,
    {
        self.last_velocity_world
    }

    /// One step. Nothing happens when `dt` is not positive. With no leg on the
    /// ground the velocity is held and the position moves on with it.
    pub fn update<A: Arithmetic, S: LegModel>(
        &mut self,
        ar: &A,
        model: &S,
        kin: &KinematicsConfig,
        legs: &[LegMeasurement; 4],
        omega_body: Vec3,
        yaw_world: Scalar,
        dt: Scalar,
    )
        ensures
            dt.le_spec(zero()) ==> *final(self) == *old(self),
            stance_count(legs@, 4) == 0 ==> final(self).last_velocity_world == old(
                self).last_velocity_world,
            !dt.le_spec(zero()) && deterministic(ar) && steady(model)
                ==> final(self).last_velocity_world == new_velocity(
                ar,
                model,
                *kin,
                legs@,
                omega_body,
                yaw_world,
                old(self).last_velocity_world,
            ),
            !dt.le_spec(zero()) && deterministic(ar) ==> final(self).position_world == travelled(
                ar,
                old(self).position_world,
                final(self).last_velocity_world,
                dt,
            ),
    {
        if dt.le(zero()) {
            return;
        }
        let leg_kin = kin.legs();
        let mut total = Vec3::zeros();
        let mut count: usize = 0;
        let mut slot: usize = 0;
        while slot < 4
            invariant
                slot <= 4,
                forall|i: int|
                    0 <= i < 4 ==> *(#[trigger] leg_kin@[i]) == kin.of(LegId::at_slot(i)),
                count == stance_count(legs@, slot as int),
                count <= slot,
                deterministic(ar) && steady(model) ==> total == velocity_sum(
                    ar,
                    model,
                    *kin,
                    legs@,
                    omega_body,
                    slot as int,
                ),
            decreases 4 - slot,
        {
            if legs[slot].stance {
                let v = leg_velocity_of(ar, model, leg_kin[slot], &legs[slot], omega_body);
                total = vec_plus(ar, total, v);
                count += 1;
            }
            slot += 1;
        }
        if count > 0 {
            let k = ar.from_count(count);
            let mean = Vec3::new(ar.over(total.x, k), ar.over(total.y, k), ar.over(total.z, k));
            self.last_velocity_world = body_to_world_horizontal(ar, mean, yaw_world);
        }
        self.position_world = vec_plus(
            ar,
            self.position_world,
            vec_times(ar, self.last_velocity_world, dt),
        );
    }
}

} // verus!
