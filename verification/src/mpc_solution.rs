//! The solution shape shared by the predictive controllers.

use vstd::prelude::*;
use crate::scalar::{Scalar, Vec3};

verus! {

/// Body state of a single rigid body.
#[derive(Clone, Copy, Debug, PartialEq, Eq, Structural)]
pub struct SrbdState {
    /// Roll, pitch, yaw (rad).
    pub orientation_rpy: Vec3,
    /// Position, world frame (m).
    pub position: Vec3,
    /// Angular velocity, world frame (rad/s).
    pub angular_velocity: Vec3,
    /// Linear velocity, world frame (m/s).
    pub linear_velocity: Vec3,
}

/// Predicted forces and body states.
#[derive(Debug)]
pub struct MpcSolution {
    /// Force of each foot at the first step, world frame (N).
    pub grfs_first_step: [Vec3; 4],
    /// Forces over the horizon.
    pub grfs_all_steps: Vec<[Vec3; 4]>,
    /// Body states over the horizon.
    pub predicted_body_states: Vec<SrbdState>,
    /// Objective value.
    pub objective: Scalar,
    /// Whether the solver reported a solution.
    pub solved: bool,
}

/// A copy of the forces over a horizon.
pub fn copy_forces(v: &Vec<[Vec3; 4]>) -> (r: Vec<[Vec3; 4]>)
    ensures
        r@ == v@,
{
    let mut r: Vec<[Vec3; 4]> = Vec::new();
    let mut i: usize = 0;
    while i < v.len()
        invariant
            i <= v@.len(),
            r@ == v@.subrange(0, i as int),
        decreases v@.len() - i,
    {
        r.push(v[i]);
        i += 1;
        assert(r@ =~= v@.subrange(0, i as int));
    }
    assert(r@ =~= v@);
    r
}

} // verus!
