//! Body pose integrated from the velocity command.

use vstd::prelude::*;
use crate::arith::{cosine, deterministic, difference, product, sine, sum, Arithmetic};
use crate::config::VelocityCmd;
use crate::scalar::{zero, Scalar, Vec3};

verus! {

/// World pose of the body: it starts at the origin facing along x.
#[derive(Clone, Copy, Debug, PartialEq, Eq, Structural)]
pub struct BodyState {
    /// Position (m).
    pub world_position: Vec3,
    /// Yaw, counter-clockwise seen from above (rad).
    pub world_yaw: Scalar,
}

impl Default for BodyState {
    fn default() -> (r: BodyState)
        ensures
            r == BodyState::new(),
    {
        BodyState::new()
    }
}

/// A horizontal body-frame vector `(x, y)` in the world frame at yaw `psi`.
pub open spec fn world_x<A: Arithmetic>(ar: &A, x: Scalar, y: Scalar, psi: Scalar) -> Scalar {
    difference(ar, product(ar, x, cosine(ar, psi)), product(ar, y, sine(ar, psi)))
}

/// A horizontal body-frame vector `(x, y)` in the world frame at yaw `psi`.
pub open spec fn world_y<A: Arithmetic>(ar: &A, x: Scalar, y: Scalar, psi: Scalar) -> Scalar {
    sum(ar, product(ar, x, sine(ar, psi)), product(ar, y, cosine(ar, psi)))
}

/// The pose after following a command for a time `dt`: the velocity is turned
/// into the world frame by the yaw before the step.
pub open spec fn followed<A: Arithmetic>(
    ar: &A,
    s: BodyState,
    cmd: VelocityCmd,
    dt: Scalar,
) -> BodyState {
    let p = s.world_position;
    BodyState {
        world_position: Vec3 {
            x: sum(ar, p.x, product(ar, world_x(ar, cmd.vx, cmd.vy, s.world_yaw), dt)),
            y: sum(ar, p.y, product(ar, world_y(ar, cmd.vx, cmd.vy, s.world_yaw), dt)),
            z: p.z,
        },
        world_yaw: sum(ar, s.world_yaw, product(ar, cmd.wz, dt)),
    }
}

impl BodyState {
    /// The origin, facing along x.
    #[verifier::allow_in_spec]
    pub fn new() -> BodyState
        returns
            (BodyState { world_position: Vec3::zeros(), world_yaw: zero() }),
    {
        BodyState { world_position: Vec3::zeros(), world_yaw: zero() }
    }

    /// Follows a command for a time `dt`. The height does not change.
    pub fn integrate<A: Arithmetic>(&mut self, ar: &A, cmd: &VelocityCmd, dt: Scalar)
        ensures
            deterministic(ar) ==> *final(self) == followed(ar, *old(self), *cmd, dt),
            final(self).world_position.z == old(self).world_position.z,
    {
        let cos_y = ar.cos(self.world_yaw);
        let sin_y = ar.sin(self.world_yaw);
        let vx = ar.minus(ar.times(cmd.vx, cos_y), ar.times(cmd.vy, sin_y));
        let vy = ar.plus(ar.times(cmd.vx, sin_y), ar.times(cmd.vy, cos_y));
        self.world_position.x = ar.plus(self.world_position.x, ar.times(vx, dt));
        self.world_position.y = ar.plus(self.world_position.y, ar.times(vy, dt));
        self.world_yaw = ar.plus(self.world_yaw, ar.times(cmd.wz, dt));
    }

    /// Back to the origin, facing along x.
    pub fn reset(&mut self)
        ensures
            *final(self) == BodyState::new(),
    {
        *self = BodyState::new();
    }
}

} // verus!
