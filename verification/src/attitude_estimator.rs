//! Attitude from a gyroscope and an accelerometer by gradient descent.
//!
//! The estimate is the rotation from the sensor to a world frame with z up. Roll
//! and pitch are held by gravity; yaw only integrates the gyroscope and drifts.

use vstd::prelude::*;
use crate::arith::{
    deterministic, difference, product, quotient, root, sum, Arithmetic,
};
use crate::config::HALF_BITS;
use crate::ik::TWO_BITS;
use crate::scalar::{one, zero, Scalar, Vec3};

verus! {

/// Bits of 1e-6, the squared acceleration below which gravity is not used.
pub const LEAST_ACCEL_BITS: u64 = 0x3EB0_C6F7_A0B5_ED8D;

/// Bits of 1e-12, the least length that is divided by.
pub const LEAST_NORM_BITS: u64 = 0x3D71_9799_812D_EA11;

/// Bits of minus two.
pub const MINUS_TWO_BITS: u64 = 0xC000_0000_0000_0000;

/// Bits of four.
pub const FOUR_BITS: u64 = 0x4010_0000_0000_0000;

/// Bits of the default gain (rad/s).
pub const BETA_BITS: u64 = 0x3FB9_9999_9999_999A;

/// A quaternion.
#[derive(Clone, Copy, Debug, PartialEq, Eq, Structural)]
pub struct Quat {
    /// Scalar part.
    pub w: Scalar,
    /// Vector part, first.
    pub x: Scalar,
    /// Vector part, second.
    pub y: Scalar,
    /// Vector part, third.
    pub z: Scalar,
}

impl Quat {
    /// No rotation.
    #[verifier::allow_in_spec]
    pub fn identity() -> Quat
        returns
            (Quat { w: one(), x: zero(), y: zero(), z: zero() }),
    {
        Quat { w: one(), x: zero(), y: zero(), z: zero() }
    }
}

/// Attitude estimator.
#[derive(Clone, Copy, Debug, PartialEq, Eq, Structural)]
pub struct MadgwickAhrs {
    /// Gain: higher trusts gravity more (rad/s).
    pub beta: Scalar,
    /// Rotation from sensor to world.
    pub q: Quat,
}

/// `a * b - c * d`.
pub open spec fn minor<A: Arithmetic>(ar: &A, a: Scalar, b: Scalar, c: Scalar, d: Scalar) -> Scalar {
    difference(ar, product(ar, a, b), product(ar, c, d))
}

/// `a * b + c * d`.
pub open spec fn dot2<A: Arithmetic>(ar: &A, a: Scalar, b: Scalar, c: Scalar, d: Scalar) -> Scalar {
    sum(ar, product(ar, a, b), product(ar, c, d))
}

/// `k * a * f`.
pub open spec fn scaled<A: Arithmetic>(ar: &A, k: u64, a: Scalar, f: Scalar) -> Scalar {
    product(ar, product(ar, Scalar { bits: k }, a), f)
}

/// Rate of the quaternion under an angular velocity: half their product.
pub open spec fn rate<A: Arithmetic>(ar: &A, q: Quat, g: Vec3) -> Quat {
    let half = Scalar { bits: HALF_BITS };
    Quat {
        w: product(
            ar,
            half,
            difference(
                ar,
                minor(ar, q.x.neg_spec(), g.x, q.y, g.y),
                product(ar, q.z, g.z),
            ),
        ),
        x: product(ar, half, difference(ar, dot2(ar, q.w, g.x, q.y, g.z), product(ar, q.z, g.y))),
        y: product(ar, half, sum(ar, minor(ar, q.w, g.y, q.x, g.z), product(ar, q.z, g.x))),
        z: product(ar, half, difference(ar, dot2(ar, q.w, g.z, q.x, g.y), product(ar, q.y, g.x))),
    }
}

/// Gravity as the attitude has it, less gravity as measured (a unit vector).
pub open spec fn misfit<A: Arithmetic>(ar: &A, q: Quat, a: Vec3) -> Vec3 {
    let two = Scalar { bits: TWO_BITS };
    Vec3 {
        x: difference(ar, product(ar, two, minor(ar, q.x, q.z, q.w, q.y)), a.x),
        y: difference(ar, product(ar, two, dot2(ar, q.w, q.x, q.y, q.z)), a.y),
        z: difference(
            ar,
            product(
                ar,
                two,
                difference(
                    ar,
                    difference(ar, Scalar { bits: HALF_BITS }, product(ar, q.x, q.x)),
                    product(ar, q.y, q.y),
                ),
            ),
            a.z,
        ),
    }
}

/// Gradient of the squared misfit by the quaternion.
pub open spec fn gradient<A: Arithmetic>(ar: &A, q: Quat, f: Vec3) -> Quat {
    Quat {
        w: sum(ar, scaled(ar, MINUS_TWO_BITS, q.y, f.x), scaled(ar, TWO_BITS, q.x, f.y)),
        x: difference(
            ar,
            sum(ar, scaled(ar, TWO_BITS, q.z, f.x), scaled(ar, TWO_BITS, q.w, f.y)),
            scaled(ar, FOUR_BITS, q.x, f.z),
        ),
        y: difference(
            ar,
            sum(ar, scaled(ar, MINUS_TWO_BITS, q.w, f.x), scaled(ar, TWO_BITS, q.z, f.y)),
            scaled(ar, FOUR_BITS, q.y, f.z),
        ),
        z: sum(ar, scaled(ar, TWO_BITS, q.x, f.x), scaled(ar, TWO_BITS, q.y, f.y)),
    }
}

/// Length of a quaternion.
pub open spec fn length<A: Arithmetic>(ar: &A, q: Quat) -> Scalar {
    root(
        ar,
        sum(
            ar,
            sum(ar, dot2(ar, q.w, q.w, q.x, q.x), product(ar, q.y, q.y)),
            product(ar, q.z, q.z),
        ),
    )
}

/// `q` less the gain times `s * inv`, part by part.
pub open spec fn stepped<A: Arithmetic>(ar: &A, q: Quat, beta: Scalar, s: Quat, inv: Scalar) -> Quat {
    Quat {
        w: difference(ar, q.w, product(ar, product(ar, beta, s.w), inv)),
        x: difference(ar, q.x, product(ar, product(ar, beta, s.x), inv)),
        y: difference(ar, q.y, product(ar, product(ar, beta, s.y), inv)),
        z: difference(ar, q.z, product(ar, product(ar, beta, s.z), inv)),
    }
}

/// `q + d * t`, part by part.
pub open spec fn moved<A: Arithmetic>(ar: &A, q: Quat, d: Quat, t: Scalar) -> Quat {
    Quat {
        w: sum(ar, q.w, product(ar, d.w, t)),
        x: sum(ar, q.x, product(ar, d.x, t)),
        y: sum(ar, q.y, product(ar, d.y, t)),
        z: sum(ar, q.z, product(ar, d.z, t)),
    }
}

/// `q * k`, part by part.
pub open spec fn times_scalar<A: Arithmetic>(ar: &A, q: Quat, k: Scalar) -> Quat {
    Quat {
        w: product(ar, q.w, k),
        x: product(ar, q.x, k),
        y: product(ar, q.y, k),
        z: product(ar, q.z, k),
    }
}

/// `q` divided by its length, summed pairwise.
pub open spec fn unit<A: Arithmetic>(ar: &A, q: Quat) -> Quat {
    let n = root(ar, sum(ar, dot2(ar, q.x, q.x, q.z, q.z), dot2(ar, q.y, q.y, q.w, q.w)));
    Quat {
        w: quotient(ar, q.w, n),
        x: quotient(ar, q.x, n),
        y: quotient(ar, q.y, n),
        z: quotient(ar, q.z, n),
    }
}

/// Squared length of an acceleration.
pub open spec fn accel_squared<A: Arithmetic>(ar: &A, a: Vec3) -> Scalar {
    sum(ar, dot2(ar, a.x, a.x, a.y, a.y), product(ar, a.z, a.z))
}

/// Rate of the quaternion: from the angular velocity, drawn toward measured
/// gravity unless the acceleration is too small to tell it or it agrees already.
pub open spec fn corrected_rate<A: Arithmetic>(
    ar: &A,
    beta: Scalar,
    q: Quat,
    gyro: Vec3,
    accel: Vec3,
) -> Quat {
    let d = rate(ar, q, gyro);
    let squared = accel_squared(ar, accel);
    if (Scalar { bits: LEAST_ACCEL_BITS }).lt_spec(squared) {
        let inv = quotient(ar, one(), root(ar, squared));
        let a = Vec3 {
            x: product(ar, accel.x, inv),
            y: product(ar, accel.y, inv),
            z: product(ar, accel.z, inv),
        };
        let s = gradient(ar, q, misfit(ar, q, a));
        let n = length(ar, s);
        if (Scalar { bits: LEAST_NORM_BITS }).lt_spec(n) {
            stepped(ar, d, beta, s, quotient(ar, one(), n))
        } else {
            d
        }
    } else {
        d
    }
}

/// The attitude after a sample: moved on and brought back to unit length; kept
/// when there is nothing to bring back.
pub open spec fn updated<A: Arithmetic>(
    ar: &A,
    e: MadgwickAhrs,
    gyro: Vec3,
    accel: Vec3,
    dt: Scalar,
) -> Quat {
    let q = moved(ar, e.q, corrected_rate(ar, e.beta, e.q, gyro, accel), dt);
    let n = length(ar, q);
    if (Scalar { bits: LEAST_NORM_BITS }).lt_spec(n) {
        unit(ar, times_scalar(ar, q, quotient(ar, one(), n)))
    } else {
        e.q
    }
}

fn rate_of<A: Arithmetic>(ar: &A, q: Quat, g: Vec3) -> (r: Quat)
    ensures
        deterministic(ar) ==> r == rate(ar, q, g),
{
    let half = Scalar { bits: HALF_BITS };
    let w = ar.minus(
        ar.minus(ar.times(q.x.neg(), g.x), ar.times(q.y, g.y)),
        ar.times(q.z, g.z),
    );
    let x = ar.minus(ar.plus(ar.times(q.w, g.x), ar.times(q.y, g.z)), ar.times(q.z, g.y));
    let y = ar.plus(ar.minus(ar.times(q.w, g.y), ar.times(q.x, g.z)), ar.times(q.z, g.x));
    let z = ar.minus(ar.plus(ar.times(q.w, g.z), ar.times(q.x, g.y)), ar.times(q.y, g.x));
    Quat { w: ar.times(half, w), x: ar.times(half, x), y: ar.times(half, y), z: ar.times(half, z) }
}

fn misfit_of<A: Arithmetic>(ar: &A, q: Quat, a: Vec3) -> (r: Vec3)
    ensures
        deterministic(ar) ==> r == misfit(ar, q, a),
{
    let two = Scalar { bits: TWO_BITS };
    let x = ar.times(two, ar.minus(ar.times(q.x, q.z), ar.times(q.w, q.y)));
    let y = ar.times(two, ar.plus(ar.times(q.w, q.x), ar.times(q.y, q.z)));
    let z = ar.times(
        two,
        ar.minus(
            ar.minus(Scalar { bits: HALF_BITS }, ar.times(q.x, q.x)),
            ar.times(q.y, q.y),
        ),
    );
    Vec3::new(ar.minus(x, a.x), ar.minus(y, a.y), ar.minus(z, a.z))
}

fn scaled_of<A: Arithmetic>(ar: &A, k: u64, a: Scalar, f: Scalar) -> (r: Scalar)
    ensures
        deterministic(ar) ==> r == scaled(ar, k, a, f),
{
    ar.times(ar.times(Scalar { bits: k }, a), f)
}

fn gradient_of<A: Arithmetic>(ar: &A, q: Quat, f: Vec3) -> (r: Quat)
    ensures
        deterministic(ar) ==> r == gradient(ar, q, f),
{
    let w = ar.plus(
        scaled_of(ar, MINUS_TWO_BITS, q.y, f.x),
        scaled_of(ar, TWO_BITS, q.x, f.y),
    );
    let x = ar.minus(
        ar.plus(scaled_of(ar, TWO_BITS, q.z, f.x), scaled_of(ar, TWO_BITS, q.w, f.y)),
        scaled_of(ar, FOUR_BITS, q.x, f.z),
    );
    let y = ar.minus(
        ar.plus(scaled_of(ar, MINUS_TWO_BITS, q.w, f.x), scaled_of(ar, TWO_BITS, q.z, f.y)),
        scaled_of(ar, FOUR_BITS, q.y, f.z),
    );
    let z = ar.plus(scaled_of(ar, TWO_BITS, q.x, f.x), scaled_of(ar, TWO_BITS, q.y, f.y));
    Quat { w, x, y, z }
}

fn length_of<A: Arithmetic>(ar: &A, q: Quat) -> (r: Scalar)
    ensures
        deterministic(ar) ==> r == length(ar, q),
{
    let wx = ar.plus(ar.times(q.w, q.w), ar.times(q.x, q.x));
    ar.sqrt(ar.plus(ar.plus(wx, ar.times(q.y, q.y)), ar.times(q.z, q.z)))
}

fn unit_of<A: Arithmetic>(ar: &A, q: Quat) -> (r: Quat)
    ensures
        deterministic(ar) ==> r == unit(ar, q),
{
    let xz = ar.plus(ar.times(q.x, q.x), ar.times(q.z, q.z));
    let yw = ar.plus(ar.times(q.y, q.y), ar.times(q.w, q.w));
    let n = ar.sqrt(ar.plus(xz, yw));
    Quat { w: ar.over(q.w, n), x: ar.over(q.x, n), y: ar.over(q.y, n), z: ar.over(q.z, n) }
}

fn corrected_rate_of<A: Arithmetic>(
    ar: &A,
    beta: Scalar,
    q: Quat,
    gyro: Vec3,
    accel: Vec3,
) -> (r: Quat)
    ensures
        deterministic(ar) ==> r == corrected_rate(ar, beta, q, gyro, accel),
{
    let d = rate_of(ar, q, gyro);
    let xy = ar.plus(ar.times(accel.x, accel.x), ar.times(accel.y, accel.y));
    let squared = ar.plus(xy, ar.times(accel.z, accel.z));
    if !(Scalar { bits: LEAST_ACCEL_BITS }).lt(squared) {
        return d;
    }
    let inv = ar.over(one(), ar.sqrt(squared));
    let a = Vec3::new(ar.times(accel.x, inv), ar.times(accel.y, inv), ar.times(accel.z, inv));
    let f = misfit_of(ar, q, a);
    let s = gradient_of(ar, q, f);
    let n = length_of(ar, s);
    if !(Scalar { bits: LEAST_NORM_BITS }).lt(n) {
        return d;
    }
    let inv_s = ar.over(one(), n);
    Quat {
        w: ar.minus(d.w, ar.times(ar.times(beta, s.w), inv_s)),
        x: ar.minus(d.x, ar.times(ar.times(beta, s.x), inv_s)),
        y: ar.minus(d.y, ar.times(ar.times(beta, s.y), inv_s)),
        z: ar.minus(d.z, ar.times(ar.times(beta, s.z), inv_s)),
    }
}

impl Default for MadgwickAhrs {
    fn default() -> (r: MadgwickAhrs)
        ensures
            r == (MadgwickAhrs { beta: Scalar { bits: BETA_BITS }, q: Quat::identity() }),
    {
        MadgwickAhrs::new(Scalar { bits: BETA_BITS })
    }
}

impl MadgwickAhrs {
    /// An estimator without rotation.
    pub fn new(beta: Scalar) -> (r: MadgwickAhrs)
        ensures
            r == (MadgwickAhrs { beta, q: Quat::identity() }),
    {
        MadgwickAhrs { beta, q: Quat::identity() }
    }

    /// Back to no rotation.
    pub fn reset(&mut self)
        ensures
            *final(self) == (MadgwickAhrs { q: Quat::identity(), ..*old(self) }),
    {
        self.q = Quat::identity();
    }

    /// The attitude.
    pub fn quaternion(&self) -> (r: Quat)
        ensures
            r == self.q,
    {
        self.q
    }

    /// Takes in a sample: angular velocity (rad/s), proper acceleration (m/s^2)
    /// and period (s). Nothing happens when the period is not positive.
    pub fn update_imu<A: Arithmetic>(&mut self, ar: &A, gyro: Vec3, accel: Vec3, dt: Scalar)
        ensures
            final(self).beta == old(self).beta,
            dt.le_spec(zero()) ==> *final(self) == *old(self),
            !dt.le_spec(zero()) && deterministic(ar) ==> final(self).q == updated(
                ar,
                *old(self),
                gyro,
                accel,
                dt,
            ),
    {
        if dt.le(zero()) {
            return;
        }
        let d = corrected_rate_of(ar, self.beta, self.q, gyro, accel);
        let q = Quat {
            w: ar.plus(self.q.w, ar.times(d.w, dt)),
            x: ar.plus(self.q.x, ar.times(d.x, dt)),
            y: ar.plus(self.q.y, ar.times(d.y, dt)),
            z: ar.plus(self.q.z, ar.times(d.z, dt)),
        };
        let n = length_of(ar, q);
        if (Scalar { bits: LEAST_NORM_BITS }).lt(n) {
            let inv = ar.over(one(), n);
            let scaled = Quat {
                w: ar.times(q.w, inv),
                x: ar.times(q.x, inv),
                y: ar.times(q.y, inv),
                z: ar.times(q.z, inv),
            };
            self.q = unit_of(ar, scaled);
        }
    }
}

} // verus!
