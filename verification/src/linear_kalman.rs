//! Linear Kalman filter for the body and the feet of a quadruped.
//!
//! The state holds body position, body velocity and the four foot positions, all
//! in the world frame. The filter is driven by the acceleration of the body and
//! corrected by leg kinematics: where each foot is relative to the body, how it
//! moves, and that a foot on the ground is at height zero. A foot in the air is
//! trusted a hundred times less. The equations are those of
//! [`crate::kalman_steps`].

use vstd::prelude::*;
use crate::arith::{deterministic, product, quotient, sum, Arithmetic};
use crate::config::HALF_BITS;
use crate::csc::{has_shape, rows_of};
use crate::dense::DenseAlgebra;
use crate::ik::TWO_BITS;
use crate::kalman_steps::{
    correction, innovation, is_correction, is_innovation, is_next_state, is_posterior, is_spread,
    next_state, posterior, spread,
};
use crate::scalar::{minus_one, one, zero, Scalar, Vec3};

verus! {

/// Bits of the factor on the noise of a foot in the air.
pub const HIGH_SUSPECT_BITS: u64 = 0x4059_0000_0000_0000;

/// Bits of the variance of a state nothing is known of.
pub const LOOSE_BITS: u64 = 0x4059_0000_0000_0000;

/// Bits of twenty.
pub const TWENTY_BITS: u64 = 0x4034_0000_0000_0000;

/// Bits of the gravity acceleration (m/s^2).
pub const G_BITS: u64 = 0x4023_9EB8_51EB_851F;

/// What one step takes in.
#[derive(Clone, Copy, Debug)]
pub struct LinearKalmanInputs {
    /// Time step (s).
    pub dt: Scalar,
    /// Acceleration of the body less gravity, world frame (m/s^2).
    pub accel_world: Vec3,
    /// From the body to each foot, world frame (m).
    pub foot_pos_world_offset: [Vec3; 4],
    /// Velocity of each foot relative to the body, world frame (m/s).
    pub foot_vel_world: [Vec3; 4],
    /// Whether each foot is on the ground.
    pub contact_flag: [bool; 4],
}

/// What the filter estimates.
#[derive(Clone, Copy, Debug)]
pub struct LinearKalmanOutput {
    /// Body position (m).
    pub body_pos_world: Vec3,
    /// Body velocity (m/s).
    pub body_vel_world: Vec3,
    /// Foot positions (m).
    pub foot_pos_world: [Vec3; 4],
}

/// The filter.
#[derive(Debug)]
pub struct LinearKalmanEstimator {
    /// State estimate.
    pub x_hat: Vec<Scalar>,
    /// Covariance.
    pub p: Vec<Vec<Scalar>>,
    /// Process noise of the body position.
    pub imu_process_noise_position: Scalar,
    /// Process noise of the body velocity.
    pub imu_process_noise_velocity: Scalar,
    /// Process noise of a foot position.
    pub foot_process_noise_position: Scalar,
    /// Measurement noise of a foot position.
    pub foot_sensor_noise_position: Scalar,
    /// Measurement noise of a foot velocity.
    pub foot_sensor_noise_velocity: Scalar,
    /// Measurement noise of a foot height.
    pub foot_height_sensor_noise: Scalar,
    /// Radius of a foot (m).
    pub foot_radius: Scalar,
}

/// The algebra keeps the sizes of state and covariance.
pub open spec fn keeps_sizes<M, L: DenseAlgebra<M>>(la: &L) -> bool {
    &&& forall|
        a: Vec<Vec<Scalar>>,
        x: Vec<Scalar>,
        b: Vec<Vec<Scalar>>,
        u: Vec3,
        r: Vec<Scalar>,
    | #[trigger]
        is_next_state::<M, L>(la, a, x, b, u, r) ==> r@.len() == x@.len()
    &&& forall|
        a: Vec<Vec<Scalar>>,
        p: Vec<Vec<Scalar>>,
        q: Vec<Vec<Scalar>>,
        r: Vec<Vec<Scalar>>,
    |
        has_shape(q@, 18, 18) && #[trigger] is_spread::<M, L>(la, a, p, q, r) ==> has_shape(
            r@,
            18,
            18,
        )
    &&& forall|
        p: Vec<Vec<Scalar>>,
        c: Vec<Vec<Scalar>>,
        s: Vec<Vec<Scalar>>,
        e: Vec<Scalar>,
        r: Vec<Scalar>,
    | #[trigger]
        is_correction::<M, L>(la, p, c, s, e, Some(r)) ==> r@.len() == p@.len()
    &&& forall|
        p: Vec<Vec<Scalar>>,
        c: Vec<Vec<Scalar>>,
        s: Vec<Vec<Scalar>>,
        r: Vec<Vec<Scalar>>,
    |
        has_shape(p@, 18, 18) && #[trigger] is_posterior::<M, L>(la, p, c, s, Some(r))
            ==> has_shape(r@, 18, 18)
}

/// A matrix with the given entries.
pub fn tabulate<F: Fn(usize, usize) -> Scalar>(rows: usize, cols: usize, f: F) -> (r: Vec<
    Vec<Scalar>,
>)
    requires
        forall|i: usize, j: usize| i < rows && j < cols ==> #[trigger] call_requires(f, (i, j)),
    ensures
        has_shape(r@, rows as nat, cols as nat),
        forall|i: int, j: int|
            0 <= i < rows && 0 <= j < cols ==> call_ensures(
                f,
                (i as usize, j as usize),
                #[trigger] r@[i]@[j],
            ),
{
    let mut r: Vec<Vec<Scalar>> = Vec::new();
    let mut i: usize = 0;
    while i < rows
        invariant
            i <= rows,
            forall|i: usize, j: usize| i < rows && j < cols ==> #[trigger] call_requires(f, (i, j)),
            has_shape(r@, i as nat, cols as nat),
            forall|a: int, b: int|
                0 <= a < i && 0 <= b < cols ==> call_ensures(
                    f,
                    (a as usize, b as usize),
                    #[trigger] r@[a]@[b],
                ),
        decreases rows - i,
    {
        let mut row: Vec<Scalar> = Vec::new();
        let mut j: usize = 0;
        while j < cols
            invariant
                i < rows,
                j <= cols,
                forall|i: usize, j: usize|
                    i < rows && j < cols ==> #[trigger] call_requires(f, (i, j)),
                row@.len() == j,
                forall|b: int|
                    0 <= b < j ==> call_ensures(f, (i, b as usize), #[trigger] row@[b]),
            decreases cols - j,
        {
            let e = f(i, j);
            row.push(e);
            j += 1;
        }
        r.push(row);
        i += 1;
    }
    r
}

/// State transition: positions move on with the velocity.
pub open spec fn a_entry(dt: Scalar, i: int, j: int) -> Scalar {
    if i == j {
        one()
    } else if i < 3 && j == i + 3 {
        dt
    } else {
        zero()
    }
}

/// Effect of the acceleration on position and velocity.
pub open spec fn b_entry(half_dt2: Scalar, dt: Scalar, i: int, j: int) -> Scalar {
    if i < 3 && j == i {
        half_dt2
    } else if 3 <= i < 6 && j == i - 3 {
        dt
    } else {
        zero()
    }
}

/// Observation: body less foot position, body velocity, foot height.
pub open spec fn c_entry(i: int, j: int) -> Scalar {
    if i < 12 {
        if j == i % 3 {
            one()
        } else if j == 6 + i {
            minus_one()
        } else {
            zero()
        }
    } else if i < 24 {
        if j == 3 + i % 3 {
            one()
        } else {
            zero()
        }
    } else if j == 8 + 3 * (i - 24) {
        one()
    } else {
        zero()
    }
}

/// Factor on the noise of a foot.
pub open spec fn suspect(contact: bool) -> Scalar {
    if contact {
        one()
    } else {
        Scalar { bits: HIGH_SUSPECT_BITS }
    }
}

impl LinearKalmanEstimator {
    /// State and covariance have their sizes.
    pub open spec fn wf(self) -> bool {
        self.x_hat@.len() == 18 && has_shape(self.p@, 18, 18)
    }

    /// Diagonal of the process noise.
    pub open spec fn q_value<A: Arithmetic>(
        self,
        ar: &A,
        dt: Scalar,
        contact: Seq<bool>,
        i: int,
    ) -> Scalar {
        let twenty = Scalar { bits: TWENTY_BITS };
        if i < 3 {
            product(ar, quotient(ar, dt, twenty), self.imu_process_noise_position)
        } else if i < 6 {
            product(
                ar,
                quotient(ar, product(ar, dt, Scalar { bits: G_BITS }), twenty),
                self.imu_process_noise_velocity,
            )
        } else {
            product(
                ar,
                product(ar, dt, self.foot_process_noise_position),
                suspect(contact[(i - 6) / 3]),
            )
        }
    }

    /// Diagonal of the measurement noise.
    pub open spec fn r_value<A: Arithmetic>(self, ar: &A, contact: Seq<bool>, i: int) -> Scalar {
        if i < 12 {
            self.foot_sensor_noise_position
        } else if i < 24 {
            product(ar, self.foot_sensor_noise_velocity, suspect(contact[(i - 12) / 3]))
        } else {
            product(ar, self.foot_height_sensor_noise, suspect(contact[i - 24]))
        }
    }

    /// The observation.
    pub open spec fn y_value<A: Arithmetic>(self, ar: &A, inputs: LinearKalmanInputs, i: int) -> Scalar {
        if i < 12 {
            let v = inputs.foot_pos_world_offset@[i / 3].at(i % 3).neg_spec();
            if i % 3 == 2 {
                sum(ar, v, self.foot_radius)
            } else {
                v
            }
        } else if i < 24 {
            inputs.foot_vel_world@[(i - 12) / 3].at(i % 3).neg_spec()
        } else {
            zero()
        }
    }
}

/// The matrices and the observation of a step.
#[derive(Debug)]
pub struct KalmanSystem {
    /// State transition.
    pub a: Vec<Vec<Scalar>>,
    /// Effect of the acceleration.
    pub b: Vec<Vec<Scalar>>,
    /// Observation matrix.
    pub c: Vec<Vec<Scalar>>,
    /// Process noise.
    pub q: Vec<Vec<Scalar>>,
    /// Measurement noise.
    pub r: Vec<Vec<Scalar>>,
    /// Observation.
    pub y: Vec<Scalar>,
}

impl KalmanSystem {
    /// The parts have their sizes, and the noise matrices are diagonal; the
    /// observation matrix is fixed.
    pub open spec fn wf(self) -> bool {
        &&& has_shape(self.a@, 18, 18)
        &&& has_shape(self.b@, 18, 3)
        &&& has_shape(self.c@, 28, 18)
        &&& has_shape(self.q@, 18, 18)
        &&& has_shape(self.r@, 28, 28)
        &&& self.y@.len() == 28
        &&& forall|i: int, j: int|
            0 <= i < 28 && 0 <= j < 18 ==> #[trigger] self.c@[i]@[j] == c_entry(i, j)
        &&& forall|i: int, j: int|
            0 <= i < 18 && 0 <= j < 18 && i != j ==> #[trigger] self.q@[i]@[j] == zero()
        &&& forall|i: int, j: int|
            0 <= i < 28 && 0 <= j < 28 && i != j ==> #[trigger] self.r@[i]@[j] == zero()
    }

    /// The entries that are computed.
    pub open spec fn is_for<A: Arithmetic>(
        self,
        ar: &A,
        e: LinearKalmanEstimator,
        inputs: LinearKalmanInputs,
    ) -> bool {
        let dt = inputs.dt.max_spec(zero());
        let half_dt2 = product(ar, product(ar, Scalar { bits: HALF_BITS }, dt), dt);
        &&& forall|i: int, j: int|
            0 <= i < 18 && 0 <= j < 18 ==> #[trigger] self.a@[i]@[j] == a_entry(dt, i, j)
        &&& forall|i: int, j: int|
            0 <= i < 18 && 0 <= j < 3 ==> #[trigger] self.b@[i]@[j] == b_entry(half_dt2, dt, i, j)
        &&& forall|i: int|
            0 <= i < 18 ==> #[trigger] self.q@[i]@[i] == e.q_value(
                ar,
                dt,
                inputs.contact_flag@,
                i,
            )
        &&& forall|i: int|
            0 <= i < 28 ==> #[trigger] self.r@[i]@[i] == e.r_value(ar, inputs.contact_flag@, i)
        &&& forall|i: int| 0 <= i < 28 ==> #[trigger] self.y@[i] == e.y_value(ar, inputs, i)
    }
}

fn suspicion(contact: bool) -> (r: Scalar)
    ensures
        r == suspect(contact),
{
    if contact {
        one()
    } else {
        Scalar { bits: HIGH_SUSPECT_BITS }
    }
}

fn transition(dt: Scalar) -> (r: Vec<Vec<Scalar>>)
    ensures
        has_shape(r@, 18, 18),
        forall|i: int, j: int|
            0 <= i < 18 && 0 <= j < 18 ==> #[trigger] r@[i]@[j] == a_entry(dt, i, j),
{
    let entry = |i: usize, j: usize| -> (e: Scalar)
        requires
            i < 18,
            j < 18,
        ensures
            e == a_entry(dt, i as int, j as int),
        {
            if i == j {
                one()
            } else if i < 3 && j == i + 3 {
                dt
            } else {
                zero()
            }
        };
    tabulate(18, 18, entry)
}

fn drive(half_dt2: Scalar, dt: Scalar) -> (r: Vec<Vec<Scalar>>)
    ensures
        has_shape(r@, 18, 3),
        forall|i: int, j: int|
            0 <= i < 18 && 0 <= j < 3 ==> #[trigger] r@[i]@[j] == b_entry(half_dt2, dt, i, j),
{
    let entry = |i: usize, j: usize| -> (e: Scalar)
        requires
            i < 18,
            j < 3,
        ensures
            e == b_entry(half_dt2, dt, i as int, j as int),
        {
            if i < 3 && j == i {
                half_dt2
            } else if 3 <= i && i < 6 && j == i - 3 {
                dt
            } else {
                zero()
            }
        };
    tabulate(18, 3, entry)
}

fn observation_matrix() -> (r: Vec<Vec<Scalar>>)
    ensures
        has_shape(r@, 28, 18),
        forall|i: int, j: int|
            0 <= i < 28 && 0 <= j < 18 ==> #[trigger] r@[i]@[j] == c_entry(i, j),
{
    let entry = |i: usize, j: usize| -> (e: Scalar)
        requires
            i < 28,
            j < 18,
        ensures
            e == c_entry(i as int, j as int),
        {
            if i < 12 {
                if j == i % 3 {
                    one()
                } else if j == 6 + i {
                    minus_one()
                } else {
                    zero()
                }
            } else if i < 24 {
                if j == 3 + i % 3 {
                    one()
                } else {
                    zero()
                }
            } else if j == 8 + 3 * (i - 24) {
                one()
            } else {
                zero()
            }
        };
    tabulate(28, 18, entry)
}

fn diagonal(d: &Vec<Scalar>, n: usize) -> (r: Vec<Vec<Scalar>>)
    requires
        d@.len() == n,
    ensures
        has_shape(r@, n as nat, n as nat),
        forall|i: int, j: int|
            0 <= i < n && 0 <= j < n && i != j ==> #[trigger] r@[i]@[j] == zero(),
        forall|i: int| 0 <= i < n ==> #[trigger] r@[i]@[i] == d@[i],
{
    let entry = |i: usize, j: usize| -> (e: Scalar)
        requires
            i < n,
            j < n,
        ensures
            e == (if i == j {
                d@[i as int]
            } else {
                zero()
            }),
        {
            if i == j {
                d[i]
            } else {
                zero()
            }
        };
    tabulate(n, n, entry)
}

impl LinearKalmanEstimator {
    fn process_noise<A: Arithmetic>(&self, ar: &A, dt: Scalar, contact: &[bool; 4]) -> (r: Vec<
        Scalar,
    >)
        ensures
            r@.len() == 18,
            deterministic(ar) ==> forall|i: int|
                0 <= i < 18 ==> #[trigger] r@[i] == self.q_value(ar, dt, contact@, i),
    {
        let twenty = Scalar { bits: TWENTY_BITS };
        let q_pos = ar.times(ar.over(dt, twenty), self.imu_process_noise_position);
        let q_vel = ar.times(
            ar.over(ar.times(dt, Scalar { bits: G_BITS }), twenty),
            self.imu_process_noise_velocity,
        );
        let q_foot = ar.times(dt, self.foot_process_noise_position);
        let mut r: Vec<Scalar> = Vec::new();
        let mut i: usize = 0;
        while i < 18
            invariant
                i <= 18,
                r@.len() == i,
                deterministic(ar) ==> q_pos == self.q_value(ar, dt, contact@, 0) && q_vel
                    == self.q_value(ar, dt, contact@, 3) && q_foot == product(
                    ar,
                    dt,
                    self.foot_process_noise_position,
                ),
                deterministic(ar) ==> forall|k: int|
                    0 <= k < i ==> #[trigger] r@[k] == self.q_value(ar, dt, contact@, k),
            decreases 18 - i,
        {
            if i < 3 {
                r.push(q_pos);
            } else if i < 6 {
                r.push(q_vel);
            } else {
                r.push(ar.times(q_foot, suspicion(contact[(i - 6) / 3])));
            }
            i += 1;
        }
        r
    }

    fn measurement_noise<A: Arithmetic>(&self, ar: &A, contact: &[bool; 4]) -> (r: Vec<Scalar>)
        ensures
            r@.len() == 28,
            deterministic(ar) ==> forall|i: int|
                0 <= i < 28 ==> #[trigger] r@[i] == self.r_value(ar, contact@, i),
    {
        let mut r: Vec<Scalar> = Vec::new();
        let mut i: usize = 0;
        while i < 28
            invariant
                i <= 28,
                r@.len() == i,
                deterministic(ar) ==> forall|k: int|
                    0 <= k < i ==> #[trigger] r@[k] == self.r_value(ar, contact@, k),
            decreases 28 - i,
        {
            if i < 12 {
                r.push(self.foot_sensor_noise_position);
            } else if i < 24 {
                r.push(
                    ar.times(self.foot_sensor_noise_velocity, suspicion(contact[(i - 12) / 3])),
                );
            } else {
                r.push(ar.times(self.foot_height_sensor_noise, suspicion(contact[i - 24])));
            }
            i += 1;
        }
        r
    }

    fn observation<A: Arithmetic>(&self, ar: &A, inputs: &LinearKalmanInputs) -> (r: Vec<Scalar>)
        ensures
            r@.len() == 28,
            deterministic(ar) ==> forall|i: int|
                0 <= i < 28 ==> #[trigger] r@[i] == self.y_value(ar, *inputs, i),
    {
        let mut r: Vec<Scalar> = Vec::new();
        let mut i: usize = 0;
        while i < 28
            invariant
                i <= 28,
                r@.len() == i,
                deterministic(ar) ==> forall|k: int|
                    0 <= k < i ==> #[trigger] r@[k] == self.y_value(ar, *inputs, k),
            decreases 28 - i,
        {
            if i < 12 {
                let v = inputs.foot_pos_world_offset[i / 3].get(i % 3).neg();
                if i % 3 == 2 {
                    r.push(ar.plus(v, self.foot_radius));
                } else {
                    r.push(v);
                }
            } else if i < 24 {
                r.push(inputs.foot_vel_world[(i - 12) / 3].get(i % 3).neg());
            } else {
                r.push(zero());
            }
            i += 1;
        }
        r
    }

    /// The matrices and the observation of a step. A negative time step counts
    /// as none.
    pub fn system<A: Arithmetic>(&self, ar: &A, inputs: &LinearKalmanInputs) -> (r: KalmanSystem)
        ensures
            r.wf(),
            deterministic(ar) ==> r.is_for(ar, *self, *inputs),
    {
        let dt = inputs.dt.max(zero());
        let half_dt2 = ar.times(ar.times(Scalar { bits: HALF_BITS }, dt), dt);
        let q = self.process_noise(ar, dt, &inputs.contact_flag);
        let r = self.measurement_noise(ar, &inputs.contact_flag);
        KalmanSystem {
            a: transition(dt),
            b: drive(half_dt2, dt),
            c: observation_matrix(),
            q: diagonal(&q, 18),
            r: diagonal(&r, 28),
            y: self.observation(ar, inputs),
        }
    }
}

/// A matrix averaged with its transpose.
pub open spec fn symmetrised<A: Arithmetic>(ar: &A, p: Seq<Seq<Scalar>>, i: int, j: int) -> Scalar {
    quotient(ar, sum(ar, p[i][j], p[j][i]), Scalar { bits: TWO_BITS })
}

/// The average is symmetric when sums do not depend on the order of their terms.
pub proof fn symmetrised_is_symmetric<A: Arithmetic>(ar: &A, p: Seq<Seq<Scalar>>, i: int, j: int)
    requires
        forall|a: Scalar, b: Scalar| #[trigger] sum(ar, a, b) == sum(ar, b, a),
    ensures
        symmetrised(ar, p, i, j) == symmetrised(ar, p, j, i),
{
}

fn symmetrise<A: Arithmetic>(ar: &A, p: &Vec<Vec<Scalar>>) -> (r: Vec<Vec<Scalar>>)
    requires
        has_shape(p@, 18, 18),
    ensures
        has_shape(r@, 18, 18),
        deterministic(ar) ==> forall|i: int, j: int|
            0 <= i < 18 && 0 <= j < 18 ==> #[trigger] r@[i]@[j] == symmetrised(
                ar,
                rows_of(p@),
                i,
                j,
            ),
{
    let entry = |i: usize, j: usize| -> (e: Scalar)
        requires
            i < 18,
            j < 18,
        ensures
            deterministic(ar) ==> e == symmetrised(ar, rows_of(p@), i as int, j as int),
        {
            assert(p@[i as int]@.len() == 18 && p@[j as int]@.len() == 18);
            ar.over(ar.plus(p[i][j], p[j][i]), Scalar { bits: TWO_BITS })
        };
    tabulate(18, 18, entry)
}

fn plus_all<A: Arithmetic>(ar: &A, a: &Vec<Scalar>, b: &Vec<Scalar>) -> (r: Vec<Scalar>)
    requires
        a@.len() == b@.len(),
    ensures
        r@.len() == a@.len(),
        deterministic(ar) ==> forall|i: int|
            0 <= i < a@.len() ==> #[trigger] r@[i] == sum(ar, a@[i], b@[i]),
{
    let mut r: Vec<Scalar> = Vec::new();
    let mut i: usize = 0;
    while i < a.len()
        invariant
            i <= a@.len(),
            a@.len() == b@.len(),
            r@.len() == i,
            deterministic(ar) ==> forall|k: int|
                0 <= k < i ==> #[trigger] r@[k] == sum(ar, a@[k], b@[k]),
        decreases a@.len() - i,
    {
        r.push(ar.plus(a[i], b[i]));
        i += 1;
    }
    r
}

/// A diagonal covariance that says nothing is known.
pub open spec fn is_loose(p: Seq<Vec<Scalar>>) -> bool {
    &&& has_shape(p, 18, 18)
    &&& forall|i: int, j: int|
        0 <= i < 18 && 0 <= j < 18 ==> #[trigger] p[i]@[j] == (if i == j {
            Scalar { bits: LOOSE_BITS }
        } else {
            zero()
        })
}

fn loose() -> (r: Vec<Vec<Scalar>>)
    ensures
        is_loose(r@),
{
    let entry = |i: usize, j: usize| -> (e: Scalar)
        ensures
            e == (if i == j {
                Scalar { bits: LOOSE_BITS }
            } else {
                zero()
            }),
        {
            if i == j {
                Scalar { bits: LOOSE_BITS }
            } else {
                zero()
            }
        };
    tabulate(18, 18, entry)
}

/// What an estimate says of body and feet.
pub open spec fn decodes(x: Seq<Scalar>, out: LinearKalmanOutput) -> bool {
    &&& out.body_pos_world == Vec3::new(x[0], x[1], x[2])
    &&& out.body_vel_world == Vec3::new(x[3], x[4], x[5])
    &&& forall|slot: int|
        0 <= slot < 4 ==> #[trigger] out.foot_pos_world@[slot] == Vec3::new(
            x[6 + 3 * slot],
            x[7 + 3 * slot],
            x[8 + 3 * slot],
        )
}

/// What a step went through.
pub struct KalmanTrace {
    /// The matrices and the observation.
    pub sys: KalmanSystem,
    /// Predicted state.
    pub x: Vec<Scalar>,
    /// Predicted covariance.
    pub pm: Vec<Vec<Scalar>>,
    /// Innovation.
    pub e: Vec<Scalar>,
    /// Covariance of the innovation.
    pub s: Vec<Vec<Scalar>>,
}

/// `t` is the prediction of a step.
pub open spec fn is_prediction<M, A: Arithmetic, L: DenseAlgebra<M>>(
    ar: &A,
    la: &L,
    f: LinearKalmanEstimator,
    inputs: LinearKalmanInputs,
    t: KalmanTrace,
) -> bool {
    &&& t.sys.wf()
    &&& deterministic(ar) ==> t.sys.is_for(ar, f, inputs)
    &&& is_next_state::<M, L>(la, t.sys.a, f.x_hat, t.sys.b, inputs.accel_world, t.x)
    &&& is_spread::<M, L>(la, t.sys.a, f.p, t.sys.q, t.pm)
    &&& is_innovation::<M, L>(la, t.sys.y, t.sys.c, t.x, t.e)
    &&& is_spread::<M, L>(la, t.sys.c, t.pm, t.sys.r, t.s)
}

/// `g` is the filter after correcting a prediction: the state alone is predicted
/// when the innovation covariance is singular, the covariance alone when only
/// the second inverse fails.
pub open spec fn is_corrected<M, A: Arithmetic, L: DenseAlgebra<M>>(
    ar: &A,
    la: &L,
    f: LinearKalmanEstimator,
    t: KalmanTrace,
    g: LinearKalmanEstimator,
) -> bool {
    ||| {
        &&& is_correction::<M, L>(la, t.pm, t.sys.c, t.s, t.e, None)
        &&& g.x_hat == t.x
        &&& g.p == f.p
    }
    ||| exists|d: Vec<Scalar>| {
        &&& #[trigger] is_correction::<M, L>(la, t.pm, t.sys.c, t.s, t.e, Some(d))
        &&& deterministic(ar) ==> forall|i: int|
            0 <= i < 18 ==> #[trigger] g.x_hat@[i] == sum(ar, t.x@[i], d@[i])
        &&& {
            ||| is_posterior::<M, L>(la, t.pm, t.sys.c, t.s, None) && g.p == t.pm
            ||| exists|p: Vec<Vec<Scalar>>| {
                &&& #[trigger] is_posterior::<M, L>(la, t.pm, t.sys.c, t.s, Some(p))
                &&& deterministic(ar) ==> forall|i: int, j: int|
                    0 <= i < 18 && 0 <= j < 18 ==> #[trigger] g.p@[i]@[j] == symmetrised(
                        ar,
                        rows_of(p@),
                        i,
                        j,
                    )
            }
        }
    }
}

impl LinearKalmanEstimator {
    /// Body and feet at the origin, nothing known.
    pub fn new() -> (r: LinearKalmanEstimator)
        ensures
            r.wf(),
            forall|i: int| 0 <= i < 18 ==> #[trigger] r.x_hat@[i] == zero(),
            is_loose(r.p@),
            r.imu_process_noise_position == (Scalar { bits: 0x3FC9_9999_9999_999A }),
            r.imu_process_noise_velocity == (Scalar { bits: 0x3FC9_9999_9999_999A }),
            r.foot_process_noise_position == (Scalar { bits: 0x3F60_624D_D2F1_A9FC }),
            r.foot_sensor_noise_position == (Scalar { bits: 0x3F74_7AE1_47AE_147B }),
            r.foot_sensor_noise_velocity == (Scalar { bits: 0x3FB9_9999_9999_999A }),
            r.foot_height_sensor_noise == (Scalar { bits: 0x3F74_7AE1_47AE_147B }),
            r.foot_radius == zero(),
    {
        LinearKalmanEstimator {
            x_hat: crate::rows::make_zero_row(18),
            p: loose(),
            imu_process_noise_position: Scalar { bits: 0x3FC9_9999_9999_999A },
            imu_process_noise_velocity: Scalar { bits: 0x3FC9_9999_9999_999A },
            foot_process_noise_position: Scalar { bits: 0x3F60_624D_D2F1_A9FC },
            foot_sensor_noise_position: Scalar { bits: 0x3F74_7AE1_47AE_147B },
            foot_sensor_noise_velocity: Scalar { bits: 0x3FB9_9999_9999_999A },
            foot_height_sensor_noise: Scalar { bits: 0x3F74_7AE1_47AE_147B },
            foot_radius: zero(),
        }
    }

    /// Sets body and feet to known places, at rest, with nothing known of how
    /// well. The tuning stays.
    pub fn reset(&mut self, body_pos_world: Vec3, foot_pos_world: &[Vec3; 4])
        ensures
            final(self).wf(),
            final(self).x_hat@ == seq![
                body_pos_world.x, body_pos_world.y, body_pos_world.z, zero(), zero(), zero(),
                foot_pos_world@[0].x, foot_pos_world@[0].y, foot_pos_world@[0].z,
                foot_pos_world@[1].x, foot_pos_world@[1].y, foot_pos_world@[1].z,
                foot_pos_world@[2].x, foot_pos_world@[2].y, foot_pos_world@[2].z,
                foot_pos_world@[3].x, foot_pos_world@[3].y, foot_pos_world@[3].z,
            ],
            is_loose(final(self).p@),
            *final(self) == (LinearKalmanEstimator {
                x_hat: final(self).x_hat,
                p: final(self).p,
                ..*old(self)
            }),
    {
        let f = foot_pos_world;
        let mut x: Vec<Scalar> = Vec::new();
        x.push(body_pos_world.x);
        x.push(body_pos_world.y);
        x.push(body_pos_world.z);
        x.push(zero());
        x.push(zero());
        x.push(zero());
        x.push(f[0].x);
        x.push(f[0].y);
        x.push(f[0].z);
        x.push(f[1].x);
        x.push(f[1].y);
        x.push(f[1].z);
        x.push(f[2].x);
        x.push(f[2].y);
        x.push(f[2].z);
        x.push(f[3].x);
        x.push(f[3].y);
        x.push(f[3].z);
        self.x_hat = x;
        self.p = loose();
    }

    /// What the estimate says of body and feet.
    pub fn decode(&self) -> (r: LinearKalmanOutput)
        requires
            self.wf(),
        ensures
            decodes(self.x_hat@, r),
    {
        let x = &self.x_hat;
        LinearKalmanOutput {
            body_pos_world: Vec3::new(x[0], x[1], x[2]),
            body_vel_world: Vec3::new(x[3], x[4], x[5]),
            foot_pos_world: [
                Vec3::new(x[6], x[7], x[8]),
                Vec3::new(x[9], x[10], x[11]),
                Vec3::new(x[12], x[13], x[14]),
                Vec3::new(x[15], x[16], x[17]),
            ],
        }
    }

    /// One step: predict from the acceleration, then correct by the legs.
    pub fn update<M, A: Arithmetic, L: DenseAlgebra<M>>(
        &mut self,
        ar: &A,
        la: &L,
        inputs: &LinearKalmanInputs,
    ) -> (r: LinearKalmanOutput)
        requires
            old(self).wf(),
            keeps_sizes::<M, L>(la),
        ensures
            final(self).wf(),
            *final(self) == (LinearKalmanEstimator {
                x_hat: final(self).x_hat,
                p: final(self).p,
                ..*old(self)
            }),
            decodes(final(self).x_hat@, r),
            exists|t: KalmanTrace| #[trigger]
                is_prediction::<M, A, L>(ar, la, *old(self), *inputs, t) && is_corrected::<M, A, L>(
                    ar,
                    la,
                    *old(self),
                    t,
                    *final(self),
                ),
    {
        let sys = self.system(ar, inputs);
        let x = next_state::<M, L>(la, &sys.a, &self.x_hat, &sys.b, inputs.accel_world);
        let pm = spread::<M, L>(la, &sys.a, &self.p, &sys.q);
        let e = innovation::<M, L>(la, &sys.y, &sys.c, &x);
        let s = spread::<M, L>(la, &sys.c, &pm, &sys.r);
        let ghost t = KalmanTrace { sys, x, pm, e, s };
        assert(is_prediction::<M, A, L>(ar, la, *old(self), *inputs, t));
        match correction::<M, L>(la, &pm, &sys.c, &s, &e) {
            None => {
                self.x_hat = x;
                assert(is_corrected::<M, A, L>(ar, la, *old(self), t, *self));
            },
            Some(d) => {
                self.x_hat = plus_all(ar, &x, &d);
                match posterior::<M, L>(la, &pm, &sys.c, &s) {
                    None => {
                        self.p = pm;
                        assert(is_corrected::<M, A, L>(ar, la, *old(self), t, *self));
                    },
                    Some(p) => {
                        self.p = symmetrise(ar, &p);
                        assert(is_corrected::<M, A, L>(ar, la, *old(self), t, *self));
                    },
                }
            },
        }
        self.decode()
    }
}

/// After a reset the estimate decodes to the places it was set to, at rest.
pub proof fn reset_is_decoded(body: Vec3, feet: Seq<Vec3>, x: Seq<Scalar>, out: LinearKalmanOutput)
    requires
        feet.len() == 4,
        x == seq![
            body.x, body.y, body.z, zero(), zero(), zero(),
            feet[0].x, feet[0].y, feet[0].z, feet[1].x, feet[1].y, feet[1].z,
            feet[2].x, feet[2].y, feet[2].z, feet[3].x, feet[3].y, feet[3].z,
        ],
        decodes(x, out),
    ensures
        out.body_pos_world == body,
        out.body_vel_world == Vec3::zeros(),
        out.foot_pos_world@ == feet,
{
    assert(out.foot_pos_world@[0] == feet[0]);
    assert(out.foot_pos_world@[1] == feet[1]);
    assert(out.foot_pos_world@[2] == feet[2]);
    assert(out.foot_pos_world@[3] == feet[3]);
    assert(out.foot_pos_world@ =~= feet);
}

} // verus!
