//! Attitude, odometry and state estimation.

use nalgebra::{DMatrix, Matrix3, Quaternion, UnitQuaternion, Vector3};
use quadruped_gait::arith::Arithmetic;
use quadruped_gait::attitude_estimator::{MadgwickAhrs as Ahrs, Quat};
use quadruped_gait::config::{KinematicsConfig, LegId, LegKinematics};
use quadruped_gait::controller::LegModel;
use quadruped_gait::dense::DenseAlgebra;
use quadruped_gait::ik::forward_leg_kinematics;
use quadruped_gait::kalman_steps::{correction, next_state, posterior, spread};
use quadruped_gait::leg_odometry::{LegMeasurement, LegOdometry as Odometry};
use quadruped_gait::lift::BlockAlgebra;
use quadruped_gait::linear_kalman::{LinearKalmanEstimator as Filter, LinearKalmanInputs as Inputs};
use quadruped_gait::scalar::{Mat3, Scalar, Vec3};
use std::f64::consts::PI;

struct Host;

fn s(x: f64) -> Scalar {
    Scalar::from_bits(x.to_bits())
}

fn f(x: Scalar) -> f64 {
    f64::from_bits(x.to_bits())
}

impl Arithmetic for Host {
    fn plus(&self, a: Scalar, b: Scalar) -> Scalar {
        s(f(a) + f(b))
    }
    fn minus(&self, a: Scalar, b: Scalar) -> Scalar {
        s(f(a) - f(b))
    }
    fn times(&self, a: Scalar, b: Scalar) -> Scalar {
        s(f(a) * f(b))
    }
    fn over(&self, a: Scalar, b: Scalar) -> Scalar {
        s(f(a) / f(b))
    }
    fn sqrt(&self, a: Scalar) -> Scalar {
        s(f(a).sqrt())
    }
    fn sin(&self, a: Scalar) -> Scalar {
        s(f(a).sin())
    }
    fn cos(&self, a: Scalar) -> Scalar {
        s(f(a).cos())
    }
    fn atan2(&self, y: Scalar, x: Scalar) -> Scalar {
        s(f(y).atan2(f(x)))
    }
    fn acos(&self, a: Scalar) -> Scalar {
        s(f(a).acos())
    }
    fn wrap(&self, a: Scalar, period: Scalar) -> Scalar {
        s(f(a).rem_euclid(f(period)))
    }
    fn floor(&self, a: Scalar) -> Scalar {
        s(f(a).floor())
    }
    fn from_count(&self, n: usize) -> Scalar {
        s(n as f64)
    }
    fn round_to_count(&self, a: Scalar) -> usize {
        f(a).round() as usize
    }
}

fn v(p: Vector3<f64>) -> Vec3 {
    Vec3::new(s(p.x), s(p.y), s(p.z))
}

fn w(p: Vec3) -> Vector3<f64> {
    Vector3::new(f(p.x), f(p.y), f(p.z))
}

struct MadgwickAhrs {
    beta: f64,
    q: UnitQuaternion<f64>,
}

impl MadgwickAhrs {
    fn new(beta: f64) -> Self {
        let e = Ahrs::new(s(beta));
        MadgwickAhrs { beta, q: Self::turn(e.quaternion()) }
    }
    fn turn(q: Quat) -> UnitQuaternion<f64> {
        UnitQuaternion::new_unchecked(Quaternion::new(f(q.w), f(q.x), f(q.y), f(q.z)))
    }
    fn inner(&self) -> Ahrs {
        let q = self.q;
        Ahrs { beta: s(self.beta), q: Quat { w: s(q.w), x: s(q.i), y: s(q.j), z: s(q.k) } }
    }
    fn update_imu(&mut self, gyro: [f64; 3], accel: [f64; 3], dt: f64) {
        let mut e = self.inner();
        e.update_imu(&Host, v(Vector3::from(gyro)), v(Vector3::from(accel)), s(dt));
        self.q = Self::turn(e.quaternion());
    }
    fn reset(&mut self) {
        let mut e = self.inner();
        e.reset();
        self.q = Self::turn(e.quaternion());
    }
    fn euler_zyx(&self) -> (f64, f64, f64) {
        self.q.euler_angles()
    }
}

struct Legs;

fn foot(kin: &LegKinematics, q: [f64; 3]) -> Vector3<f64> {
    w(forward_leg_kinematics(&Host, kin, s(q[0]), s(q[1]), s(q[2])))
}

fn foot_jacobian_body(kin: &LegKinematics, hip: f64, thigh: f64, calf: f64) -> Matrix3<f64> {
    let h = 1e-6;
    let q = [hip, thigh, calf];
    let mut j = Matrix3::zeros();
    for c in 0..3 {
        let mut a = q;
        let mut b = q;
        a[c] += h;
        b[c] -= h;
        j.set_column(c, &((foot(kin, a) - foot(kin, b)) / (2.0 * h)));
    }
    j
}

impl LegModel for Legs {
    fn position(&self, lift_off: Vec3, _: Vec3, _: Scalar, _: Scalar) -> Vec3 {
        lift_off
    }
    fn vertical_velocity(&self, _: Scalar, _: Scalar, _: Scalar) -> Scalar {
        s(0.0)
    }
    fn jacobian(&self, kin: &LegKinematics, hip: Scalar, thigh: Scalar, calf: Scalar) -> Mat3 {
        let j = foot_jacobian_body(kin, f(hip), f(thigh), f(calf));
        let row = |i: usize| Vec3::new(s(j[(i, 0)]), s(j[(i, 1)]), s(j[(i, 2)]));
        Mat3 { x: row(0), y: row(1), z: row(2) }
    }
    fn capture_step(&self, v: Scalar, k: Scalar, _: Scalar, _: Scalar) -> Scalar {
        s(f(v) * f(k))
    }
}

struct LegOdometry(Odometry);

impl LegOdometry {
    fn new() -> Self {
        LegOdometry(Odometry::new())
    }
    fn update(
        &mut self,
        kin: &KinematicsConfig,
        legs: [(f64, f64, f64, f64, f64, f64, bool); 4],
        omega: Vector3<f64>,
        yaw: f64,
        dt: f64,
    ) {
        let legs = legs.map(|l| LegMeasurement {
            q: Vec3::new(s(l.0), s(l.1), s(l.2)),
            qd: Vec3::new(s(l.3), s(l.4), s(l.5)),
            stance: l.6,
        });
        self.0.update(&Host, &Legs, kin, &legs, v(omega), s(yaw), s(dt));
    }
    fn last_velocity_world(&self) -> Vector3<f64> {
        w(self.0.last_velocity_world())
    }
    fn position_world(&self) -> Vector3<f64> {
        w(self.0.position_world())
    }
}

fn build_kin() -> KinematicsConfig {
    let leg = |id: LegId, hip: Vector3<f64>| {
        let mut k = LegKinematics::new(
            &Host,
            id,
            format!("{id:?}_hip").to_lowercase(),
            format!("{id:?}_thigh").to_lowercase(),
            format!("{id:?}_calf").to_lowercase(),
            format!("{id:?}_foot").to_lowercase(),
            v(hip),
            s(0.04),
            s(0.18),
            s(0.18),
        );
        k.nominal_foot_body.z = s(-0.30);
        k
    };
    KinematicsConfig {
        fl: leg(LegId::FL, Vector3::new(0.18, 0.05, 0.0)),
        fr: leg(LegId::FR, Vector3::new(0.18, -0.05, 0.0)),
        rl: leg(LegId::RL, Vector3::new(-0.18, 0.05, 0.0)),
        rr: leg(LegId::RR, Vector3::new(-0.18, -0.05, 0.0)),
    }
}

struct Algebra;

fn mat(m: &Vec<Vec<Scalar>>) -> DMatrix<f64> {
    DMatrix::from_fn(m.len(), m[0].len(), |i, j| f(m[i][j]))
}

fn back(m: &DMatrix<f64>) -> Vec<Vec<Scalar>> {
    (0..m.nrows()).map(|i| (0..m.ncols()).map(|j| s(m[(i, j)])).collect()).collect()
}

impl BlockAlgebra<DMatrix<f64>> for Algebra {
    fn times(&self, a: &DMatrix<f64>, b: &DMatrix<f64>) -> DMatrix<f64> {
        a * b
    }
}

impl DenseAlgebra<DMatrix<f64>> for Algebra {
    fn block(&self, rows: &Vec<Vec<Scalar>>) -> DMatrix<f64> {
        mat(rows)
    }
    fn column(&self, entries: &Vec<Scalar>) -> DMatrix<f64> {
        DMatrix::from_fn(entries.len(), 1, |i, _| f(entries[i]))
    }
    fn diagonal(&self, entries: &Vec<Scalar>) -> DMatrix<f64> {
        let n = entries.len();
        DMatrix::from_fn(n, n, |i, j| if i == j { f(entries[i]) } else { 0.0 })
    }
    fn stacked(&self, blocks: &Vec<DMatrix<f64>>) -> DMatrix<f64> {
        let (h, w) = blocks[0].shape();
        DMatrix::from_fn(h * blocks.len(), w, |i, j| blocks[i / h][(i % h, j)])
    }
    fn stepped(&self, rows: &Vec<Vec<DMatrix<f64>>>) -> DMatrix<f64> {
        let (h, w) = rows[0][0].shape();
        DMatrix::from_fn(h * rows.len(), w * rows.len(), |i, j| {
            rows[i / h].get(j / w).map_or(0.0, |block| block[(i % h, j % w)])
        })
    }
    fn rows(&self, m: &DMatrix<f64>) -> Vec<Vec<Scalar>> {
        back(m)
    }
    fn entries(&self, m: &DMatrix<f64>) -> Vec<Scalar> {
        m.iter().map(|x| s(*x)).collect()
    }
    fn plus(&self, a: &DMatrix<f64>, b: &DMatrix<f64>) -> DMatrix<f64> {
        a + b
    }
    fn minus(&self, a: &DMatrix<f64>, b: &DMatrix<f64>) -> DMatrix<f64> {
        a - b
    }
    fn scaled(&self, k: Scalar, m: &DMatrix<f64>) -> DMatrix<f64> {
        f(k) * m
    }
    fn transposed(&self, m: &DMatrix<f64>) -> DMatrix<f64> {
        m.transpose()
    }
    fn solved(&self, a: &DMatrix<f64>, b: &DMatrix<f64>) -> Option<DMatrix<f64>> {
        a.clone().lu().solve(b)
    }
}

struct LinearKalmanInputs<'a> {
    dt: f64,
    accel_world: Vector3<f64>,
    foot_pos_world_offset: &'a [Vector3<f64>; 4],
    foot_vel_world: &'a [Vector3<f64>; 4],
    contact_flag: [bool; 4],
}

struct Estimate {
    body_pos_world: Vector3<f64>,
    body_vel_world: Vector3<f64>,
    foot_pos_world: [Vector3<f64>; 4],
}

struct LinearKalmanEstimator(Filter);

impl LinearKalmanEstimator {
    fn new() -> Self {
        LinearKalmanEstimator(Filter::new())
    }
    fn reset(&mut self, body: Vector3<f64>, feet: &[Vector3<f64>; 4]) {
        self.0.reset(v(body), &feet.map(v));
    }
    fn update(&mut self, i: &LinearKalmanInputs) -> Estimate {
        let inputs = Inputs {
            dt: s(i.dt),
            accel_world: v(i.accel_world),
            foot_pos_world_offset: i.foot_pos_world_offset.map(v),
            foot_vel_world: i.foot_vel_world.map(v),
            contact_flag: i.contact_flag,
        };
        let o = self.0.update(&Host, &Algebra, &inputs);
        Estimate {
            body_pos_world: w(o.body_pos_world),
            body_vel_world: w(o.body_vel_world),
            foot_pos_world: o.foot_pos_world.map(w),
        }
    }
}

#[test]
fn stationary_horizontal_converges_to_identity() {
    let mut ahrs = MadgwickAhrs::new(0.5);

    ahrs.q = UnitQuaternion::from_euler_angles(0.5, 0.3, 0.0);
    for _ in 0..10_000 {
        ahrs.update_imu([0.0, 0.0, 0.0], [0.0, 0.0, 9.81], 0.001);
    }
    let (r, p, _y) = ahrs.euler_zyx();
    assert!(r.abs() < 0.01, "roll = {r}");
    assert!(p.abs() < 0.01, "pitch = {p}");
}

#[test]
fn tilted_30deg_recovers_roll_from_accel() {
    let mut ahrs = MadgwickAhrs::new(0.5);
    let roll = 30.0_f64.to_radians();

    let ax = 0.0;
    let ay = roll.sin() * 9.81;
    let az = roll.cos() * 9.81;
    for _ in 0..5_000 {
        ahrs.update_imu([0.0, 0.0, 0.0], [ax, ay, az], 0.001);
    }
    let (r, p, _y) = ahrs.euler_zyx();
    assert!((r - roll).abs() < 0.02, "roll = {r}, expected {roll}");
    assert!(p.abs() < 0.02, "pitch should stay 0, got {p}");
}

#[test]
fn pure_yaw_integration_matches_input() {
    let mut ahrs = MadgwickAhrs::new(0.0);

    let omega_yaw = PI / 2.0;
    let dt = 0.001;
    for _ in 0..1_000 {
        ahrs.update_imu([0.0, 0.0, omega_yaw], [0.0, 0.0, 9.81], dt);
    }
    let (_r, _p, y) = ahrs.euler_zyx();

    assert!(
        (y - PI / 2.0).abs() < 0.01,
        "yaw = {y}, expected {}",
        PI / 2.0
    );
}

#[test]
fn reset_clears_state() {
    let mut ahrs = MadgwickAhrs::new(0.1);
    for _ in 0..100 {
        ahrs.update_imu([1.0, 0.5, 0.0], [0.0, 0.0, 9.81], 0.01);
    }
    let (r0, p0, y0) = ahrs.euler_zyx();
    assert!(r0.abs() + p0.abs() + y0.abs() > 0.01);

    ahrs.reset();
    let (r, p, y) = ahrs.euler_zyx();
    assert_eq!((r, p, y), (0.0, 0.0, 0.0));
}

#[test]
fn freefall_accel_does_not_panic() {
    let mut ahrs = MadgwickAhrs::new(0.1);
    for _ in 0..100 {
        ahrs.update_imu([0.0, 0.0, 0.1], [0.0, 0.0, 0.0], 0.001);
    }

    let (r, p, y) = ahrs.euler_zyx();
    assert!(r.is_finite() && p.is_finite() && y.is_finite());
}

#[test]
fn static_stance_converges_to_truth() {
    let mut kf = LinearKalmanEstimator::new();

    let body_truth = Vector3::new(0.0, 0.0, 0.30);
    let feet_truth = [
        Vector3::new(0.18, 0.10, 0.0),
        Vector3::new(0.18, -0.10, 0.0),
        Vector3::new(-0.18, 0.10, 0.0),
        Vector3::new(-0.18, -0.10, 0.0),
    ];

    let foot_offset: [Vector3<f64>; 4] =
        [0, 1, 2, 3].map(|i| feet_truth[i] - body_truth);
    let foot_vel: [Vector3<f64>; 4] = [Vector3::zeros(); 4];
    let inputs = LinearKalmanInputs {
        dt: 0.002,
        accel_world: Vector3::zeros(),
        foot_pos_world_offset: &foot_offset,
        foot_vel_world: &foot_vel,
        contact_flag: [true; 4],
    };

    for _ in 0..1000 {
        kf.update(&inputs);
    }
    let out = kf.update(&inputs);
    for k in 0..3 {
        assert!(
            (out.body_pos_world[k] - body_truth[k]).abs() < 1e-3,
            "body_pos[{k}] = {} should converge to {}",
            out.body_pos_world[k],
            body_truth[k],
        );
        assert!(
            out.body_vel_world[k].abs() < 1e-3,
            "body_vel[{k}] = {} should be 0",
            out.body_vel_world[k],
        );
    }
    for slot in 0..4 {
        for k in 0..3 {
            assert!(
                (out.foot_pos_world[slot][k] - feet_truth[slot][k]).abs() < 1e-2,
                "foot[{slot}][{k}] = {} should converge to {}",
                out.foot_pos_world[slot][k],
                feet_truth[slot][k],
            );
        }
    }
}

#[test]
fn constant_accel_integrates_to_velocity() {
    let mut kf = LinearKalmanEstimator::new();

    kf.reset(Vector3::zeros(), &[Vector3::zeros(); 4]);
    let dt = 0.002_f64;
    let nominal_offset = [
        Vector3::new(0.18, 0.10, 0.0),
        Vector3::new(0.18, -0.10, 0.0),
        Vector3::new(-0.18, 0.10, 0.0),
        Vector3::new(-0.18, -0.10, 0.0),
    ];
    let foot_vel = [Vector3::zeros(); 4];
    let inputs = LinearKalmanInputs {
        dt,
        accel_world: Vector3::new(1.0, 0.0, 0.0),
        foot_pos_world_offset: &nominal_offset,
        foot_vel_world: &foot_vel,

        contact_flag: [false; 4],
    };
    let n = (0.5 / dt) as usize;
    let mut out = kf.update(&inputs);
    for _ in 0..n {
        out = kf.update(&inputs);
    }

    assert!(
        out.body_vel_world.x > 0.1 && out.body_vel_world.x < 0.5,
        "body_vel.x = {} should be in (0.1, 0.5) (positive but damped \
         by foot-position observations)",
        out.body_vel_world.x,
    );

    assert!(out.body_vel_world.y.abs() < 0.05);
    assert!(out.body_vel_world.z.abs() < 0.05);
}

#[test]
fn static_stance_produces_zero_velocity() {
    let kin = build_kin();
    let mut odo = LegOdometry::new();

    let legs = [
        (0.0, 0.5, -1.0, 0.0, 0.0, 0.0, true),
        (0.0, 0.5, -1.0, 0.0, 0.0, 0.0, true),
        (0.0, 0.5, -1.0, 0.0, 0.0, 0.0, true),
        (0.0, 0.5, -1.0, 0.0, 0.0, 0.0, true),
    ];
    for _ in 0..100 {
        odo.update(&kin, legs, Vector3::zeros(), 0.0, 0.002);
    }
    assert!((odo.last_velocity_world().norm() - (0.0)).abs() <= 1e-12);
    assert!((odo.position_world().norm() - (0.0)).abs() <= 1e-12);
}

#[test]
fn matches_imposed_body_velocity_via_joint_rates() {
    let kin = build_kin();
    let mut odo = LegOdometry::new();

    let v_body_target = Vector3::new(0.3_f64, 0.0, 0.0);

    let q_neutral = (0.0_f64, 0.5_f64, -1.0_f64);
    let leg_kin = kin.legs();
    let mut legs = [(q_neutral.0, q_neutral.1, q_neutral.2, 0.0, 0.0, 0.0, true); 4];
    for slot in 0..4 {
        let j = foot_jacobian_body(leg_kin[slot], q_neutral.0, q_neutral.1, q_neutral.2);

        let qd = j
            .try_inverse()
            .expect("Jacobian invertible at neutral pose")
            * (-v_body_target);
        legs[slot].3 = qd[0];
        legs[slot].4 = qd[1];
        legs[slot].5 = qd[2];
    }
    odo.update(&kin, legs, Vector3::zeros(), 0.0, 0.002);
    let v_est = odo.last_velocity_world();
    assert!((v_est.x - (0.3)).abs() <= 1e-9);
    assert!((v_est.y - (0.0)).abs() <= 1e-9);
    assert!((v_est.z - (0.0)).abs() <= 1e-9);
}

#[test]
fn no_stance_holds_velocity_and_drifts_position() {
    let kin = build_kin();
    let mut odo = LegOdometry::new();

    let q_neutral = (0.0_f64, 0.5_f64, -1.0_f64);
    let leg_kin = kin.legs();
    let mut legs = [(q_neutral.0, q_neutral.1, q_neutral.2, 0.0, 0.0, 0.0, true); 4];
    for slot in 0..4 {
        let j = foot_jacobian_body(leg_kin[slot], q_neutral.0, q_neutral.1, q_neutral.2);
        let qd = j.try_inverse().unwrap() * Vector3::new(-0.3, 0.0, 0.0);
        legs[slot].3 = qd[0];
        legs[slot].4 = qd[1];
        legs[slot].5 = qd[2];
    }
    odo.update(&kin, legs, Vector3::zeros(), 0.0, 0.002);
    let p_before = odo.position_world();
    let v_before = odo.last_velocity_world();

    let swing_legs = [(0.0, 0.0, 0.0, 0.0, 0.0, 0.0, false); 4];
    odo.update(&kin, swing_legs, Vector3::zeros(), 0.0, 0.01);
    assert!(((odo.last_velocity_world() - v_before).norm() - (0.0)).abs() <= 1e-12);
    assert!((odo.position_world().x - p_before.x - (v_before.x * 0.01)).abs() <= 1e-12);
}

#[test]
fn one_gyro_sample_gives_the_hand_computed_quaternion() {
    let mut e = MadgwickAhrs::new(0.0);
    e.update_imu([0.0, 0.0, 2.0], [0.0, 0.0, 0.0], 0.1);
    let n = (1.0_f64 + 0.01).sqrt();
    assert!((e.q.w - 1.0 / n).abs() < 1e-15);
    assert!((e.q.k - 0.1 / n).abs() < 1e-15);
    assert_eq!((e.q.i, e.q.j), (0.0, 0.0));
}

#[test]
fn no_time_no_attitude_change() {
    let mut e = MadgwickAhrs::new(0.1);
    e.update_imu([1.0, 2.0, 3.0], [0.1, 0.2, 9.0], 0.0);
    assert_eq!(e.q, UnitQuaternion::identity());
    e.update_imu([1.0, 2.0, 3.0], [0.1, 0.2, 9.0], -0.1);
    assert_eq!(e.q, UnitQuaternion::identity());
}

#[test]
fn default_gain_is_a_tenth() {
    assert_eq!(f(Ahrs::default().beta), 0.1);
}

#[test]
fn no_time_no_odometry() {
    let mut o = Odometry::new();
    o.set_position(v(Vector3::new(1.0, 2.0, 3.0)));
    let leg = LegMeasurement { q: Vec3::zeros(), qd: v(Vector3::new(1.0, 1.0, 1.0)), stance: true };
    o.update(&Host, &Legs, &build_kin(), &[leg; 4], Vec3::zeros(), s(0.0), s(0.0));
    assert_eq!(w(o.position_world()), Vector3::new(1.0, 2.0, 3.0));
    assert_eq!(w(o.last_velocity_world()), Vector3::zeros());
    o.reset();
    assert_eq!(w(o.position_world()), Vector3::zeros());
}

#[test]
fn filter_system_has_the_expected_entries() {
    let filter = Filter::new();
    let feet = [Vector3::new(0.1, 0.2, -0.3); 4].map(v);
    let inputs = Inputs {
        dt: s(0.01),
        accel_world: Vec3::zeros(),
        foot_pos_world_offset: feet,
        foot_vel_world: feet,
        contact_flag: [true, false, true, true],
    };
    let sys = filter.system(&Host, &inputs);
    assert_eq!(f(sys.a[0][3]), 0.01);
    assert_eq!(f(sys.b[2][2]), 0.5 * 0.01 * 0.01);
    assert_eq!(f(sys.c[4][10]), -1.0);
    assert_eq!(f(sys.c[13][4]), 1.0);
    assert_eq!(f(sys.c[25][11]), 1.0);
    assert_eq!(f(sys.q[6][6]), 0.01 * 0.002);
    assert_eq!(f(sys.q[9][9]), 0.01 * 0.002 * 100.0);
    assert_eq!(f(sys.r[15][15]), 0.1 * 100.0);
    assert_eq!(f(sys.r[25][25]), 0.005 * 100.0);
    assert_eq!(f(sys.r[12][12]), 0.1);
    assert_eq!(f(sys.y[2]), 0.3);
    assert_eq!(f(sys.y[12]), -0.1);
    assert_eq!(f(sys.y[27]), 0.0);
}

#[test]
fn a_negative_time_step_counts_as_none() {
    let inputs = Inputs {
        dt: s(-1.0),
        accel_world: Vec3::zeros(),
        foot_pos_world_offset: [Vec3::zeros(); 4],
        foot_vel_world: [Vec3::zeros(); 4],
        contact_flag: [true; 4],
    };
    let sys = Filter::new().system(&Host, &inputs);
    assert_eq!(f(sys.a[1][4]), 0.0);
    assert_eq!(f(sys.q[3][3]), 0.0);
}

#[test]
fn a_reset_filter_decodes_to_what_it_was_set_to() {
    let mut kf = Filter::new();
    let feet = [1.0, 2.0, 3.0, 4.0].map(|x| Vector3::new(x, -x, 0.5 * x));
    kf.reset(v(Vector3::new(7.0, 8.0, 9.0)), &feet.map(v));
    let o = kf.decode();
    assert_eq!(w(o.body_pos_world), Vector3::new(7.0, 8.0, 9.0));
    assert_eq!(w(o.body_vel_world), Vector3::zeros());
    assert_eq!(o.foot_pos_world.map(w), feet);
}

#[test]
fn a_singular_innovation_leaves_the_prediction() {
    let mut kf = Filter::new();
    kf.reset(Vec3::zeros(), &[Vec3::zeros(); 4]);
    kf.p = vec![vec![s(0.0); 18]; 18];
    kf.imu_process_noise_position = s(0.0);
    kf.imu_process_noise_velocity = s(0.0);
    kf.foot_process_noise_position = s(0.0);
    kf.foot_sensor_noise_position = s(0.0);
    kf.foot_sensor_noise_velocity = s(0.0);
    kf.foot_height_sensor_noise = s(0.0);
    let inputs = Inputs {
        dt: s(0.5),
        accel_world: v(Vector3::new(2.0, 0.0, 0.0)),
        foot_pos_world_offset: [Vec3::zeros(); 4],
        foot_vel_world: [Vec3::zeros(); 4],
        contact_flag: [true; 4],
    };
    let o = kf.update(&Host, &Algebra, &inputs);
    assert_eq!(w(o.body_vel_world), Vector3::new(1.0, 0.0, 0.0));
    assert_eq!(w(o.body_pos_world), Vector3::new(0.25, 0.0, 0.0));
    assert!(kf.p.iter().flatten().all(|x| f(*x) == 0.0));
}

fn table(rows: &[&[f64]]) -> Vec<Vec<Scalar>> {
    rows.iter().map(|r| r.iter().map(|x| s(*x)).collect()).collect()
}

#[test]
fn filter_equations_have_their_values() {
    let a = table(&[&[1.0, 2.0], &[0.0, 1.0]]);
    let b = table(&[&[1.0, 0.0, 0.0], &[0.0, 0.0, 3.0]]);
    let x = vec![s(5.0), s(7.0)];
    let next = next_state(&Algebra, &a, &x, &b, Vec3::new(s(1.0), s(9.0), s(2.0)));
    assert_eq!(next.into_iter().map(f).collect::<Vec<_>>(), vec![20.0, 13.0]);
    let p = table(&[&[1.0, 0.0], &[0.0, 2.0]]);
    let q = table(&[&[0.5, 0.0], &[0.0, 0.25]]);
    assert_eq!(spread(&Algebra, &a, &p, &q), table(&[&[9.5, 4.0], &[4.0, 2.25]]));
    let c = table(&[&[1.0, 0.0]]);
    let inn = table(&[&[4.0]]);
    let d = correction(&Algebra, &p, &c, &inn, &vec![s(8.0)]).unwrap();
    assert_eq!(d.into_iter().map(f).collect::<Vec<_>>(), vec![2.0, 0.0]);
    let post = posterior(&Algebra, &p, &c, &inn).unwrap();
    assert_eq!(post, table(&[&[0.75, 0.0], &[0.0, 2.0]]));
    let singular = table(&[&[0.0]]);
    assert!(correction(&Algebra, &p, &c, &singular, &vec![s(8.0)]).is_none());
    assert!(posterior(&Algebra, &p, &c, &singular).is_none());
}
