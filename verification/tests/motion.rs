//! Body motion, footholds, leg kinematics and the open-loop gait.

use nalgebra::Vector3;
use quadruped_gait::arith::Arithmetic;
use quadruped_gait::body_state::BodyState as Pose;
use quadruped_gait::config::{
    GaitConfig as Gait, KinematicsConfig as Geometry, KneePattern, LegId,
    LegKinematics as LegGeometry, VelocityCmd as Command,
};
use quadruped_gait::controller::{
    effective_swing_height as swing_height_of, GaitController as Controller, LegModel, PhaseState,
};
use quadruped_gait::footstep::{compute_footstep as plan, Footstep as Step};
use quadruped_gait::ik::{
    forward_leg_kinematics as foot_of, solve_leg_ik as solve_leg, LegIkSolution,
};
use quadruped_gait::scalar::{Mat3, Scalar, Vec3};

struct Host;

fn s(x: f64) -> Scalar {
    Scalar::from_bits(x.to_bits())
}

fn f(x: Scalar) -> f64 {
    f64::from_bits(x.to_bits())
}

impl Arithmetic for Host {
    fn plus(&self, a: Scalar, b: Scalar) -> Scalar {
        s(f(a) + f(b))
    }
    fn minus(&self, a: Scalar, b: Scalar) -> Scalar {
        s(f(a) - f(b))
    }
    fn times(&self, a: Scalar, b: Scalar) -> Scalar {
        s(f(a) * f(b))
    }
    fn over(&self, a: Scalar, b: Scalar) -> Scalar {
        s(f(a) / f(b))
    }
    fn sqrt(&self, a: Scalar) -> Scalar {
        s(f(a).sqrt())
    }
    fn sin(&self, a: Scalar) -> Scalar {
        s(f(a).sin())
    }
    fn cos(&self, a: Scalar) -> Scalar {
        s(f(a).cos())
    }
    fn atan2(&self, y: Scalar, x: Scalar) -> Scalar {
        s(f(y).atan2(f(x)))
    }
    fn acos(&self, a: Scalar) -> Scalar {
        s(f(a).acos())
    }
    fn wrap(&self, a: Scalar, period: Scalar) -> Scalar {
        s(f(a).rem_euclid(f(period)))
    }
    fn floor(&self, a: Scalar) -> Scalar {
        s(f(a).floor())
    }
    fn from_count(&self, n: usize) -> Scalar {
        s(n as f64)
    }
    fn round_to_count(&self, a: Scalar) -> usize {
        f(a).round() as usize
    }
}

fn near(a: f64, b: f64, eps: f64) {
    let scale = a.abs().max(b.abs());
    let diff = (a - b).abs();
    assert!(diff <= eps || diff <= f64::EPSILON * scale, "{a} is not {b}");
}

fn v(p: Vector3<f64>) -> Vec3 {
    Vec3::new(s(p.x), s(p.y), s(p.z))
}

fn w(p: Vec3) -> Vector3<f64> {
    Vector3::new(f(p.x), f(p.y), f(p.z))
}

#[derive(Clone, Copy, Debug, Default, PartialEq)]
struct VelocityCmd {
    vx: f64,
    vy: f64,
    wz: f64,
}

impl VelocityCmd {
    fn zero() -> Self {
        Self::default()
    }
    fn inner(&self) -> Command {
        Command { vx: s(self.vx), vy: s(self.vy), wz: s(self.wz) }
    }
}

#[derive(Debug)]
struct BodyState {
    world_position: Vector3<f64>,
    world_yaw: f64,
}

impl BodyState {
    fn new() -> Self {
        Self::outer(Pose::new())
    }
    fn outer(p: Pose) -> Self {
        BodyState { world_position: w(p.world_position), world_yaw: f(p.world_yaw) }
    }
    fn inner(&self) -> Pose {
        Pose { world_position: v(self.world_position), world_yaw: s(self.world_yaw) }
    }
    fn integrate(&mut self, cmd: &VelocityCmd, dt: f64) {
        let mut p = self.inner();
        p.integrate(&Host, &cmd.inner(), s(dt));
        *self = Self::outer(p);
    }
}

struct LegKinematics {
    inner: LegGeometry,
    hip_offset: Vector3<f64>,
    nominal_foot_body: Vector3<f64>,
}

impl LegKinematics {
    fn new(
        leg: LegId,
        hip: String,
        thigh: String,
        calf: String,
        foot: String,
        hip_offset: Vector3<f64>,
        lateral: f64,
        upper: f64,
        lower: f64,
    ) -> Self {
        let inner = LegGeometry::new(
            &Host,
            leg,
            hip,
            thigh,
            calf,
            foot,
            v(hip_offset),
            s(lateral),
            s(upper),
            s(lower),
        );
        let nominal_foot_body = w(inner.nominal_foot_body);
        LegKinematics { inner, hip_offset, nominal_foot_body }
    }
    fn geometry(&self) -> LegGeometry {
        let mut g = self.inner.clone();
        g.nominal_foot_body = v(self.nominal_foot_body);
        g
    }
}

struct KinematicsConfig {
    fl: LegKinematics,
    fr: LegKinematics,
    rl: LegKinematics,
    rr: LegKinematics,
}

impl KinematicsConfig {
    fn geometry(&self) -> Geometry {
        Geometry {
            fl: self.fl.geometry(),
            fr: self.fr.geometry(),
            rl: self.rl.geometry(),
            rr: self.rr.geometry(),
        }
    }
    fn legs(&self) -> [&LegKinematics; 4] {
        [&self.fl, &self.fr, &self.rl, &self.rr]
    }
}

struct GaitConfig {
    inner: Gait,
    cycle_period_s: f64,
    swing_height_m: f64,
    max_step_length_m: f64,
}

impl GaitConfig {
    fn trot() -> Self {
        let inner = Gait::trot();
        GaitConfig {
            inner,
            cycle_period_s: f(inner.cycle_period_s),
            swing_height_m: f(inner.swing_height_m),
            max_step_length_m: f(inner.max_step_length_m),
        }
    }
}

struct Footstep {
    inner: Step,
    lift_off: Vector3<f64>,
    touch_down: Vector3<f64>,
}

impl Footstep {
    fn stance_at(&self, frac: f64) -> Vector3<f64> {
        w(self.inner.stance_at(&Host, s(frac)))
    }
}

fn compute_footstep(kin: &LegKinematics, gait: &GaitConfig, cmd: &VelocityCmd) -> Footstep {
    let inner = plan(&Host, &kin.geometry(), &gait.inner, &cmd.inner());
    Footstep { inner, lift_off: w(inner.lift_off), touch_down: w(inner.touch_down) }
}

fn swing_position(a: Vector3<f64>, b: Vector3<f64>, height: f64, frac: f64) -> Vector3<f64> {
    let mut p = a + (b - a) * frac;
    p.z += height * (std::f64::consts::PI * frac).sin();
    p
}

struct Legs;

impl LegModel for Legs {
    fn position(&self, lift_off: Vec3, touch_down: Vec3, height: Scalar, frac: Scalar) -> Vec3 {
        v(swing_position(w(lift_off), w(touch_down), f(height), f(frac)))
    }
    fn vertical_velocity(&self, _: Scalar, _: Scalar, _: Scalar) -> Scalar {
        s(0.0)
    }
    fn jacobian(&self, _: &LegGeometry, _: Scalar, _: Scalar, _: Scalar) -> Mat3 {
        Mat3 { x: Vec3::zeros(), y: Vec3::zeros(), z: Vec3::zeros() }
    }
    fn capture_step(&self, e: Scalar, k: Scalar, _: Scalar, _: Scalar) -> Scalar {
        s(f(e) * f(k))
    }
}

#[derive(Debug)]
struct LegIk(LegIkSolution);

impl LegIk {
    fn angles(&self) -> (f64, f64, f64) {
        let (a, b, c) = self.0.angles();
        (f(a), f(b), f(c))
    }
    fn is_reachable(&self) -> bool {
        self.0.is_reachable()
    }
}

fn solve_leg_ik(kin: &LegKinematics, target: Vector3<f64>, knee_forward: bool) -> LegIk {
    LegIk(solve_leg(&Host, &kin.geometry(), v(target), knee_forward))
}

fn forward_leg_kinematics(kin: &LegKinematics, h: f64, t: f64, c: f64) -> Vector3<f64> {
    w(foot_of(&Host, &kin.geometry(), s(h), s(t), s(c)))
}

fn effective_swing_height(base: f64, cmd: &VelocityCmd) -> f64 {
    f(swing_height_of(&Host, s(base), &cmd.inner()))
}

struct Phase {
    cycle_position: f64,
    is_stance: bool,
}

struct Leg {
    names: [String; 3],
    q_hip: f64,
    q_thigh: f64,
    q_calf: f64,
    foot_body: Vector3<f64>,
    phase: Phase,
}

struct Output {
    legs: Vec<Leg>,
}

impl Output {
    fn iter_joint_targets(&self) -> impl Iterator<Item = (&str, f64)> {
        self.legs.iter().flat_map(|l| {
            let q = [l.q_hip, l.q_thigh, l.q_calf];
            l.names.iter().map(|n| n.as_str()).zip(q)
        })
    }
}

struct GaitController {
    inner: Controller,
    cfg: GaitConfig,
    kin: KinematicsConfig,
    cycle: f64,
}

impl GaitController {
    fn new(cfg: GaitConfig, kin: KinematicsConfig) -> Self {
        GaitController { inner: Controller::new(cfg.inner, kin.geometry()), cfg, kin, cycle: 0.0 }
    }
    fn config(&self) -> &GaitConfig {
        &self.cfg
    }
    fn kinematics(&self) -> &KinematicsConfig {
        &self.kin
    }
    fn velocity_cmd(&self) -> VelocityCmd {
        let c = self.inner.velocity_cmd();
        VelocityCmd { vx: f(c.vx), vy: f(c.vy), wz: f(c.wz) }
    }
    fn set_velocity_cmd(&mut self, cmd: VelocityCmd) {
        self.inner.set_velocity_cmd(cmd.inner());
    }
    fn body_state(&self) -> BodyState {
        BodyState::outer(self.inner.body_state())
    }
    fn set_knee_pattern(&mut self, pattern: KneePattern) {
        self.inner.set_knee_pattern(pattern);
    }
    fn knee_pattern(&self) -> KneePattern {
        self.inner.knee_pattern()
    }
    fn knee_forward(&self) -> [bool; 4] {
        self.inner.knee_forward()
    }
    fn reset(&mut self) {
        self.inner.reset();
        self.cycle = 0.0;
    }
    fn tick(&mut self, dt: f64) -> Output {
        let standing = self.inner.velocity_cmd().is_zero();
        if !standing {
            self.cycle = (self.cycle + dt / self.cfg.cycle_period_s).rem_euclid(1.0);
        }
        let duty = f(self.cfg.inner.duty_factor);
        let phases = self.cfg.inner.gait_type.phase_offsets().map(|(leg, offset)| {
            let at = (self.cycle + f(offset)).rem_euclid(1.0);
            let is_stance = standing || at < duty;
            let sub = if standing {
                0.0
            } else if is_stance {
                at / duty
            } else {
                (at - duty) / (1.0 - duty)
            };
            PhaseState { leg, cycle_position: s(at), is_stance, sub_fraction: s(sub) }
        });
        let out = self.inner.tick(&Host, &Legs, &phases, s(dt));
        let pairs: Vec<(String, Scalar)> =
            out.iter_joint_targets().into_iter().map(|(n, q)| (n.to_string(), q)).collect();
        let legs = out
            .legs
            .iter()
            .enumerate()
            .map(|(i, l)| Leg {
                names: [0, 1, 2].map(|k| pairs[3 * i + k].0.clone()),
                q_hip: f(l.q_hip),
                q_thigh: f(l.q_thigh),
                q_calf: f(l.q_calf),
                foot_body: w(l.foot_body),
                phase: Phase {
                    cycle_position: f(l.phase.cycle_position),
                    is_stance: l.phase.is_stance,
                },
            })
            .collect();
        Output { legs }
    }
}

fn fl_kin() -> LegKinematics {
    LegKinematics::new(
        LegId::FL,
        "FL_hip".into(),
        "FL_thigh".into(),
        "FL_calf".into(),
        "FL_foot".into(),
        Vector3::new(0.18, 0.05, 0.0),
        0.04,
        0.18,
        0.18,
    )
}

fn fr_kin() -> LegKinematics {
    LegKinematics::new(
        LegId::FR,
        "FR_hip".into(),
        "FR_thigh".into(),
        "FR_calf".into(),
        "FR_foot".into(),
        Vector3::new(0.18, -0.05, 0.0),
        0.04,
        0.18,
        0.18,
    )
}

fn build_kin() -> KinematicsConfig {
    let mk = |leg: LegId, sx: f64, sy: f64, prefix: &str| {
        let mut k = LegKinematics::new(
            leg,
            format!("{prefix}_hip"),
            format!("{prefix}_thigh"),
            format!("{prefix}_calf"),
            format!("{prefix}_foot"),
            Vector3::new(sx * 0.18, sy * 0.05, 0.0),
            0.04,
            0.18,
            0.18,
        );

        k.nominal_foot_body.z = k.hip_offset.z - 0.36 * 0.92;
        k
    };
    KinematicsConfig {
        fl: mk(LegId::FL, 1.0, 1.0, "FL"),
        fr: mk(LegId::FR, 1.0, -1.0, "FR"),
        rl: mk(LegId::RL, -1.0, 1.0, "RL"),
        rr: mk(LegId::RR, -1.0, -1.0, "RR"),
    }
}

#[test]
fn forward_walk_matches_distance() {
    let mut bs = BodyState::new();
    let cmd = VelocityCmd { vx: 0.5, vy: 0.0, wz: 0.0 };
    for _ in 0..1000 {
        bs.integrate(&cmd, 0.001);
    }

    near(bs.world_position.x, 0.5, 1e-9);
    near(bs.world_position.y, 0.0, 1e-12);
    near(bs.world_yaw, 0.0, 1e-12);
}

#[test]
fn pure_yaw_rotates_in_place() {
    let mut bs = BodyState::new();
    let cmd = VelocityCmd { vx: 0.0, vy: 0.0, wz: 1.0 };
    for _ in 0..1000 {
        bs.integrate(&cmd, 0.001);
    }
    near(bs.world_yaw, 1.0, 1e-9);
    near(bs.world_position.x, 0.0, 1e-12);
    near(bs.world_position.y, 0.0, 1e-12);
}

#[test]
fn forward_then_left_curve() {
    let mut bs = BodyState::new();
    let fwd = VelocityCmd { vx: 0.5, vy: 0.0, wz: 0.0 };
    for _ in 0..1000 {
        bs.integrate(&fwd, 0.001);
    }
    bs.world_yaw = std::f64::consts::FRAC_PI_2;
    for _ in 0..1000 {
        bs.integrate(&fwd, 0.001);
    }
    near(bs.world_position.x, 0.5, 1e-6);
    near(bs.world_position.y, 0.5, 1e-6);
}

#[test]
fn forward_only_centers_step_around_nominal() {
    let kin = fl_kin();
    let gait = GaitConfig::trot();
    let cmd = VelocityCmd { vx: 0.3, vy: 0.0, wz: 0.0 };
    let fs = compute_footstep(&kin, &gait, &cmd);

    let expected_half = 0.03;
    let half_dx = fs.touch_down.x - kin.nominal_foot_body.x;
    near(half_dx, expected_half, 1e-9);
    let half_dx_lo = kin.nominal_foot_body.x - fs.lift_off.x;
    near(half_dx_lo, expected_half, 1e-9);

    near(fs.touch_down.y, kin.nominal_foot_body.y, f64::EPSILON);
    near(fs.touch_down.z, kin.nominal_foot_body.z, f64::EPSILON);
}

#[test]
fn zero_cmd_collapses_to_nominal() {
    let kin = fl_kin();
    let gait = GaitConfig::trot();
    let fs = compute_footstep(&kin, &gait, &VelocityCmd::zero());
    for ax in 0..3 {
        near(fs.lift_off[ax], kin.nominal_foot_body[ax], f64::EPSILON);
        near(fs.touch_down[ax], kin.nominal_foot_body[ax], f64::EPSILON);
    }
}

#[test]
fn yaw_rate_creates_opposite_lateral_steps() {
    let gait = GaitConfig::trot();
    let cmd = VelocityCmd { vx: 0.0, vy: 0.0, wz: 1.0 };
    let fs_fl = compute_footstep(&fl_kin(), &gait, &cmd);
    let fs_fr = compute_footstep(&fr_kin(), &gait, &cmd);
    let dx_fl = fs_fl.touch_down.x - fl_kin().nominal_foot_body.x;
    let dx_fr = fs_fr.touch_down.x - fr_kin().nominal_foot_body.x;

    assert!(dx_fl < -1e-6, "FL should step backward when turning left, got {dx_fl}");
    assert!(dx_fr > 1e-6, "FR should step forward when turning left, got {dx_fr}");
}

#[test]
fn extreme_cmd_clamped_to_max_step() {
    let kin = fl_kin();

    let gait = GaitConfig::trot();
    let cmd = VelocityCmd { vx: 5.0, vy: 0.0, wz: 0.0 };
    let fs = compute_footstep(&kin, &gait, &cmd);
    let half_x = fs.touch_down.x - kin.nominal_foot_body.x;
    near(half_x, gait.max_step_length_m * 0.5, 1e-9);
}

#[test]
fn stance_at_endpoints_exact() {
    let kin = fl_kin();
    let gait = GaitConfig::trot();
    let cmd = VelocityCmd { vx: 0.3, vy: 0.0, wz: 0.0 };
    let fs = compute_footstep(&kin, &gait, &cmd);
    let p0 = fs.stance_at(0.0);
    let p1 = fs.stance_at(1.0);
    for ax in 0..3 {
        near(p0[ax], fs.touch_down[ax], 1e-9);
        near(p1[ax], fs.lift_off[ax], 1e-9);
    }
}

#[test]
fn stance_swing_transition_is_continuous() {
    let kin = fl_kin();
    let gait = GaitConfig::trot();
    let cmd = VelocityCmd { vx: 0.3, vy: 0.0, wz: 0.0 };
    let fs = compute_footstep(&kin, &gait, &cmd);
    let stance_end = fs.stance_at(1.0);
    let swing_start = swing_position(
        fs.lift_off,
        fs.touch_down,
        gait.swing_height_m,
        0.0,
    );
    for ax in 0..3 {
        near(stance_end[ax], swing_start[ax], 1e-9);
    }

    let swing_end = swing_position(
        fs.lift_off,
        fs.touch_down,
        gait.swing_height_m,
        1.0,
    );
    let stance_start = fs.stance_at(0.0);
    for ax in 0..3 {
        near(swing_end[ax], stance_start[ax], 1e-9);
    }
}

#[test]
fn nominal_stance_yields_zero_pitch_angles() {
    let kin = fl_kin();
    let target = kin.nominal_foot_body;
    let sol = solve_leg_ik(&kin, target, false);
    let (h, t, c) = sol.angles();
    assert!(sol.is_reachable());
    near(h, 0.0, 1e-6);
    near(t, 0.0, 1e-6);
    near(c, 0.0, 1e-6);
}

#[test]
fn ik_fk_round_trip_random_targets() {
    let kin = fl_kin();

    let nominal = kin.nominal_foot_body + Vector3::new(0.0, 0.0, 0.04);
    let offsets = [
        Vector3::new(0.04, 0.0, 0.0),
        Vector3::new(-0.04, 0.0, 0.0),
        Vector3::new(0.0, 0.02, 0.0),
        Vector3::new(0.0, 0.0, 0.03),
        Vector3::new(0.0, 0.0, -0.03),
        Vector3::new(0.03, -0.01, 0.02),
    ];
    for d in offsets {
        let target = nominal + d;
        let sol = solve_leg_ik(&kin, target, false);
        assert!(
            sol.is_reachable(),
            "expected reachable for offset {:?}, got {:?}",
            d, sol,
        );
        let (h, t, c) = sol.angles();
        let recovered = forward_leg_kinematics(&kin, h, t, c);
        for ax in 0..3 {
            near(recovered[ax], target[ax], 1e-3);
        }
    }
}

#[test]
fn ik_fk_round_trip_both_knee_branches() {
    let kin = fl_kin();
    let nominal = kin.nominal_foot_body + Vector3::new(0.0, 0.0, 0.04);
    let offsets = [
        Vector3::new(0.04, 0.0, 0.0),
        Vector3::new(-0.04, 0.0, 0.0),
        Vector3::new(0.0, 0.02, 0.0),
        Vector3::new(0.0, 0.0, 0.03),
        Vector3::new(0.03, -0.01, 0.02),
    ];
    for d in offsets {
        let target = nominal + d;
        for knee_forward in [false, true] {
            let sol = solve_leg_ik(&kin, target, knee_forward);
            assert!(
                sol.is_reachable(),
                "offset {:?} knee_forward={knee_forward}: {:?}",
                d, sol,
            );
            let (h, t, c) = sol.angles();
            let recovered = forward_leg_kinematics(&kin, h, t, c);
            for ax in 0..3 {
                near(recovered[ax], target[ax], 1e-3);
            }
        }
    }
}

#[test]
fn far_target_returns_unreachable() {
    let kin = fl_kin();

    let unreach = kin.nominal_foot_body + Vector3::new(2.0, 0.0, 0.0);
    let sol = solve_leg_ik(&kin, unreach, false);
    assert!(!sol.is_reachable());
}

#[test]
fn iter_joint_targets_returns_twelve_entries_in_canonical_order() {
    let mut ctrl = GaitController::new(GaitConfig::trot(), build_kin());
    ctrl.set_velocity_cmd(VelocityCmd { vx: 0.2, ..Default::default() });
    let out = ctrl.tick(0.002);
    let names: Vec<&str> = out.iter_joint_targets().map(|(n, _)| n).collect();
    assert_eq!(names.len(), 12);
    assert_eq!(names[0], "FL_hip");
    assert_eq!(names[1], "FL_thigh");
    assert_eq!(names[2], "FL_calf");
    assert_eq!(names[3], "FR_hip");

    assert_eq!(names[11], "RR_calf");
}

#[test]
fn zero_cmd_holds_nominal_pose_constant() {
    let mut ctrl = GaitController::new(GaitConfig::trot(), build_kin());

    let out0 = ctrl.tick(0.002);
    for _ in 0..200 {
        let out = ctrl.tick(0.002);
        for slot in 0..4 {
            near(out.legs[slot].q_hip, out0.legs[slot].q_hip, 1e-12);
            near(out.legs[slot].q_thigh, out0.legs[slot].q_thigh, 1e-12);
            near(out.legs[slot].q_calf, out0.legs[slot].q_calf, 1e-12);
            assert!(out.legs[slot].phase.is_stance);
        }
    }

    near(ctrl.body_state().world_position.x, 0.0, f64::EPSILON);
}

#[test]
fn reset_returns_to_t_zero_state() {
    let mut ctrl = GaitController::new(GaitConfig::trot(), build_kin());
    ctrl.set_velocity_cmd(VelocityCmd { vx: 0.5, ..Default::default() });

    for _ in 0..100 {
        ctrl.tick(0.002);
    }
    ctrl.reset();
    assert_eq!(ctrl.velocity_cmd(), VelocityCmd::zero());
    assert_eq!(ctrl.body_state().world_position, Vector3::zeros());

    let out = ctrl.tick(0.002);
    for slot in 0..4 {
        assert!(out.legs[slot].phase.is_stance);
    }
}

#[test]
fn stance_foot_moves_backward_in_body_frame_when_walking_forward() {
    let mut ctrl = GaitController::new(GaitConfig::trot(), build_kin());
    ctrl.set_velocity_cmd(VelocityCmd { vx: 0.3, ..Default::default() });

    let dt = 0.002;
    let mut samples: Vec<(f64, bool, f64)> = Vec::new();
    let n = (ctrl.config().cycle_period_s / dt) as usize + 1;
    for _ in 0..n {
        let out = ctrl.tick(dt);
        let fl = &out.legs[0];
        samples.push((fl.phase.cycle_position, fl.phase.is_stance, fl.foot_body.x));
    }

    let stance_runs: Vec<&(f64, bool, f64)> =
        samples.iter().filter(|s| s.1).collect();
    assert!(
        stance_runs.len() >= 4,
        "expected several stance samples, got {}",
        stance_runs.len(),
    );
    let first_x = stance_runs.first().unwrap().2;
    let last_x = stance_runs.last().unwrap().2;
    assert!(
        last_x < first_x,
        "stance foot.x must decrease (move back in body frame) when walking +x; \
         got first={first_x} last={last_x}",
    );
}

#[test]
fn foot_trajectory_independent_of_knee_pattern() {
    let dt = 0.002;
    let n = 200;

    let mut snapshots: Vec<Vec<f64>> = Vec::new();
    for pattern in [KneePattern::BothBack, KneePattern::BothForward] {
        let mut ctrl = GaitController::new(GaitConfig::trot(), build_kin());
        ctrl.set_velocity_cmd(VelocityCmd { vx: 0.3, ..Default::default() });
        ctrl.set_knee_pattern(pattern);
        let mut xs = Vec::with_capacity(n);
        for _ in 0..n {
            let out = ctrl.tick(dt);
            xs.push(out.legs[0].foot_body.x);
        }
        snapshots.push(xs);
    }

    for i in 0..n {
        near(snapshots[0][i], snapshots[1][i], 1e-9);
    }
}

#[test]
fn knee_pattern_round_trip_through_controller() {
    let mut ctrl = GaitController::new(GaitConfig::trot(), build_kin());
    for pattern in KneePattern::ALL {
        ctrl.set_knee_pattern(pattern);
        assert_eq!(ctrl.knee_pattern(), pattern);
        assert_eq!(ctrl.knee_forward(), pattern.to_knee_forward());
    }
}

#[test]
fn forward_walk_advances_body_position() {
    let mut ctrl = GaitController::new(GaitConfig::trot(), build_kin());
    ctrl.set_velocity_cmd(VelocityCmd { vx: 0.3, ..Default::default() });
    for _ in 0..500 {
        ctrl.tick(0.002);
    }

    near(ctrl.body_state().world_position.x, 0.3, 1e-9);
}

#[test]
fn effective_swing_height_unchanged_for_forward_motion() {
    let base = 0.04;
    let h = effective_swing_height(
        base,
        &VelocityCmd { vx: 0.5, vy: 0.0, wz: 0.0 },
    );
    near(h, base, f64::EPSILON);
    let h_stand =
        effective_swing_height(base, &VelocityCmd { vx: 0.0, vy: 0.0, wz: 0.0 });
    near(h_stand, base, f64::EPSILON);
}

#[test]
fn effective_swing_height_reduced_under_yaw() {
    let base = 0.04;
    let h_full_yaw = effective_swing_height(
        base,
        &VelocityCmd { vx: 0.0, vy: 0.0, wz: 1.0 },
    );

    near(h_full_yaw, base * 0.7, 1e-9);

    let h_extreme = effective_swing_height(
        base,
        &VelocityCmd { vx: 0.0, vy: 0.5, wz: 2.0 },
    );
    near(h_extreme, base * 0.4, 1e-9);
}

#[test]
fn effective_swing_height_reduced_under_strafe() {
    let base = 0.04;
    let h = effective_swing_height(
        base,
        &VelocityCmd { vx: 0.0, vy: 0.3, wz: 0.0 },
    );

    near(h, base * 0.7, 1e-9);
}

#[test]
fn effective_swing_height_floor_at_40pct() {
    let base = 0.04;
    let h = effective_swing_height(
        base,
        &VelocityCmd { vx: 0.0, vy: 100.0, wz: 100.0 },
    );
    assert!(h >= base * 0.4 - 1e-9);
    assert!(h <= base * 0.4 + 1e-9);
}

#[test]
fn tiny_cmd_lifts_swing_legs_without_horizontal_motion() {
    let mut ctrl = GaitController::new(GaitConfig::trot(), build_kin());
    ctrl.set_velocity_cmd(VelocityCmd { vx: 1e-6, vy: 0.0, wz: 0.0 });
    let mut max_z = f64::NEG_INFINITY;
    let mut min_z = f64::INFINITY;
    let mut max_x_excursion = 0.0_f64;

    for _ in 0..250 {
        let out = ctrl.tick(0.002);
        for slot in 0..4 {
            let nom_x = ctrl.kinematics().legs()[slot].nominal_foot_body.x;
            let z = out.legs[slot].foot_body.z;
            max_z = max_z.max(z);
            min_z = min_z.min(z);
            max_x_excursion = max_x_excursion.max(
                (out.legs[slot].foot_body.x - nom_x).abs(),
            );
        }
    }
    let z_span = max_z - min_z;

    assert!(
        z_span > 0.032,
        "march-in-place: foot z span should be ≈ swing_height (0.04 m), \
         got {z_span} m. Phase generator may be stuck or swing curve \
         collapsed.",
    );

    assert!(
        max_x_excursion < 1e-3,
        "march-in-place: foot x should stay near nominal (got excursion \
         {max_x_excursion} m). With cmd.vx=1e-6 and T_stance=0.2 s the \
         Raibert step is 1e-7 m — anything larger means a different \
         code path is creeping into the footstep.",
    );
}

#[test]
fn a_straight_step_moves_by_velocity_times_time() {
    let mut bs = BodyState::new();
    bs.integrate(&VelocityCmd { vx: 1.0, vy: 0.5, wz: 0.0 }, 0.5);
    assert_eq!(bs.world_position, Vector3::new(0.5, 0.25, 0.0));
    let mut p = bs.inner();
    p.reset();
    assert_eq!(p, Pose::default());
}

#[test]
fn a_reachable_target_solves_back_to_its_angles() {
    let kin = fl_kin();
    for knee in [false, true] {
        let bend = if knee { 0.9 } else { -0.9 };
        let foot = forward_leg_kinematics(&kin, 0.1, 0.4, bend);
        let sol = solve_leg_ik(&kin, foot, knee);
        assert!(sol.is_reachable());
        let (h, t, c) = sol.angles();
        let back = forward_leg_kinematics(&kin, h, t, c);
        assert!((back - foot).norm() < 1e-9);
    }
}

#[test]
fn every_leg_reports_its_own_slot() {
    let mut ctrl = GaitController::new(GaitConfig::trot(), build_kin());
    ctrl.set_velocity_cmd(VelocityCmd { vx: 0.2, ..Default::default() });
    let out = ctrl.tick(0.0);
    assert_eq!(out.legs[0].phase.is_stance, out.legs[3].phase.is_stance);
    assert_eq!(out.legs[1].phase.is_stance, out.legs[2].phase.is_stance);
    assert_ne!(out.legs[0].phase.is_stance, out.legs[1].phase.is_stance);
}

#[test]
fn positive_hip_roll_moves_either_foot_outward() {
    for (k, side) in [(fl_kin(), 1.0), (fr_kin(), -1.0)] {
        let rest = forward_leg_kinematics(&k, 0.0, 0.0, 0.0);
        for hip in [0.05, 0.1, 0.3, 0.5] {
            let p = forward_leg_kinematics(&k, hip, 0.0, 0.0);
            assert!(side * p.y > side * rest.y && side * rest.y > 0.0, "{hip}");
        }
        let p = forward_leg_kinematics(&k, -0.1, 0.0, 0.0);
        assert!(side * p.y < side * rest.y);
    }
    let left = forward_leg_kinematics(&fl_kin(), 0.1, 0.2, -0.3);
    let right = forward_leg_kinematics(&fr_kin(), 0.1, 0.2, -0.3);
    near(left.x, right.x, 1e-12);
    near(left.y, -right.y, 1e-12);
    near(left.z, right.z, 1e-12);
}

#[test]
fn calf_sign_follows_the_knee_branch() {
    let k = fr_kin();
    for dx in [-0.1, 0.0, 0.1] {
        for dy in [-0.05, 0.0, 0.08] {
            let target = k.nominal_foot_body + Vector3::new(dx, dy, 0.08);
            let back = solve_leg_ik(&k, target, false);
            let front = solve_leg_ik(&k, target, true);
            assert!(back.angles().2 >= 0.0 && front.angles().2 <= 0.0);
            assert_eq!(back.is_reachable(), front.is_reachable());
        }
    }
}

#[test]
fn a_step_stays_within_half_the_longest_step() {
    let mut gait = GaitConfig::trot();
    gait.inner.max_step_length_m = s(0.05);
    for (vx, vy, wz) in [(2.0, 0.0, 0.0), (0.5, -1.0, 3.0), (0.01, 0.0, 0.0)] {
        let k = fl_kin();
        let step = compute_footstep(&k, &gait, &VelocityCmd { vx, vy, wz });
        for end in [step.lift_off, step.touch_down] {
            assert!((end - k.nominal_foot_body).norm() <= 0.025 + 1e-12);
        }
    }
}
