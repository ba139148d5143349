//! Goals, gait modes, their settings and background jobs.

use nalgebra::Vector3;
use quadruped_gait::arith::Arithmetic;
use quadruped_gait::async_solver::JobTracker;
use quadruped_gait::centroidal_mpc::CentroidalMpcConfig;
use quadruped_gait::closed_loop::Tuning;
use quadruped_gait::config::{
    GaitConfig, KinematicsConfig, KneePattern, LegId, LegKinematics, VelocityCmd as Command,
};
use quadruped_gait::exp::{ExpError, ExpKind, ExpValue};
use quadruped_gait::full_centroidal_mpc::FullCentroidalMpcConfig;
use quadruped_gait::generator::{AnyGaitController, GaitMode, Setup};
use quadruped_gait::goal::{velocity_cmd_for_goal as command_for, GoalPoseWorld as Goal};
use quadruped_gait::scalar::{Scalar, Vec3};
use std::f64::consts::{FRAC_PI_2, FRAC_PI_4};

struct Host;

fn s(x: f64) -> Scalar {
    Scalar::from_bits(x.to_bits())
}

fn f(x: Scalar) -> f64 {
    f64::from_bits(x.to_bits())
}

impl Arithmetic for Host {
    fn plus(&self, a: Scalar, b: Scalar) -> Scalar {
        s(f(a) + f(b))
    }
    fn minus(&self, a: Scalar, b: Scalar) -> Scalar {
        s(f(a) - f(b))
    }
    fn times(&self, a: Scalar, b: Scalar) -> Scalar {
        s(f(a) * f(b))
    }
    fn over(&self, a: Scalar, b: Scalar) -> Scalar {
        s(f(a) / f(b))
    }
    fn sqrt(&self, a: Scalar) -> Scalar {
        s(f(a).sqrt())
    }
    fn sin(&self, a: Scalar) -> Scalar {
        s(f(a).sin())
    }
    fn cos(&self, a: Scalar) -> Scalar {
        s(f(a).cos())
    }
    fn atan2(&self, y: Scalar, x: Scalar) -> Scalar {
        s(f(y).atan2(f(x)))
    }
    fn acos(&self, a: Scalar) -> Scalar {
        s(f(a).acos())
    }
    fn wrap(&self, a: Scalar, period: Scalar) -> Scalar {
        s(f(a).rem_euclid(f(period)))
    }
    fn floor(&self, a: Scalar) -> Scalar {
        s(f(a).floor())
    }
    fn from_count(&self, n: usize) -> Scalar {
        s(n as f64)
    }
    fn round_to_count(&self, a: Scalar) -> usize {
        f(a).round() as usize
    }
}

fn near(a: f64, b: f64, eps: f64) {
    let scale = a.abs().max(b.abs());
    let diff = (a - b).abs();
    assert!(diff <= eps || diff <= f64::EPSILON * scale, "{a} is not {b}");
}

fn v(p: Vector3<f64>) -> Vec3 {
    Vec3::new(s(p.x), s(p.y), s(p.z))
}

#[derive(Clone, Copy, Debug, Default, PartialEq)]
struct VelocityCmd {
    vx: f64,
    vy: f64,
    wz: f64,
}

impl VelocityCmd {
    fn zero() -> Self {
        Self::default()
    }
}

struct GoalPoseWorld {
    x_m: f64,
    y_m: f64,
    yaw_rad: f64,
    max_v_m_s: f64,
    max_wz_rad_s: f64,
    position_tolerance_m: f64,
    yaw_tolerance_rad: f64,
}

impl GoalPoseWorld {
    fn inner(&self) -> Goal {
        Goal {
            x_m: s(self.x_m),
            y_m: s(self.y_m),
            yaw_rad: s(self.yaw_rad),
            max_v_m_s: s(self.max_v_m_s),
            max_wz_rad_s: s(self.max_wz_rad_s),
            position_tolerance_m: s(self.position_tolerance_m),
            yaw_tolerance_rad: s(self.yaw_tolerance_rad),
        }
    }
}

fn velocity_cmd_for_goal(goal: GoalPoseWorld, at: Vector3<f64>, yaw: f64) -> VelocityCmd {
    let c = command_for(&Host, goal.inner(), v(at), s(yaw));
    VelocityCmd { vx: f(c.vx), vy: f(c.vy), wz: f(c.wz) }
}

fn build_kin() -> KinematicsConfig {
    let mk = |leg: LegId, sx: f64, sy: f64, prefix: &str| {
        let mut k = LegKinematics::new(
            &Host,
            leg,
            format!("{prefix}_hip"),
            format!("{prefix}_thigh"),
            format!("{prefix}_calf"),
            format!("{prefix}_foot"),
            v(Vector3::new(sx * 0.18, sy * 0.05, 0.0)),
            s(0.04),
            s(0.18),
            s(0.18),
        );
        k.nominal_foot_body.z = s(f(k.hip_offset.z) - 0.36 * 0.92);
        k
    };
    KinematicsConfig {
        fl: mk(LegId::FL, 1.0, 1.0, "FL"),
        fr: mk(LegId::FR, 1.0, -1.0, "FR"),
        rl: mk(LegId::RL, -1.0, 1.0, "RL"),
        rr: mk(LegId::RR, -1.0, -1.0, "RR"),
    }
}

fn setup() -> Setup<u8> {
    let tuning = Tuning {
        capture_gain_s: s(0.03),
        horizon_steps: 10,
        min_half_fraction: s(0.3),
        stance_grf_min: s(1.0),
    };
    Setup { tuning, srbd: 7 }
}

fn build(mode: GaitMode) -> AnyGaitController<u8> {
    AnyGaitController::new(mode, GaitConfig::trot(), build_kin(), setup())
}

fn build_fullc() -> AnyGaitController<u8> {
    build(GaitMode::FullCentroidal)
}

fn goal(x: f64, y: f64, yaw: f64) -> GoalPoseWorld {
    GoalPoseWorld {
        x_m: x,
        y_m: y,
        yaw_rad: yaw,
        max_v_m_s: 0.30,
        max_wz_rad_s: 1.00,
        position_tolerance_m: 0.02,
        yaw_tolerance_rad: 0.05,
    }
}

#[test]
fn velocity_cmd_for_goal_is_zero_inside_tolerance() {
    let cmd = velocity_cmd_for_goal(
        goal(0.0, 0.0, 0.0),
        Vector3::new(0.01, 0.0, 0.0),
        0.0,
    );
    assert_eq!(cmd, VelocityCmd::zero());
}

#[test]
fn velocity_cmd_for_goal_forward_at_yaw_zero() {
    let cmd = velocity_cmd_for_goal(
        goal(1.0, 0.0, 0.0),
        Vector3::new(0.0, 0.0, 0.0),
        0.0,
    );
    near(cmd.vx, 0.30, 1e-9);
    near(cmd.vy, 0.00, 1e-9);
    near(cmd.wz, 0.00, 1e-9);
}

#[test]
fn velocity_cmd_for_goal_pulls_back_after_lateral_push() {
    let cmd = velocity_cmd_for_goal(
        goal(1.0, 0.0, 0.0),
        Vector3::new(0.4, 0.3, 0.0),
        0.0,
    );

    assert!(cmd.vx > 0.0, "must still progress forward");
    assert!(cmd.vy < 0.0, "must pull back toward y=0 (got {})", cmd.vy);
    near(cmd.vx.hypot(cmd.vy), 0.30, 1e-9);
}

#[test]
fn velocity_cmd_for_goal_rotates_with_body_yaw() {
    let cmd = velocity_cmd_for_goal(
        goal(1.0, 0.0, FRAC_PI_2),
        Vector3::new(0.0, 0.0, 0.0),
        FRAC_PI_2,
    );

    near(cmd.vx, 0.0, 1e-9);
    near(cmd.vy, -0.30, 1e-9);
}

#[test]
fn velocity_cmd_for_goal_yaw_wraps_short_way() {
    let cmd = velocity_cmd_for_goal(
        GoalPoseWorld {
            x_m: 0.0,
            y_m: 0.0,
            yaw_rad: -3.0 * FRAC_PI_4,
            max_v_m_s: 0.30,
            max_wz_rad_s: 1.0,
            position_tolerance_m: 0.001,
            yaw_tolerance_rad: 0.001,
        },
        Vector3::new(0.0, 0.0, 0.0),
        3.0 * FRAC_PI_4,
    );

    assert!(cmd.wz > 0.0, "should pick the short rotation direction (got wz={})", cmd.wz);
}

#[test]
fn keys_roundtrip_get_set() {
    let mut c = build_fullc();
    for k in c.experimental_keys() {
        let cur = c.get_experimental(k.key).expect("declared key must read");

        let new = match cur {
            ExpValue::Bool(b) => ExpValue::Bool(!b),
            ExpValue::F64(v) => ExpValue::F64(s(f(v) + 1.0)),
        };
        c.set_experimental(k.key, new).expect("declared key must write");
        assert_eq!(c.get_experimental(k.key), Some(new), "key {}", k.key);
    }
}

#[test]
fn unknown_key_and_wrong_kind_error() {
    let mut c = build_fullc();
    assert!(matches!(
        c.set_experimental("no_such_knob", ExpValue::Bool(true)),
        Err(ExpError::UnknownKey(_))
    ));
    assert!(matches!(
        c.set_experimental("warm_start", ExpValue::F64(s(1.0))),
        Err(ExpError::WrongKind { key: "warm_start" })
    ));
}

#[test]
fn non_fullc_modes_expose_no_keys() {
    let c = build(GaitMode::Champ);
    assert!(c.experimental_keys().is_empty());
    assert_eq!(c.get_experimental("warm_start"), None);
}

#[test]
fn goal_speed_is_limited_on_every_axis() {
    let cmd = velocity_cmd_for_goal(goal(0.0, 0.0, 2.0), Vector3::zeros(), 0.0);
    assert_eq!((cmd.vx, cmd.vy), (0.0, 0.0));
    near(cmd.wz, 1.0, 1e-12);
}

#[test]
fn fresh_controllers_report_their_mode() {
    for mode in GaitMode::ALL {
        let c = build(mode);
        assert_eq!(c.mode(), mode);
        assert_eq!(c.velocity_cmd(), Command::zero());
        assert_eq!(c.knee_forward(), [false; 4]);
        assert_eq!(c.config(), &GaitConfig::trot());
    }
    assert_eq!(GaitMode::default(), GaitMode::Champ);
    let labels = GaitMode::ALL.map(|m| m.label());
    for i in 0..5 {
        assert!(!labels[i].is_empty());
        for j in 0..i {
            assert_ne!(labels[i], labels[j]);
        }
    }
}

#[test]
fn a_mode_switch_keeps_command_gait_and_knees() {
    let cmd = Command { vx: s(0.2), vy: s(-0.1), wz: s(0.3) };
    for from in GaitMode::ALL {
        for to in GaitMode::ALL {
            let mut c = build(from);
            c.set_velocity_cmd(cmd);
            c.set_knee_pattern(KneePattern::MammalianReverse);
            c.set_mode(to, setup());
            assert_eq!(c.mode(), to);
            assert_eq!(c.velocity_cmd(), cmd);
            assert_eq!(c.knee_pattern(), KneePattern::MammalianReverse);
            assert_eq!(c.kinematics().rr.hip_joint, "RR_hip");
        }
    }
}

#[test]
fn a_mode_switch_keeps_knees_that_differ_left_to_right() {
    for from in GaitMode::ALL {
        for to in GaitMode::ALL {
            let mut c = build(from);
            c.set_knee_forward(LegId::FL, true);
            assert_eq!(c.knee_forward(), [true, false, false, false]);
            c.set_knee_forward(LegId::RR, true);
            c.set_mode(to, setup());
            assert_eq!(c.knee_forward(), [true, false, false, true]);
        }
    }
}

#[test]
fn only_the_solver_of_a_mode_has_settings() {
    for mode in GaitMode::ALL {
        let c = build(mode);
        assert_eq!(c.srbd_mpc_config().is_some(), mode == GaitMode::Mpc);
        assert_eq!(c.centroidal_mpc_config().is_some(), mode == GaitMode::CentroidalSrbd);
        let full = mode == GaitMode::FullCentroidal;
        assert_eq!(c.full_centroidal_mpc_config().is_some(), full);
        assert_eq!(c.capture_point_pulse().is_some(), full);
        assert_eq!(c.use_mpc_predicted_footstep().is_some(), full);
        assert_eq!(c.legged_control_parity().is_some(), full);
        assert_eq!(c.parity_use_nominal_q_ref().is_some(), full);
        assert!(c.predicted_grfs().is_none());
        assert!(c.predicted_centroidal_solution().is_none());
        assert!(c.predicted_full_centroidal_solution().is_none());
    }
}

#[test]
fn settings_reach_only_the_mode_that_has_them() {
    for mode in GaitMode::ALL {
        let full = mode == GaitMode::FullCentroidal;
        let mut c = build(mode);
        c.set_goal_pose_world(goal(1.0, 2.0, 3.0).inner());
        assert_eq!(c.goal_pose_world().is_some(), full);
        c.clear_goal_pose();
        assert_eq!(c.goal_pose_world(), None);
        c.set_use_mpc_predicted_footstep(true);
        assert_eq!(c.use_mpc_predicted_footstep() == Some(true), full);
        c.set_capture_point_pulse(s(0.5), s(0.2));
        assert_eq!(c.capture_point_pulse() == Some((s(0.5), s(0.2))), full);
        c.set_legged_control_parity(true);
        assert_eq!(c.legged_control_parity() == Some(true), full);
        c.set_parity_use_nominal_q_ref(true);
        assert_eq!(c.parity_use_nominal_q_ref() == Some(true), full);
        c.set_srbd_mpc_config(9);
        assert_eq!(c.srbd_mpc_config() == Some(&9), mode == GaitMode::Mpc);
    }
}

#[test]
fn a_reset_returns_to_rest() {
    for mode in GaitMode::ALL {
        let mut c = build(mode);
        c.set_velocity_cmd(Command { vx: s(0.2), vy: s(0.0), wz: s(0.0) });
        c.reset();
        assert!(c.velocity_cmd().is_zero());
    }
}

#[test]
fn every_setting_names_itself_and_its_kind() {
    let keys = build_fullc().experimental_keys();
    assert_eq!(keys.len(), 10);
    for k in &keys {
        assert!(!k.label.is_empty() && !k.help.is_empty());
        let value = build_fullc().get_experimental(k.key).unwrap();
        match value {
            ExpValue::Bool(b) => {
                assert!(matches!(k.kind, ExpKind::Bool));
                assert_eq!((value.as_bool(), value.as_f64()), (Some(b), None));
            }
            ExpValue::F64(x) => {
                assert!(!matches!(k.kind, ExpKind::Bool));
                assert_eq!((value.as_bool(), value.as_f64()), (None, Some(x)));
            }
        }
    }
}

#[test]
fn setting_errors_say_what_was_wrong() {
    let mut c = build_fullc();
    let e = c.set_experimental("no_such_knob", ExpValue::Bool(true)).unwrap_err();
    assert_eq!(e.message(), "unknown experimental key 'no_such_knob'");
    let e = c.set_experimental("warm_start", ExpValue::F64(s(1.0))).unwrap_err();
    assert_eq!(e.message(), "wrong value kind for experimental key 'warm_start'");
    let e = c.set_experimental("q_foot_xy_world", ExpValue::Bool(true)).unwrap_err();
    assert_eq!(e.message(), "wrong value kind for experimental key 'q_foot_xy_world'");
}

#[test]
fn one_setting_leaves_the_others_alone() {
    let mut c = build_fullc();
    let before: Vec<_> =
        c.experimental_keys().iter().map(|k| (k.key, c.get_experimental(k.key))).collect();
    c.set_experimental("friction_cone_slack_penalty", ExpValue::F64(s(123.0))).unwrap();
    for (key, value) in before {
        if key != "friction_cone_slack_penalty" {
            assert_eq!(c.get_experimental(key), value, "{key}");
        }
    }
}

#[test]
fn solver_settings_can_be_replaced() {
    let mut c = build(GaitMode::CentroidalSrbd);
    let mut cfg: CentroidalMpcConfig = *c.centroidal_mpc_config().unwrap();
    cfg.mass_kg = s(20.0);
    c.set_centroidal_mpc_config(cfg);
    assert_eq!(c.centroidal_mpc_config().unwrap().mass_kg, s(20.0));
    let mut c = build_fullc();
    let mut cfg: FullCentroidalMpcConfig = c.full_centroidal_mpc_config().unwrap().clone();
    cfg.mass_kg = s(21.0);
    c.set_full_centroidal_mpc_config(cfg);
    assert_eq!(c.full_centroidal_mpc_config().unwrap().mass_kg, s(21.0));
}

#[test]
fn one_job_is_in_flight_at_a_time() {
    let mut t = JobTracker::new();
    assert!(!t.is_busy());
    let stamp = t.stamp();
    t.submit(true);
    assert!(t.is_busy());
    assert_eq!(t.poll(Vec::<(u64, i32)>::new()), None);
    assert!(t.is_busy());
    assert_eq!(t.poll(vec![(stamp, 42)]), Some(42));
    assert!(!t.is_busy());
}

#[test]
fn a_job_that_could_not_be_sent_is_not_in_flight() {
    let mut t = JobTracker::default();
    t.submit(false);
    assert!(!t.is_busy());
}

#[test]
fn a_result_from_before_a_reset_never_surfaces() {
    let mut t = JobTracker::new();
    let stamp = t.stamp();
    t.submit(true);
    t.reset();
    assert_eq!(t.poll(vec![(stamp, 7)]), None);
    assert!(!t.is_busy());
    let next = t.stamp();
    assert_ne!(stamp, next);
    t.submit(true);
    assert_eq!(t.poll(vec![(stamp, 7), (next, 8), (next, 9)]), Some(9));
}

#[test]
fn a_result_from_several_resets_ago_never_surfaces() {
    let mut t = JobTracker::new();
    let stamp = t.stamp();
    t.submit(true);
    for _ in 0..5 {
        t.reset();
        assert!(t.is_busy());
    }
    assert_eq!(t.poll(vec![(stamp, 7)]), None);
    assert!(!t.is_busy());
    let stamp = t.stamp();
    t.submit(true);
    assert_eq!(t.poll(Vec::<(u64, i32)>::new()), None);
    assert_eq!(t.poll(vec![(stamp, 8)]), Some(8));
    assert_eq!(t.poll(Vec::<(u64, i32)>::new()), None);
}

#[test]
fn the_command_toward_a_goal_keeps_its_linear_limit() {
    for (x, y, yaw) in [(3.0, 4.0, 0.5), (-2.0, 0.1, -2.0), (0.02, -0.01, 1.0)] {
        let c = velocity_cmd_for_goal(goal(x, y, 0.3), Vector3::zeros(), yaw);
        let limit = goal(x, y, 0.3).max_v_m_s;
        assert!((c.vx * c.vx + c.vy * c.vy).sqrt() <= limit + 1e-12);
    }
}
