//! Crawl with a linear trunk.

use quadruped_gait::arith::Arithmetic;
use quadruped_gait::config::{GaitConfig, KinematicsConfig, KneePattern, LegId, LegKinematics, VelocityCmd};
use quadruped_gait::linear_crawl::{
    LinearCrawlConfig as Config, LinearCrawlController as Controller, LinearCrawlOutput as Output,
};
use quadruped_gait::linear_crawl_gen::LinearCrawlGen;
use quadruped_gait::scalar::{Scalar, Vec3};

struct Host;

fn s(x: f64) -> Scalar {
    Scalar::from_bits(x.to_bits())
}

fn f(x: Scalar) -> f64 {
    f64::from_bits(x.to_bits())
}

impl Arithmetic for Host {
    fn plus(&self, a: Scalar, b: Scalar) -> Scalar {
        s(f(a) + f(b))
    }
    fn minus(&self, a: Scalar, b: Scalar) -> Scalar {
        s(f(a) - f(b))
    }
    fn times(&self, a: Scalar, b: Scalar) -> Scalar {
        s(f(a) * f(b))
    }
    fn over(&self, a: Scalar, b: Scalar) -> Scalar {
        s(f(a) / f(b))
    }
    fn sqrt(&self, a: Scalar) -> Scalar {
        s(f(a).sqrt())
    }
    fn sin(&self, a: Scalar) -> Scalar {
        s(f(a).sin())
    }
    fn cos(&self, a: Scalar) -> Scalar {
        s(f(a).cos())
    }
    fn atan2(&self, y: Scalar, x: Scalar) -> Scalar {
        s(f(y).atan2(f(x)))
    }
    fn acos(&self, a: Scalar) -> Scalar {
        s(f(a).acos())
    }
    fn wrap(&self, a: Scalar, period: Scalar) -> Scalar {
        s(f(a).rem_euclid(f(period)))
    }
    fn floor(&self, a: Scalar) -> Scalar {
        s(f(a).floor())
    }
    fn from_count(&self, n: usize) -> Scalar {
        s(n as f64)
    }
    fn round_to_count(&self, a: Scalar) -> usize {
        f(a).round() as usize
    }
}

#[derive(Clone, Copy)]
struct LinearCrawlConfig {
    speed_mps: f64,
    body_height_m: f64,
    cycle_period_s: f64,
    four_support_fraction: f64,
    soft_start_duration_s: f64,
}

impl LinearCrawlConfig {
    fn default() -> Self {
        let c = Config::default();
        LinearCrawlConfig {
            speed_mps: f(c.speed_mps),
            body_height_m: f(c.body_height_m),
            cycle_period_s: f(c.cycle_period_s),
            four_support_fraction: f(c.four_support_fraction),
            soft_start_duration_s: f(c.soft_start_duration_s),
        }
    }
}

struct Out {
    in_swing: [bool; 4],
    trunk_world_xyz: [f64; 3],
    foot_body_xyz: [[f64; 3]; 4],
}

fn out(o: Output) -> Out {
    Out {
        in_swing: o.in_swing,
        trunk_world_xyz: o.trunk_world_xyz.map(f),
        foot_body_xyz: o.foot_body_xyz.map(|p| p.map(f)),
    }
}

struct Place {
    x: f64,
}

struct LinearCrawlController {
    inner: Controller,
    cfg: LinearCrawlConfig,
    nominal_body: [Place; 4],
}

impl LinearCrawlController {
    fn new(kin: KinematicsConfig, cfg: LinearCrawlConfig) -> Self {
        let mut c = Config::default();
        c.speed_mps = s(cfg.speed_mps);
        c.body_height_m = s(cfg.body_height_m);
        c.cycle_period_s = s(cfg.cycle_period_s);
        c.four_support_fraction = s(cfg.four_support_fraction);
        c.soft_start_duration_s = s(cfg.soft_start_duration_s);
        let inner = Controller::new(kin, c);
        let nominal_body = inner.nominal_body.map(|p| Place { x: f(p.x) });
        LinearCrawlController { inner, cfg, nominal_body }
    }
    fn config(&self) -> &LinearCrawlConfig {
        &self.cfg
    }
    fn tick(&mut self, dt: f64) -> Out {
        out(self.inner.tick(&Host, s(dt)))
    }
    fn output_at(&self, t: f64) -> Out {
        out(self.inner.output_at(&Host, s(t)))
    }
    fn is_holding(&self) -> bool {
        self.inner.is_holding()
    }
    fn elapsed(&self) -> f64 {
        f(self.inner.elapsed())
    }
    fn set_speed(&mut self, v: f64) {
        self.inner.set_speed(s(v));
    }
}

fn dummy_kin() -> KinematicsConfig {
    let mk = |leg: LegId, hx: f64| {
        LegKinematics::new(
            &Host,
            leg,
            format!("{}_hip", leg.label()),
            format!("{}_thigh", leg.label()),
            format!("{}_calf", leg.label()),
            format!("{}_foot", leg.label()),
            Vec3::new(s(hx), s(0.05), s(0.0)),
            s(0.04),
            s(0.18),
            s(0.18),
        )
    };
    KinematicsConfig {
        fl: mk(LegId::FL, 0.18),
        fr: mk(LegId::FR, 0.18),
        rl: mk(LegId::RL, -0.18),
        rr: mk(LegId::RR, -0.18),
    }
}

fn still_config() -> LinearCrawlConfig {
    LinearCrawlConfig::default()
}

#[test]
fn trunk_pose_is_strictly_linear_in_x() {
    let mut c = LinearCrawlController::new(dummy_kin(), LinearCrawlConfig::default());
    let mut last_x = 0.0;
    for k in 0..50 {
        let out = c.tick(0.05);
        let [x, y, z] = out.trunk_world_xyz;
        assert!(x >= last_x, "trunk x decreased at step {k}: {x} < {last_x}");
        assert!((y - 0.0).abs() < 1e-12, "trunk y drift at step {k}: {y}");
        assert_eq!(z, c.config().body_height_m, "trunk z drift at step {k}");
        last_x = x;
    }
}

#[test]
fn at_most_one_leg_in_swing() {
    let c = LinearCrawlController::new(dummy_kin(), LinearCrawlConfig::default());

    let big_t = c.config().cycle_period_s;
    for k in 0..1000 {
        let t = (k as f64) * big_t / 1000.0;
        let out = c.output_at(t);
        let n_swing = out.in_swing.iter().filter(|&&s| s).count();
        assert!(
            n_swing <= 1,
            "more than 1 leg in swing at t={t}: {:?}",
            out.in_swing
        );
    }
}

#[test]
fn each_leg_swings_once_per_cycle() {
    let cfg = LinearCrawlConfig::default();
    let big_t = cfg.cycle_period_s;
    let alpha = cfg.four_support_fraction;
    let expected_swing_s_per_leg = (1.0 - alpha) * big_t / 4.0;
    let c = LinearCrawlController::new(dummy_kin(), cfg);

    let n = 10_000;
    let dt = big_t / n as f64;
    let mut swing_time = [0.0; 4];
    for k in 0..n {
        let t = k as f64 * dt;
        let out = c.output_at(t);
        for (i, &s) in out.in_swing.iter().enumerate() {
            if s {
                swing_time[i] += dt;
            }
        }
    }
    for i in 0..4 {
        assert!(
            (swing_time[i] - expected_swing_s_per_leg).abs() < 2.0 * dt,
            "leg {i} swing time {} ≠ expected {} (±dt)",
            swing_time[i],
            expected_swing_s_per_leg
        );
    }
}

#[test]
fn body_x_continuous_at_swing_boundaries() {
    let c = LinearCrawlController::new(dummy_kin(), LinearCrawlConfig::default());
    let big_t = c.config().cycle_period_s;
    let dt = 1e-5;

    let alpha = c.config().four_support_fraction;
    for i in 0..4 {
        let swing_start_phase = i as f64 * 0.25 + alpha * 0.25;
        let swing_end_phase = (i + 1) as f64 * 0.25;
        for boundary_phase in [swing_start_phase, swing_end_phase] {
            let t = boundary_phase * big_t;
            let before = c.output_at(t - dt);
            let after = c.output_at(t + dt);
            for leg_i in 0..4 {
                let dx = (after.foot_body_xyz[leg_i][0]
                    - before.foot_body_xyz[leg_i][0])
                    .abs();
                let dz = (after.foot_body_xyz[leg_i][2]
                    - before.foot_body_xyz[leg_i][2])
                    .abs();

                assert!(
                    dx < 1e-3,
                    "leg {leg_i} body_x jump {dx} at phase {boundary_phase}"
                );
                assert!(
                    dz < 1e-3,
                    "leg {leg_i} body_z jump {dz} at phase {boundary_phase}"
                );
            }
        }
    }
}

#[test]
fn body_x_periodic_over_one_cycle() {
    let c = LinearCrawlController::new(dummy_kin(), LinearCrawlConfig::default());
    let big_t = c.config().cycle_period_s;
    for k in 0..200 {
        let t = (k as f64) * big_t / 200.0;
        let a = c.output_at(t);
        let b = c.output_at(t + big_t);
        for leg_i in 0..4 {
            for axis in 0..3 {
                assert!(
                    (a.foot_body_xyz[leg_i][axis] - b.foot_body_xyz[leg_i][axis]).abs()
                        < 1e-9,
                    "leg {leg_i} axis {axis} at t={t}: {} vs {}",
                    a.foot_body_xyz[leg_i][axis],
                    b.foot_body_xyz[leg_i][axis]
                );
            }
        }
    }
}

#[test]
fn standstill_freezes_at_all_stance() {
    let mut cfg = still_config();
    cfg.speed_mps = 0.0;
    let mut c = LinearCrawlController::new(dummy_kin(), cfg);

    let out = c.tick(0.005);
    assert!(c.is_holding(), "should hold once all-stance at vx=0");
    assert!(out.in_swing.iter().all(|&s| !s));
    let frozen_xyz = out.foot_body_xyz;

    for _ in 0..50 {
        let out2 = c.tick(0.005);
        assert!(c.is_holding());
        for i in 0..4 {
            for k in 0..3 {
                assert!((out2.foot_body_xyz[i][k] - frozen_xyz[i][k]).abs() < 1e-12);
            }
        }
    }
}

#[test]
fn stop_request_completes_current_swing() {
    let mut c = LinearCrawlController::new(dummy_kin(), still_config());
    c.set_speed(0.1);

    for _ in 0..40 {
        c.tick(0.005);
    }
    assert!(!c.is_holding());
    let mid_swing = c.output_at(c.elapsed());
    let any_in_swing = mid_swing.in_swing.iter().any(|&s| s);

    c.set_speed(0.0);
    let mut held = false;
    for _ in 0..400 {
        let out = c.tick(0.005);
        if c.is_holding() {

            assert!(out.in_swing.iter().all(|&s| !s));
            held = true;
            break;
        }
    }
    assert!(held, "controller never reached an all-stance freeze point");

    let _ = any_in_swing;
}

#[test]
fn resume_from_standstill_continues_cycle() {

    let mut cfg = still_config();
    cfg.speed_mps = 0.0;
    cfg.soft_start_duration_s = 0.0;
    let mut c = LinearCrawlController::new(dummy_kin(), cfg);

    c.tick(0.005);
    assert!(c.is_holding());
    let frozen_t = c.elapsed();

    c.set_speed(0.1);
    c.tick(0.005);
    assert!(!c.is_holding());

    assert!((c.elapsed() - frozen_t - 0.005).abs() < 1e-12);
}

#[test]
fn stance_excursion_within_bound() {
    let cfg = LinearCrawlConfig::default();
    let v = cfg.speed_mps;
    let big_t = cfg.cycle_period_s;
    let s_phase = (1.0 - cfg.four_support_fraction) * 0.25;
    let bound = v * (1.0 - s_phase) * big_t / 2.0 + 1e-9;
    let c = LinearCrawlController::new(dummy_kin(), cfg);

    let n = 4000;
    let dt = big_t / n as f64;
    for k in 0..n {
        let t = k as f64 * dt;
        let out = c.output_at(t);
        for leg_i in 0..4 {
            if !out.in_swing[leg_i] {
                let dev = (out.foot_body_xyz[leg_i][0]
                    - c.nominal_body[leg_i].x)
                    .abs();
                assert!(
                    dev <= bound,
                    "leg {leg_i} stance body_x deviation {dev} > bound {bound}"
                );
            }
        }
    }
}

fn gait() -> GaitConfig {
    GaitConfig::trot()
}

#[test]
fn default_crawl_parameters() {
    let c = LinearCrawlConfig::default();
    assert_eq!(c.speed_mps, 0.05);
    assert_eq!(c.body_height_m, 0.27);
    assert_eq!(c.cycle_period_s, 1.667);
    assert_eq!(c.four_support_fraction, 0.85);
    assert_eq!(c.soft_start_duration_s, 0.5);
}

#[test]
fn a_swing_is_a_smoothstep_ahead_and_a_half_sine_up() {
    let c = LinearCrawlController::new(dummy_kin(), LinearCrawlConfig::default());
    let cfg = *c.config();
    let (t, alpha) = (cfg.cycle_period_s, cfg.four_support_fraction);
    let share = (1.0 - alpha) * 0.25;
    let stride = cfg.speed_mps * (1.0 - share) * t;
    let x = c.nominal_body[2].x;
    for (u, ahead) in [(0.25, 0.103515625), (0.5, 0.5), (0.75, 0.896484375)] {
        let o = c.output_at((alpha * 0.25 + u * share) * t);
        assert!(o.in_swing[2]);
        let p = o.foot_body_xyz[2];
        assert!((p[0] - (x - stride / 2.0 + stride * ahead)).abs() < 1e-9, "{u}");
        let up = 0.005 * (std::f64::consts::PI * u).sin();
        assert!((p[2] - (up - cfg.body_height_m)).abs() < 1e-9, "{u}");
    }
}

#[test]
fn swing_order_gives_each_leg_its_quarter() {
    let c = LinearCrawlController::new(dummy_kin(), LinearCrawlConfig::default());
    assert_eq!(c.inner.sub_cycle_index, [3, 1, 0, 2]);
    let t = c.config().cycle_period_s;
    let slots = [2usize, 1, 3, 0];
    for (quarter, slot) in slots.iter().enumerate() {
        let o = c.output_at((quarter as f64 * 0.25 + 0.24) * t);
        assert!(o.in_swing[*slot], "quarter {quarter}");
    }
}

#[test]
fn first_ticks_of_a_soft_start_are_slow() {
    let mut c = LinearCrawlController::new(dummy_kin(), LinearCrawlConfig::default());
    c.tick(0.05);
    let u = 0.1_f64;
    let expected = 0.05 * (u * u * u * (u * (u * 6.0 - 15.0) + 10.0));
    assert!((c.elapsed() - expected).abs() < 1e-15);
    for _ in 0..20 {
        c.tick(0.05);
    }
    let before = c.elapsed();
    c.tick(0.05);
    assert!((c.elapsed() - before - 0.05).abs() < 1e-12);
}

#[test]
fn crawl_height_comes_from_the_front_left_foot() {
    let g = LinearCrawlGen::new(gait(), dummy_kin());
    assert!((f(g.body_height_m()) - 0.36).abs() < 1e-12);
    let mut g = g;
    g.set_body_height_m(s(0.01));
    assert_eq!(f(g.body_height_m()), 0.05);
}

#[test]
fn rebuilding_the_planner_keeps_the_clocks() {
    let mut g = LinearCrawlGen::new(gait(), dummy_kin());
    g.set_velocity_cmd(VelocityCmd { vx: s(0.1), vy: s(0.0), wz: s(0.0) });
    for _ in 0..30 {
        g.tick(&Host, s(0.02));
    }
    let (t, wall) = (f(g.ctrl.t), f(g.ctrl.wall_t));
    assert!(t > 0.0);
    g.set_config(gait());
    assert_eq!(f(g.ctrl.t), t);
    assert_eq!(f(g.ctrl.wall_t), wall);
    assert_eq!(f(g.ctrl.cfg.speed_mps), 0.1);
    g.set_kinematics(dummy_kin());
    assert_eq!(f(g.ctrl.t), t);
    assert_eq!(f(g.ctrl.wall_t), 0.0);
    assert_eq!(f(g.ctrl.cfg.speed_mps), 0.0);
}

#[test]
fn every_knee_of_a_crawl_bends_by_itself() {
    let mut g = LinearCrawlGen::new(gait(), dummy_kin());
    g.set_knee_forward(LegId::FR, true);
    assert_eq!(g.knee_forward(), [false, true, false, false]);
    assert_eq!(g.ctrl.cfg.knee_forward, [false, true, false, false]);
    g.set_knee_forward(LegId::RL, true);
    assert_eq!(g.knee_forward(), [false, true, true, false]);
    assert_eq!(g.knee_pattern(), KneePattern::MammalianForward);
    g.set_body_height_m(s(0.3));
    let out = g.tick(&Host, s(0.0));
    assert!(f(out.legs[1].q_calf) < 0.0 && f(out.legs[0].q_calf) > 0.0);
    g.set_knee_pattern(KneePattern::BothForward);
    assert_eq!(g.knee_forward(), [true; 4]);
}

#[test]
fn a_swing_foot_stays_between_ground_and_swing_height() {
    let c = LinearCrawlController::new(dummy_kin(), LinearCrawlConfig::default());
    let (t, h) = (c.config().cycle_period_s, c.config().body_height_m);
    for k in 0..2000 {
        let o = c.output_at(k as f64 * t / 2000.0);
        for i in 0..4 {
            let z = o.foot_body_xyz[i][2];
            assert!(z >= -h - 1e-15 && z <= -h + 0.005 + 1e-15);
        }
    }
}

#[test]
fn the_gait_clock_never_outruns_the_wall_clock() {
    let mut c = LinearCrawlController::new(dummy_kin(), LinearCrawlConfig::default());
    for _ in 0..200 {
        let before = c.elapsed();
        c.tick(0.007);
        assert!(c.elapsed() >= before && c.elapsed() <= before + 0.007);
    }
}

#[test]
fn crawl_output_reports_legs_in_slot_order() {
    let mut g = LinearCrawlGen::new(gait(), dummy_kin());
    g.set_velocity_cmd(VelocityCmd { vx: s(0.1), vy: s(0.0), wz: s(0.0) });
    let mut swung = [false; 4];
    let dt = f(g.ctrl.cfg.cycle_period_s) / 400.0;
    for _ in 0..2000 {
        let o = g.tick(&Host, s(dt));
        for (i, l) in o.legs.iter().enumerate() {
            assert_eq!(l.leg, LegId::ALL[i]);
            assert_eq!(l.phase.leg, LegId::ALL[i]);
            let sub = f(l.phase.sub_fraction);
            assert!((0.0..=1.0).contains(&sub));
            if l.phase.is_stance {
                assert_eq!(sub, 0.5);
                assert_eq!(f(l.foot_body.z), -f(g.body_height_m()));
            } else {
                swung[i] = true;
            }
            let half = f(l.footstep.touch_down.x) - f(l.footstep.lift_off.x);
            assert!((half - 0.1 * (1.0 - 0.15 * 0.25) * f(g.ctrl.cfg.cycle_period_s)).abs() < 1e-12);
        }
        assert!((f(o.body_state.world_position.x) - f(g.body_state.world_position.x)).abs() == 0.0);
    }
    assert_eq!(swung, [true; 4]);
}
