//! Closed-form trim of a bound.

use quadruped_gait::arith::Arithmetic;
use quadruped_gait::bound_reference::{BoundTrimConfig as Trim, GRAVITY_BITS};
use quadruped_gait::scalar::Scalar;

struct Host;

fn s(x: f64) -> Scalar {
    Scalar::from_bits(x.to_bits())
}

fn f(x: Scalar) -> f64 {
    f64::from_bits(x.to_bits())
}

impl Arithmetic for Host {
    fn plus(&self, a: Scalar, b: Scalar) -> Scalar {
        s(f(a) + f(b))
    }
    fn minus(&self, a: Scalar, b: Scalar) -> Scalar {
        s(f(a) - f(b))
    }
    fn times(&self, a: Scalar, b: Scalar) -> Scalar {
        s(f(a) * f(b))
    }
    fn over(&self, a: Scalar, b: Scalar) -> Scalar {
        s(f(a) / f(b))
    }
    fn sqrt(&self, a: Scalar) -> Scalar {
        s(f(a).sqrt())
    }
    fn sin(&self, a: Scalar) -> Scalar {
        s(f(a).sin())
    }
    fn cos(&self, a: Scalar) -> Scalar {
        s(f(a).cos())
    }
    fn atan2(&self, y: Scalar, x: Scalar) -> Scalar {
        s(f(y).atan2(f(x)))
    }
    fn acos(&self, a: Scalar) -> Scalar {
        s(f(a).acos())
    }
    fn wrap(&self, a: Scalar, period: Scalar) -> Scalar {
        s(f(a).rem_euclid(f(period)))
    }
    fn floor(&self, a: Scalar) -> Scalar {
        s(f(a).floor())
    }
    fn from_count(&self, n: usize) -> Scalar {
        s(n as f64)
    }
    fn round_to_count(&self, a: Scalar) -> usize {
        f(a).round() as usize
    }
}

#[derive(Clone, Copy)]
struct BoundTrimConfig {
    mass_kg: f64,
    inertia_yy: f64,
    r_x: f64,
    h0: f64,
    cycle_period_s: f64,
    duty_factor: f64,
    friction_mu: f64,
    sign: f64,
    thrust_scale: f64,
    cmd_vx_mps: f64,
    velocity_ripple_fraction: Option<f64>,
}

struct Sample {
    pitch: f64,
    pitch_rate: f64,
    f_x_per_leg: f64,
    f_z_per_leg: f64,
}

const GRAVITY_MPS2: f64 = 9.81;

impl BoundTrimConfig {
    fn trim(&self) -> Trim {
        Trim {
            mass_kg: s(self.mass_kg),
            inertia_yy: s(self.inertia_yy),
            r_x: s(self.r_x),
            h0: s(self.h0),
            cycle_period_s: s(self.cycle_period_s),
            duty_factor: s(self.duty_factor),
            friction_mu: s(self.friction_mu),
            sign: s(self.sign),
            thrust_scale: s(self.thrust_scale),
            cmd_vx_mps: s(self.cmd_vx_mps),
            velocity_ripple_fraction: self.velocity_ripple_fraction.map(s),
        }
    }
    fn f_x_trim(&self) -> f64 {
        f(self.trim().f_x_trim(&Host))
    }
    fn mu_needed(&self) -> f64 {
        f(self.trim().mu_needed(&Host))
    }
    fn f_z_total(&self) -> f64 {
        f(self.trim().f_z_total(&Host))
    }
    fn f_x_clipped(&self) -> f64 {
        f(self.trim().f_x_clipped(&Host))
    }
    fn f_x_used(&self) -> f64 {
        f(self.trim().f_x_used(&Host))
    }
    fn theta_peak(&self, f_x: f64) -> f64 {
        f(self.trim().theta_peak(&Host, s(f_x)))
    }
    fn theta_boundary(&self, f_x: f64) -> (f64, f64) {
        let b = self.trim().theta_boundary(&Host, s(f_x));
        (f(b.0), f(b.1))
    }
    fn sample(&self, phase: f64) -> Sample {
        let r = self.trim().sample(&Host, s(phase));
        Sample {
            pitch: f(r.pitch),
            pitch_rate: f(r.pitch_rate),
            f_x_per_leg: f(r.f_x_per_leg),
            f_z_per_leg: f(r.f_z_per_leg),
        }
    }
}

fn go2_cfg(friction_mu: f64) -> BoundTrimConfig {
    BoundTrimConfig {
        mass_kg: 15.606,
        inertia_yy: 0.0981,
        r_x: 0.1922,
        h0: 0.2664,
        cycle_period_s: 0.30,
        duty_factor: 0.5,
        friction_mu,
        sign: 1.0,
        thrust_scale: 1.0,
        cmd_vx_mps: 0.0,
        velocity_ripple_fraction: None,
    }
}

#[test]
fn f_x_trim_and_mu_needed_match_hand_derivation() {
    let cfg = go2_cfg(0.7);
    assert!((cfg.f_x_trim() - (-110.44)).abs() < 0.1);
    assert!((cfg.mu_needed() - 0.721).abs() < 0.01);
    assert!((cfg.f_z_total() - 153.10).abs() < 0.1);
}

#[test]
fn theta_peak_matches_hand_derivation() {
    let cfg = go2_cfg(0.7);
    assert!((cfg.theta_peak(0.0) - 0.8436).abs() < 0.01);
    assert!(cfg.theta_peak(cfg.f_x_trim()) < 1e-9);
    assert!((cfg.theta_peak(cfg.f_x_clipped()) - 0.0250).abs() < 0.005);
}

#[test]
fn pitch_is_zero_at_both_pair_switch_instants() {
    let cfg = go2_cfg(0.7);
    assert!(cfg.sample(0.0).pitch.abs() < 1e-9);
    assert!(cfg.sample(0.5).pitch.abs() < 1e-9);
}

#[test]
fn pitch_peak_magnitude_at_mid_stance_matches_theta_peak() {
    let cfg = go2_cfg(0.7);
    let mid_front = cfg.sample(0.25).pitch.abs();
    let mid_rear = cfg.sample(0.75).pitch.abs();
    let expected = cfg.theta_peak(cfg.f_x_clipped());
    assert!((mid_front - expected).abs() < 1e-6, "front mid-stance: {mid_front} vs {expected}");
    assert!((mid_rear - expected).abs() < 1e-6, "rear mid-stance: {mid_rear} vs {expected}");
}

#[test]
fn rear_phase_is_exact_mirror_of_front_phase() {
    let cfg = go2_cfg(0.7);
    for i in 0..50 {
        let frac = i as f64 / 100.0;
        let front = cfg.sample(frac);
        let rear = cfg.sample(frac + 0.5);
        assert!((front.pitch + rear.pitch).abs() < 1e-9);
        assert!((front.pitch_rate + rear.pitch_rate).abs() < 1e-9);
        assert!((front.f_x_per_leg + rear.f_x_per_leg).abs() < 1e-9);
        assert!((front.f_z_per_leg - rear.f_z_per_leg).abs() < 1e-9);
    }
}

#[test]
fn f_z_per_leg_is_half_body_weight_always() {
    let cfg = go2_cfg(0.7);
    for i in 0..10 {
        let phase = i as f64 / 10.0;
        let expected = cfg.f_z_total() / 2.0;
        assert!((cfg.sample(phase).f_z_per_leg - expected).abs() < 1e-9);
    }
}

#[test]
fn tighter_friction_reduces_available_thrust_and_raises_peak_pitch() {
    let loose = go2_cfg(1.5);
    let tight = go2_cfg(0.5);
    assert!(loose.f_x_clipped().abs() >= tight.f_x_clipped().abs());
    assert!(loose.theta_peak(loose.f_x_clipped()) <= tight.theta_peak(tight.f_x_clipped()));
}

#[test]
fn thrust_scale_one_reproduces_prior_behaviour() {
    let cfg = go2_cfg(0.7);
    assert!((cfg.f_x_used() - cfg.f_x_clipped()).abs() < 1e-9);
}

#[test]
fn thrust_scale_zero_means_zero_commanded_force_and_theta_peak_matches_zero_fx() {
    let mut cfg = go2_cfg(0.7);
    cfg.thrust_scale = 0.0;
    assert!((cfg.f_x_used()).abs() < 1e-9);
    let mid_front = cfg.sample(0.25).pitch.abs();
    assert!((mid_front - cfg.theta_peak(0.0)).abs() < 1e-6);
}

#[test]
fn theta_peak_grows_monotonically_as_thrust_scale_shrinks() {
    let mut cfg = go2_cfg(0.7);
    let mut prev_theta_peak = cfg.theta_peak(cfg.f_x_used());
    for thrust_scale in [0.9, 0.8, 0.7, 0.6, 0.5, 0.4, 0.3, 0.2, 0.1, 0.0] {
        cfg.thrust_scale = thrust_scale;
        let theta_peak = cfg.theta_peak(cfg.f_x_used());
        assert!(
            theta_peak >= prev_theta_peak,
            "thrust_scale={thrust_scale}: theta_peak {theta_peak} should be >= previous {prev_theta_peak}"
        );
        prev_theta_peak = theta_peak;
    }
}

#[test]
fn f_x_used_scales_linearly_with_thrust_scale() {
    let mut cfg = go2_cfg(0.7);
    let full = cfg.f_x_clipped();
    for thrust_scale in [0.0, 0.25, 0.5, 0.75, 1.0] {
        cfg.thrust_scale = thrust_scale;
        assert!((cfg.f_x_used() - thrust_scale * full).abs() < 1e-9);
    }
}

#[test]
fn velocity_ripple_fraction_none_reproduces_thrust_scale_behaviour() {
    let mut cfg = go2_cfg(0.7);
    for thrust_scale in [0.0, 0.4, 1.0] {
        cfg.thrust_scale = thrust_scale;
        assert!((cfg.f_x_used() - thrust_scale * cfg.f_x_clipped()).abs() < 1e-9);
    }
}

#[test]
fn velocity_ripple_unclipped_matches_closed_form() {
    let mut cfg = go2_cfg(0.7);
    cfg.cycle_period_s = 0.18;
    cfg.cmd_vx_mps = 0.40;
    cfg.velocity_ripple_fraction = Some(0.3);
    let t_st = cfg.cycle_period_s * cfg.duty_factor;
    let expected_mag = cfg.mass_kg * 0.3 * 0.40 / t_st;
    assert!(expected_mag < cfg.friction_mu * cfg.f_z_total(), "test setup should stay unclipped");
    assert!((cfg.f_x_used().abs() - expected_mag).abs() < 1e-6);
}

#[test]
fn velocity_ripple_f_x_used_sign_matches_f_x_trim() {
    let mut cfg = go2_cfg(0.7);
    cfg.cmd_vx_mps = 0.40;
    cfg.velocity_ripple_fraction = Some(0.3);
    assert_eq!(cfg.f_x_used().signum(), cfg.f_x_trim().signum());
}

#[test]
fn velocity_ripple_clips_to_friction_cone_at_high_cmd_vx() {
    let mut cfg = go2_cfg(0.7);
    cfg.cycle_period_s = 0.18;
    cfg.cmd_vx_mps = 5.0;
    cfg.velocity_ripple_fraction = Some(1.0);
    let bound = cfg.friction_mu * cfg.f_z_total();
    assert!((cfg.f_x_used().abs() - bound).abs() < 1e-9);
}

#[test]
fn velocity_ripple_theta_peak_shrinks_as_cmd_vx_grows_toward_full_trim() {
    let mut cfg = go2_cfg(0.7);
    cfg.cycle_period_s = 0.18;
    cfg.velocity_ripple_fraction = Some(0.6);
    let mut prev_theta_peak = f64::INFINITY;
    for cmd_vx in [0.2, 0.4, 0.8, 1.2] {
        cfg.cmd_vx_mps = cmd_vx;
        let theta_peak = cfg.theta_peak(cfg.f_x_used());
        assert!(
            theta_peak <= prev_theta_peak,
            "cmd_vx={cmd_vx}: theta_peak {theta_peak} should be <= previous {prev_theta_peak}"
        );
        prev_theta_peak = theta_peak;
    }
}

#[test]
fn velocity_ripple_fraction_calibrates_against_thrust_scale_0_4_empirical_point() {
    let mut cfg = go2_cfg(0.7);
    cfg.cycle_period_s = 0.18;
    let thrust_scale_path = {
        let mut c = cfg;
        c.thrust_scale = 0.4;
        c.f_x_used()
    };
    cfg.cmd_vx_mps = 0.40;
    cfg.velocity_ripple_fraction = Some(0.62);
    assert!(
        (cfg.f_x_used() - thrust_scale_path).abs() < 2.0,
        "ripple-fraction F_x_used={:.2} should be within 2N of thrust_scale=0.4's {:.2}",
        cfg.f_x_used(), thrust_scale_path
    );
}

#[test]
fn duty_above_half_is_clamped_and_leaves_lower_duties_untouched() {

    let mk = |d: f64| BoundTrimConfig { duty_factor: d, ..go2_cfg(0.7) };
    for d in [0.25, 0.34, 0.40, 0.50] {
        let c = mk(d);
        let expected = c.mass_kg * GRAVITY_MPS2 / (2.0 * d);
        assert!((c.f_z_total() - expected).abs() < 1e-9,
                "duty {d} must be untouched by the clamp");
    }

    let at_half = mk(0.50);
    for d in [0.55, 0.60, 0.70] {
        let c = mk(d);
        assert!((c.f_z_total() - at_half.f_z_total()).abs() < 1e-9,
                "duty {d} must clamp to the duty-0.5 support force");

        assert!(c.f_z_total() >= c.mass_kg * GRAVITY_MPS2 - 1e-9,
                "duty {d} must not under-support gravity");
    }
}

#[test]
fn duty_above_half_keeps_the_half_cycle_pitch_reference_continuous() {

    for d in [0.50, 0.55, 0.60, 0.70] {
        let c = BoundTrimConfig { duty_factor: d, ..go2_cfg(0.7) };
        let a = c.sample(0.0).pitch;
        let b = c.sample(0.5).pitch;
        assert!((a + b).abs() < 1e-6,
                "duty {d}: theta(0.5) must mirror theta(0), got {a} and {b}");
        assert!(c.sample(0.25).pitch.is_finite(), "duty {d}: mid-stance must be finite");
    }
}

#[test]
fn f_z_total_grows_as_duty_factor_shrinks_below_half() {
    let mut cfg = go2_cfg(0.7);
    cfg.cycle_period_s = 0.18;
    for (duty, expected_fz) in [
        (0.50, 153.09),
        (0.45, 170.11),
        (0.40, 191.37),
        (0.35, 218.71),
        (0.30, 255.16),
        (0.25, 306.19),
    ] {
        cfg.duty_factor = duty;
        assert!(
            (cfg.f_z_total() - expected_fz).abs() < 0.1,
            "duty={duty}: f_z_total={:.2} expected {expected_fz:.2}",
            cfg.f_z_total()
        );
    }
}

#[test]
fn theta_boundary_matches_flight_phase_closed_form() {
    let mut cfg = go2_cfg(0.7);
    cfg.cycle_period_s = 0.18;
    for (duty, expected_th0, expected_thd0) in [
        (0.50, 0.0, 0.40170),
        (0.45, 0.00181, 0.40170),
        (0.40, 0.00362, 0.40170),
        (0.35, 0.00542, 0.40170),
        (0.30, 0.00723, 0.40170),
        (0.25, 0.00904, 0.40170),
    ] {
        cfg.duty_factor = duty;
        let f_x = cfg.f_x_clipped();
        let (th0, thd0) = cfg.theta_boundary(f_x);
        assert!(
            (th0 - expected_th0).abs() < 0.001,
            "duty={duty}: th0={th0:.5} expected {expected_th0:.5}"
        );
        assert!(
            (thd0 - expected_thd0).abs() < 0.001,
            "duty={duty}: thd0={thd0:.5} expected {expected_thd0:.5}"
        );
    }
}

#[test]
fn theta_peak_matches_flight_phase_closed_form() {
    let mut cfg = go2_cfg(0.7);
    cfg.cycle_period_s = 0.18;
    for (duty, expected_peak) in [
        (0.50, 0.00904),
        (0.45, 0.00994),
        (0.40, 0.01085),
        (0.35, 0.01175),
        (0.30, 0.01265),
        (0.25, 0.01356),
    ] {
        cfg.duty_factor = duty;
        let f_x = cfg.f_x_clipped();
        let peak = cfg.theta_peak(f_x);
        assert!(
            (peak - expected_peak).abs() < 0.001,
            "duty={duty}: theta_peak={peak:.5} expected {expected_peak:.5}"
        );
    }
}

#[test]
fn flight_phase_sample_has_zero_force() {
    let mut cfg = go2_cfg(0.7);
    cfg.cycle_period_s = 0.18;
    cfg.duty_factor = 0.4;

    let sample = cfg.sample(0.45);
    assert_eq!(sample.f_x_per_leg, 0.0);
    assert_eq!(sample.f_z_per_leg, 0.0);

    let sample = cfg.sample(0.95);
    assert_eq!(sample.f_x_per_leg, 0.0);
    assert_eq!(sample.f_z_per_leg, 0.0);
}

#[test]
fn duty_one_half_sample_matches_original_single_parabola() {
    let cfg = go2_cfg(0.7);
    let f_x = cfg.f_x_clipped();
    let alpha_p = -(cfg.h0 * f_x + cfg.r_x * cfg.f_z_total()) / cfg.inertia_yy;
    let t_st = cfg.cycle_period_s * 0.5;
    for cycle_phase in [0.0, 0.1, 0.25, 0.4, 0.5, 0.6, 0.75, 0.9] {
        let local_frac = if cycle_phase < 0.5 { cycle_phase } else { cycle_phase - 0.5 };
        let s = local_frac * 2.0 * t_st;
        let expected_theta = (alpha_p / 2.0) * s * (s - t_st);
        let expected_theta_dot = alpha_p * (s - t_st / 2.0);
        let sample = cfg.sample(cycle_phase);
        let (theta, theta_dot) = if cycle_phase < 0.5 {
            (sample.pitch / cfg.sign, sample.pitch_rate / cfg.sign)
        } else {
            (-sample.pitch / cfg.sign, -sample.pitch_rate / cfg.sign)
        };
        assert!(
            (theta - expected_theta).abs() < 1e-9,
            "cycle_phase={cycle_phase}: theta={theta:.6} expected {expected_theta:.6}"
        );
        assert!(
            (theta_dot - expected_theta_dot).abs() < 1e-9,
            "cycle_phase={cycle_phase}: theta_dot={theta_dot:.6} expected {expected_theta_dot:.6}"
        );
    }
}

#[test]
fn gravity_is_the_standard_one() {
    assert_eq!(f64::from_bits(GRAVITY_BITS), GRAVITY_MPS2);
}
