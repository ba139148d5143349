//! Gait and leg configuration.

use quadruped_gait::arith::Arithmetic;
use quadruped_gait::config::{
    stance_weight_at, GaitConfig, GaitType, KneePattern, LegId, LegKinematics, VelocityCmd,
    DEFAULT_FOOT_LINKS,
};
use quadruped_gait::full_centroidal_mpc::{N_INPUT, N_STATE};
use quadruped_gait::scalar::{Scalar, Vec3};

struct Host;

fn s(x: f64) -> Scalar {
    Scalar::from_bits(x.to_bits())
}

fn f(x: Scalar) -> f64 {
    f64::from_bits(x.to_bits())
}

impl Arithmetic for Host {
    fn plus(&self, a: Scalar, b: Scalar) -> Scalar {
        s(f(a) + f(b))
    }
    fn minus(&self, a: Scalar, b: Scalar) -> Scalar {
        s(f(a) - f(b))
    }
    fn times(&self, a: Scalar, b: Scalar) -> Scalar {
        s(f(a) * f(b))
    }
    fn over(&self, a: Scalar, b: Scalar) -> Scalar {
        s(f(a) / f(b))
    }
    fn sqrt(&self, a: Scalar) -> Scalar {
        s(f(a).sqrt())
    }
    fn sin(&self, a: Scalar) -> Scalar {
        s(f(a).sin())
    }
    fn cos(&self, a: Scalar) -> Scalar {
        s(f(a).cos())
    }
    fn atan2(&self, y: Scalar, x: Scalar) -> Scalar {
        s(f(y).atan2(f(x)))
    }
    fn acos(&self, a: Scalar) -> Scalar {
        s(f(a).acos())
    }
    fn wrap(&self, a: Scalar, period: Scalar) -> Scalar {
        s(f(a).rem_euclid(f(period)))
    }
    fn floor(&self, a: Scalar) -> Scalar {
        s(f(a).floor())
    }
    fn from_count(&self, n: usize) -> Scalar {
        s(n as f64)
    }
    fn round_to_count(&self, a: Scalar) -> usize {
        f(a).round() as usize
    }
}

fn weight(sub: f64, tf: f64) -> f64 {
    f(stance_weight_at(&Host, s(sub), s(tf)))
}

#[test]
fn trot_phase_pairs() {
    let offsets = GaitType::Trot.phase_offsets();
    let of = |leg: LegId| {
        let mut found = None;
        for (l, off) in offsets {
            if l == leg {
                found = Some(f(off));
            }
        }
        found.unwrap()
    };
    assert_eq!(of(LegId::FL), of(LegId::RR));
    assert_eq!(of(LegId::FR), of(LegId::RL));
    assert_ne!(of(LegId::FL), of(LegId::FR));
}

#[test]
fn knee_pattern_label_round_trip() {
    for p in KneePattern::ALL {
        assert_eq!(KneePattern::from_label(p.label()), Some(p));
    }
    assert!(KneePattern::from_label("<<<").is_none());
    assert!(KneePattern::from_label("ab").is_none());
}

#[test]
fn knee_pattern_to_array_symmetric() {
    for p in KneePattern::ALL {
        let arr = p.to_knee_forward();
        assert_eq!(arr[0], arr[1], "pattern {:?} broke L/R front symmetry", p);
        assert_eq!(arr[2], arr[3], "pattern {:?} broke L/R rear symmetry", p);
    }
}

#[test]
fn knee_pattern_specific_mappings() {
    assert_eq!(KneePattern::BothBack.to_knee_forward(), [false; 4]);
    assert_eq!(KneePattern::BothForward.to_knee_forward(), [true; 4]);
    assert_eq!(
        KneePattern::MammalianForward.to_knee_forward(),
        [false, false, true, true],
    );
    assert_eq!(
        KneePattern::MammalianReverse.to_knee_forward(),
        [true, true, false, false],
    );
}

#[test]
fn knee_pattern_round_trips_via_array() {
    for p in KneePattern::ALL {
        let arr = p.to_knee_forward();
        assert_eq!(KneePattern::from_knee_forward(arr), p);
    }
}

#[test]
fn nominal_foot_below_hip() {
    let kin = LegKinematics::new(
        &Host,
        LegId::FL,
        "FL_hip".into(),
        "FL_thigh".into(),
        "FL_calf".into(),
        "FL_foot".into(),
        Vec3::new(s(0.18), s(0.05), s(0.0)),
        s(0.04),
        s(0.18),
        s(0.18),
    );
    assert!((f(kin.nominal_foot_body.x) - 0.18).abs() < 1e-9);
    assert!((f(kin.nominal_foot_body.y) - 0.09).abs() < 1e-9);
    assert!((f(kin.nominal_foot_body.z) - (-0.36)).abs() < 1e-9);
}

#[test]
fn stance_weight_at_zero_transition_is_constant_one() {
    for k in 0..=10 {
        let sub = k as f64 / 10.0;
        assert!((weight(sub, 0.0) - 1.0).abs() < 1e-12);
    }
}

#[test]
fn stance_weight_at_ramps_at_boundaries() {
    assert!((weight(0.0, 0.1)).abs() < 1e-12);
    assert!((weight(0.05, 0.1) - 0.5).abs() < 1e-12);
    assert!((weight(0.10, 0.1) - 1.0).abs() < 1e-12);
    assert!((weight(0.5, 0.1) - 1.0).abs() < 1e-12);
    assert!((weight(0.90, 0.1) - 1.0).abs() < 1e-12);
    assert!((weight(0.95, 0.1) - 0.5).abs() < 1e-12);
    assert!((weight(1.00, 0.1)).abs() < 1e-12);
}

#[test]
fn stance_weight_at_clamps_at_half() {
    assert!((weight(0.5, 0.6) - 1.0).abs() < 1e-12);
    let a = weight(0.25, 0.6);
    let b = weight(0.75, 0.6);
    assert!((a - b).abs() < 1e-12);
    assert!((a - 0.5).abs() < 1e-12);
}

#[test]
fn stance_weight_at_clamps_sub_fraction() {
    assert!((weight(-0.5, 0.1) - weight(0.0, 0.1)).abs() < 1e-12);
    assert!((weight(1.5, 0.1) - weight(1.0, 0.1)).abs() < 1e-12);
}

#[test]
fn dim_constants_are_24_and_24() {
    assert_eq!(N_STATE, 24);
    assert_eq!(N_INPUT, 24);
}

#[test]
fn legs_know_their_quadrant() {
    assert_eq!(LegId::ALL.map(|l| l.is_front()), [true, true, false, false]);
    assert_eq!(LegId::ALL.map(|l| l.is_left()), [true, false, true, false]);
    assert_eq!(LegId::ALL.map(|l| l.label()), ["FL", "FR", "RL", "RR"]);
    assert_eq!(DEFAULT_FOOT_LINKS.map(|(_, name)| name), ["FL_foot", "FR_foot", "RL_foot", "RR_foot"]);
}

#[test]
fn gait_parameters_are_kept_in_range() {
    let g = GaitConfig::trot();
    assert_eq!(f(g.with_cycle_period(s(0.0)).cycle_period_s), 0.05);
    assert_eq!(f(g.with_cycle_period(s(0.7)).cycle_period_s), 0.7);
    assert_eq!(f(g.with_swing_height(s(-0.1)).swing_height_m), 0.0);
    assert_eq!(f(g.with_duty_factor(s(2.0)).duty_factor), 0.95);
    assert_eq!(f(g.with_duty_factor(s(0.0)).duty_factor), 0.05);
    assert_eq!(f(g.with_max_step_length(s(-0.1)).max_step_length_m), 0.0);
    assert_eq!(f(g.with_transition_fraction(s(0.7)).transition_fraction), 0.5);
    assert!(g.with_transition_enforce_constraint(true).transition_enforce_constraint);
    assert_eq!(GaitType::ALL.map(|t| f(t.default_duty_factor())), [0.5, 0.75, 0.5, 0.5]);
}

#[test]
fn speed_is_the_length_of_the_level_velocity() {
    let cmd = VelocityCmd { vx: s(3.0), vy: s(-4.0), wz: s(9.0) };
    assert_eq!(f(cmd.linear_speed(&Host)), 5.0);
    assert!(VelocityCmd::zero().is_zero() && !cmd.is_zero());
}
