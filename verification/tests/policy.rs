//! Input and output of a learned policy.

use nalgebra::{Quaternion, UnitQuaternion, Vector3};
use quadruped_gait::arith::Arithmetic;
use quadruped_gait::policy::{
    action_to_q_des_go2 as q_des, build_obs as assemble, check_obs, clamp_cmd as clamp,
    obs_anomalies as anomalies, read_action, ObsInput as Input, ShapeError, ACTION_SCALE_BITS,
    CMD_VX_RANGE_BITS, CMD_VY_RANGE_BITS, CMD_WZ_RANGE_BITS, DEFAULT_ISAAC_BITS, GO2_TO_ISAAC,
    ISAAC_TO_GO2, JOINT_LIMITS_BITS, N_ACT, N_OBS, POLICY_HZ_BITS, POLICY_KD_BITS, POLICY_KP_BITS,
};
use quadruped_gait::policy_log::{
    csv_header, csv_row, join_with, next_seed, percentile_index, uses_half_slot, ProbeStats,
};
use quadruped_gait::policy_probe::{
    is_wild, probe, probe_observation, summarise_latency, PolicyModel, ProbeError, FIRST_SEED,
};
use quadruped_gait::scalar::Scalar;
use quadruped_gait::single::{Single, SingleArithmetic};

struct Host;

fn s(x: f64) -> Scalar {
    Scalar::from_bits(x.to_bits())
}

fn f(x: Scalar) -> f64 {
    f64::from_bits(x.to_bits())
}

impl Arithmetic for Host {
    fn plus(&self, a: Scalar, b: Scalar) -> Scalar {
        s(f(a) + f(b))
    }
    fn minus(&self, a: Scalar, b: Scalar) -> Scalar {
        s(f(a) - f(b))
    }
    fn times(&self, a: Scalar, b: Scalar) -> Scalar {
        s(f(a) * f(b))
    }
    fn over(&self, a: Scalar, b: Scalar) -> Scalar {
        s(f(a) / f(b))
    }
    fn sqrt(&self, a: Scalar) -> Scalar {
        s(f(a).sqrt())
    }
    fn sin(&self, a: Scalar) -> Scalar {
        s(f(a).sin())
    }
    fn cos(&self, a: Scalar) -> Scalar {
        s(f(a).cos())
    }
    fn atan2(&self, y: Scalar, x: Scalar) -> Scalar {
        s(f(y).atan2(f(x)))
    }
    fn acos(&self, a: Scalar) -> Scalar {
        s(f(a).acos())
    }
    fn wrap(&self, a: Scalar, period: Scalar) -> Scalar {
        s(f(a).rem_euclid(f(period)))
    }
    fn floor(&self, a: Scalar) -> Scalar {
        s(f(a).floor())
    }
    fn from_count(&self, n: usize) -> Scalar {
        s(n as f64)
    }
    fn round_to_count(&self, a: Scalar) -> usize {
        f(a).round() as usize
    }
}

fn sg(x: f32) -> Single {
    Single { bits: x.to_bits() }
}

fn fl(x: Single) -> f32 {
    f32::from_bits(x.bits)
}

impl SingleArithmetic for Host {
    fn single_plus(&self, a: Single, b: Single) -> Single {
        sg(fl(a) + fl(b))
    }
    fn single_minus(&self, a: Single, b: Single) -> Single {
        sg(fl(a) - fl(b))
    }
    fn single_times(&self, a: Single, b: Single) -> Single {
        sg(fl(a) * fl(b))
    }
    fn single_sqrt(&self, a: Single) -> Single {
        sg(fl(a).sqrt())
    }
    fn narrow(&self, a: Scalar) -> Single {
        sg(f(a) as f32)
    }
    fn widen(&self, a: Single) -> Scalar {
        s(fl(a) as f64)
    }
}

const DEFAULT_ISAAC: [f64; 12] =
    [0.1, -0.1, 0.1, -0.1, 0.8, 0.8, 1.0, 1.0, -1.5, -1.5, -1.5, -1.5];
const CMD_VX_RANGE: (f64, f64) = (-0.3, 0.6);
const CMD_VY_RANGE: (f64, f64) = (-0.3, 0.3);
const CMD_WZ_RANGE: (f64, f64) = (-0.5, 0.5);
const JOINT_LIMITS: [(f64, f64); 3] = [(-1.0472, 1.0472), (-1.5708, 3.4907), (-2.7227, -0.83776)];

#[derive(Clone, Copy, Default)]
struct ObsInput {
    gyro_rad_s: [f32; 3],
    quat_wxyz: [f32; 4],
    joint_q_go2: [f32; 12],
    joint_dq_go2: [f32; 12],
}

fn build_obs(inp: &ObsInput, cmd: &[f64; 3], last: &[f64; 12]) -> Vec<f32> {
    let input = Input {
        gyro_rad_s: inp.gyro_rad_s.map(sg),
        quat_wxyz: inp.quat_wxyz.map(sg),
        joint_q_go2: inp.joint_q_go2.map(sg),
        joint_dq_go2: inp.joint_dq_go2.map(sg),
    };
    assemble(&Host, &Host, &input, &cmd.map(s), &last.map(s)).into_iter().map(fl).collect()
}

fn singles(obs: &[f32]) -> Vec<Single> {
    obs.iter().map(|x| sg(*x)).collect()
}

fn obs_anomalies(obs: &[f32]) -> Vec<&'static str> {
    anomalies(&Host, &singles(obs))
}

fn action_to_q_des_go2(a: &[f64; 12]) -> [f64; 12] {
    q_des(&Host, &a.map(s)).map(f)
}

fn clamp_cmd(c: [f64; 3]) -> [f64; 3] {
    clamp(c.map(s)).map(f)
}

fn write_csv_row(
    buf: &mut Vec<u8>,
    t_s: f64,
    mode: &str,
    infer_us: u128,
    obs: &[f32],
    action: &[f64; 12],
    q: &[f64; 12],
    flags: &[&str],
) -> Result<(), String> {
    let row = csv_row(
        &format!("{t_s:.4}"),
        mode,
        &format!("{infer_us}"),
        &obs.iter().map(|x| format!("{x:.6}")).collect(),
        &action.iter().map(|x| format!("{x:.6}")).collect(),
        &q.iter().map(|x| format!("{x:.6}")).collect(),
        &flags.iter().map(|x| x.to_string()).collect(),
    );
    buf.extend_from_slice(row.as_bytes());
    buf.push(10);
    Ok(())
}

#[test]
fn obs_layout_zero_input() {
    let inp = ObsInput::default();
    let cmd = [0.1, -0.2, 0.3];
    let mut last = [0.0f64; 12];
    last[0] = 0.5;
    last[11] = -0.5;
    let obs = build_obs(&inp, &cmd, &last);
    assert_eq!(obs.len(), N_OBS);
    assert_eq!(&obs[..3], &[0.0, 0.0, 0.0]);

    assert_eq!(&obs[3..6], &[0.0, 0.0, -1.0]);
    assert!((obs[6] - 0.1).abs() < 1e-6);
    assert!((obs[7] + 0.2).abs() < 1e-6);
    assert!((obs[8] - 0.3).abs() < 1e-6);

    for i in 0..12 {
        assert!((obs[9 + i] as f64 + DEFAULT_ISAAC[i]).abs() < 1e-6, "jp[{i}]");
        assert_eq!(obs[21 + i], 0.0, "jv[{i}]");
    }
    assert!((obs[33] - 0.5).abs() < 1e-6);
    assert!((obs[44] + 0.5).abs() < 1e-6);
}

#[test]
fn isaac_go2_tables_are_mutual_inverses() {
    for g in 0..12 {
        assert_eq!(ISAAC_TO_GO2[GO2_TO_ISAAC[g]], g, "go2 {g}");
    }
    for i in 0..12 {
        assert_eq!(GO2_TO_ISAAC[ISAAC_TO_GO2[i]], i, "isaac {i}");
    }
}

#[test]
fn joint_reorder_lands_each_motor_in_its_isaac_slot() {
    let mut inp = ObsInput::default();
    for g in 0..12 {
        inp.joint_q_go2[g] = (DEFAULT_ISAAC[GO2_TO_ISAAC[g]] + g as f64 * 0.01) as f32;
        inp.joint_dq_go2[g] = g as f32;
    }
    let obs = build_obs(&inp, &[0.0; 3], &[0.0; 12]);
    for g in 0..12 {
        let i = GO2_TO_ISAAC[g];
        assert!(
            (obs[9 + i] as f64 - g as f64 * 0.01).abs() < 1e-5,
            "jp motor {g} -> isaac {i}"
        );
        assert!((obs[21 + i] as f64 - g as f64).abs() < 1e-6, "jv {g}");
    }
}

#[test]
fn gravity_projection_matches_nalgebra_reference() {

    let quats = [
        [1.0, 0.0, 0.0, 0.0],
        [0.7071068, 0.7071068, 0.0, 0.0],
        [0.7071068, 0.0, 0.7071068, 0.0],
        [0.7071068, 0.0, 0.0, 0.7071068],
        [0.4, 0.3, 0.5, 0.2],
        [-0.6, 0.1, -0.2, 0.5],
    ];
    for q in quats {
        let mut inp = ObsInput::default();
        let n = (q.iter().map(|v| v * v).sum::<f64>()).sqrt();
        for k in 0..4 {
            inp.quat_wxyz[k] = (q[k] / n) as f32;
        }
        let obs = build_obs(&inp, &[0.0; 3], &[0.0; 12]);
        let uq = UnitQuaternion::from_quaternion(Quaternion::new(q[0], q[1], q[2], q[3]));
        let g_ref = uq.inverse_transform_vector(&Vector3::new(0.0, 0.0, -1.0));
        for k in 0..3 {
            assert!(
                (obs[3 + k] as f64 - g_ref[k]).abs() < 1e-5,
                "quat {q:?} axis {k}: got {} want {}",
                obs[3 + k],
                g_ref[k]
            );
        }
    }
}

#[test]
fn action_mapping_defaults_and_clamps() {

    let q = action_to_q_des_go2(&[0.0; 12]);
    for i in 0..12 {
        assert!(
            (q[ISAAC_TO_GO2[i]] - DEFAULT_ISAAC[i]).abs() < 1e-12,
            "isaac {i}"
        );
    }

    let q = action_to_q_des_go2(&[100.0; 12]);
    for (g, v) in q.iter().enumerate() {
        assert_eq!(*v, JOINT_LIMITS[g % 3].1, "motor {g} hi clamp");
    }
    let q = action_to_q_des_go2(&[-100.0; 12]);
    for (g, v) in q.iter().enumerate() {
        assert_eq!(*v, JOINT_LIMITS[g % 3].0, "motor {g} lo clamp");
    }
}

#[test]
fn clamp_cmd_applies_trained_ranges() {
    let c = clamp_cmd([10.0, -10.0, 10.0]);
    assert_eq!(c, [CMD_VX_RANGE.1, CMD_VY_RANGE.0, CMD_WZ_RANGE.1]);
    let c = clamp_cmd([0.1, 0.1, -0.1]);
    assert_eq!(c, [0.1, 0.1, -0.1]);
}

#[test]
fn obs_anomaly_screen_flags_the_right_things() {
    let clean = build_obs(&ObsInput::default(), &[0.0; 3], &[0.0; 12]);
    assert!(obs_anomalies(&clean).is_empty());

    let mut o = clean.clone();
    o[10] = f32::NAN;
    assert!(obs_anomalies(&o).contains(&"non_finite"));

    let mut o = clean.clone();
    o[3] = 0.0;
    o[4] = 0.0;
    o[5] = -0.2;
    assert!(obs_anomalies(&o).contains(&"gravity_not_unit"));

    let mut o = clean.clone();
    o[1] = 100.0;
    assert!(obs_anomalies(&o).contains(&"gyro_out_of_range"));

    let mut o = clean.clone();
    o[25] = 100.0;
    assert!(obs_anomalies(&o).contains(&"joint_vel_large"));

    assert_eq!(obs_anomalies(&[0.0; 3]), vec!["bad_len"]);
}

#[test]
fn csv_row_matches_header_width() {
    let header = csv_header();
    let cols = header.split(',').count();
    assert_eq!(cols, 3 + 45 + 12 + 12 + 1);

    let obs = build_obs(&ObsInput::default(), &[0.0; 3], &[0.0; 12]);
    let mut buf: Vec<u8> = Vec::new();
    write_csv_row(&mut buf, 1.25, "shadow", 123, &obs, &[0.0; 12], &[0.0; 12], &["x"])
        .unwrap();
    let row = String::from_utf8(buf).unwrap();
    assert_eq!(row.trim_end().split(',').count(), cols);
    assert!(row.starts_with("1.2500,shadow,123,"));
}

#[test]
fn policy_constants_hold_their_values() {
    assert_eq!(DEFAULT_ISAAC_BITS.map(f64::from_bits), DEFAULT_ISAAC);
    assert_eq!(f64::from_bits(ACTION_SCALE_BITS), 0.5);
    assert_eq!(f64::from_bits(POLICY_HZ_BITS), 50.0);
    assert_eq!(f32::from_bits(POLICY_KP_BITS), 25.0);
    assert_eq!(f32::from_bits(POLICY_KD_BITS), 0.5);
    let range = |r: (u64, u64)| (f64::from_bits(r.0), f64::from_bits(r.1));
    assert_eq!(range(CMD_VX_RANGE_BITS), CMD_VX_RANGE);
    assert_eq!(range(CMD_VY_RANGE_BITS), CMD_VY_RANGE);
    assert_eq!(range(CMD_WZ_RANGE_BITS), CMD_WZ_RANGE);
    assert_eq!(JOINT_LIMITS_BITS.map(range), JOINT_LIMITS);
}

#[test]
fn shapes_are_checked_on_both_sides_of_the_model() {
    assert_eq!(check_obs(&singles(&[0.0; 45])), Ok(()));
    assert_eq!(check_obs(&singles(&[0.0; 44])), Err(ShapeError::ObsLength { got: 44 }));
    let out: Vec<f32> = (0..N_ACT).map(|i| i as f32 + 0.5).collect();
    let action = read_action(&Host, &singles(&out)).unwrap().map(f);
    assert_eq!(action[11], 11.5);
    assert_eq!(
        read_action(&Host, &singles(&out[..11])),
        Err(ShapeError::OutputLength { got: 11 })
    );
}

#[test]
fn anomalies_come_in_order() {
    let mut o = build_obs(&ObsInput::default(), &[0.0; 3], &[0.0; 12]);
    o[0] = -16.0;
    o[5] = f32::INFINITY;
    o[9] = 2.0;
    o[21] = -36.0;
    assert_eq!(
        obs_anomalies(&o),
        vec![
            "non_finite",
            "gravity_not_unit",
            "gyro_out_of_range",
            "joint_pos_offset_large",
            "joint_vel_large",
        ]
    );
}

#[test]
fn header_names_every_column() {
    let h = csv_header();
    assert!(h.starts_with("t_s,mode,infer_us,ang_vel_x,ang_vel_y,ang_vel_z,grav_x,"));
    assert!(h.contains(",cmd_wz,jp_isaac_0,jp_isaac_1,"));
    assert!(h.contains(",jv_isaac_11,prev_act_0,"));
    assert!(h.ends_with(",qdes_go2_10,qdes_go2_11,anomalies"));
    assert_eq!(join_with(&vec![], "|"), "");
    assert_eq!(join_with(&vec!["a".to_string(), "b".to_string()], "|"), "a|b");
}

#[test]
fn probe_numbers_follow_the_shift_register() {
    let mut seed = 0x9e3779b97f4a7c15u64;
    for _ in 0..5 {
        let mut want = seed;
        want ^= want << 13;
        want ^= want >> 7;
        want ^= want << 17;
        assert_eq!(next_seed(seed), want);
        seed = want;
    }
}

#[test]
fn latency_is_judged_at_the_99th_percentile() {
    assert_eq!(percentile_index(200), 197);
    assert!(uses_half_slot(10_001, 20_000));
    assert!(!uses_half_slot(10_000, 20_000));
}

#[test]
fn probe_counts_clamped_targets_and_finds_bad_actions() {
    let mut st = ProbeStats::new();
    let mut a = [0.0; 12];
    a[3] = -7.0;
    assert_eq!(st.note(&Host, &a.map(s)), Ok(()));
    assert_eq!(f(st.abs_max), 7.0);
    assert_eq!(st.clamped, 1);
    a[5] = f64::NAN;
    assert_eq!(st.note(&Host, &a.map(s)), Err(5));
}

fn draw(seed: &mut u64) -> f64 {
    *seed ^= *seed << 13;
    *seed ^= *seed >> 7;
    *seed ^= *seed << 17;
    (*seed >> 11) as f64 / (1u64 << 52) as f64 - 1.0
}

#[test]
fn probes_are_plausible_observations() {
    let mut seed = 0x9e3779b97f4a7c15u64;
    let mut at = FIRST_SEED;
    for _ in 0..10 {
        let (obs, next) = probe_observation(&Host, &Host, at);
        let obs: Vec<f32> = obs.into_iter().map(fl).collect();
        let mut want = vec![0.0f32; 45];
        for x in want.iter_mut().take(3) {
            *x = (draw(&mut seed) * 2.0) as f32;
        }
        let (gx, gy, gz) = (draw(&mut seed), draw(&mut seed), draw(&mut seed) - 1.0);
        let n = (gx * gx + gy * gy + gz * gz).sqrt().max(1e-9);
        want[3] = (gx / n) as f32;
        want[4] = (gy / n) as f32;
        want[5] = (gz / n) as f32;
        want[6] = (draw(&mut seed) * 0.6) as f32;
        want[7] = (draw(&mut seed) * 0.3) as f32;
        want[8] = (draw(&mut seed) * 0.5) as f32;
        for x in want.iter_mut().take(21).skip(9) {
            *x = (draw(&mut seed) * 0.5) as f32;
        }
        for x in want.iter_mut().take(33).skip(21) {
            *x = (draw(&mut seed) * 3.0) as f32;
        }
        for x in want.iter_mut().skip(33) {
            *x = draw(&mut seed) as f32;
        }
        assert_eq!(obs, want);
        assert_eq!(next, seed);
        assert!(obs_anomalies(&obs).is_empty());
        at = next;
    }
}

struct Fixed {
    action: [f64; 12],
}

impl PolicyModel for Fixed {
    fn infer(&self, obs: &Vec<Single>) -> Result<[Scalar; 12], String> {
        if obs.len() == 45 {
            Ok(self.action.map(s))
        } else {
            Err("length".to_string())
        }
    }
}

#[test]
fn a_probe_counts_over_all_observations() {
    let mut action = [0.0; 12];
    let stats = probe(&Host, &Host, &Fixed { action }).unwrap();
    assert_eq!((f(stats.abs_max), stats.clamped), (0.0, 0));
    assert!(!is_wild(&stats));
    action[3] = -7.0;
    let stats = probe(&Host, &Host, &Fixed { action }).unwrap();
    assert_eq!((f(stats.abs_max), stats.clamped), (7.0, 100));
    assert!(is_wild(&stats));
    action[9] = f64::INFINITY;
    let e = probe(&Host, &Host, &Fixed { action }).unwrap_err();
    assert!(matches!(e, ProbeError::NonFinite { index: 9 }));
}

struct Silent;

impl PolicyModel for Silent {
    fn infer(&self, _: &Vec<Single>) -> Result<[Scalar; 12], String> {
        Err("no model".to_string())
    }
}

#[test]
fn a_probe_passes_on_what_went_wrong() {
    let e = probe(&Host, &Host, &Silent).unwrap_err();
    assert!(matches!(e, ProbeError::Inference(m) if m == "no model"));
}

#[test]
fn latency_is_summarised_in_order() {
    let mut times: Vec<u64> = (1..=200).rev().collect();
    times[7] = 9000;
    let l = summarise_latency(&times, 20_000);
    assert_eq!(l.total, 200 * 201 / 2 - 193 + 9000);
    assert_eq!((l.p99, l.max, l.tight), (199, 9000, false));
    assert!(summarise_latency(&times, 300).tight);
}
