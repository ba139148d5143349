//! Scalars, sparse matrices, leg detection and periodic orbits.

use nalgebra::{DMatrix, DVector};
use quadruped_gait::arith::Arithmetic;
use quadruped_gait::autodetect::{
    auto_detect_kinematics_config, auto_detect_leg_kinematics, joint_signs, DetectError, JointInfo,
    JointPlacement, KinematicTree, LegPart, SignError,
};
use quadruped_gait::bound_orbit_search::{
    levenberg_marquardt, solve as find_orbit, BoundOrbit as Orbit, LeastSquares,
};
use quadruped_gait::bound_periodic_orbit::PeriodicBoundParams as Params;
use quadruped_gait::config::LegId;
use quadruped_gait::csc::{dense_to_csc, dense_to_csc_upper};
use quadruped_gait::full_centroidal_qp::effective_f_max;
use quadruped_gait::ik::{forward_leg_kinematics, solve_leg_ik};
use quadruped_gait::scalar::{infinity, nan, skew_3, Scalar, Vec3};

struct Host;

fn s(x: f64) -> Scalar {
    Scalar::from_bits(x.to_bits())
}

fn f(x: Scalar) -> f64 {
    f64::from_bits(x.to_bits())
}

impl Arithmetic for Host {
    fn plus(&self, a: Scalar, b: Scalar) -> Scalar {
        s(f(a) + f(b))
    }
    fn minus(&self, a: Scalar, b: Scalar) -> Scalar {
        s(f(a) - f(b))
    }
    fn times(&self, a: Scalar, b: Scalar) -> Scalar {
        s(f(a) * f(b))
    }
    fn over(&self, a: Scalar, b: Scalar) -> Scalar {
        s(f(a) / f(b))
    }
    fn sqrt(&self, a: Scalar) -> Scalar {
        s(f(a).sqrt())
    }
    fn sin(&self, a: Scalar) -> Scalar {
        s(f(a).sin())
    }
    fn cos(&self, a: Scalar) -> Scalar {
        s(f(a).cos())
    }
    fn atan2(&self, y: Scalar, x: Scalar) -> Scalar {
        s(f(y).atan2(f(x)))
    }
    fn acos(&self, a: Scalar) -> Scalar {
        s(f(a).acos())
    }
    fn wrap(&self, a: Scalar, period: Scalar) -> Scalar {
        s(f(a).rem_euclid(f(period)))
    }
    fn floor(&self, a: Scalar) -> Scalar {
        s(f(a).floor())
    }
    fn from_count(&self, n: usize) -> Scalar {
        s(n as f64)
    }
    fn round_to_count(&self, a: Scalar) -> usize {
        f(a).round() as usize
    }
}

struct Normal;

impl LeastSquares for Normal {
    fn dot(&self, a: &Vec<Scalar>, b: &Vec<Scalar>) -> Scalar {
        s(vector(a).dot(&vector(b)))
    }
    fn normal(&self, j: &Vec<Vec<Scalar>>, r: &Vec<Scalar>) -> (Vec<Vec<Scalar>>, Vec<Scalar>) {
        let j = columns(j);
        let jt = j.transpose();
        let (a, b) = (&jt * &j, &jt * vector(r));
        let a = (0..a.ncols()).map(|c| a.column(c).iter().map(|x| s(*x)).collect()).collect();
        (a, b.iter().map(|x| s(*x)).collect())
    }
    fn descend(&self, a: &Vec<Vec<Scalar>>, b: &Vec<Scalar>) -> Option<Vec<Scalar>> {
        let d = columns(a).lu().solve(&(-vector(b)))?;
        Some(d.iter().map(|x| s(*x)).collect())
    }
}

fn vector(x: &Vec<Scalar>) -> DVector<f64> {
    DVector::from_iterator(x.len(), x.iter().map(|a| f(*a)))
}

fn columns(m: &Vec<Vec<Scalar>>) -> DMatrix<f64> {
    DMatrix::from_fn(m[0].len(), m.len(), |i, j| f(m[j][i]))
}

struct PeriodicBoundParams(Params);

impl PeriodicBoundParams {
    fn go2(vx: f64, period: f64, duty: f64) -> Self {
        PeriodicBoundParams(Params::go2(s(vx), s(period), s(duty)))
    }
}

struct Sample {
    z: f64,
    pitch: f64,
    vx: f64,
}

struct BoundOrbit {
    samples: Vec<Sample>,
    periodicity_residual: f64,
    friction_margin: f64,
    table: Vec<[f64; 6]>,
}

fn solve(params: &PeriodicBoundParams) -> Option<BoundOrbit> {
    let o: Orbit = find_orbit(&Host, &Normal, &params.0)?;
    Some(BoundOrbit {
        samples: o
            .samples
            .iter()
            .map(|p| Sample { z: f(p.z), pitch: f(p.pitch), vx: f(p.vx) })
            .collect(),
        periodicity_residual: f(o.periodicity_residual),
        friction_margin: f(o.friction_margin),
        table: o.table.iter().map(|r| r.map(f)).collect(),
    })
}

fn p(x: f64, y: f64, z: f64) -> Vec3 {
    Vec3::new(s(x), s(y), s(z))
}

struct Robot {
    tree: KinematicTree,
    place: JointPlacement,
}

fn robot() -> Robot {
    let root = JointInfo { name: "universe".to_string(), parent: 0, axis: None };
    let mut tree = KinematicTree { link_names: vec!["base".to_string()], joints: vec![root] };
    let mut place = JointPlacement { axes: vec![p(1.0, 0.0, 0.0)], origins: vec![p(0.0, 0.0, 0.3)] };
    for (leg, x, y) in [("FL", 0.2, 0.1), ("FR", 0.2, -0.1), ("RL", -0.2, 0.1), ("RR", -0.2, -0.1)] {
        let out = if y > 0.0 { 0.05 } else { -0.05 };
        let parts = [
            ("hip", Some(p(1.0, 0.0, 0.0)), p(x, y, 0.3)),
            ("thigh", Some(p(0.0, 1.0, 0.0)), p(x, y + out, 0.3)),
            ("calf", Some(p(0.0, -1.0, 0.0)), p(x - 0.12, y + out, 0.14)),
            ("foot", None, p(x, y + out, -0.02)),
        ];
        for (part, axis, at) in parts {
            let here = tree.joints.len();
            let parent = if part == "hip" { 0 } else { here - 1 };
            tree.joints.push(JointInfo { name: format!("{leg}_{part}"), parent, axis });
            tree.link_names.push(format!("{leg}_{part}_link"));
            place.axes.push(axis.unwrap_or(p(1.0, 0.0, 0.0)));
            place.origins.push(at);
        }
    }
    Robot { tree, place }
}

fn foot_links() -> [(LegId, &'static str); 4] {
    [
        (LegId::FL, "FL_foot_link"),
        (LegId::FR, "FR_foot_link"),
        (LegId::RL, "RL_foot_link"),
        (LegId::RR, "RR_foot_link"),
    ]
}

#[test]
fn go2_forward_bound_orbit_exists() {

    let params = PeriodicBoundParams::go2(1.0, 0.30, 0.34);
    let orbit = solve(&params).expect("forward periodic bound orbit should exist");

    assert!(
        orbit.periodicity_residual < 1e-3,
        "periodicity residual too large: {}",
        orbit.periodicity_residual
    );

    let vx_avg = orbit.samples.iter().map(|s| s.vx).sum::<f64>() / orbit.samples.len() as f64;
    assert!((vx_avg - 1.0).abs() < 0.2, "avg vx off target: {vx_avg}");

    assert!(orbit.friction_margin > -0.05, "friction violated: {}", orbit.friction_margin);
    let peak_pitch = orbit.samples.iter().map(|s| s.pitch.abs()).fold(0.0_f64, f64::max);
    assert!(peak_pitch < 0.7, "pitch not bounded: {peak_pitch}");

    let zmax = orbit.samples.iter().map(|s| s.z).fold(f64::MIN, f64::max);
    let zmin = orbit.samples.iter().map(|s| s.z).fold(f64::MAX, f64::min);
    assert!(zmax - zmin > 0.005, "no vertical excursion: {}", zmax - zmin);
    assert_eq!(orbit.table.len(), orbit.samples.len());
}

#[test]
fn no_orbit_without_flight() {
    assert!(solve(&PeriodicBoundParams::go2(1.0, 0.30, 0.5)).is_none());
    assert!(solve(&PeriodicBoundParams::go2(1.0, 0.30, 0.6)).is_none());
}

#[test]
fn scalars_compare_as_numbers() {
    let values = [f64::NEG_INFINITY, -2.5, -1e-310, -0.0, 0.0, 1e-310, 0.1, 7.0, f64::INFINITY];
    for a in values.into_iter().chain([f64::NAN]) {
        for b in values.into_iter().chain([f64::NAN]) {
            let (x, y) = (s(a), s(b));
            assert_eq!(x.lt(y), a < b, "{a} {b}");
            assert_eq!(x.le(y), a <= b, "{a} {b}");
            assert_eq!(x.eq_value(y), a == b, "{a} {b}");
            if a != b && !(a.is_nan() && b.is_nan()) {
                assert_eq!(x.min(y).to_bits(), a.min(b).to_bits(), "{a} {b}");
                assert_eq!(x.max(y).to_bits(), a.max(b).to_bits(), "{a} {b}");
            }
        }
        assert_eq!(s(a).neg().to_bits(), (-a).to_bits());
        assert_eq!(s(a).abs().to_bits(), a.abs().to_bits());
        assert_eq!(s(a).is_nan(), a.is_nan());
        assert_eq!(s(a).is_finite(), a.is_finite());
        assert_eq!(s(a).clamp(s(-1.0), s(0.5)).to_bits(), a.clamp(-1.0, 0.5).to_bits());
        if !a.is_nan() {
            assert_eq!(f(s(a).signum()), a.signum());
        }
    }
    assert_eq!(f(infinity()), f64::INFINITY);
    assert!(nan().is_nan());
}

#[test]
fn the_tighter_force_bound_holds() {
    let bound = |g: f64, l: f64| f(effective_f_max(s(g), s(l)));
    assert_eq!(bound(200.0, 5.0), 5.0);
    assert_eq!(bound(4.0, 5.0), 4.0);
    assert_eq!(bound(0.0, 5.0), 5.0);
    assert_eq!(bound(200.0, f64::INFINITY), 200.0);
    assert_eq!(bound(200.0, -1.0), 200.0);
    assert_eq!(bound(-1.0, f64::NAN), f64::INFINITY);
}

#[test]
fn a_skew_matrix_forms_cross_products() {
    let m = skew_3(p(1.0, 2.0, 3.0));
    let rows = [m.x, m.y, m.z].map(|r| [f(r.x), f(r.y), f(r.z)]);
    assert_eq!(rows, [[0.0, -3.0, 2.0], [3.0, 0.0, -1.0], [-2.0, 1.0, 0.0]]);
}

#[test]
fn compressed_columns_hold_the_entries_that_matter() {
    let m: Vec<Vec<Scalar>> =
        vec![vec![s(1.0), s(0.0), s(2.0)], vec![s(4.0), s(5.0), s(0.0)], vec![s(0.0); 3]];
    let c = dense_to_csc(&m, 3);
    assert_eq!((c.nrows, c.ncols), (3, 3));
    assert_eq!(c.colptr, vec![0, 2, 3, 4]);
    assert_eq!(c.rowval, vec![0, 1, 1, 0]);
    assert_eq!(c.nzval.iter().map(|x| f(*x)).collect::<Vec<_>>(), vec![1.0, 4.0, 5.0, 2.0]);
    let u = dense_to_csc_upper(&m);
    let rows: Vec<usize> = u.rowval.clone();
    assert!((0..3).all(|j| rows[u.colptr[j]..u.colptr[j + 1]].iter().all(|i| *i <= j)));
    assert!(u.nzval.iter().all(|x| f(*x) != 4.0));
}

#[test]
fn a_leg_is_read_from_the_tree() {
    let r = robot();
    let kin = auto_detect_kinematics_config(&Host, &r.tree, &r.place, &foot_links()).unwrap();
    assert_eq!(kin.fr.hip_joint, "FR_hip");
    assert_eq!(kin.rl.thigh_joint, "RL_thigh");
    assert_eq!(kin.rr.calf_joint, "RR_calf");
    assert_eq!(kin.fl.foot_link, "FL_foot_link");
    assert!((f(kin.fl.upper_leg_m) - 0.2).abs() < 1e-12);
    assert!((f(kin.fl.lower_leg_m) - 0.2).abs() < 1e-12);
    assert!((f(kin.fl.hip_to_thigh_y) - 0.05).abs() < 1e-12);
    assert!((f(kin.fr.hip_offset.y) + 0.1).abs() < 1e-12);
    assert!((f(kin.fl.nominal_foot_body.z) + 0.32).abs() < 1e-12);
    let signs = joint_signs(&r.tree, &kin).unwrap().map(|l| l.map(f));
    let (left, right) = ([1.0, -1.0, 1.0], [-1.0, -1.0, 1.0]);
    assert_eq!(signs, [left, right, left, right]);
    for (leg, factor) in [(&kin.fl, signs[0][0]), (&kin.fr, signs[1][0])] {
        let target = Vec3::new(leg.hip_offset.x, leg.nominal_foot_body.y, s(-0.3));
        let out = Vec3::new(target.x, s(f(target.y) * 1.2), target.z);
        let (hip, thigh, calf) = solve_leg_ik(&Host, leg, out, false).angles();
        assert!(f(hip) > 0.0);
        let about_x = f(hip) * factor;
        let p = forward_leg_kinematics(&Host, leg, s(0.0), thigh, calf);
        let (y, z) = (f(p.y) - f(leg.hip_offset.y), f(p.z) - f(leg.hip_offset.z));
        let turned = y * about_x.cos() - z * about_x.sin() + f(leg.hip_offset.y);
        assert!((turned - f(out.y)).abs() < 1e-12);
    }
}

#[test]
fn a_missing_foot_is_reported() {
    let r = robot();
    let e = auto_detect_leg_kinematics(&Host, &r.tree, &r.place, "tail", LegId::FL).unwrap_err();
    assert!(matches!(e, DetectError::FootNotFound { foot_link } if foot_link == "tail"));
    let mut links = foot_links();
    links[2].1 = "tail";
    let errors = auto_detect_kinematics_config(&Host, &r.tree, &r.place, &links).unwrap_err();
    assert_eq!(errors.len(), 1);
    assert_eq!(errors[0].0, LegId::RL);
}

#[test]
fn a_short_chain_is_reported() {
    let r = robot();
    let e =
        auto_detect_leg_kinematics(&Host, &r.tree, &r.place, "FL_calf_link", LegId::FL).unwrap_err();
    assert!(matches!(e, DetectError::TooFewJoints { found: 2, needed: 3, .. }));
}

#[test]
fn a_wrong_axis_is_reported_for_each_part() {
    for (k, want) in [(1, LegPart::Hip), (2, LegPart::Thigh), (3, LegPart::Calf)] {
        let mut r = robot();
        r.place.axes[k] = p(0.0, 0.0, 1.0);
        let e = auto_detect_leg_kinematics(&Host, &r.tree, &r.place, "FL_foot_link", LegId::FL)
            .unwrap_err();
        assert!(matches!(e, DetectError::WrongAxis { part, .. } if part == want));
    }
}

#[test]
fn a_leg_without_length_is_reported() {
    let mut r = robot();
    r.place.origins[4] = r.place.origins[3];
    let e = auto_detect_leg_kinematics(&Host, &r.tree, &r.place, "FL_foot_link", LegId::FL)
        .unwrap_err();
    assert!(matches!(e, DetectError::Degenerate { lower, .. } if f(lower) == 0.0));
}

#[test]
fn signs_need_revolute_joints_of_the_model() {
    let r = robot();
    let mut kin = auto_detect_kinematics_config(&Host, &r.tree, &r.place, &foot_links()).unwrap();
    kin.rl.calf_joint = "nowhere".to_string();
    let e = joint_signs(&r.tree, &kin).unwrap_err();
    assert!(matches!(e, SignError::NotInModel { joint } if joint == "nowhere"));
    kin.rl.calf_joint = "RL_foot".to_string();
    let e = joint_signs(&r.tree, &kin).unwrap_err();
    assert!(matches!(e, SignError::NotRevolute { joint } if joint == "RL_foot"));
}

#[test]
fn a_search_goes_round_by_round() {
    let p = Params::go2(s(0.8), s(0.30), s(0.35));
    let fz = 15.606 * 9.81 / 0.35;
    let mut start = vec![s(0.0); 19];
    for (i, x) in [(0, 0.2664), (2, 0.8), (3, 0.4), (8, fz), (14, fz), (17, 0.1922), (18, -0.1922)] {
        start[i] = s(x);
    }
    let after = |n: usize| levenberg_marquardt(&Host, &Normal, &p, start.clone(), n);
    let (c, cost) = after(0);
    assert_eq!(c, start);
    let mut last = f(cost);
    for n in 1..4 {
        let (c, cost) = after(n);
        assert!(c != start && f(cost) < last, "{n}");
        last = f(cost);
    }
}
