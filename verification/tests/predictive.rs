//! Predictive controllers on a dense kernel and a real solver.

use clarabel::algebra::CscMatrix;
use clarabel::solver::{DefaultSettings, DefaultSolver, IPSolver, SolverStatus, SupportedConeT};
use nalgebra::{DMatrix, Matrix3, Rotation3, Vector3};
use quadruped_gait::arith::Arithmetic;
use quadruped_gait::centroidal_controller::CentroidalMpcGaitController as BodyController;
use quadruped_gait::centroidal_iter::BodyKernel;
use quadruped_gait::centroidal_mpc::{
    CentroidalContactSchedule, CentroidalFootOffsets as FootOffsets, CentroidalInput as BodyInput,
    CentroidalMpc as BodyMpc, CentroidalMpcConfig as BodyConfig, CentroidalProblem,
    CentroidalReference as BodyReference, CentroidalState as BodyState,
};
use quadruped_gait::closed_loop::Tuning;
use quadruped_gait::config::{GaitConfig, KinematicsConfig, LegId, LegKinematics, VelocityCmd};
use quadruped_gait::controller::{ControllerOutput, GaitController, LegModel, PhaseState};
use quadruped_gait::csc::Csc;
use quadruped_gait::dense::{prediction, reference_cost, tracking_cost, DenseAlgebra};
use quadruped_gait::dynamics::{
    centroidal_dynamics as body_rate, compute_foot_positions_world as feet_of,
    euler_zyx_dot_from_world_omega as euler_rate, full_centroidal_dynamics as full_rate,
    predicted_base_accel_world_centroidal, BodyAlgebra,
};
use quadruped_gait::euler::euler_step;
use quadruped_gait::full_centroidal_controller::FullCentroidalMpcGaitController as FullController;
use quadruped_gait::full_centroidal_iter::{HorizonKernel, QpAnswer};
use quadruped_gait::full_centroidal_mpc::{
    FootTarget, FullCentroidalContactSchedule as Schedule, FullCentroidalInput as Input,
    FullCentroidalMpc as Mpc, FullCentroidalMpcConfig as Config,
    FullCentroidalReference as Reference, FullCentroidalState as State, N_FEET, N_INPUT,
    N_LEG_JOINTS, N_STATE, N_STATE_AUG,
};
use quadruped_gait::full_centroidal_qp::{failed_solution, QpProblem, QpStatus};
use quadruped_gait::generator::{AnyGaitController, GaitMode, Setup};
use quadruped_gait::generator_tick::{Finished, SrbdDriver};
use quadruped_gait::goal::{velocity_cmd_for_goal, GoalPoseWorld};
use quadruped_gait::horizon_feet::foothold_of;
use quadruped_gait::ik::forward_leg_kinematics as foot_of;
use quadruped_gait::lift::BlockAlgebra;
use quadruped_gait::linear_blocks::linear_blocks;
use quadruped_gait::linearisation::continuous_dynamics_full as rate_matrices;
use quadruped_gait::mpc_controller::MpcGaitController;
use quadruped_gait::scalar::{Mat3, Scalar, Vec3};

struct Host;

fn s(x: f64) -> Scalar {
    Scalar::from_bits(x.to_bits())
}

fn f(x: Scalar) -> f64 {
    f64::from_bits(x.to_bits())
}

impl Arithmetic for Host {
    fn plus(&self, a: Scalar, b: Scalar) -> Scalar {
        s(f(a) + f(b))
    }
    fn minus(&self, a: Scalar, b: Scalar) -> Scalar {
        s(f(a) - f(b))
    }
    fn times(&self, a: Scalar, b: Scalar) -> Scalar {
        s(f(a) * f(b))
    }
    fn over(&self, a: Scalar, b: Scalar) -> Scalar {
        s(f(a) / f(b))
    }
    fn sqrt(&self, a: Scalar) -> Scalar {
        s(f(a).sqrt())
    }
    fn sin(&self, a: Scalar) -> Scalar {
        s(f(a).sin())
    }
    fn cos(&self, a: Scalar) -> Scalar {
        s(f(a).cos())
    }
    fn atan2(&self, y: Scalar, x: Scalar) -> Scalar {
        s(f(y).atan2(f(x)))
    }
    fn acos(&self, a: Scalar) -> Scalar {
        s(f(a).acos())
    }
    fn wrap(&self, a: Scalar, period: Scalar) -> Scalar {
        s(f(a).rem_euclid(f(period)))
    }
    fn floor(&self, a: Scalar) -> Scalar {
        s(f(a).floor())
    }
    fn from_count(&self, n: usize) -> Scalar {
        s(n as f64)
    }
    fn round_to_count(&self, a: Scalar) -> usize {
        f(a).round() as usize
    }
}

fn near_abs(a: f64, b: f64, eps: f64) {
    assert!((a - b).abs() <= eps, "{a} is not {b}");
}

struct Kernel;

fn v(p: Vector3<f64>) -> Vec3 {
    Vec3::new(s(p.x), s(p.y), s(p.z))
}

fn w(p: Vec3) -> Vector3<f64> {
    Vector3::new(f(p.x), f(p.y), f(p.z))
}

fn mat(m: &Matrix3<f64>) -> Mat3 {
    let row = |i: usize| Vec3::new(s(m[(i, 0)]), s(m[(i, 1)]), s(m[(i, 2)]));
    Mat3 { x: row(0), y: row(1), z: row(2) }
}

fn m3(m: &Mat3) -> Matrix3<f64> {
    Matrix3::from_rows(&[w(m.x).transpose(), w(m.y).transpose(), w(m.z).transpose()])
}

fn dense(rows: &Vec<Vec<Scalar>>) -> DMatrix<f64> {
    DMatrix::from_fn(rows.len(), rows[0].len(), |i, j| f(rows[i][j]))
}

fn rows(m: &DMatrix<f64>) -> Vec<Vec<Scalar>> {
    (0..m.nrows()).map(|i| (0..m.ncols()).map(|j| s(m[(i, j)])).collect()).collect()
}

fn run_solver(qp: &QpProblem) -> Option<QpAnswer> {
    let csc = |m: &Csc| {
        CscMatrix::new(
            m.nrows,
            m.ncols,
            m.colptr.clone(),
            m.rowval.clone(),
            m.nzval.iter().map(|x| f(*x)).collect(),
        )
    };
    let q: Vec<f64> = qp.q.iter().map(|x| f(*x)).collect();
    let b: Vec<f64> = qp.constraints.b.iter().map(|x| f(*x)).collect();
    let cones = [
        SupportedConeT::ZeroConeT(qp.constraints.n_eq),
        SupportedConeT::NonnegativeConeT(qp.constraints.n_ineq),
    ];
    let mut settings = DefaultSettings::default();
    settings.verbose = false;
    settings.max_iter = 50;
    let mut solver =
        DefaultSolver::new(&csc(&qp.p), &q, &csc(&qp.constraints.a), &b, &cones, settings).ok()?;
    solver.solve();
    let status = match solver.solution.status {
        SolverStatus::Unsolved => QpStatus::Unsolved,
        SolverStatus::Solved => QpStatus::Solved,
        SolverStatus::PrimalInfeasible => QpStatus::PrimalInfeasible,
        SolverStatus::DualInfeasible => QpStatus::DualInfeasible,
        SolverStatus::AlmostSolved => QpStatus::AlmostSolved,
        SolverStatus::AlmostPrimalInfeasible => QpStatus::AlmostPrimalInfeasible,
        SolverStatus::AlmostDualInfeasible => QpStatus::AlmostDualInfeasible,
        SolverStatus::MaxIterations => QpStatus::MaxIterations,
        SolverStatus::MaxTime => QpStatus::MaxTime,
        SolverStatus::NumericalError => QpStatus::NumericalError,
        SolverStatus::InsufficientProgress => QpStatus::InsufficientProgress,
        SolverStatus::CallbackTerminated => QpStatus::CallbackTerminated,
    };
    let z = solver.solution.x.iter().map(|x| s(*x)).collect();
    Some(QpAnswer { status, z, objective: s(solver.solution.obj_val) })
}

impl BlockAlgebra<DMatrix<f64>> for Kernel {
    fn times(&self, a: &DMatrix<f64>, b: &DMatrix<f64>) -> DMatrix<f64> {
        a * b
    }
}

impl DenseAlgebra<DMatrix<f64>> for Kernel {
    fn block(&self, rows: &Vec<Vec<Scalar>>) -> DMatrix<f64> {
        dense(rows)
    }
    fn column(&self, entries: &Vec<Scalar>) -> DMatrix<f64> {
        DMatrix::from_fn(entries.len(), 1, |i, _| f(entries[i]))
    }
    fn diagonal(&self, entries: &Vec<Scalar>) -> DMatrix<f64> {
        let n = entries.len();
        DMatrix::from_fn(n, n, |i, j| if i == j { f(entries[i]) } else { 0.0 })
    }
    fn stacked(&self, blocks: &Vec<DMatrix<f64>>) -> DMatrix<f64> {
        let (h, w) = blocks[0].shape();
        DMatrix::from_fn(h * blocks.len(), w, |i, j| blocks[i / h][(i % h, j)])
    }
    fn stepped(&self, rows: &Vec<Vec<DMatrix<f64>>>) -> DMatrix<f64> {
        let (h, w) = rows[0][0].shape();
        DMatrix::from_fn(h * rows.len(), w * rows.len(), |i, j| {
            rows[i / h].get(j / w).map_or(0.0, |block| block[(i % h, j % w)])
        })
    }
    fn rows(&self, m: &DMatrix<f64>) -> Vec<Vec<Scalar>> {
        rows(m)
    }
    fn entries(&self, m: &DMatrix<f64>) -> Vec<Scalar> {
        m.iter().map(|x| s(*x)).collect()
    }
    fn plus(&self, a: &DMatrix<f64>, b: &DMatrix<f64>) -> DMatrix<f64> {
        a + b
    }
    fn minus(&self, a: &DMatrix<f64>, b: &DMatrix<f64>) -> DMatrix<f64> {
        a - b
    }
    fn scaled(&self, k: Scalar, m: &DMatrix<f64>) -> DMatrix<f64> {
        f(k) * m
    }
    fn transposed(&self, m: &DMatrix<f64>) -> DMatrix<f64> {
        m.transpose()
    }
    fn solved(&self, a: &DMatrix<f64>, b: &DMatrix<f64>) -> Option<DMatrix<f64>> {
        a.clone().lu().solve(b)
    }
}

impl BodyAlgebra for Kernel {
    fn rotation(&self, euler: Vec3) -> Mat3 {
        let e = w(euler);
        mat(Rotation3::from_euler_angles(e.x, e.y, e.z).matrix())
    }
    fn world_inertia(&self, r: &Mat3, body: &Mat3) -> Mat3 {
        let r = m3(r);
        mat(&(r * m3(body) * r.transpose()))
    }
    fn inverse_or_identity(&self, m: &Mat3) -> Mat3 {
        mat(&m3(m).try_inverse().unwrap_or_else(Matrix3::identity))
    }
}

impl LegModel for Kernel {
    fn position(&self, lift_off: Vec3, touch_down: Vec3, height: Scalar, frac: Scalar) -> Vec3 {
        let (a, b) = (w(lift_off), w(touch_down));
        let mut p = a + (b - a) * f(frac);
        p.z += f(height) * (std::f64::consts::PI * f(frac)).sin();
        v(p)
    }
    fn vertical_velocity(&self, height: Scalar, frac: Scalar, duration: Scalar) -> Scalar {
        let pi = std::f64::consts::PI;
        s(f(height) * pi / f(duration) * (pi * f(frac)).cos())
    }
    fn jacobian(&self, kin: &LegKinematics, hip: Scalar, thigh: Scalar, calf: Scalar) -> Mat3 {
        mat(&foot_jacobian_body(kin, f(hip), f(thigh), f(calf)))
    }
    fn capture_step(&self, e: Scalar, k: Scalar, _: Scalar, _: Scalar) -> Scalar {
        s(f(e) * f(k))
    }
}

fn foot_jacobian_body(kin: &LegKinematics, hip: f64, thigh: f64, calf: f64) -> Matrix3<f64> {
    let h = 1e-6;
    let q = [hip, thigh, calf];
    let mut j = Matrix3::zeros();
    for c in 0..3 {
        let mut a = q;
        let mut b = q;
        a[c] += h;
        b[c] -= h;
        let up = forward_leg_kinematics(kin, a[0], a[1], a[2]);
        let down = forward_leg_kinematics(kin, b[0], b[1], b[2]);
        j.set_column(c, &((up - down) / (2.0 * h)));
    }
    j
}

fn forward_leg_kinematics(kin: &LegKinematics, h: f64, t: f64, c: f64) -> Vector3<f64> {
    w(foot_of(&Host, kin, s(h), s(t), s(c)))
}

impl HorizonKernel<DMatrix<f64>> for Kernel {
    fn identity(&self) -> DMatrix<f64> {
        DMatrix::identity(25, 25)
    }
    fn entry(&self, m: &DMatrix<f64>, i: usize, j: usize) -> Scalar {
        s(m[(i, j)])
    }
    fn solve(&self, qp: &QpProblem) -> Option<QpAnswer> {
        run_solver(qp)
    }
}

impl BodyKernel<DMatrix<f64>> for Kernel {
    fn identity(&self) -> DMatrix<f64> {
        DMatrix::identity(13, 13)
    }
    fn solve(&self, qp: &QpProblem) -> Option<QpAnswer> {
        run_solver(qp)
    }
}

#[derive(Clone, Copy, Debug, Default, PartialEq)]
struct FullCentroidalState {
    v_com_world: Vector3<f64>,
    angular_velocity_world: Vector3<f64>,
    base_pos_world: Vector3<f64>,
    base_euler_zyx: Vector3<f64>,
    joint_q: [f64; N_LEG_JOINTS],
}

impl FullCentroidalState {
    fn inner(&self) -> State {
        State {
            v_com_world: v(self.v_com_world),
            angular_velocity_world: v(self.angular_velocity_world),
            base_pos_world: v(self.base_pos_world),
            base_euler_zyx: v(self.base_euler_zyx),
            joint_q: self.joint_q.map(s),
        }
    }
    fn outer(x: &State) -> Self {
        FullCentroidalState {
            v_com_world: w(x.v_com_world),
            angular_velocity_world: w(x.angular_velocity_world),
            base_pos_world: w(x.base_pos_world),
            base_euler_zyx: w(x.base_euler_zyx),
            joint_q: x.joint_q.map(f),
        }
    }
    fn to_vec(&self) -> [f64; N_STATE] {
        self.inner().to_vec().map(f)
    }
    fn from_vec(x: &[f64; N_STATE]) -> Self {
        Self::outer(&State::from_vec(&x.map(s)))
    }
    fn leg_joint_q(&self, leg: usize) -> [f64; 3] {
        self.inner().leg_joint_q(leg).map(f)
    }
}

#[derive(Clone, Copy, Debug, Default, PartialEq)]
struct FullCentroidalInput {
    grfs_world: [Vector3<f64>; N_FEET],
    joint_v: [f64; N_LEG_JOINTS],
}

impl FullCentroidalInput {
    fn inner(&self) -> Input {
        Input { grfs_world: self.grfs_world.map(v), joint_v: self.joint_v.map(s) }
    }
    fn outer(u: &Input) -> Self {
        FullCentroidalInput { grfs_world: u.grfs_world.map(w), joint_v: u.joint_v.map(f) }
    }
    fn to_vec(&self) -> [f64; N_INPUT] {
        self.inner().to_vec().map(f)
    }
    fn from_vec(x: &[f64; N_INPUT]) -> Self {
        Self::outer(&Input::from_vec(&x.map(s)))
    }
}

#[derive(Clone)]
struct FullCentroidalMpcConfig {
    mass_kg: f64,
    centroidal_inertia_body: Matrix3<f64>,
    com_offset_body: Vector3<f64>,
    friction_mu: f64,
    max_normal_force: f64,
    horizon_steps: usize,
    dt_per_step: f64,
    q_diag: [f64; N_STATE],
    r_diag: [f64; N_INPUT],
    sqp_iterations: usize,
    kinematics: KinematicsConfig,
    enable_swing_normal_velocity_constraint: bool,
    friction_cone_soft: bool,
    friction_cone_slack_penalty: f64,
    warm_start: bool,
    q_foot_xy_world: f64,
}

impl FullCentroidalMpcConfig {
    fn inner(&self) -> Config {
        Config {
            mass_kg: s(self.mass_kg),
            centroidal_inertia_body: mat(&self.centroidal_inertia_body),
            com_offset_body: v(self.com_offset_body),
            friction_mu: s(self.friction_mu),
            max_normal_force: s(self.max_normal_force),
            horizon_steps: self.horizon_steps,
            dt_per_step: s(self.dt_per_step),
            q_diag: self.q_diag.map(s),
            r_diag: self.r_diag.map(s),
            sqp_iterations: self.sqp_iterations,
            kinematics: self.kinematics.clone(),
            enable_swing_normal_velocity_constraint: self.enable_swing_normal_velocity_constraint,
            friction_cone_soft: self.friction_cone_soft,
            friction_cone_slack_penalty: s(self.friction_cone_slack_penalty),
            warm_start: self.warm_start,
            q_foot_xy_world: s(self.q_foot_xy_world),
        }
    }
}

struct FullCentroidalReference {
    states: Vec<FullCentroidalState>,
    inputs: Vec<FullCentroidalInput>,
}

impl FullCentroidalReference {
    fn inner(&self) -> Reference {
        Reference {
            states: self.states.iter().map(|x| x.inner()).collect(),
            inputs: self.inputs.iter().map(|u| u.inner()).collect(),
        }
    }
}

struct FullCentroidalContactSchedule {
    is_stance: [Vec<bool>; N_FEET],
    swing_z_velocity: [Vec<f64>; N_FEET],
    stance_f_max: [Vec<f64>; N_FEET],
    foot_xy_target_world: [Vec<Option<[f64; 2]>>; N_FEET],
}

impl FullCentroidalContactSchedule {
    fn all_stance(n: usize) -> Self {
        let c = Schedule::all_stance(n);
        let back = |x: Vec<Scalar>| x.into_iter().map(f).collect::<Vec<f64>>();
        FullCentroidalContactSchedule {
            is_stance: c.is_stance,
            swing_z_velocity: c.swing_z_velocity.map(back),
            stance_f_max: c.stance_f_max.map(back),
            foot_xy_target_world: [0, 1, 2, 3].map(|_| vec![None; n]),
        }
    }
    fn inner(&self) -> Schedule {
        let there = |x: &Vec<f64>| x.iter().map(|a| s(*a)).collect::<Vec<Scalar>>();
        Schedule {
            is_stance: self.is_stance.clone(),
            swing_z_velocity: [0, 1, 2, 3].map(|i| there(&self.swing_z_velocity[i])),
            stance_f_max: [0, 1, 2, 3].map(|i| there(&self.stance_f_max[i])),
            foot_xy_target: [0, 1, 2, 3].map(|i| {
                self.foot_xy_target_world[i]
                    .iter()
                    .map(|t| t.map(|p| FootTarget::World { x: s(p[0]), y: s(p[1]) }))
                    .collect()
            }),
        }
    }
}

struct FullCentroidalMpcSolution {
    first_input: FullCentroidalInput,
    inputs_all_steps: Vec<FullCentroidalInput>,
    predicted_states: Vec<FullCentroidalState>,
    solved: bool,
}

struct FullCentroidalMpc {
    inner: Mpc,
    warm_start_cache: Option<usize>,
}

impl FullCentroidalMpc {
    fn new(cfg: FullCentroidalMpcConfig) -> Self {
        FullCentroidalMpc { inner: Mpc::new(cfg.inner()), warm_start_cache: None }
    }
    fn note(&mut self) {
        self.warm_start_cache = self.inner.warm_start_cache.as_ref().map(|c| c.states.len());
    }
    fn set_config(&mut self, cfg: FullCentroidalMpcConfig) {
        self.inner.set_config(cfg.inner());
        self.note();
    }
    fn solve(
        &mut self,
        now: FullCentroidalState,
        reference: &FullCentroidalReference,
        contact: &FullCentroidalContactSchedule,
    ) -> FullCentroidalMpcSolution {
        let (r, c) = (reference.inner(), contact.inner());
        let sol = self.inner.solve_with(&Host, &Kernel, now.inner(), &r, &c);
        self.note();
        FullCentroidalMpcSolution {
            first_input: FullCentroidalInput::outer(&sol.first_input),
            inputs_all_steps: sol.inputs_all_steps.iter().map(FullCentroidalInput::outer).collect(),
            predicted_states: sol.predicted_states.iter().map(FullCentroidalState::outer).collect(),
            solved: sol.solved,
        }
    }
}

fn full_centroidal_dynamics(
    state: &FullCentroidalState,
    input: &FullCentroidalInput,
    cfg: &FullCentroidalMpcConfig,
) -> FullCentroidalState {
    let rate = full_rate(&Host, &Kernel, &state.inner(), &input.inner(), &cfg.inner());
    FullCentroidalState::outer(&rate)
}

fn compute_foot_positions_world(
    state: &FullCentroidalState,
    cfg: &FullCentroidalMpcConfig,
) -> [Vector3<f64>; 4] {
    feet_of(&Host, &Kernel, &state.inner(), &cfg.inner()).map(w)
}

fn continuous_dynamics_full(
    state: &FullCentroidalState,
    input: &FullCentroidalInput,
    cfg: &FullCentroidalMpcConfig,
    stance: &[bool; N_FEET],
    psi: f64,
) -> (DMatrix<f64>, DMatrix<f64>) {
    let (x, u) = (state.inner(), input.inner());
    let b = linear_blocks(&Host, &Kernel, &cfg.inner(), &x, &u, stance, s(psi));
    let (a, b) = rate_matrices(
        stance,
        b.inv_mass,
        &b.force_blocks,
        &b.joint_blocks,
        &b.euler_block,
        &b.rz_t,
    );
    (dense(&a), dense(&b))
}

#[derive(Clone, Copy, Debug, Default, PartialEq)]
struct CentroidalState {
    h_lin_per_mass: Vector3<f64>,
    angular_velocity_world: Vector3<f64>,
    base_pos_world: Vector3<f64>,
    base_euler_zyx: Vector3<f64>,
}

impl CentroidalState {
    fn inner(&self) -> BodyState {
        BodyState {
            h_lin_per_mass: v(self.h_lin_per_mass),
            angular_velocity_world: v(self.angular_velocity_world),
            base_pos_world: v(self.base_pos_world),
            base_euler_zyx: v(self.base_euler_zyx),
        }
    }
    fn outer(x: &BodyState) -> Self {
        CentroidalState {
            h_lin_per_mass: w(x.h_lin_per_mass),
            angular_velocity_world: w(x.angular_velocity_world),
            base_pos_world: w(x.base_pos_world),
            base_euler_zyx: w(x.base_euler_zyx),
        }
    }
    fn to_vec12(&self) -> [f64; 12] {
        self.inner().to_vec12().map(f)
    }
    fn from_vec12(x: &[f64; 12]) -> Self {
        Self::outer(&BodyState::from_vec12(&x.map(s)))
    }
}

#[derive(Clone, Copy, Debug, Default, PartialEq)]
struct CentroidalInput {
    grfs_world: [Vector3<f64>; 4],
}

impl CentroidalInput {
    fn inner(&self) -> BodyInput {
        BodyInput { grfs_world: self.grfs_world.map(v) }
    }
    fn to_vec12(&self) -> [f64; 12] {
        self.inner().to_vec12().map(f)
    }
    fn from_vec12(x: &[f64; 12]) -> Self {
        CentroidalInput { grfs_world: BodyInput::from_vec12(&x.map(s)).grfs_world.map(w) }
    }
}

#[derive(Clone)]
struct CentroidalMpcConfig {
    mass_kg: f64,
    centroidal_inertia_body: Matrix3<f64>,
    com_offset_body: Vector3<f64>,
    friction_mu: f64,
    max_normal_force: f64,
    horizon_steps: usize,
    dt_per_step: f64,
    q_diag: [f64; 12],
    r_diag: f64,
    sqp_iterations: usize,
}

impl CentroidalMpcConfig {
    fn inner(&self) -> BodyConfig {
        BodyConfig {
            mass_kg: s(self.mass_kg),
            centroidal_inertia_body: mat(&self.centroidal_inertia_body),
            com_offset_body: v(self.com_offset_body),
            friction_mu: s(self.friction_mu),
            max_normal_force: s(self.max_normal_force),
            horizon_steps: self.horizon_steps,
            dt_per_step: s(self.dt_per_step),
            q_diag: self.q_diag.map(s),
            r_diag: s(self.r_diag),
            sqp_iterations: self.sqp_iterations,
        }
    }
}

fn centroidal_dynamics(
    state: &CentroidalState,
    input: &CentroidalInput,
    feet: &[Vector3<f64>; 4],
    cfg: &CentroidalMpcConfig,
) -> CentroidalState {
    let feet = feet.map(v);
    CentroidalState::outer(&body_rate(
        &Host,
        &Kernel,
        &state.inner(),
        &input.inner(),
        &feet,
        &cfg.inner(),
    ))
}

fn euler_zyx_dot_from_world_omega(euler: &Vector3<f64>, omega: &Vector3<f64>) -> Vector3<f64> {
    let r = Kernel.rotation(v(*euler));
    w(euler_rate(&Host, &r, v(*euler), v(*omega)))
}

struct CentroidalReference(Vec<CentroidalState>);

impl CentroidalReference {
    fn constant(x: CentroidalState, n: usize) -> Self {
        Self::outer(BodyReference::constant(x.inner(), n))
    }
    fn outer(r: BodyReference) -> Self {
        CentroidalReference(r.states.iter().map(CentroidalState::outer).collect())
    }
    fn from_constant_velocity(
        x: CentroidalState,
        vel: Vector3<f64>,
        wz: f64,
        cfg: &CentroidalMpcConfig,
    ) -> Self {
        Self::outer(BodyReference::from_constant_velocity(
            &Host,
            x.inner(),
            v(vel),
            s(wz),
            &cfg.inner(),
        ))
    }
    fn inner(&self) -> BodyReference {
        BodyReference { states: self.0.iter().map(|x| x.inner()).collect() }
    }
}

struct CentroidalFootOffsets([Vector3<f64>; 4], usize);

impl CentroidalFootOffsets {
    fn constant_per_leg(feet: [Vector3<f64>; 4], n: usize) -> Self {
        CentroidalFootOffsets(feet, n)
    }
    fn inner(&self) -> FootOffsets {
        FootOffsets::constant_per_leg(self.0.map(v), self.1)
    }
}

struct CentroidalMpcSolution {
    grfs_first_step: [Vector3<f64>; 4],
    objective: f64,
    solved: bool,
}

struct CentroidalMpc(BodyMpc);

impl CentroidalMpc {
    fn new(cfg: CentroidalMpcConfig) -> Self {
        CentroidalMpc(BodyMpc::new(cfg.inner()))
    }
    fn solve(
        &self,
        now: CentroidalState,
        reference: &CentroidalReference,
        contact: &CentroidalContactSchedule,
        feet: &CentroidalFootOffsets,
    ) -> CentroidalMpcSolution {
        let contact = CentroidalContactSchedule { is_stance: contact.is_stance.clone() };
        let problem = CentroidalProblem {
            state_now: now.inner(),
            reference: reference.inner(),
            contact,
            feet: feet.inner(),
        };
        let sol = self.0.solve_with(&Host, &Kernel, &problem);
        CentroidalMpcSolution {
            grfs_first_step: sol.grfs_first_step.map(w),
            objective: f(sol.objective),
            solved: sol.solved,
        }
    }
}

fn test_kinematics() -> KinematicsConfig {
    let make = |leg: LegId, x: f64, y: f64| {
        LegKinematics::new(
            &Host,
            leg,
            format!("{}_hip", leg.label()),
            format!("{}_thigh", leg.label()),
            format!("{}_calf", leg.label()),
            format!("{}_foot", leg.label()),
            v(Vector3::new(x, y, 0.0)),
            s(0.05),
            s(0.15),
            s(0.15),
        )
    };
    KinematicsConfig {
        fl: make(LegId::FL, 0.25, 0.20),
        fr: make(LegId::FR, 0.25, -0.20),
        rl: make(LegId::RL, -0.25, 0.20),
        rr: make(LegId::RR, -0.25, -0.20),
    }
}

fn test_config() -> FullCentroidalMpcConfig {
    FullCentroidalMpcConfig {
        mass_kg: 9.0,
        centroidal_inertia_body: Matrix3::from_diagonal(&Vector3::new(0.07, 0.26, 0.242)),
        com_offset_body: Vector3::zeros(),
        friction_mu: 0.5,
        max_normal_force: 200.0,
        horizon_steps: 10,
        dt_per_step: 0.030,
        q_diag: [1.0; N_STATE],
        r_diag: [1e-3; N_INPUT],
        sqp_iterations: 1,
        kinematics: test_kinematics(),
        enable_swing_normal_velocity_constraint: false,
        friction_cone_soft: false,
        friction_cone_slack_penalty: 1000.0,
        warm_start: false,
        q_foot_xy_world: 0.0,
    }
}

fn dx_minus(a: &FullCentroidalState, b: &FullCentroidalState) -> [f64; N_STATE] {
    let av = a.to_vec();
    let bv = b.to_vec();
    let mut out = [0.0; N_STATE];
    for i in 0..N_STATE {
        out[i] = av[i] - bv[i];
    }
    out
}

fn ref_state_for_lin_test() -> FullCentroidalState {
    FullCentroidalState {
        v_com_world: Vector3::new(0.10, 0.05, 0.0),
        angular_velocity_world: Vector3::zeros(),
        base_pos_world: Vector3::new(0.0, 0.0, 0.32),
        base_euler_zyx: Vector3::zeros(),
        joint_q: [
            0.05, 0.55, -1.20,
            -0.05, 0.55, -1.20,
            0.05, 0.60, -1.25,
            -0.05, 0.60, -1.25,
        ],
    }
}

fn ref_input_for_lin_test() -> FullCentroidalInput {
    let mut joint_v = [0.0; N_LEG_JOINTS];
    for (i, x) in joint_v.iter_mut().enumerate() {
        *x = 0.05 * (i as f64 + 1.0).sin();
    }
    FullCentroidalInput {
        grfs_world: [
            Vector3::new(2.0, 1.0, 25.0),
            Vector3::new(-1.5, 0.8, 22.0),
            Vector3::new(2.5, -0.7, 24.0),
            Vector3::new(-2.0, -0.5, 17.0),
        ],
        joint_v,
    }
}

fn fd_state_col(
    k: usize,
    state: &FullCentroidalState,
    input: &FullCentroidalInput,
    cfg: &FullCentroidalMpcConfig,
    eps: f64,
) -> [f64; N_STATE] {
    let mut xv = state.to_vec();
    let original = xv[k];
    xv[k] = original + eps;
    let f_plus = full_centroidal_dynamics(&FullCentroidalState::from_vec(&xv), input, cfg);
    xv[k] = original - eps;
    let f_minus = full_centroidal_dynamics(&FullCentroidalState::from_vec(&xv), input, cfg);
    let mut out = [0.0; N_STATE];
    let plus = f_plus.to_vec();
    let minus = f_minus.to_vec();
    for i in 0..N_STATE {
        out[i] = (plus[i] - minus[i]) / (2.0 * eps);
    }
    out
}

fn fd_input_col(
    k: usize,
    state: &FullCentroidalState,
    input: &FullCentroidalInput,
    cfg: &FullCentroidalMpcConfig,
    eps: f64,
) -> [f64; N_STATE] {
    let mut uv = input.to_vec();
    let original = uv[k];
    uv[k] = original + eps;
    let f_plus = full_centroidal_dynamics(state, &FullCentroidalInput::from_vec(&uv), cfg);
    uv[k] = original - eps;
    let f_minus = full_centroidal_dynamics(state, &FullCentroidalInput::from_vec(&uv), cfg);
    let mut out = [0.0; N_STATE];
    let plus = f_plus.to_vec();
    let minus = f_minus.to_vec();
    for i in 0..N_STATE {
        out[i] = (plus[i] - minus[i]) / (2.0 * eps);
    }
    out
}

fn nominal_namiashi_cfg() -> CentroidalMpcConfig {
    CentroidalMpcConfig {
        mass_kg: 2.4,
        centroidal_inertia_body: Matrix3::from_diagonal(&Vector3::new(
            0.0019, 0.0086, 0.0090,
        )),
        com_offset_body: Vector3::zeros(),
        friction_mu: 0.5,
        max_normal_force: 100.0,
        horizon_steps: 10,
        dt_per_step: 0.030,
        q_diag: [

            1.0, 1.0, 1.0, 0.5, 0.5, 10.0, 0.0, 20.0, 50.0, 25.0, 25.0, 50.0,
        ],
        r_diag: 1e-3,
        sqp_iterations: 1,
    }
}

fn nominal_foot_world() -> [Vector3<f64>; 4] {
    [
        Vector3::new(0.147, 0.109, 0.0),
        Vector3::new(0.147, -0.109, 0.0),
        Vector3::new(-0.147, 0.109, 0.0),
        Vector3::new(-0.147, -0.109, 0.0),
    ]
}

#[test]
fn state_round_trip_through_vec24() {
    let s = FullCentroidalState {
        v_com_world: Vector3::new(0.1, -0.2, 0.3),
        angular_velocity_world: Vector3::new(-0.05, 0.07, 0.11),
        base_pos_world: Vector3::new(1.0, 2.0, 0.32),
        base_euler_zyx: Vector3::new(0.01, -0.02, 0.5),
        joint_q: [
            0.10, 0.50, -1.20,
            -0.10, 0.50, -1.20,
            0.10, 0.55, -1.25,
            -0.10, 0.55, -1.25,
        ],
    };
    let s2 = FullCentroidalState::from_vec(&s.to_vec());
    assert_eq!(s, s2);
}

#[test]
fn input_round_trip_through_vec24() {
    let mut joint_v = [0.0; N_LEG_JOINTS];
    for (i, x) in joint_v.iter_mut().enumerate() {
        *x = 0.1 * (i as f64 + 1.0);
    }
    let u = FullCentroidalInput {
        grfs_world: [
            Vector3::new(1.0, 0.0, 30.0),
            Vector3::new(-1.0, 0.0, 30.0),
            Vector3::new(2.0, 0.5, 25.0),
            Vector3::new(-2.0, -0.5, 25.0),
        ],
        joint_v,
    };
    let u2 = FullCentroidalInput::from_vec(&u.to_vec());
    assert_eq!(u, u2);
}

#[test]
fn leg_joint_q_extracts_correct_block() {
    let mut q = [0.0; N_LEG_JOINTS];
    for (i, x) in q.iter_mut().enumerate() {
        *x = i as f64;
    }
    let s = FullCentroidalState {
        joint_q: q,
        ..Default::default()
    };
    assert_eq!(s.leg_joint_q(0), [0.0, 1.0, 2.0]);
    assert_eq!(s.leg_joint_q(1), [3.0, 4.0, 5.0]);
    assert_eq!(s.leg_joint_q(2), [6.0, 7.0, 8.0]);
    assert_eq!(s.leg_joint_q(3), [9.0, 10.0, 11.0]);
}

#[test]
fn state_default_is_zero() {
    let s = FullCentroidalState::default();
    assert_eq!(s.to_vec(), [0.0; N_STATE]);
}

#[test]
fn input_default_is_zero() {
    let u = FullCentroidalInput::default();
    assert_eq!(u.to_vec(), [0.0; N_INPUT]);
}

#[test]
fn dynamics_zero_input_yields_only_gravity_on_v_com() {
    let state = FullCentroidalState::default();
    let input = FullCentroidalInput::default();
    let cfg = test_config();
    let dx = full_centroidal_dynamics(&state, &input, &cfg);
    assert!((dx.v_com_world - Vector3::new(0.0, 0.0, -9.81)).norm() < 1e-12);
    assert_eq!(dx.angular_velocity_world, Vector3::zeros());
    assert_eq!(dx.base_pos_world, Vector3::zeros());
    assert_eq!(dx.base_euler_zyx, Vector3::zeros());
    assert_eq!(dx.joint_q, [0.0; N_LEG_JOINTS]);
}

#[test]
fn joint_v_drives_joint_q_dot_exactly() {
    let mut joint_v = [0.0; N_LEG_JOINTS];
    for (i, x) in joint_v.iter_mut().enumerate() {
        *x = 0.1 * (i as f64 + 1.0);
    }
    let state = FullCentroidalState::default();
    let input = FullCentroidalInput {
        joint_v,
        ..Default::default()
    };
    let cfg = test_config();
    let dx = full_centroidal_dynamics(&state, &input, &cfg);
    assert_eq!(dx.joint_q, joint_v);
}

#[test]
fn balanced_grf_at_nominal_pose_yields_zero_v_com_dot() {
    let cfg = test_config();
    let f_per_foot = cfg.mass_kg * 9.81 / 4.0;
    let input = FullCentroidalInput {
        grfs_world: [
            Vector3::new(0.0, 0.0, f_per_foot),
            Vector3::new(0.0, 0.0, f_per_foot),
            Vector3::new(0.0, 0.0, f_per_foot),
            Vector3::new(0.0, 0.0, f_per_foot),
        ],
        ..Default::default()
    };
    let state = FullCentroidalState::default();
    let dx = full_centroidal_dynamics(&state, &input, &cfg);
    assert!(dx.v_com_world.norm() < 1e-9, "v_com_dot = {}", dx.v_com_world);

    assert!(
        dx.angular_velocity_world.norm() < 1e-9,
        "α = {}",
        dx.angular_velocity_world
    );
}

#[test]
fn foot_positions_at_zero_q_match_kinematics_nominal() {
    let cfg = test_config();
    let state = FullCentroidalState::default();
    let feet = compute_foot_positions_world(&state, &cfg);

    assert!((feet[0] - Vector3::new(0.25, 0.25, -0.30)).norm() < 1e-12);

    assert!((feet[1] - Vector3::new(0.25, -0.25, -0.30)).norm() < 1e-12);

    assert!((feet[2] - Vector3::new(-0.25, 0.25, -0.30)).norm() < 1e-12);
    assert!((feet[3] - Vector3::new(-0.25, -0.25, -0.30)).norm() < 1e-12);
}

#[test]
fn foot_positions_translate_with_base_pos() {
    let cfg = test_config();
    let state = FullCentroidalState {
        base_pos_world: Vector3::new(1.0, 2.0, 0.32),
        ..Default::default()
    };
    let feet = compute_foot_positions_world(&state, &cfg);
    let baseline = compute_foot_positions_world(&FullCentroidalState::default(), &cfg);
    for slot in 0..N_FEET {
        let diff = feet[slot] - baseline[slot] - state.base_pos_world;
        assert!(diff.norm() < 1e-12, "slot {slot}: {diff}");
    }
}

#[test]
fn agrees_with_12_state_centroidal_when_joint_v_is_zero() {
    let cfg24 = test_config();

    let cfg12 = CentroidalMpcConfig {
        mass_kg: cfg24.mass_kg,
        centroidal_inertia_body: cfg24.centroidal_inertia_body,
        com_offset_body: cfg24.com_offset_body,
        friction_mu: cfg24.friction_mu,
        max_normal_force: cfg24.max_normal_force,
        horizon_steps: cfg24.horizon_steps,
        dt_per_step: cfg24.dt_per_step,
        q_diag: [1.0; 12],
        r_diag: 1e-3,
        sqp_iterations: 1,
    };

    let state24 = FullCentroidalState {
        v_com_world: Vector3::new(0.10, 0.0, 0.0),
        angular_velocity_world: Vector3::new(0.01, 0.02, 0.05),
        base_pos_world: Vector3::new(0.0, 0.0, 0.32),
        base_euler_zyx: Vector3::zeros(),
        joint_q: [0.0; N_LEG_JOINTS],
    };
    let state12 = CentroidalState {
        h_lin_per_mass: state24.v_com_world,
        angular_velocity_world: state24.angular_velocity_world,
        base_pos_world: state24.base_pos_world,
        base_euler_zyx: state24.base_euler_zyx,
    };

    let input24 = FullCentroidalInput {
        grfs_world: [
            Vector3::new(2.0, 1.0, 25.0),
            Vector3::new(-1.5, 0.5, 22.0),
            Vector3::new(2.5, -0.8, 24.0),
            Vector3::new(-2.0, -0.3, 17.0),
        ],
        joint_v: [0.0; N_LEG_JOINTS],
    };
    let input12 = CentroidalInput {
        grfs_world: input24.grfs_world,
    };

    let foot_world = compute_foot_positions_world(&state24, &cfg24);

    let dx24 = full_centroidal_dynamics(&state24, &input24, &cfg24);
    let dx12 = centroidal_dynamics(&state12, &input12, &foot_world, &cfg12);

    let tol = 1e-9;
    assert!((dx24.v_com_world - dx12.h_lin_per_mass).norm() < tol);
    assert!((dx24.angular_velocity_world - dx12.angular_velocity_world).norm() < tol);
    assert!((dx24.base_pos_world - dx12.base_pos_world).norm() < tol);
    assert!((dx24.base_euler_zyx - dx12.base_euler_zyx).norm() < tol);
}

#[test]
fn linearization_state_jacobian_matches_fd() {
    let cfg = test_config();
    let state = ref_state_for_lin_test();
    let input = ref_input_for_lin_test();
    let stance = [true; N_FEET];
    let psi_ref = state.base_euler_zyx.z;

    let (a_mat, _b_mat) = continuous_dynamics_full(&state, &input, &cfg, &stance, psi_ref);
    let eps = 1e-6;
    let tol = 1e-3;

    for k in 0..N_STATE {
        let fd = fd_state_col(k, &state, &input, &cfg, eps);
        for i in 0..N_STATE {
            let analytical = a_mat[(i, k)];
            let diff = (fd[i] - analytical).abs();
            assert!(
                diff < tol,
                "A[{i},{k}]: analytical={analytical:.6e}  fd={:.6e}  diff={diff:.3e}",
                fd[i]
            );
        }
    }
    let _ = dx_minus;
}

#[test]
fn linearization_input_jacobian_matches_fd() {
    let cfg = test_config();
    let state = ref_state_for_lin_test();
    let input = ref_input_for_lin_test();
    let stance = [true; N_FEET];
    let psi_ref = state.base_euler_zyx.z;

    let (_a_mat, b_mat) = continuous_dynamics_full(&state, &input, &cfg, &stance, psi_ref);
    let eps = 1e-6;
    let tol = 1e-3;

    for k in 0..N_INPUT {
        let fd = fd_input_col(k, &state, &input, &cfg, eps);
        for i in 0..N_STATE {
            let analytical = b_mat[(i, k)];
            let diff = (fd[i] - analytical).abs();
            assert!(
                diff < tol,
                "B[{i},{k}]: analytical={analytical:.6e}  fd={:.6e}  diff={diff:.3e}",
                fd[i]
            );
        }
    }
}

#[test]
fn linearization_swing_legs_zero_their_grf_block() {
    let cfg = test_config();
    let state = ref_state_for_lin_test();
    let input = ref_input_for_lin_test();
    let stance = [true, false, true, false];
    let (_a, b) = continuous_dynamics_full(&state, &input, &cfg, &stance, 0.0);

    for swing_leg in [1usize, 3] {
        for j in 0..3 {
            for i in 0..6 {
                assert_eq!(b[(i, 3 * swing_leg + j)], 0.0);
            }
        }
    }
}

#[test]
fn mpc_solve_at_static_stand_returns_gravity_balancing_grfs() {
    let mut cfg = test_config();
    cfg.horizon_steps = 5;
    cfg.sqp_iterations = 1;

    let state_ref = FullCentroidalState {
        base_pos_world: Vector3::new(0.0, 0.0, 0.30),
        ..Default::default()
    };
    let f_per_foot = cfg.mass_kg * 9.81 / 4.0;
    let input_ref = FullCentroidalInput {
        grfs_world: [Vector3::new(0.0, 0.0, f_per_foot); 4],
        joint_v: [0.0; N_LEG_JOINTS],
    };
    let reference = FullCentroidalReference {
        states: vec![state_ref; cfg.horizon_steps],
        inputs: vec![input_ref; cfg.horizon_steps],
    };
    let contact = FullCentroidalContactSchedule::all_stance(cfg.horizon_steps);
    let mut mpc = FullCentroidalMpc::new(cfg);
    let sol = mpc.solve(state_ref, &reference, &contact);
    assert!(sol.solved, "QP must solve at static stand");

    for leg in 0..N_FEET {
        let fz = sol.first_input.grfs_world[leg].z;
        assert!(
            fz > 5.0 && fz < 70.0,
            "leg {leg} f_z = {fz} N outside reasonable range"
        );
    }

    for v in sol.first_input.joint_v.iter() {
        assert!(v.abs() < 2.0, "joint_v {v} too large at static stand");
    }
}

#[test]
fn mpc_stance_no_slip_keeps_foot_velocity_zero() {
    let mut cfg = test_config();
    cfg.horizon_steps = 4;
    cfg.sqp_iterations = 1;
    let state_ref = FullCentroidalState {
        base_pos_world: Vector3::new(0.0, 0.0, 0.30),
        ..Default::default()
    };
    let f_per_foot = cfg.mass_kg * 9.81 / 4.0;
    let input_ref = FullCentroidalInput {
        grfs_world: [Vector3::new(0.0, 0.0, f_per_foot); 4],
        joint_v: [0.0; N_LEG_JOINTS],
    };
    let reference = FullCentroidalReference {
        states: vec![state_ref; cfg.horizon_steps],
        inputs: vec![input_ref; cfg.horizon_steps],
    };
    let contact = FullCentroidalContactSchedule::all_stance(cfg.horizon_steps);

    let state_now = FullCentroidalState {
        v_com_world: Vector3::new(0.1, 0.0, 0.0),
        base_pos_world: Vector3::new(0.0, 0.0, 0.30),
        ..Default::default()
    };
    let mut mpc = FullCentroidalMpc::new(cfg.clone());
    let sol = mpc.solve(state_now, &reference, &contact);
    assert!(sol.solved, "MPC must solve under stance no-slip constraint");

    for leg in 0..N_FEET {
        let kin = cfg.kinematics.leg(
            [LegId::FL, LegId::FR, LegId::RL, LegId::RR][leg],
        );
        let [qhip, qthigh, qcalf] = state_now.leg_joint_q(leg);
        let j_foot = foot_jacobian_body(kin, qhip, qthigh, qcalf);
        let joint_v = sol.first_input.joint_v;
        let v_leg = Vector3::new(
            joint_v[3 * leg],
            joint_v[3 * leg + 1],
            joint_v[3 * leg + 2],
        );

        let v_foot = state_now.v_com_world + j_foot * v_leg;
        assert!(
            v_foot.norm() < 0.03,
            "leg {leg} foot velocity {v_foot} not pinned to 0 by stance constraint (||·|| = {})",
            v_foot.norm()
        );
    }
}

#[test]
fn mpc_solve_with_swing_leg_zeros_its_grf() {
    let mut cfg = test_config();
    cfg.horizon_steps = 3;
    cfg.sqp_iterations = 1;
    let state_ref = FullCentroidalState {
        base_pos_world: Vector3::new(0.0, 0.0, 0.30),
        ..Default::default()
    };
    let f_per_foot = cfg.mass_kg * 9.81 / 3.0;
    let mut grfs = [Vector3::zeros(); N_FEET];
    for leg in [0, 2, 3] {
        grfs[leg].z = f_per_foot;
    }
    let input_ref = FullCentroidalInput {
        grfs_world: grfs,
        joint_v: [0.0; N_LEG_JOINTS],
    };
    let reference = FullCentroidalReference {
        states: vec![state_ref; cfg.horizon_steps],
        inputs: vec![input_ref; cfg.horizon_steps],
    };
    let mut contact = FullCentroidalContactSchedule::all_stance(cfg.horizon_steps);
    for k in 0..cfg.horizon_steps {
        contact.is_stance[1][k] = false;
    }
    let mut mpc = FullCentroidalMpc::new(cfg);
    let sol = mpc.solve(state_ref, &reference, &contact);
    assert!(sol.solved);

    for k in 0..sol.inputs_all_steps.len() {
        let fr = sol.inputs_all_steps[k].grfs_world[1];
        assert!(fr.norm() < 1e-7, "FR GRF nonzero at step {k}: {fr}");
    }
}

#[test]
fn mpc_swing_normal_velocity_constraint_tracks_planned_vz() {
    let mut cfg = test_config();
    cfg.horizon_steps = 3;
    cfg.sqp_iterations = 1;
    cfg.enable_swing_normal_velocity_constraint = true;
    let state_ref = FullCentroidalState {
        base_pos_world: Vector3::new(0.0, 0.0, 0.30),
        ..Default::default()
    };

    let f_per_foot = cfg.mass_kg * 9.81 / 3.0;
    let mut grfs = [Vector3::zeros(); N_FEET];
    for leg in [0, 2, 3] {
        grfs[leg].z = f_per_foot;
    }
    let input_ref = FullCentroidalInput {
        grfs_world: grfs,
        joint_v: [0.0; N_LEG_JOINTS],
    };
    let reference = FullCentroidalReference {
        states: vec![state_ref; cfg.horizon_steps],
        inputs: vec![input_ref; cfg.horizon_steps],
    };
    let mut contact = FullCentroidalContactSchedule::all_stance(cfg.horizon_steps);
    let v_z_target = 0.10;
    for k in 0..cfg.horizon_steps {
        contact.is_stance[1][k] = false;
        contact.swing_z_velocity[1][k] = v_z_target;
    }
    let mut mpc = FullCentroidalMpc::new(cfg.clone());
    let sol = mpc.solve(state_ref, &reference, &contact);
    assert!(
        sol.solved,
        "MPC must solve with swing normal velocity constraint"
    );

    let kin = cfg.kinematics.leg(LegId::FR);
    let [qhip, qthigh, qcalf] = state_ref.leg_joint_q(1);
    let j_foot = foot_jacobian_body(kin, qhip, qthigh, qcalf);
    let foot_body = forward_leg_kinematics(kin, qhip, qthigh, qcalf);
    let r_ref = foot_body - cfg.com_offset_body;
    for k in 0..cfg.horizon_steps {
        let v_com_z = sol.predicted_states[k].v_com_world.z;
        let omega = sol.predicted_states[k].angular_velocity_world;
        let jv = sol.inputs_all_steps[k].joint_v;
        let joint_v_fr = Vector3::new(jv[3], jv[4], jv[5]);
        let v_foot_z =
            v_com_z + omega.cross(&r_ref).z + (j_foot * joint_v_fr).z;
        assert!(
            (v_foot_z - v_z_target).abs() < 1e-3,
            "FR v_foot_z step {k}: got {v_foot_z}, want {v_z_target}"
        );
    }
}

#[test]
fn mpc_stance_f_max_per_step_bound_is_enforced() {
    let mut cfg = test_config();
    cfg.horizon_steps = 3;
    cfg.sqp_iterations = 1;
    let state_ref = FullCentroidalState {
        base_pos_world: Vector3::new(0.0, 0.0, 0.30),
        ..Default::default()
    };
    let f_per_foot = cfg.mass_kg * 9.81 / 4.0;
    let input_ref = FullCentroidalInput {
        grfs_world: [Vector3::new(0.0, 0.0, f_per_foot); 4],
        joint_v: [0.0; N_LEG_JOINTS],
    };
    let reference = FullCentroidalReference {
        states: vec![state_ref; cfg.horizon_steps],
        inputs: vec![input_ref; cfg.horizon_steps],
    };
    let mut contact = FullCentroidalContactSchedule::all_stance(cfg.horizon_steps);

    let tight_f_max = 5.0;
    for k in 0..cfg.horizon_steps {
        contact.stance_f_max[0][k] = tight_f_max;
    }
    let mut mpc = FullCentroidalMpc::new(cfg.clone());
    let sol = mpc.solve(state_ref, &reference, &contact);
    assert!(sol.solved, "MPC must solve under tightened FL f_max bound");

    for k in 0..sol.inputs_all_steps.len() {
        let fl_z = sol.inputs_all_steps[k].grfs_world[0].z;
        assert!(
            fl_z <= tight_f_max + 1e-5,
            "FL f_z step {k} = {fl_z} exceeds tightened bound {tight_f_max}"
        );
        assert!(
            fl_z >= -1e-9,
            "FL f_z step {k} = {fl_z} violates the f_z ≥ 0 lower bound"
        );
    }
}

#[test]
fn mpc_friction_cone_soft_matches_hard_when_unloaded() {
    let mut cfg_hard = test_config();
    cfg_hard.horizon_steps = 3;
    cfg_hard.sqp_iterations = 1;
    let state_ref = FullCentroidalState {
        base_pos_world: Vector3::new(0.0, 0.0, 0.30),
        ..Default::default()
    };
    let f_per_foot = cfg_hard.mass_kg * 9.81 / 4.0;
    let input_ref = FullCentroidalInput {
        grfs_world: [Vector3::new(0.0, 0.0, f_per_foot); 4],
        joint_v: [0.0; N_LEG_JOINTS],
    };
    let reference = FullCentroidalReference {
        states: vec![state_ref; cfg_hard.horizon_steps],
        inputs: vec![input_ref; cfg_hard.horizon_steps],
    };
    let contact = FullCentroidalContactSchedule::all_stance(cfg_hard.horizon_steps);

    let mut mpc_hard = FullCentroidalMpc::new(cfg_hard.clone());
    let sol_hard = mpc_hard.solve(state_ref, &reference, &contact);
    assert!(sol_hard.solved);

    let mut cfg_soft = cfg_hard.clone();
    cfg_soft.friction_cone_soft = true;
    cfg_soft.friction_cone_slack_penalty = 1000.0;
    let mut mpc_soft = FullCentroidalMpc::new(cfg_soft);
    let sol_soft = mpc_soft.solve(state_ref, &reference, &contact);
    assert!(sol_soft.solved);

    for leg in 0..N_FEET {
        let dh = sol_hard.first_input.grfs_world[leg];
        let ds = sol_soft.first_input.grfs_world[leg];
        assert!(
            (dh - ds).norm() < 1e-3,
            "soft cone perturbed unloaded GRF: hard={dh:?}, soft={ds:?}"
        );
    }
}

#[test]
fn mpc_friction_cone_soft_returns_feasible_under_tight_mu() {
    let mut cfg = test_config();
    cfg.horizon_steps = 3;
    cfg.sqp_iterations = 1;
    cfg.friction_mu = 0.05;
    cfg.friction_cone_soft = true;
    cfg.friction_cone_slack_penalty = 1000.0;

    cfg.q_diag[1] = 1e3;
    let state_now = FullCentroidalState {
        v_com_world: Vector3::new(0.0, 0.30, 0.0),
        base_pos_world: Vector3::new(0.0, 0.0, 0.30),
        ..Default::default()
    };
    let state_ref = FullCentroidalState {
        base_pos_world: Vector3::new(0.0, 0.0, 0.30),
        ..Default::default()
    };
    let f_per_foot = cfg.mass_kg * 9.81 / 4.0;
    let input_ref = FullCentroidalInput {
        grfs_world: [Vector3::new(0.0, 0.0, f_per_foot); 4],
        joint_v: [0.0; N_LEG_JOINTS],
    };
    let reference = FullCentroidalReference {
        states: vec![state_ref; cfg.horizon_steps],
        inputs: vec![input_ref; cfg.horizon_steps],
    };
    let contact = FullCentroidalContactSchedule::all_stance(cfg.horizon_steps);

    let mut mpc = FullCentroidalMpc::new(cfg.clone());
    let sol = mpc.solve(state_now, &reference, &contact);
    assert!(
        sol.solved,
        "soft-cone MPC should return a feasible solution under tight mu"
    );

    for leg in 0..N_FEET {
        for k in 0..cfg.horizon_steps {
            let fz = sol.inputs_all_steps[k].grfs_world[leg].z;
            assert!(fz >= -1e-6, "f_z negative under soft cone at leg {leg} k {k}: {fz}");
        }
    }
}

#[test]
fn mpc_warm_start_disabled_leaves_cache_empty() {
    let mut cfg = test_config();
    cfg.horizon_steps = 3;
    cfg.sqp_iterations = 1;
    cfg.warm_start = false;
    let state_ref = FullCentroidalState {
        base_pos_world: Vector3::new(0.0, 0.0, 0.30),
        ..Default::default()
    };
    let f_per_foot = cfg.mass_kg * 9.81 / 4.0;
    let input_ref = FullCentroidalInput {
        grfs_world: [Vector3::new(0.0, 0.0, f_per_foot); 4],
        joint_v: [0.0; N_LEG_JOINTS],
    };
    let reference = FullCentroidalReference {
        states: vec![state_ref; cfg.horizon_steps],
        inputs: vec![input_ref; cfg.horizon_steps],
    };
    let contact = FullCentroidalContactSchedule::all_stance(cfg.horizon_steps);
    let mut mpc = FullCentroidalMpc::new(cfg);
    let _ = mpc.solve(state_ref, &reference, &contact);
    assert!(
        mpc.warm_start_cache.is_none(),
        "warm-start cache must stay empty when feature is off"
    );
}

#[test]
fn mpc_warm_start_caches_and_converges_at_steady_state() {
    let mut cfg = test_config();
    cfg.horizon_steps = 3;
    cfg.sqp_iterations = 1;
    cfg.warm_start = true;
    let state_ref = FullCentroidalState {
        base_pos_world: Vector3::new(0.0, 0.0, 0.30),
        ..Default::default()
    };
    let f_per_foot = cfg.mass_kg * 9.81 / 4.0;
    let input_ref = FullCentroidalInput {
        grfs_world: [Vector3::new(0.0, 0.0, f_per_foot); 4],
        joint_v: [0.0; N_LEG_JOINTS],
    };
    let reference = FullCentroidalReference {
        states: vec![state_ref; cfg.horizon_steps],
        inputs: vec![input_ref; cfg.horizon_steps],
    };
    let contact = FullCentroidalContactSchedule::all_stance(cfg.horizon_steps);
    let mut mpc = FullCentroidalMpc::new(cfg);

    let sol1 = mpc.solve(state_ref, &reference, &contact);
    assert!(sol1.solved);
    assert!(
        mpc.warm_start_cache.is_some(),
        "first solve must populate the warm-start cache"
    );

    let sol2 = mpc.solve(state_ref, &reference, &contact);
    assert!(sol2.solved);

    for leg in 0..N_FEET {
        let fz = sol2.first_input.grfs_world[leg].z;
        assert!(
            (fz - f_per_foot).abs() < 1e-2,
            "warm-started solve diverged at leg {leg}: f_z = {fz}, want {f_per_foot}"
        );
    }
}

#[test]
fn mpc_warm_start_cache_invalidated_on_horizon_change() {
    let mut cfg = test_config();
    cfg.horizon_steps = 3;
    cfg.sqp_iterations = 1;
    cfg.warm_start = true;
    let state_ref = FullCentroidalState {
        base_pos_world: Vector3::new(0.0, 0.0, 0.30),
        ..Default::default()
    };
    let f_per_foot = cfg.mass_kg * 9.81 / 4.0;
    let input_ref = FullCentroidalInput {
        grfs_world: [Vector3::new(0.0, 0.0, f_per_foot); 4],
        joint_v: [0.0; N_LEG_JOINTS],
    };
    let reference = FullCentroidalReference {
        states: vec![state_ref; cfg.horizon_steps],
        inputs: vec![input_ref; cfg.horizon_steps],
    };
    let contact = FullCentroidalContactSchedule::all_stance(cfg.horizon_steps);
    let mut mpc = FullCentroidalMpc::new(cfg.clone());
    let _ = mpc.solve(state_ref, &reference, &contact);
    assert!(mpc.warm_start_cache.is_some());

    let mut cfg2 = cfg.clone();
    cfg2.horizon_steps = 5;
    mpc.set_config(cfg2);
    assert!(
        mpc.warm_start_cache.is_none(),
        "horizon change must clear the warm-start cache"
    );
}

#[test]
fn mpc_foot_xy_cost_drives_joint_v_toward_target() {
    let n = 4_usize;
    let mut cfg = test_config();
    cfg.horizon_steps = n;
    cfg.sqp_iterations = 3;
    cfg.q_foot_xy_world = 1000.0;

    for i in 12..N_INPUT {
        cfg.r_diag[i] = 1e-3;
    }

    let state_ref = FullCentroidalState {
        base_pos_world: Vector3::new(0.0, 0.0, 0.30),
        ..Default::default()
    };

    let f_per_foot = cfg.mass_kg * 9.81 / 3.0;
    let mut grfs = [Vector3::zeros(); N_FEET];
    for leg in [0, 2, 3] {
        grfs[leg].z = f_per_foot;
    }
    let input_ref = FullCentroidalInput {
        grfs_world: grfs,
        joint_v: [0.0; N_LEG_JOINTS],
    };
    let reference = FullCentroidalReference {
        states: vec![state_ref; n],
        inputs: vec![input_ref; n],
    };

    let mut contact = FullCentroidalContactSchedule::all_stance(n);
    for k in 0..n - 1 {
        contact.is_stance[1][k] = false;
    }

    let nominal_world_xy = [0.25_f64, -0.25_f64];
    let target_offset_x = 0.05_f64;
    contact.foot_xy_target_world[1][n - 1] =
        Some([nominal_world_xy[0] + target_offset_x, nominal_world_xy[1]]);

    let mut mpc = FullCentroidalMpc::new(cfg.clone());
    let sol = mpc.solve(state_ref, &reference, &contact);
    assert!(sol.solved, "A1 MPC must solve with foot-XY cost active");

    let kin = cfg.kinematics.leg(LegId::FR);
    let j_foot = foot_jacobian_body(kin, 0.0, 0.0, 0.0);
    let mut foot_disp_x = 0.0;
    for k in 0..n - 1 {
        let jv = sol.inputs_all_steps[k].joint_v;
        let joint_v_fr = Vector3::new(jv[3], jv[4], jv[5]);
        foot_disp_x += (j_foot * joint_v_fr).x * cfg.dt_per_step;
    }

    assert!(
        foot_disp_x.abs() > 0.02,
        "MPC failed to move FR foot toward target: integrated dx = {foot_disp_x}, want ≳ {target_offset_x}"
    );

    let mut cfg_off = cfg.clone();
    cfg_off.q_foot_xy_world = 0.0;
    let dt_per_step_off = cfg_off.dt_per_step;
    let mut mpc_off = FullCentroidalMpc::new(cfg_off);
    let sol_off = mpc_off.solve(state_ref, &reference, &contact);
    assert!(sol_off.solved);
    let mut foot_disp_x_off = 0.0;
    for k in 0..n - 1 {
        let jv = sol_off.inputs_all_steps[k].joint_v;
        let joint_v_fr = Vector3::new(jv[3], jv[4], jv[5]);
        foot_disp_x_off += (j_foot * joint_v_fr).x * dt_per_step_off;
    }

    assert!(
        foot_disp_x_off.abs() < 0.5 * foot_disp_x.abs(),
        "cost-on/off separation insufficient: on={foot_disp_x}, off={foot_disp_x_off}"
    );
}

#[test]
fn linearization_aug_gravity_column_is_unit_z_on_v_com() {
    let cfg = test_config();
    let state = ref_state_for_lin_test();
    let input = ref_input_for_lin_test();
    let (a, _b) = continuous_dynamics_full(&state, &input, &cfg, &[true; N_FEET], 0.0);
    for i in 0..N_STATE_AUG {
        let expected = if i == 2 { 1.0 } else { 0.0 };
        assert_eq!(a[(i, 24)], expected, "A[{i}, 24] != {expected}");
    }
}

#[test]
fn static_stand_yields_zero_state_derivative() {
    let cfg = nominal_namiashi_cfg();
    let state = CentroidalState {
        h_lin_per_mass: Vector3::zeros(),
        angular_velocity_world: Vector3::zeros(),
        base_pos_world: Vector3::new(0.0, 0.0, 0.165),
        base_euler_zyx: Vector3::zeros(),
    };
    let f_per_foot_z = cfg.mass_kg * 9.81 / 4.0;
    let input = CentroidalInput {
        grfs_world: [Vector3::new(0.0, 0.0, f_per_foot_z); 4],
    };

    let dx = centroidal_dynamics(&state, &input, &nominal_foot_world(), &cfg);

    near_abs(dx.h_lin_per_mass.x, 0.0, 1e-12);
    near_abs(dx.h_lin_per_mass.y, 0.0, 1e-12);
    near_abs(dx.h_lin_per_mass.z, 0.0, 1e-9);

    near_abs(dx.angular_velocity_world.x, 0.0, 1e-12);
    near_abs(dx.angular_velocity_world.y, 0.0, 1e-12);
    near_abs(dx.angular_velocity_world.z, 0.0, 1e-12);

    near_abs(dx.base_pos_world.norm(), 0.0, 1e-12);
    near_abs(dx.base_euler_zyx.norm(), 0.0, 1e-12);
}

#[test]
fn free_fall_accelerates_at_g_downward() {
    let cfg = nominal_namiashi_cfg();
    let state = CentroidalState::default();
    let input = CentroidalInput::default();

    let dx = centroidal_dynamics(&state, &input, &nominal_foot_world(), &cfg);

    near_abs(dx.h_lin_per_mass.x, 0.0, 1e-12);
    near_abs(dx.h_lin_per_mass.y, 0.0, 1e-12);
    near_abs(dx.h_lin_per_mass.z, -9.81, 1e-12);
    near_abs(dx.angular_velocity_world.norm(), 0.0, 1e-12);
}

#[test]
fn forward_force_on_front_legs_drives_x_acceleration() {
    let cfg = nominal_namiashi_cfg();
    let state = CentroidalState::default();
    let fx = 1.0_f64;
    let input = CentroidalInput {
        grfs_world: [
            Vector3::new(fx, 0.0, 0.0),
            Vector3::new(fx, 0.0, 0.0),
            Vector3::zeros(),
            Vector3::zeros(),
        ],
    };

    let dx = centroidal_dynamics(&state, &input, &nominal_foot_world(), &cfg);

    near_abs(dx.h_lin_per_mass.x, 2.0 * fx / cfg.mass_kg, 1e-12);
    near_abs(dx.h_lin_per_mass.y, 0.0, 1e-12);
    near_abs(dx.h_lin_per_mass.z, -9.81, 1e-12);
}

#[test]
fn asymmetric_diagonal_force_produces_yaw_moment() {
    let cfg = nominal_namiashi_cfg();
    let state = CentroidalState::default();
    let fx = 1.0_f64;
    let input = CentroidalInput {
        grfs_world: [
            Vector3::new(fx, 0.0, 0.0),
            Vector3::zeros(),
            Vector3::zeros(),
            Vector3::new(-fx, 0.0, 0.0),
        ],
    };

    let dx = centroidal_dynamics(&state, &input, &nominal_foot_world(), &cfg);

    let i_z = cfg.centroidal_inertia_body[(2, 2)];
    near_abs(dx.angular_velocity_world.z, -0.218 * fx / i_z, 1e-9);

    near_abs(dx.angular_velocity_world.x, 0.0, 1e-9);
    near_abs(dx.angular_velocity_world.y, 0.0, 1e-9);
}

#[test]
fn com_offset_creates_rolling_moment_under_gravity() {
    let mut cfg = nominal_namiashi_cfg();
    cfg.com_offset_body = Vector3::new(0.0, 0.005, 0.0);
    let state = CentroidalState {
        base_pos_world: Vector3::new(0.0, 0.0, 0.165),
        ..Default::default()
    };

    let f_per_foot_z = cfg.mass_kg * 9.81 / 4.0;
    let input = CentroidalInput {
        grfs_world: [Vector3::new(0.0, 0.0, f_per_foot_z); 4],
    };

    let dx = centroidal_dynamics(&state, &input, &nominal_foot_world(), &cfg);

    near_abs(dx.h_lin_per_mass.norm(), 0.0, 1e-9);

    let m = cfg.mass_kg;
    let g = 9.81;
    let d = 0.005;

    let i_xx = cfg.centroidal_inertia_body[(0, 0)];
    let expected_alpha_x = -m * g * d / i_xx;
    near_abs(dx.angular_velocity_world.x, expected_alpha_x, 1e-9);
    near_abs(dx.angular_velocity_world.y, 0.0, 1e-9);
    near_abs(dx.angular_velocity_world.z, 0.0, 1e-9);

}

#[test]
fn euler_dot_at_zero_orientation_equals_world_omega() {
    let euler = Vector3::zeros();
    let omega = Vector3::new(0.1, 0.2, 0.3);
    let euler_dot = euler_zyx_dot_from_world_omega(&euler, &omega);
    near_abs(euler_dot.x, 0.1, 1e-12);
    near_abs(euler_dot.y, 0.2, 1e-12);
    near_abs(euler_dot.z, 0.3, 1e-12);
}

#[test]
fn state_pack_unpack_roundtrip() {
    let s = CentroidalState {
        h_lin_per_mass: Vector3::new(0.1, 0.2, 0.3),
        angular_velocity_world: Vector3::new(0.4, 0.5, 0.6),
        base_pos_world: Vector3::new(1.0, 2.0, 3.0),
        base_euler_zyx: Vector3::new(0.01, 0.02, 0.03),
    };
    let v = s.to_vec12();
    let s2 = CentroidalState::from_vec12(&v);
    assert_eq!(s, s2);
}

#[test]
fn mpc_hover_balances_gravity() {
    let cfg = nominal_namiashi_cfg();
    let mpc = CentroidalMpc::new(cfg.clone());

    let s = CentroidalState {
        base_pos_world: Vector3::new(0.0, 0.0, 0.165),
        ..Default::default()
    };
    let reference = CentroidalReference::constant(s, cfg.horizon_steps);
    let contact = CentroidalContactSchedule::all_stance(cfg.horizon_steps);

    let nominal_feet = nominal_foot_world();
    let feet = CentroidalFootOffsets::constant_per_leg(nominal_feet, cfg.horizon_steps);

    let sol = mpc.solve(s, &reference, &contact, &feet);

    assert!(sol.solved, "MPC failed to solve hover scenario");
    let total_fz: f64 = sol.grfs_first_step.iter().map(|f| f.z).sum();
    let m_g = cfg.mass_kg * 9.81;

    assert!(
        (total_fz - m_g).abs() < 0.15 * m_g,
        "hover: Σf_z = {:.3} N, expected ≈ m·g = {:.3} N",
        total_fz, m_g,
    );

    let total_fx: f64 = sol.grfs_first_step.iter().map(|f| f.x).sum();
    let total_fy: f64 = sol.grfs_first_step.iter().map(|f| f.y).sum();
    assert!(
        total_fx.abs() < 0.1 * m_g,
        "hover: Σf_x = {:.3} N, expected ≈ 0", total_fx
    );
    assert!(
        total_fy.abs() < 0.1 * m_g,
        "hover: Σf_y = {:.3} N, expected ≈ 0", total_fy
    );
}

#[test]
fn mpc_lateral_cmd_yields_positive_fy() {
    let cfg = nominal_namiashi_cfg();
    let mpc = CentroidalMpc::new(cfg.clone());

    let s_now = CentroidalState {
        base_pos_world: Vector3::new(0.0, 0.0, 0.165),
        ..Default::default()
    };
    let reference = CentroidalReference::from_constant_velocity(
        s_now,
        Vector3::new(0.0, 0.10, 0.0),
        0.0,
        &cfg,
    );
    let contact = CentroidalContactSchedule::all_stance(cfg.horizon_steps);
    let feet = CentroidalFootOffsets::constant_per_leg(
        nominal_foot_world(),
        cfg.horizon_steps,
    );

    let sol = mpc.solve(s_now, &reference, &contact, &feet);
    assert!(sol.solved, "MPC failed to solve lateral-walk reference");

    let total_fy: f64 = sol.grfs_first_step.iter().map(|f| f.y).sum();
    assert!(
        total_fy > 0.05,
        "lateral cmd: Σf_y = {:.3} N, expected > 0.05 N",
        total_fy
    );
}

#[test]
fn mpc_sqp_iter_does_not_increase_objective() {
    let mut cfg_single = nominal_namiashi_cfg();
    cfg_single.sqp_iterations = 1;
    let mut cfg_iter = nominal_namiashi_cfg();
    cfg_iter.sqp_iterations = 3;

    let s_now = CentroidalState {
        base_pos_world: Vector3::new(0.0, 0.0, 0.165),
        ..Default::default()
    };
    let reference = CentroidalReference::from_constant_velocity(
        s_now,
        Vector3::zeros(),
        0.5,
        &cfg_single,
    );
    let contact = CentroidalContactSchedule::all_stance(cfg_single.horizon_steps);
    let feet = CentroidalFootOffsets::constant_per_leg(
        nominal_foot_world(),
        cfg_single.horizon_steps,
    );

    let mpc_single = CentroidalMpc::new(cfg_single);
    let mpc_iter = CentroidalMpc::new(cfg_iter);
    let s = mpc_single.solve(s_now, &reference, &contact, &feet);
    let i = mpc_iter.solve(s_now, &reference, &contact, &feet);

    assert!(s.solved && i.solved);

    assert!(
        i.objective <= s.objective + 1e-6,
        "SQP 3-iter obj ({:.6}) > 1-iter obj ({:.6})",
        i.objective, s.objective,
    );
}

#[test]
fn mpc_yaw_cmd_yields_positive_yaw_moment() {
    let cfg = nominal_namiashi_cfg();
    let mpc = CentroidalMpc::new(cfg.clone());

    let s_now = CentroidalState {
        base_pos_world: Vector3::new(0.0, 0.0, 0.165),
        ..Default::default()
    };
    let reference = CentroidalReference::from_constant_velocity(
        s_now,
        Vector3::zeros(),
        0.5,
        &cfg,
    );
    let contact = CentroidalContactSchedule::all_stance(cfg.horizon_steps);
    let feet = CentroidalFootOffsets::constant_per_leg(
        nominal_foot_world(),
        cfg.horizon_steps,
    );

    let sol = mpc.solve(s_now, &reference, &contact, &feet);
    assert!(sol.solved, "MPC failed to solve yaw-walk reference");

    let feet_w = nominal_foot_world();
    let total_tau_z: f64 = sol
        .grfs_first_step
        .iter()
        .zip(feet_w.iter())
        .map(|(f, foot)| foot.x * f.y - foot.y * f.x)
        .sum();
    assert!(
        total_tau_z > 0.01,
        "yaw cmd: Σ τ_z = {:.3} N·m, expected > 0.01 N·m",
        total_tau_z
    );
}

#[test]
fn mpc_forward_cmd_yields_positive_fx() {
    let cfg = nominal_namiashi_cfg();
    let mpc = CentroidalMpc::new(cfg.clone());

    let s_now = CentroidalState {
        base_pos_world: Vector3::new(0.0, 0.0, 0.165),
        ..Default::default()
    };
    let reference = CentroidalReference::from_constant_velocity(
        s_now,
        Vector3::new(0.15, 0.0, 0.0),
        0.0,
        &cfg,
    );
    let contact = CentroidalContactSchedule::all_stance(cfg.horizon_steps);
    let feet = CentroidalFootOffsets::constant_per_leg(
        nominal_foot_world(),
        cfg.horizon_steps,
    );

    let sol = mpc.solve(s_now, &reference, &contact, &feet);
    assert!(sol.solved, "MPC failed to solve forward-walk reference");

    let total_fx: f64 = sol.grfs_first_step.iter().map(|f| f.x).sum();

    assert!(
        total_fx > 0.05,
        "forward cmd: Σf_x = {:.3} N, expected > 0.05 N",
        total_fx
    );
}

#[test]
fn mpc_swing_leg_grf_is_zero() {
    let cfg = nominal_namiashi_cfg();
    let mpc = CentroidalMpc::new(cfg.clone());

    let s = CentroidalState {
        base_pos_world: Vector3::new(0.0, 0.0, 0.165),
        ..Default::default()
    };
    let reference = CentroidalReference::constant(s, cfg.horizon_steps);

    let mut contact = CentroidalContactSchedule::all_stance(cfg.horizon_steps);
    contact.is_stance[1] = vec![false; cfg.horizon_steps];
    contact.is_stance[2] = vec![false; cfg.horizon_steps];
    let feet = CentroidalFootOffsets::constant_per_leg(
        nominal_foot_world(),
        cfg.horizon_steps,
    );

    let sol = mpc.solve(s, &reference, &contact, &feet);
    assert!(sol.solved);

    let fr_norm = sol.grfs_first_step[1].norm();
    let rl_norm = sol.grfs_first_step[2].norm();
    assert!(fr_norm < 1e-4, "FR (swing) f = {:.6} N, expected 0", fr_norm);
    assert!(rl_norm < 1e-4, "RL (swing) f = {:.6} N, expected 0", rl_norm);

    let fl_fz = sol.grfs_first_step[0].z;
    let rr_fz = sol.grfs_first_step[3].z;
    let m_g = cfg.mass_kg * 9.81;
    assert!(
        (fl_fz + rr_fz - m_g).abs() < 0.2 * m_g,
        "diagonal stance Σf_z = {:.3} N, expected ≈ m·g = {:.3} N",
        fl_fz + rr_fz, m_g,
    );
}

#[test]
fn input_pack_unpack_roundtrip() {
    let u = CentroidalInput {
        grfs_world: [
            Vector3::new(1.0, 2.0, 3.0),
            Vector3::new(4.0, 5.0, 6.0),
            Vector3::new(7.0, 8.0, 9.0),
            Vector3::new(10.0, 11.0, 12.0),
        ],
    };
    let v = u.to_vec12();
    let u2 = CentroidalInput::from_vec12(&v);
    assert_eq!(u, u2);
}

#[test]
fn base_acceleration_has_the_hand_computed_value() {
    let cfg = nominal_namiashi_cfg();
    let forces = [
        Vector3::new(0.5, 0.3, 6.0),
        Vector3::new(-0.2, -0.1, 5.5),
        Vector3::new(0.1, 0.4, 6.5),
        Vector3::new(-0.3, -0.2, 5.0),
    ];
    let body = Vector3::new(0.0, 0.0, 0.165);
    let r = Kernel.rotation(Vec3::zeros());
    let (lin, ang) = predicted_base_accel_world_centroidal(
        &Host,
        &Kernel,
        &cfg.inner(),
        v(body),
        &r,
        Vec3::zeros(),
        &forces.map(v),
        &nominal_foot_world().map(v),
    );
    let total: Vector3<f64> = forces.iter().sum();
    let want = total / 2.4 + Vector3::new(0.0, 0.0, -9.81);
    assert!((w(lin) - want).norm() < 1e-12);
    let tau: Vector3<f64> = nominal_foot_world()
        .iter()
        .zip(forces.iter())
        .map(|(p, force)| (p - body).cross(force))
        .sum();
    let i = cfg.centroidal_inertia_body;
    let want = Vector3::new(tau.x / i[(0, 0)], tau.y / i[(1, 1)], tau.z / i[(2, 2)]);
    assert!((w(ang) - want).norm() < 1e-9);
}

#[test]
fn swing_legs_leave_the_tilt_block_alone() {
    let cfg = test_config();
    let state = ref_state_for_lin_test();
    let stance = [true, false, true, false];
    let mut loaded = ref_input_for_lin_test();
    let (a, _) = continuous_dynamics_full(&state, &loaded, &cfg, &stance, 0.0);
    loaded.grfs_world[1] = Vector3::new(100.0, 50.0, -20.0);
    loaded.grfs_world[3] = Vector3::zeros();
    let (b, _) = continuous_dynamics_full(&state, &loaded, &cfg, &stance, 0.0);
    assert_eq!(a, b);
}

#[test]
fn a_refused_program_falls_back_to_the_reference() {
    let state = FullCentroidalState {
        base_pos_world: Vector3::new(0.0, 0.0, 0.30),
        ..Default::default()
    };
    let input = FullCentroidalInput {
        grfs_world: [Vector3::new(0.0, 0.0, 20.0); 4],
        ..Default::default()
    };
    let sol = failed_solution(&state.inner(), &vec![input.inner(); 2], 2);
    assert!(!sol.solved);
    assert!(f(sol.objective).is_nan());
    assert_eq!(FullCentroidalInput::outer(&sol.first_input), FullCentroidalInput::default());
    assert_eq!(sol.inputs_all_steps, vec![input.inner(); 2]);
    assert_eq!(sol.predicted_states, vec![state.inner(); 2]);
}

fn tuning() -> Tuning {
    Tuning {
        capture_gain_s: s(0.03),
        horizon_steps: 10,
        min_half_fraction: s(0.3),
        stance_grf_min: s(1.0),
    }
}

fn standing() -> [PhaseState; 4] {
    LegId::ALL.map(|leg| PhaseState {
        leg,
        cycle_position: s(0.0),
        is_stance: true,
        sub_fraction: s(0.0),
    })
}

fn full_controller() -> FullController {
    let mut kin = test_kinematics();
    for leg in [&mut kin.fl, &mut kin.fr, &mut kin.rl, &mut kin.rr] {
        leg.nominal_foot_body.z = s(-0.26);
    }
    let mut c = FullController::new(GaitConfig::trot(), kin, tuning());
    let mut cfg = c.full_centroidal_mpc_config().clone();
    cfg.horizon_steps = 4;
    c.set_full_centroidal_mpc_config(cfg);
    c
}

#[test]
fn a_tick_solves_when_a_step_is_due() {
    let mut c = full_controller();
    let held = Mpc::new(c.full_centroidal_mpc_config().clone());
    let one_iter = |x: &State, r: &Reference, k: &Schedule| {
        held.solve_one_iter(&Host, &Kernel, x, r, k)
    };
    let step = c.full_centroidal_mpc_config().dt_per_step;
    let half = s(f(step) / 2.0);
    assert!(c.predicted_grfs().is_none());
    let t = c.tick(&Host, &Kernel, &standing(), s(0.0), half, None, false, one_iter);
    assert!(t.submit.is_none() && c.predicted_grfs().is_some());
    assert!(t.output.all_reachable());
    assert_eq!(t.output.leg(LegId::RL).leg, LegId::RL);
    assert_eq!(f(c.mpc_solve_accumulator_s), 0.0);
    c.tick(&Host, &Kernel, &standing(), s(0.0), half, None, false, one_iter);
    assert_eq!(c.mpc_solve_accumulator_s, half);
    let t = c.tick(&Host, &Kernel, &standing(), s(0.0), half, None, false, one_iter);
    assert_eq!(f(c.mpc_solve_accumulator_s), 0.0);
    let sol = c.predicted_full_centroidal_solution().unwrap();
    assert!(sol.solved);
    let total: f64 = sol.first_input.grfs_world.iter().map(|g| f(g.z)).sum();
    let weight = f(c.full_centroidal_mpc_config().mass_kg) * 9.81;
    assert!((total - weight).abs() < 0.3 * weight, "{total} for {weight}");
    let compat = c.predicted_grfs().unwrap();
    assert_eq!(compat.grfs_first_step, sol.first_input.grfs_world);
    let torques = c.stance_grf_torques(&Host, &Kernel, &t.output);
    assert!(torques.iter().all(|q| q.is_some()));
}

#[test]
fn a_background_solve_is_asked_for_once() {
    let mut c = full_controller();
    c.set_async_mpc(true);
    let held = Mpc::new(c.full_centroidal_mpc_config().clone());
    let one_iter = |x: &State, r: &Reference, k: &Schedule| {
        held.solve_one_iter(&Host, &Kernel, x, r, k)
    };
    let step = c.full_centroidal_mpc_config().dt_per_step;
    let t = c.tick(&Host, &Kernel, &standing(), s(0.0), step, None, true, one_iter);
    assert!(t.submit.is_none());
    let t = c.tick(&Host, &Kernel, &standing(), s(0.0), step, None, false, one_iter);
    let p = t.submit.unwrap();
    assert!(c.predicted_grfs().is_none());
    let mut mpc = Mpc::new(c.full_centroidal_mpc_config().clone());
    let sol = mpc.solve_with(&Host, &Kernel, p.state_now, &p.reference, &p.contact);
    assert!(sol.solved);
    let first = sol.first_input;
    c.tick(&Host, &Kernel, &standing(), s(0.0), s(0.0), Some(sol), false, one_iter);
    assert_eq!(c.predicted_full_centroidal_solution().unwrap().first_input, first);
}

#[test]
fn task_space_weights_come_from_the_nominal_pose() {
    let mut c = full_controller();
    assert_eq!(c.task_space_joint_vel_weight(), None);
    c.set_task_space_joint_vel_weight(&Host, &Kernel, Some([s(1.0), s(2.0), s(3.0)]));
    assert_eq!(c.task_space_joint_vel_weight(), Some([s(1.0), s(2.0), s(3.0)]));
    let j = m3(&c.joint_vel_task.unwrap().jacobians[0]);
    assert!(j.determinant().abs() > 1e-6);
    c.set_task_space_joint_vel_weight(&Host, &Kernel, None);
    assert_eq!(c.task_space_joint_vel_weight(), None);
}

#[test]
fn settings_of_the_full_controller_are_kept_in_range() {
    let mut c = full_controller();
    c.set_cycle_period_s(s(0.01));
    assert_eq!(f(c.config().cycle_period_s), 0.05);
    c.set_max_step_length_m(s(-1.0));
    assert_eq!(f(c.config().max_step_length_m), 0.0);
    c.set_bound_trim_thrust_scale(s(1.5));
    assert_eq!(f(c.bound_trim_thrust_scale()), 1.0);
    c.set_bound_trim_velocity_ripple_fraction(Some(s(0.2)));
    assert_eq!(c.bound_trim_velocity_ripple_fraction(), Some(s(0.2)));
    c.set_bound_fore_aft_placement_gain(s(-0.1));
    assert_eq!(f(c.bound_fore_aft_placement_gain()), 0.0);
    c.set_bound_pitch_placement_gain(s(-0.1), s(0.2));
    assert_eq!(f(c.bound_pitch_placement_gain), -0.1);
    c.set_bound_pitch_placement_dc_tau(s(-1.0));
    assert_eq!(f(c.bound_pitch_placement_dc_tau), 0.0);
    c.set_bound_tabulated_reference(Some(vec![]));
    assert!(c.bound_tabulated_reference.is_none());
    c.set_bound_tabulated_reference(Some(vec![[s(0.0); 6], [s(0.5); 6]]));
    assert_eq!(c.bound_tabulated_reference.as_ref().unwrap().len(), 2);
    c.set_capture_point_gain(s(-1.0));
    assert_eq!(f(c.capture_point_gain()), 0.0);
    c.set_capture_point_pulse(s(-1.0), s(-1.0));
    assert_eq!(c.capture_point_pulse(), (s(0.0), s(0.0)));
    c.set_body_attitude_observed(s(0.1), s(0.2));
    assert_eq!((f(c.roll_observed), f(c.pitch_observed)), (0.1, 0.2));
    c.set_dynamic_joint_q_reference(true);
    assert!(c.dynamic_joint_q_reference());
    c.set_true_centroidal_coupling(true);
    assert!(c.true_centroidal_coupling());
    c.set_bound_trim_reference(true);
    assert!(c.bound_trim_reference());
}

#[test]
fn the_body_controller_solves_when_a_step_is_due() {
    let mut kin = test_kinematics();
    for leg in [&mut kin.fl, &mut kin.fr, &mut kin.rl, &mut kin.rr] {
        leg.nominal_foot_body.z = s(-0.26);
    }
    let mut c = BodyController::new(GaitConfig::trot(), kin, tuning());
    let held = BodyMpc::new(*c.centroidal_mpc_config());
    let one_iter = |p: &CentroidalProblem, psi: &Vec<Scalar>| {
        held.solve_one_iter(&Host, &Kernel, p, psi)
    };
    let step = c.centroidal_mpc_config().dt_per_step;
    let t = c.tick(&Host, &Kernel, &standing(), step, None, false, one_iter);
    assert!(t.submit.is_none() && t.output.all_reachable());
    let sol = c.predicted_centroidal_solution().unwrap();
    assert!(sol.solved);
    let total: f64 = sol.grfs_first_step.iter().map(|g| f(g.z)).sum();
    let weight = f(c.centroidal_mpc_config().mass_kg) * 9.81;
    assert!((total - weight).abs() < 0.3 * weight, "{total} for {weight}");
    c.reset();
    assert!(c.predicted_centroidal_solution().is_none());
}

#[test]
fn a_body_foothold_moves_with_the_base() {
    let mut state = FullCentroidalState {
        base_pos_world: Vector3::new(1.0, 2.0, 0.30),
        ..Default::default()
    };
    state.base_euler_zyx.z = std::f64::consts::FRAC_PI_2;
    let body = FootTarget::BodyOffset { x: s(0.2), y: s(0.1) };
    let p = w(foothold_of(&Host, body, &state.inner()));
    assert!((p - Vector3::new(0.9, 2.2, 0.0)).norm() < 1e-12, "{p}");
    let world = FootTarget::World { x: s(0.2), y: s(0.1) };
    assert_eq!(w(foothold_of(&Host, world, &state.inner())), Vector3::new(0.2, 0.1, 0.0));
}

#[test]
fn a_body_foothold_draws_the_foot_as_the_same_world_point_does() {
    let n = 3_usize;
    let mut cfg = test_config();
    cfg.horizon_steps = n;
    cfg.sqp_iterations = 1;
    cfg.q_foot_xy_world = 1000.0;
    let state = FullCentroidalState {
        base_pos_world: Vector3::new(1.0, 2.0, 0.30),
        ..Default::default()
    };
    let reference = FullCentroidalReference {
        states: vec![state; n],
        inputs: vec![FullCentroidalInput::default(); n],
    };
    let solve = |t: FootTarget| {
        let mut contact = FullCentroidalContactSchedule::all_stance(n).inner();
        contact.is_stance[1][0] = false;
        contact.foot_xy_target[1][n - 1] = Some(t);
        let mpc = Mpc::new(cfg.inner());
        mpc.solve_one_iter(&Host, &Kernel, &state.inner(), &reference.inner(), &contact)
    };
    let a = solve(FootTarget::BodyOffset { x: s(0.3), y: s(-0.25) });
    let b = solve(FootTarget::World { x: s(1.3), y: s(1.75) });
    assert!(a.solved && b.solved);
    let far = solve(FootTarget::World { x: s(1.2), y: s(1.75) });
    let pull = |x: &Input| f(x.joint_v[4]);
    assert!((pull(&a.first_input) - pull(&b.first_input)).abs() < 1e-6);
    assert!((pull(&a.first_input) - pull(&far.first_input)).abs() > 1e-3);
}

#[test]
fn a_predicted_foothold_needs_a_solved_prediction_that_reaches_it() {
    let mut c = full_controller();
    let zero = s(0.0);
    let dt = f(c.full_centroidal_mpc_config().dt_per_step);
    let target = |c: &FullController, steps: f64| {
        c.mpc_predicted_swing_target_body(&Host, LegId::FR, zero, s(steps * dt))
    };
    c.cfg.mpc_optimized_footstep = true;
    assert_eq!(target(&c, 1.0), None);
    let mut sol = failed_solution(&State::default(), &vec![Input::default(); 4], 4);
    sol.predicted_states[3].joint_q[4] = s(0.1);
    c.last_solution = Some(sol);
    assert_eq!(target(&c, 1.0), None);
    c.last_solution.as_mut().unwrap().solved = true;
    let near = target(&c, 1.0).unwrap();
    assert!((w(near) - Vector3::new(0.25, -0.25, -0.30)).norm() < 1e-12);
    let bent = foot_of(&Host, c.kin.leg(LegId::FR), zero, s(0.1), zero);
    assert_eq!(target(&c, 3.0), Some(bent));
    assert_eq!(target(&c, 4.0), None);
    c.cfg.mpc_optimized_footstep = false;
    assert_eq!(target(&c, 1.0), None);
}

#[test]
fn predicted_footholds_fall_back_to_the_capture_point() {
    let mut c = full_controller();
    c.set_velocity_cmd(VelocityCmd { vx: s(0.3), vy: s(0.0), wz: s(0.0) });
    let kin = c.kin.leg(LegId::FL).clone();
    let v_err = Vec3::new(s(0.2), s(-0.1), s(0.0));
    let plain = c.compute_mpc_footstep(&Host, &Kernel, &kin, v_err);
    c.set_use_mpc_predicted_footstep(true);
    assert_eq!(c.compute_mpc_footstep(&Host, &Kernel, &kin, v_err), plain);
    c.last_solution = Some(failed_solution(&State::default(), &vec![Input::default(); 4], 4));
    assert_ne!(c.compute_mpc_footstep(&Host, &Kernel, &kin, v_err), plain);
}

#[test]
fn a_goal_gives_the_command_of_a_whole_step() {
    let mut c = full_controller();
    let held = Mpc::new(c.full_centroidal_mpc_config().clone());
    let one_iter = |x: &State, r: &Reference, k: &Schedule| {
        held.solve_one_iter(&Host, &Kernel, x, r, k)
    };
    let goal = GoalPoseWorld {
        x_m: s(1.0),
        y_m: s(0.5),
        yaw_rad: s(0.2),
        max_v_m_s: s(0.3),
        max_wz_rad_s: s(0.4),
        position_tolerance_m: s(0.01),
        yaw_tolerance_rad: s(0.01),
    };
    let at = c.body_state;
    let want = velocity_cmd_for_goal(&Host, goal, at.world_position, at.world_yaw);
    c.set_goal_pose_world(goal);
    let mut asked = None;
    let clock = |cmd: VelocityCmd, dt: Scalar| {
        asked = Some((cmd, dt));
        (standing(), s(0.0))
    };
    let t = c.drive(&Host, &Kernel, clock, s(0.01), None, false, one_iter);
    assert_eq!(asked, Some((want, s(0.01))));
    assert_eq!(c.velocity_cmd(), want);
    assert_eq!(c.goal_pose_world(), Some(goal));
    let mut moved = at;
    moved.integrate(&Host, &want, s(0.01));
    assert_eq!(t.output.body_state, moved);
    assert_eq!(
        c.predicted_full_centroidal_solution().is_some(),
        c.predicted_grfs().is_some()
    );
    c.clear_goal_pose();
    c.set_velocity_cmd(VelocityCmd::zero());
    c.drive(&Host, &Kernel, |_, _| (standing(), s(0.0)), s(0.01), None, false, one_iter);
    assert_eq!(c.velocity_cmd(), VelocityCmd::zero());
    c.reset();
    assert!(c.predicted_full_centroidal_solution().is_none() && c.predicted_grfs().is_none());
}

#[test]
fn an_explicit_step_adds_the_rate_to_the_identity() {
    let a = vec![vec![s(2.0), s(-1.0)], vec![s(0.5), s(4.0)]];
    let b = vec![vec![s(3.0)], vec![s(-8.0)]];
    let (ad, bd) = euler_step(&Host, &a, &b, s(0.25));
    let back = |m: Vec<Vec<Scalar>>| -> Vec<Vec<f64>> {
        m.into_iter().map(|r| r.into_iter().map(f).collect()).collect()
    };
    assert_eq!(back(ad), vec![vec![1.5, -0.25], vec![0.125, 2.0]]);
    assert_eq!(back(bd), vec![vec![0.75], vec![-2.0]]);
}

#[test]
fn the_rate_is_taken_at_the_yaw_that_is_asked_for() {
    let cfg = test_config();
    let mut state = ref_state_for_lin_test();
    state.base_euler_zyx.z = 0.0;
    let input = ref_input_for_lin_test();
    let (a, _) = continuous_dynamics_full(&state, &input, &cfg, &[true; N_FEET], 0.5);
    let (sin, cos) = 0.5_f64.sin_cos();
    near_abs(a[(9, 3)], cos, 1e-12);
    near_abs(a[(9, 4)], sin, 1e-12);
    near_abs(a[(10, 3)], -sin, 1e-12);
}

#[test]
fn the_body_controller_hands_out_its_problem_in_the_background() {
    let mut kin = test_kinematics();
    for leg in [&mut kin.fl, &mut kin.fr, &mut kin.rl, &mut kin.rr] {
        leg.nominal_foot_body.z = s(-0.26);
    }
    let mut c = BodyController::new(GaitConfig::trot(), kin, tuning());
    c.set_async_mpc(true);
    let held = BodyMpc::new(*c.centroidal_mpc_config());
    let one_iter = |p: &CentroidalProblem, psi: &Vec<Scalar>| {
        held.solve_one_iter(&Host, &Kernel, p, psi)
    };
    let step = c.centroidal_mpc_config().dt_per_step;
    let t = c.tick(&Host, &Kernel, &standing(), step, None, true, one_iter);
    assert!(t.submit.is_none());
    let t = c.tick(&Host, &Kernel, &standing(), step, None, false, one_iter);
    let p = t.submit.unwrap();
    assert!(c.predicted_grfs().is_none());
    let sol = held.solve_with(&Host, &Kernel, &p);
    assert!(sol.solved);
    let first = sol.grfs_first_step;
    c.tick(&Host, &Kernel, &standing(), s(0.0), Some(sol), false, one_iter);
    assert_eq!(c.predicted_centroidal_solution().unwrap().grfs_first_step, first);
    assert_eq!(c.predicted_grfs().unwrap().grfs_first_step, first);
}

#[test]
fn costs_and_predictions_have_their_values() {
    let one = |x: f64| DMatrix::from_element(1, 1, x);
    let a_x = vec![one(2.0), one(4.0)];
    let b_u = vec![vec![one(1.0)], vec![one(2.0), one(1.0)]];
    let list = |x: &[f64]| x.iter().map(|v| s(*v)).collect::<Vec<Scalar>>();
    let back = |x: Vec<Scalar>| x.into_iter().map(f).collect::<Vec<f64>>();
    let (x_ref, u_ref) = (list(&[5.0, 6.0]), list(&[1.0, -2.0]));
    let (q, r) = (list(&[1.0, 10.0]), list(&[0.5, 0.25]));
    let (p, l) = tracking_cost(&Kernel, &a_x, &b_u, list(&[3.0]), &x_ref, &q, &r);
    let p: Vec<Vec<f64>> = p.into_iter().map(back).collect();
    assert_eq!(p, vec![vec![83.0, 40.0], vec![40.0, 20.5]]);
    assert_eq!(back(l), vec![242.0, 120.0]);
    let (_, l) = reference_cost(&Kernel, &a_x, &b_u, list(&[3.0]), &x_ref, &u_ref, &q, &r);
    assert_eq!(back(l), vec![241.0, 121.0]);
    let x = prediction(&Kernel, &a_x, &b_u, list(&[3.0]), list(&[1.0, -2.0]));
    assert_eq!(back(x), vec![7.0, 12.0]);
}

struct Stand(GaitController);

impl SrbdDriver<u8> for Stand {
    fn tick(
        &mut self,
        _: &mut MpcGaitController<u8>,
        phases: &[PhaseState; 4],
        dt: Scalar,
    ) -> ControllerOutput {
        self.0.tick(&Host, &Kernel, phases, dt)
    }
}

#[test]
fn every_mode_steps_and_stays_what_it_is() {
    let mut kin = test_kinematics();
    for leg in [&mut kin.fl, &mut kin.fr, &mut kin.rl, &mut kin.rr] {
        leg.nominal_foot_body.z = s(-0.26);
    }
    let cfg = GaitConfig::trot();
    for mode in GaitMode::ALL {
        let setup = Setup { tuning: tuning(), srbd: 0_u8 };
        let mut c = AnyGaitController::new(mode, cfg, kin.clone(), setup);
        let mut full_cfg = Config::default_with_kin(kin.clone());
        full_cfg.horizon_steps = 3;
        c.set_full_centroidal_mpc_config(full_cfg.clone());
        c.set_async_mpc(true);
        let body = BodyMpc::new(BodyConfig::default());
        let full = Mpc::new(full_cfg);
        let mut driver = Stand(GaitController::new(cfg, kin.clone()));
        let mut asked = 0;
        let t = c.tick(
            &Host,
            &Kernel,
            &mut driver,
            |_, _| {
                asked += 1;
                (standing(), s(0.0))
            },
            s(0.01),
            Finished { body: None, full: None },
            false,
            |p: &CentroidalProblem, psi: &Vec<Scalar>| {
                body.solve_one_iter(&Host, &Kernel, p, psi)
            },
            |x: &State, r: &Reference, k: &Schedule| {
                full.solve_one_iter(&Host, &Kernel, x, r, k)
            },
        );
        assert_eq!(c.mode(), mode);
        assert_eq!(asked, if mode == GaitMode::LinearCrawl { 0 } else { 1 });
        assert_eq!(t.body.is_some(), mode == GaitMode::CentroidalSrbd);
        assert_eq!(t.full.is_some(), mode == GaitMode::FullCentroidal);
        assert_eq!(t.output.leg(LegId::RR).leg, LegId::RR);
        assert!(c.predicted_grfs().is_none());
    }
}
