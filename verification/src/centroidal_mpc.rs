//! Centroidal predictive control of the body alone.
//!
//! State (12): centre-of-mass velocity, body angular velocity, base position,
//! base Euler angles. Input (12): the ground reaction force of each foot.

use vstd::prelude::*;
use crate::arith::{counted, deterministic, product, sum, Arithmetic};
use crate::csc::{dense_to_csc, rows_of};
use crate::full_centroidal_mpc::{vec3_seq, GRAVITY_Z_BITS};
use crate::full_centroidal_qp::{unit_row, QpConstraints, QpStatus};
use crate::rows::{
    coefs, collect, collected_row_has_a_visit, collected_rows_are_found, count, make_zero_row,
    push_row, right_sides, rows_view, zero_row, Row,
};
use crate::scalar::{minus_one, nan, one, zero, Mat3, Scalar, Vec3};

verus! {

/// State of the centroidal model.
#[derive(Clone, Copy, Debug, PartialEq, Eq, Structural)]
pub struct CentroidalState {
    /// Centre-of-mass velocity, world frame (m/s).
    pub h_lin_per_mass: Vec3,
    /// Body angular velocity, world frame (rad/s).
    pub angular_velocity_world: Vec3,
    /// Body origin, world frame (m).
    pub base_pos_world: Vec3,
    /// Orientation as roll, pitch, yaw (rad).
    pub base_euler_zyx: Vec3,
}

impl View for CentroidalState {
    type V = Seq<Scalar>;

    /// The state as a flat vector.
    open spec fn view(&self) -> Seq<Scalar> {
        vec3_seq(self.h_lin_per_mass) + vec3_seq(self.angular_velocity_world) + vec3_seq(
            self.base_pos_world,
        ) + vec3_seq(self.base_euler_zyx)
    }
}

impl Default for CentroidalState {
    fn default() -> (r: CentroidalState)
        ensures
            r@ == zero_row(12),
    {
        let r = CentroidalState {
            h_lin_per_mass: Vec3::zeros(),
            angular_velocity_world: Vec3::zeros(),
            base_pos_world: Vec3::zeros(),
            base_euler_zyx: Vec3::zeros(),
        };
        assert(r@ =~= zero_row(12));
        r
    }
}

impl CentroidalState {
    /// Packs the state into a flat vector.
    pub fn to_vec12(&self) -> (r: [Scalar; 12])
        ensures
            r@ == self@,
    {
        let v = self.h_lin_per_mass;
        let w = self.angular_velocity_world;
        let p = self.base_pos_world;
        let e = self.base_euler_zyx;
        let r = [v.x, v.y, v.z, w.x, w.y, w.z, p.x, p.y, p.z, e.x, e.y, e.z];
        assert(r@ =~= self@);
        r
    }

    /// Unpacks a flat vector.
    pub fn from_vec12(v: &[Scalar; 12]) -> (r: CentroidalState)
        ensures
            r@ == v@,
    {
        let r = CentroidalState {
            h_lin_per_mass: Vec3::new(v[0], v[1], v[2]),
            angular_velocity_world: Vec3::new(v[3], v[4], v[5]),
            base_pos_world: Vec3::new(v[6], v[7], v[8]),
            base_euler_zyx: Vec3::new(v[9], v[10], v[11]),
        };
        assert(r@ =~= v@);
        r
    }
}

/// Packing loses nothing: states with the same flat vector are equal.
pub proof fn centroidal_state_is_its_vector(a: CentroidalState, b: CentroidalState)
    requires
        a@ == b@,
    ensures
        a == b,
{
    assert(forall|i: int| 0 <= i < 12 ==> a@[i] == b@[i]);
    assert(a@[0] == a.h_lin_per_mass.x && b@[0] == b.h_lin_per_mass.x);
    assert(a@[1] == a.h_lin_per_mass.y && b@[1] == b.h_lin_per_mass.y);
    assert(a@[2] == a.h_lin_per_mass.z && b@[2] == b.h_lin_per_mass.z);
    assert(a@[3] == a.angular_velocity_world.x && b@[3] == b.angular_velocity_world.x);
    assert(a@[4] == a.angular_velocity_world.y && b@[4] == b.angular_velocity_world.y);
    assert(a@[5] == a.angular_velocity_world.z && b@[5] == b.angular_velocity_world.z);
    assert(a@[6] == a.base_pos_world.x && b@[6] == b.base_pos_world.x);
    assert(a@[7] == a.base_pos_world.y && b@[7] == b.base_pos_world.y);
    assert(a@[8] == a.base_pos_world.z && b@[8] == b.base_pos_world.z);
    assert(a@[9] == a.base_euler_zyx.x && b@[9] == b.base_euler_zyx.x);
    assert(a@[10] == a.base_euler_zyx.y && b@[10] == b.base_euler_zyx.y);
    assert(a@[11] == a.base_euler_zyx.z && b@[11] == b.base_euler_zyx.z);
}

/// Ground reaction force of each foot, world frame (N).
#[derive(Clone, Copy, Debug, PartialEq, Eq)]
pub struct CentroidalInput {
    /// Forces in slot order.
    pub grfs_world: [Vec3; 4],
}

impl View for CentroidalInput {
    type V = Seq<Scalar>;

    /// The input as a flat vector.
    open spec fn view(&self) -> Seq<Scalar> {
        vec3_seq(self.grfs_world@[0]) + vec3_seq(self.grfs_world@[1]) + vec3_seq(
            self.grfs_world@[2],
        ) + vec3_seq(self.grfs_world@[3])
    }
}

impl Default for CentroidalInput {
    fn default() -> (r: CentroidalInput)
        ensures
            r@ == zero_row(12),
    {
        let o = Vec3::zeros();
        let r = CentroidalInput { grfs_world: [o, o, o, o] };
        assert(r@ =~= zero_row(12));
        r
    }
}

impl CentroidalInput {
    /// Packs the input into a flat vector.
    pub fn to_vec12(&self) -> (r: [Scalar; 12])
        ensures
            r@ == self@,
    {
        let f = &self.grfs_world;
        let r = [
            f[0].x, f[0].y, f[0].z, f[1].x, f[1].y, f[1].z,
            f[2].x, f[2].y, f[2].z, f[3].x, f[3].y, f[3].z,
        ];
        assert(r@ =~= self@);
        r
    }

    /// Unpacks a flat vector.
    pub fn from_vec12(v: &[Scalar; 12]) -> (r: CentroidalInput)
        ensures
            r@ == v@,
    {
        let r = CentroidalInput {
            grfs_world: [
                Vec3::new(v[0], v[1], v[2]),
                Vec3::new(v[3], v[4], v[5]),
                Vec3::new(v[6], v[7], v[8]),
                Vec3::new(v[9], v[10], v[11]),
            ],
        };
        assert(r@ =~= v@);
        r
    }
}

/// Packing loses nothing: inputs with the same flat vector have the same forces.
pub proof fn centroidal_input_is_its_vector(a: CentroidalInput, b: CentroidalInput)
    requires
        a@ == b@,
    ensures
        a.grfs_world@ == b.grfs_world@,
{
    assert(forall|i: int| 0 <= i < 12 ==> a@[i] == b@[i]);
    assert forall|f: int| 0 <= f < 4 implies a.grfs_world@[f] == b.grfs_world@[f] by {
        assert(a@[3 * f] == a.grfs_world@[f].x && b@[3 * f] == b.grfs_world@[f].x);
        assert(a@[3 * f + 1] == a.grfs_world@[f].y && b@[3 * f + 1] == b.grfs_world@[f].y);
        assert(a@[3 * f + 2] == a.grfs_world@[f].z && b@[3 * f + 2] == b.grfs_world@[f].z);
    }
    assert(a.grfs_world@ =~= b.grfs_world@);
}

/// Parameters of the centroidal predictive controller.
#[derive(Clone, Copy, Debug)]
pub struct CentroidalMpcConfig {
    /// Total robot mass (kg).
    pub mass_kg: Scalar,
    /// Centroidal inertia in the body frame (kg m2).
    pub centroidal_inertia_body: Mat3,
    /// Centre of mass relative to the body origin, body frame (m).
    pub com_offset_body: Vec3,
    /// Friction coefficient of the pyramid.
    pub friction_mu: Scalar,
    /// Largest normal force per foot (N); not positive for no limit.
    pub max_normal_force: Scalar,
    /// Prediction horizon in steps.
    pub horizon_steps: usize,
    /// Duration of a step (s).
    pub dt_per_step: Scalar,
    /// State weights, in the layout of the state vector.
    pub q_diag: [Scalar; 12],
    /// Weight of every force component.
    pub r_diag: Scalar,
    /// Number of re-linearisations per solve; zero counts as one.
    pub sqp_iterations: usize,
}

impl CentroidalMpcConfig {
    /// The defaults.
    pub open spec fn is_default(self) -> bool {
        &&& self.mass_kg.bits == 0x4022_0000_0000_0000u64
        &&& self.centroidal_inertia_body == Mat3::diagonal(
                Vec3::new(
                    Scalar { bits: 0x3FB1_EB85_1EB8_51EC },
                    Scalar { bits: 0x3FD0_A3D7_0A3D_70A4 },
                    Scalar { bits: 0x3FCE_F9DB_22D0_E560 },
                ),
            )
        &&& self.com_offset_body == Vec3::zeros()
        &&& self.friction_mu.bits == 0x3FE0_0000_0000_0000u64
        &&& self.max_normal_force.bits == 0x4069_0000_0000_0000u64
        &&& self.horizon_steps == 10
        &&& self.dt_per_step.bits == 0x3F9E_B851_EB85_1EB8u64
        &&& forall|i: int|
                0 <= i < 12 ==> (#[trigger] self.q_diag@[i]).bits
                    == crate::full_centroidal_mpc::default_q_bits(i)
        &&& self.r_diag.bits == 0x3F50_624D_D2F1_A9FCu64
        &&& self.sqp_iterations == 1
    }
}

impl Default for CentroidalMpcConfig {
    /// A 9 kg quadruped, a horizon of ten steps of 30 ms, one linearisation.
    fn default() -> (r: CentroidalMpcConfig)
        ensures
            r.is_default(),
    {
        let c = one();
        let half = Scalar { bits: 0x3FE0_0000_0000_0000 };
        let fifty = Scalar { bits: 0x4049_0000_0000_0000 };
        let tf = Scalar { bits: 0x4039_0000_0000_0000 };
        CentroidalMpcConfig {
            mass_kg: Scalar { bits: 0x4022_0000_0000_0000 },
            centroidal_inertia_body: Mat3::diagonal(
                Vec3::new(
                    Scalar { bits: 0x3FB1_EB85_1EB8_51EC },
                    Scalar { bits: 0x3FD0_A3D7_0A3D_70A4 },
                    Scalar { bits: 0x3FCE_F9DB_22D0_E560 },
                ),
            ),
            com_offset_body: Vec3::zeros(),
            friction_mu: half,
            max_normal_force: Scalar { bits: 0x4069_0000_0000_0000 },
            horizon_steps: 10,
            dt_per_step: Scalar { bits: 0x3F9E_B851_EB85_1EB8 },
            q_diag: [
                c, c, c, half, half, Scalar { bits: 0x4024_0000_0000_0000 },
                zero(), Scalar { bits: 0x4014_0000_0000_0000 }, fifty, tf, tf, fifty,
            ],
            r_diag: Scalar { bits: 0x3F50_624D_D2F1_A9FC },
            sqp_iterations: 1,
        }
    }
}

/// Trajectory the controller tracks: one state per horizon step.
#[derive(Debug)]
pub struct CentroidalReference {
    /// State at each step.
    pub states: Vec<CentroidalState>,
}

/// `x + rate * t`.
pub open spec fn moved_on<A: Arithmetic>(ar: &A, x: Scalar, rate: Scalar, t: Scalar) -> Scalar {
    sum(ar, x, product(ar, rate, t))
}

/// `x + rate * t`.
pub fn move_on<A: Arithmetic>(ar: &A, x: Scalar, rate: Scalar, t: Scalar) -> (r: Scalar)
    ensures
        deterministic(ar) ==> r == moved_on(ar, x, rate, t),
{
    ar.plus(x, ar.times(rate, t))
}

/// Time at the end of step `k`: `(k + 1) * dt`.
pub open spec fn end_of_step<A: Arithmetic>(ar: &A, k: int, dt: Scalar) -> Scalar {
    product(ar, counted(ar, (k + 1) as usize), dt)
}

/// `(k + 1) * dt`.
pub fn step_end<A: Arithmetic>(ar: &A, k: usize, dt: Scalar) -> (t: Scalar)
    requires
        k < usize::MAX,
    ensures
        deterministic(ar) ==> t == end_of_step(ar, k as int, dt),
{
    ar.times(ar.from_count(k + 1), dt)
}

/// `now` moved on for a time `t` at a constant velocity.
pub open spec fn advanced<A: Arithmetic>(
    ar: &A,
    now: CentroidalState,
    v_world: Vec3,
    wz: Scalar,
    t: Scalar,
) -> CentroidalState {
    let p = now.base_pos_world;
    let e = now.base_euler_zyx;
    CentroidalState {
        h_lin_per_mass: v_world,
        angular_velocity_world: Vec3::new(zero(), zero(), wz),
        base_pos_world: Vec3::new(
            moved_on(ar, p.x, v_world.x, t),
            moved_on(ar, p.y, v_world.y, t),
            moved_on(ar, p.z, v_world.z, t),
        ),
        base_euler_zyx: Vec3::new(e.x, e.y, moved_on(ar, e.z, wz, t)),
    }
}

impl CentroidalReference {
    /// The same state at every step.
    pub fn constant(s: CentroidalState, horizon_steps: usize) -> (r: CentroidalReference)
        ensures
            r.states@ == Seq::new(horizon_steps as nat, |k: int| s),
    {
        let mut states: Vec<CentroidalState> = Vec::new();
        let mut k: usize = 0;
        while k < horizon_steps
            invariant
                k <= horizon_steps,
                states@ == Seq::new(k as nat, |k: int| s),
            decreases horizon_steps - k,
        {
            states.push(s);
            k += 1;
            assert(states@ =~= Seq::new(k as nat, |k: int| s));
        }
        CentroidalReference { states }
    }

    /// Position and yaw carried forward from now at a constant world velocity.
    pub fn from_constant_velocity<A: Arithmetic>(
        ar: &A,
        s_now: CentroidalState,
        v_world: Vec3,
        wz: Scalar,
        cfg: &CentroidalMpcConfig,
    ) -> (r: CentroidalReference)
        ensures
            r.states@.len() == cfg.horizon_steps,
            deterministic(ar) ==> forall|k: int|
                0 <= k < cfg.horizon_steps ==> #[trigger] r.states@[k] == advanced(
                    ar,
                    s_now,
                    v_world,
                    wz,
                    end_of_step(ar, k, cfg.dt_per_step),
                ),
    {
        let mut states: Vec<CentroidalState> = Vec::new();
        let mut k: usize = 0;
        while k < cfg.horizon_steps
            invariant
                k <= cfg.horizon_steps,
                states@.len() == k,
                deterministic(ar) ==> forall|i: int|
                    0 <= i < k ==> #[trigger] states@[i] == advanced(
                        ar,
                        s_now,
                        v_world,
                        wz,
                        end_of_step(ar, i, cfg.dt_per_step),
                    ),
            decreases cfg.horizon_steps - k,
        {
            let t = step_end(ar, k, cfg.dt_per_step);
            let p = s_now.base_pos_world;
            let e = s_now.base_euler_zyx;
            let s = CentroidalState {
                h_lin_per_mass: v_world,
                angular_velocity_world: Vec3::new(zero(), zero(), wz),
                base_pos_world: Vec3::new(
                    move_on(ar, p.x, v_world.x, t),
                    move_on(ar, p.y, v_world.y, t),
                    move_on(ar, p.z, v_world.z, t),
                ),
                base_euler_zyx: Vec3::new(e.x, e.y, move_on(ar, e.z, wz, t)),
            };
            states.push(s);
            k += 1;
        }
        CentroidalReference { states }
    }
}

/// Vector from the centre of mass to each foot at each step, world frame.
#[derive(Debug)]
pub struct CentroidalFootOffsets {
    /// One vector per leg and step.
    pub r: [Vec<Vec3>; 4],
}

impl CentroidalFootOffsets {
    /// Every leg covers a horizon of `n` steps.
    pub open spec fn spans(self, n: int) -> bool {
        forall|leg: int| 0 <= leg < 4 ==> (#[trigger] self.r@[leg])@.len() == n
    }

    /// The same offset of each leg at every step.
    pub fn constant_per_leg(per_leg: [Vec3; 4], horizon_steps: usize) -> (r: CentroidalFootOffsets)
        ensures
            r.spans(horizon_steps as int),
            forall|leg: int, k: int|
                0 <= leg < 4 && 0 <= k < horizon_steps ==> #[trigger] r.r@[leg]@[k]
                    == per_leg@[leg],
    {
        CentroidalFootOffsets {
            r: [
                vec![per_leg[0]; horizon_steps],
                vec![per_leg[1]; horizon_steps],
                vec![per_leg[2]; horizon_steps],
                vec![per_leg[3]; horizon_steps],
            ],
        }
    }
}

/// Whether each foot is in stance at each step. A swing foot carries no force.
#[derive(Debug)]
pub struct CentroidalContactSchedule {
    /// One flag per leg and step.
    pub is_stance: [Vec<bool>; 4],
}

impl CentroidalContactSchedule {
    /// Every leg covers a horizon of `n` steps.
    pub open spec fn spans(self, n: int) -> bool {
        forall|leg: int| 0 <= leg < 4 ==> (#[trigger] self.is_stance@[leg])@.len() == n
    }

    /// Whether a leg is in stance at a step.
    pub open spec fn stance(self, leg: int, k: int) -> bool {
        self.is_stance@[leg]@[k]
    }

    /// All legs in stance at every step.
    pub fn all_stance(horizon_steps: usize) -> (r: CentroidalContactSchedule)
        ensures
            r.spans(horizon_steps as int),
            forall|leg: int, k: int|
                0 <= leg < 4 && 0 <= k < horizon_steps ==> #[trigger] r.stance(leg, k),
    {
        CentroidalContactSchedule {
            is_stance: [
                vec![true; horizon_steps],
                vec![true; horizon_steps],
                vec![true; horizon_steps],
                vec![true; horizon_steps],
            ],
        }
    }
}

/// Result of a solve.
#[derive(Debug)]
pub struct CentroidalMpcSolution {
    /// Forces of the first step, which the caller commits.
    pub grfs_first_step: [Vec3; 4],
    /// Forces over the horizon.
    pub grfs_all_steps: Vec<[Vec3; 4]>,
    /// Predicted states over the horizon.
    pub predicted_body_states: Vec<CentroidalState>,
    /// Objective value.
    pub objective: Scalar,
    /// Whether the solver reported a solution.
    pub solved: bool,
}

impl CentroidalMpcSolution {
    /// One set of forces and one state per step of a horizon of `n` steps.
    pub open spec fn spans(self, n: int) -> bool {
        self.grfs_all_steps@.len() == n && self.predicted_body_states@.len() == n
    }
}

/// The yaw of each state.
pub open spec fn yaws(states: Seq<CentroidalState>) -> Seq<Scalar> {
    Seq::new(states.len(), |k: int| states[k].base_euler_zyx.z)
}

fn collect_yaws(states: &Vec<CentroidalState>) -> (r: Vec<Scalar>)
    ensures
        r@ == yaws(states@),
{
    let mut r: Vec<Scalar> = Vec::new();
    let mut k: usize = 0;
    while k < states.len()
        invariant
            k <= states@.len(),
            r@.len() == k,
            forall|i: int| 0 <= i < k ==> r@[i] == states@[i].base_euler_zyx.z,
        decreases states@.len() - k,
    {
        r.push(states[k].base_euler_zyx.z);
        k += 1;
    }
    assert(r@ =~= yaws(states@));
    r
}

/// What a solve works on.
#[derive(Debug)]
pub struct CentroidalProblem {
    /// Present state.
    pub state_now: CentroidalState,
    /// Trajectory to track.
    pub reference: CentroidalReference,
    /// Stance plan.
    pub contact: CentroidalContactSchedule,
    /// Vector from the centre of mass to each foot.
    pub feet: CentroidalFootOffsets,
}

impl CentroidalProblem {
    /// Every part covers a horizon of `n` steps.
    pub open spec fn spans(self, n: int) -> bool {
        self.reference.states@.len() == n && self.contact.spans(n) && self.feet.spans(n)
    }
}

/// A run of iterations: `sols[i]` is what `one_iter` gave for the yaws
/// `psis[i]`, and the next yaws are the predicted ones, or the same when the
/// iteration did not solve.
pub open spec fn is_yaw_run<F: Fn(&CentroidalProblem, &Vec<Scalar>) -> CentroidalMpcSolution>(
    one_iter: F,
    problem: CentroidalProblem,
    psis: Seq<Vec<Scalar>>,
    sols: Seq<CentroidalMpcSolution>,
) -> bool {
    &&& psis.len() == sols.len()
    &&& forall|i: int|
        0 <= i < sols.len() ==> call_ensures(one_iter, (&problem, &psis[i]), #[trigger] sols[i])
    &&& forall|i: int|
        0 <= i < sols.len() - 1 ==> psis[i + 1]@ == (if (#[trigger] sols[i]).solved {
            yaws(sols[i].predicted_body_states@)
        } else {
            psis[i]@
        })
}

/// `sol` ends a run of the configured number of iterations that starts from the
/// yaws of the reference.
pub open spec fn is_solution<F: Fn(&CentroidalProblem, &Vec<Scalar>) -> CentroidalMpcSolution>(
    one_iter: F,
    cfg: CentroidalMpcConfig,
    problem: CentroidalProblem,
    sol: CentroidalMpcSolution,
) -> bool {
    exists|psis: Seq<Vec<Scalar>>, sols: Seq<CentroidalMpcSolution>|
        {
            &&& #[trigger] is_yaw_run(one_iter, problem, psis, sols)
            &&& sols.len() == (if cfg.sqp_iterations == 0 {
                1
            } else {
                cfg.sqp_iterations as int
            })
            &&& psis[0]@ == yaws(problem.reference.states@)
            &&& sol == sols.last()
        }
}

/// `one_iter` accepts a yaw per step of a horizon of `n` steps and answers with
/// a solution over the horizon.
pub open spec fn solves_horizon<F: Fn(&CentroidalProblem, &Vec<Scalar>) -> CentroidalMpcSolution>(
    one_iter: F,
    n: int,
) -> bool {
    &&& forall|problem: CentroidalProblem, psi: Vec<Scalar>|
        problem.spans(n) && psi@.len() == n ==> #[trigger] call_requires(one_iter, (&problem, &psi))
    &&& forall|problem: CentroidalProblem, psi: Vec<Scalar>, sol: CentroidalMpcSolution|
        problem.spans(n) && psi@.len() == n && #[trigger] call_ensures(
            one_iter,
            (&problem, &psi),
            sol,
        ) ==> sol.spans(n)
}

/// Centroidal predictive controller.
#[derive(Debug)]
pub struct CentroidalMpc {
    /// Parameters.
    pub cfg: CentroidalMpcConfig,
}

impl CentroidalMpc {
    /// A controller with the given parameters.
    pub fn new(cfg: CentroidalMpcConfig) -> (r: CentroidalMpc)
        ensures
            r.cfg == cfg,
    {
        CentroidalMpc { cfg }
    }

    /// The parameters.
    pub fn config(&self) -> (r: &CentroidalMpcConfig)
        ensures
            *r == self.cfg,
    {
        &self.cfg
    }

    /// Replaces the parameters.
    pub fn set_config(&mut self, cfg: CentroidalMpcConfig)
        ensures
            final(self).cfg == cfg,
    {
        self.cfg = cfg;
    }

    /// Solves the horizon by repeated linearisation about a yaw per step.
    ///
    /// The first iteration uses the yaws of the reference, each later one the
    /// yaws just predicted. `one_iter` assembles and solves the program for the
    /// yaws it is given. The result is that of the last iteration.
    pub fn solve<F: Fn(&CentroidalProblem, &Vec<Scalar>) -> CentroidalMpcSolution>(
        &self,
        problem: &CentroidalProblem,
        one_iter: F,
    ) -> (r: CentroidalMpcSolution)
        requires
            problem.spans(self.cfg.horizon_steps as int),
            solves_horizon(one_iter, self.cfg.horizon_steps as int),
        ensures
            r.spans(self.cfg.horizon_steps as int),
            is_solution(one_iter, self.cfg, *problem, r),
    {
        let n: usize = self.cfg.horizon_steps;
        let n_iter: usize = if self.cfg.sqp_iterations == 0 { 1 } else { self.cfg.sqp_iterations };
        let mut psi = collect_yaws(&problem.reference.states);
        let mut sol = one_iter(problem, &psi);
        let ghost mut psis = seq![psi];
        let ghost mut sols = seq![sol];
        let mut done: usize = 1;
        while done < n_iter
            invariant
                1 <= done <= n_iter,
                problem.spans(n as int),
                psi@.len() == n,
                sol.spans(n as int),
                solves_horizon(one_iter, n as int),
                is_yaw_run(one_iter, *problem, psis, sols),
                sols.len() == done,
                psis[0]@ == yaws(problem.reference.states@),
                psis.last() == psi,
                sols.last() == sol,
            decreases n_iter - done,
        {
            if sol.solved {
                psi = collect_yaws(&sol.predicted_body_states);
            }
            let ghost sols0 = sols;
            sol = one_iter(problem, &psi);
            proof {
                psis = psis.push(psi);
                sols = sols.push(sol);
                assert forall|i: int| 0 <= i < sols.len() - 1 implies psis[i + 1]@ == (
                if (#[trigger] sols[i]).solved {
                    yaws(sols[i].predicted_body_states@)
                } else {
                    psis[i]@
                }) by {
                    if i < sols0.len() - 1 {
                        assert(sols0[i] == sols[i]);
                    }
                }
                assert forall|i: int| 0 <= i < sols.len() implies call_ensures(
                    one_iter,
                    (problem, &psis[i]),
                    #[trigger] sols[i],
                ) by {
                    if i < sols0.len() {
                        assert(sols0[i] == sols[i]);
                    }
                }
            }
            done += 1;
        }
        sol
    }
}

/// Whether visit `v` (leg `v % 4` at step `v / 4`) is in stance.
pub open spec fn visit_stance(contact: CentroidalContactSchedule, v: int) -> bool {
    contact.stance(v % 4, v / 4)
}

/// Stance legs among the first `m` visits.
pub open spec fn stance_count(contact: CentroidalContactSchedule, m: int) -> int {
    count(|v: int| visit_stance(contact, v), m)
}

/// First force column of visit `v`; y and z follow.
pub open spec fn force_column(v: int) -> int {
    12 * (v / 4) + 3 * (v % 4)
}

/// A swing foot carries no force: three rows `f = 0`.
pub open spec fn swing_rows(contact: CentroidalContactSchedule, width: int, v: int) -> Seq<Row> {
    if visit_stance(contact, v) {
        Seq::empty()
    } else {
        let x = force_column(v);
        seq![
            Row { coef: unit_row(width, x, one()), rhs: zero() },
            Row { coef: unit_row(width, x + 1, one()), rhs: zero() },
            Row { coef: unit_row(width, x + 2, one()), rhs: zero() },
        ]
    }
}

/// A friction row `sign f_t - mu f_z <= 0`.
pub open spec fn pyramid_row(mu: Scalar, width: int, t: int, z: int, sign: Scalar) -> Row {
    Row { coef: zero_row(width).update(t, sign).update(z, mu.neg_spec()), rhs: zero() }
}

/// A stance foot pushes: `f_z >= 0`, `f_z <= f_max` for a positive limit, and the
/// friction pyramid.
pub open spec fn stance_rows(
    cfg: CentroidalMpcConfig,
    contact: CentroidalContactSchedule,
    width: int,
    v: int,
) -> Seq<Row> {
    if !visit_stance(contact, v) {
        Seq::empty()
    } else {
        let x = force_column(v);
        let push = seq![Row { coef: unit_row(width, x + 2, minus_one()), rhs: zero() }];
        let capped = if zero().lt_spec(cfg.max_normal_force) {
            seq![Row { coef: unit_row(width, x + 2, one()), rhs: cfg.max_normal_force }]
        } else {
            Seq::empty()
        };
        push + capped + seq![
            pyramid_row(cfg.friction_mu, width, x, x + 2, one()),
            pyramid_row(cfg.friction_mu, width, x, x + 2, minus_one()),
            pyramid_row(cfg.friction_mu, width, x + 1, x + 2, one()),
            pyramid_row(cfg.friction_mu, width, x + 1, x + 2, minus_one()),
        ]
    }
}

/// All equality rows of a horizon of `n` steps.
pub open spec fn equality_rows(contact: CentroidalContactSchedule, n: int) -> Seq<Row> {
    collect(|v: int| swing_rows(contact, 12 * n, v), 4 * n)
}

/// All inequality rows of a horizon of `n` steps.
pub open spec fn inequality_rows(
    cfg: CentroidalMpcConfig,
    contact: CentroidalContactSchedule,
    n: int,
) -> Seq<Row> {
    collect(|v: int| stance_rows(cfg, contact, 12 * n, v), 4 * n)
}

fn make_unit_row(width: usize, col: usize, value: Scalar) -> (r: Vec<Scalar>)
    requires
        col < width,
    ensures
        r@ == unit_row(width as int, col as int, value),
{
    let mut r = make_zero_row(width);
    r[col] = value;
    r
}

fn make_pyramid_row(mu: Scalar, width: usize, t: usize, z: usize, sign: Scalar) -> (r: Vec<Scalar>)
    requires
        t < width,
        z < width,
    ensures
        r@ == pyramid_row(mu, width as int, t as int, z as int, sign).coef,
{
    let mut r = make_zero_row(width);
    r[t] = sign;
    r[z] = mu.neg();
    r
}

fn push_stance_rows(
    cfg: &CentroidalMpcConfig,
    Ghost(contact): Ghost<CentroidalContactSchedule>,
    width: usize,
    x: usize,
    Ghost(v): Ghost<int>,
    a: &mut Vec<Vec<Scalar>>,
    b: &mut Vec<Scalar>,
)
    requires
        x + 2 < width,
        x == force_column(v),
        visit_stance(contact, v),
        old(a)@.len() == old(b)@.len(),
    ensures
        final(a)@.len() == final(b)@.len(),
        rows_view(final(a)@, final(b)@) == rows_view(old(a)@, old(b)@) + stance_rows(
            *cfg,
            contact,
            width as int,
            v,
        ),
{
    let ghost here = rows_view(a@, b@);
    push_row(a, b, make_unit_row(width, x + 2, minus_one()), zero());
    if zero().lt(cfg.max_normal_force) {
        push_row(a, b, make_unit_row(width, x + 2, one()), cfg.max_normal_force);
    }
    let mu = cfg.friction_mu;
    push_row(a, b, make_pyramid_row(mu, width, x, x + 2, one()), zero());
    push_row(a, b, make_pyramid_row(mu, width, x, x + 2, minus_one()), zero());
    push_row(a, b, make_pyramid_row(mu, width, x + 1, x + 2, one()), zero());
    push_row(a, b, make_pyramid_row(mu, width, x + 1, x + 2, minus_one()), zero());
    assert(rows_view(a@, b@) =~= here + stance_rows(*cfg, contact, width as int, v));
}

/// Builds the constraints of the horizon: swing forces vanish, then the force
/// bounds and friction pyramid of the stance feet.
pub fn build_constraints(
    cfg: &CentroidalMpcConfig,
    contact: &CentroidalContactSchedule,
    n: usize,
) -> (r: QpConstraints)
    requires
        contact.spans(n as int),
        12 * n < usize::MAX,
    ensures
        r.a.ncols == 12 * n,
        r.holds_rows(
            equality_rows(*contact, n as int),
            inequality_rows(*cfg, *contact, n as int),
        ),
{
    let width: usize = 12 * n;
    let mut a: Vec<Vec<Scalar>> = Vec::new();
    let mut b: Vec<Scalar> = Vec::new();
    let ghost f = |v: int| swing_rows(*contact, 12 * n, v);
    assert(rows_view(a@, b@) =~= collect(f, 0));
    let mut k: usize = 0;
    while k < n
        invariant
            k <= n,
            contact.spans(n as int),
            width == 12 * n,
            a@.len() == b@.len(),
            f == (|v: int| swing_rows(*contact, 12 * n, v)),
            rows_view(a@, b@) == collect(f, 4 * k),
        decreases n - k,
    {
        let mut leg: usize = 0;
        while leg < 4
            invariant
                leg <= 4,
                k < n,
                contact.spans(n as int),
                width == 12 * n,
                a@.len() == b@.len(),
                f == (|v: int| swing_rows(*contact, 12 * n, v)),
                rows_view(a@, b@) == collect(f, 4 * k + leg),
            decreases 4 - leg,
        {
            let ghost v: int = 4 * k + leg;
            assert(v / 4 == k && v % 4 == leg);
            let ghost here = rows_view(a@, b@);
            if !contact.is_stance[leg][k] {
                let x: usize = 12 * k + 3 * leg;
                push_row(&mut a, &mut b, make_unit_row(width, x, one()), zero());
                push_row(&mut a, &mut b, make_unit_row(width, x + 1, one()), zero());
                push_row(&mut a, &mut b, make_unit_row(width, x + 2, one()), zero());
            }
            assert(rows_view(a@, b@) =~= here + f(v));
            assert(rows_view(a@, b@) =~= collect(f, v + 1));
            leg += 1;
        }
        k += 1;
    }
    let n_eq: usize = a.len();
    let ghost eq = rows_view(a@, b@);
    let ghost g = |v: int| stance_rows(*cfg, *contact, 12 * n, v);
    assert(rows_view(a@, b@) =~= eq + collect(g, 0));
    k = 0;
    while k < n
        invariant
            k <= n,
            contact.spans(n as int),
            width == 12 * n,
            a@.len() == b@.len(),
            g == (|v: int| stance_rows(*cfg, *contact, 12 * n, v)),
            rows_view(a@, b@) == eq + collect(g, 4 * k),
        decreases n - k,
    {
        let mut leg: usize = 0;
        while leg < 4
            invariant
                leg <= 4,
                k < n,
                contact.spans(n as int),
                width == 12 * n,
                a@.len() == b@.len(),
                g == (|v: int| stance_rows(*cfg, *contact, 12 * n, v)),
                rows_view(a@, b@) == eq + collect(g, 4 * k + leg),
            decreases 4 - leg,
        {
            let ghost v: int = 4 * k + leg;
            assert(v / 4 == k && v % 4 == leg);
            let ghost here = rows_view(a@, b@);
            if contact.is_stance[leg][k] {
                let x: usize = 12 * k + 3 * leg;
                push_stance_rows(cfg, Ghost(*contact), width, x, Ghost(v), &mut a, &mut b);
            }
            assert(rows_view(a@, b@) =~= here + g(v));
            assert(rows_view(a@, b@) =~= eq + collect(g, v + 1));
            leg += 1;
        }
        k += 1;
    }
    let ghost ineq = collect(g, 4 * n);
    proof {
        centroidal_rows_have_width(*cfg, *contact, n as int);
        assert(eq == equality_rows(*contact, n as int));
        assert(ineq == inequality_rows(*cfg, *contact, n as int));
        assert forall|i: int| 0 <= i < a@.len() implies (#[trigger] a@[i])@.len() == width by {
            assert(rows_view(a@, b@)[i].coef == a@[i]@);
            assert((eq + ineq)[i].coef == a@[i]@);
        }
    }
    let n_ineq: usize = a.len() - n_eq;
    let csc = dense_to_csc(&a, width);
    assert(rows_of(a@) =~= coefs(eq + ineq));
    assert(b@ =~= right_sides(eq + ineq));
    QpConstraints { a: csc, b, n_eq, n_ineq }
}

/// Every row has one coefficient per force component of the horizon.
pub proof fn centroidal_rows_have_width(
    cfg: CentroidalMpcConfig,
    contact: CentroidalContactSchedule,
    n: int,
)
    requires
        0 <= n,
    ensures
        ({
            let rows = equality_rows(contact, n) + inequality_rows(cfg, contact, n);
            forall|r: int| 0 <= r < rows.len() ==> (#[trigger] rows[r]).coef.len() == 12 * n
        }),
{
    let f = |v: int| swing_rows(contact, 12 * n, v);
    let g = |v: int| stance_rows(cfg, contact, 12 * n, v);
    let eq = equality_rows(contact, n);
    let ineq = inequality_rows(cfg, contact, n);
    assert forall|r: int| 0 <= r < eq.len() implies (#[trigger] eq[r]).coef.len() == 12 * n by {
        let vi = collected_row_has_a_visit(f, 4 * n, r);
        assert(vi.1 == 0 || vi.1 == 1 || vi.1 == 2);
    }
    assert forall|r: int| 0 <= r < ineq.len() implies (#[trigger] ineq[r]).coef.len() == 12 * n by {
        let vi = collected_row_has_a_visit(g, 4 * n, r);
        let x = force_column(vi.0);
        let tail = seq![
            pyramid_row(cfg.friction_mu, 12 * n, x, x + 2, one()),
            pyramid_row(cfg.friction_mu, 12 * n, x, x + 2, minus_one()),
            pyramid_row(cfg.friction_mu, 12 * n, x + 1, x + 2, one()),
            pyramid_row(cfg.friction_mu, 12 * n, x + 1, x + 2, minus_one()),
        ];
        let head = g(vi.0).len() - 4;
        if vi.1 >= head {
            let j = vi.1 - head;
            assert(g(vi.0)[vi.1] == tail[j]);
            assert(j == 0 || j == 1 || j == 2 || j == 3);
        } else if vi.1 == 0 {
            assert(g(vi.0)[0].coef == unit_row(12 * n, x + 2, minus_one()));
        } else {
            assert(g(vi.0)[1].coef == unit_row(12 * n, x + 2, one()));
        }
    }
}

/// How many rows there are: three equalities per swing leg and step; five
/// inequalities per stance leg and step, six with a force limit.
pub proof fn centroidal_row_counts(
    cfg: CentroidalMpcConfig,
    contact: CentroidalContactSchedule,
    n: int,
)
    requires
        0 <= n,
    ensures
        equality_rows(contact, n).len() == 3 * (4 * n - stance_count(contact, 4 * n)),
        inequality_rows(cfg, contact, n).len() == (if zero().lt_spec(cfg.max_normal_force) {
            6 * stance_count(contact, 4 * n)
        } else {
            5 * stance_count(contact, 4 * n)
        }),
{
    centroidal_lengths(cfg, contact, 12 * n, 4 * n);
}

proof fn centroidal_lengths(
    cfg: CentroidalMpcConfig,
    contact: CentroidalContactSchedule,
    width: int,
    m: int,
)
    requires
        0 <= m,
    ensures
        collect(|v: int| swing_rows(contact, width, v), m).len() == 3 * (m - stance_count(
            contact,
            m,
        )),
        collect(|v: int| stance_rows(cfg, contact, width, v), m).len() == (if zero().lt_spec(
            cfg.max_normal_force,
        ) {
            6 * stance_count(contact, m)
        } else {
            5 * stance_count(contact, m)
        }),
    decreases m,
{
    if m > 0 {
        centroidal_lengths(cfg, contact, width, m - 1);
    }
}

/// The force of a swing foot is pinned to zero along every axis.
pub proof fn centroidal_swing_force_is_pinned(
    contact: CentroidalContactSchedule,
    n: int,
    k: int,
    leg: int,
    ax: int,
)
    requires
        0 <= k < n,
        0 <= leg < 4,
        0 <= ax < 3,
        !contact.stance(leg, k),
    ensures
        equality_rows(contact, n).contains(
            Row { coef: unit_row(12 * n, 12 * k + 3 * leg + ax, one()), rhs: zero() },
        ),
{
    let f = |v: int| swing_rows(contact, 12 * n, v);
    let v = 4 * k + leg;
    assert(v / 4 == k && v % 4 == leg);
    collected_rows_are_found(f, 4 * n, v);
    assert(ax == 0 || ax == 1 || ax == 2);
    assert(f(v)[ax] == (Row {
        coef: unit_row(12 * n, 12 * k + 3 * leg + ax, one()),
        rhs: zero(),
    }));
    assert(equality_rows(contact, n)[collect(f, v).len() + ax] == f(v)[ax]);
}

/// The state with the constant gravity component appended.
pub fn state_to_vec13(s: &CentroidalState) -> (r: [Scalar; 13])
    ensures
        r@ == s@.push(Scalar { bits: GRAVITY_Z_BITS }),
{
    let v = s.to_vec12();
    let g = Scalar { bits: GRAVITY_Z_BITS };
    let r = [v[0], v[1], v[2], v[3], v[4], v[5], v[6], v[7], v[8], v[9], v[10], v[11], g];
    assert(r@ =~= s@.push(g));
    r
}

/// The forces of the horizon, one set per step, from a solution vector.
pub fn decode_forces(u: &Vec<Scalar>, n: usize) -> (r: Vec<[Vec3; 4]>)
    requires
        12 * n <= u@.len(),
    ensures
        r@.len() == n,
        forall|k: int, leg: int|
            0 <= k < n && 0 <= leg < 4 ==> #[trigger] r@[k]@[leg] == Vec3::new(
                u@[12 * k + 3 * leg],
                u@[12 * k + 3 * leg + 1],
                u@[12 * k + 3 * leg + 2],
            ),
{
    let mut r: Vec<[Vec3; 4]> = Vec::new();
    let len: usize = u.len();
    let mut k: usize = 0;
    while k < n
        invariant
            k <= n,
            12 * n <= u@.len() == len,
            r@.len() == k,
            forall|i: int, leg: int|
                0 <= i < k && 0 <= leg < 4 ==> #[trigger] r@[i]@[leg] == Vec3::new(
                    u@[12 * i + 3 * leg],
                    u@[12 * i + 3 * leg + 1],
                    u@[12 * i + 3 * leg + 2],
                ),
        decreases n - k,
    {
        let o: usize = 12 * k;
        r.push(
            [
                Vec3::new(u[o], u[o + 1], u[o + 2]),
                Vec3::new(u[o + 3], u[o + 4], u[o + 5]),
                Vec3::new(u[o + 6], u[o + 7], u[o + 8]),
                Vec3::new(u[o + 9], u[o + 10], u[o + 11]),
            ],
        );
        k += 1;
    }
    r
}

/// The states of the horizon, one per step, from the stacked augmented states.
pub fn decode_body_states(x: &Vec<Scalar>, n: usize) -> (r: Vec<CentroidalState>)
    requires
        13 * n <= x@.len(),
    ensures
        r@.len() == n,
        forall|k: int| 0 <= k < n ==> (#[trigger] r@[k])@ == x@.subrange(13 * k, 13 * k + 12),
{
    let mut r: Vec<CentroidalState> = Vec::new();
    let len: usize = x.len();
    let mut k: usize = 0;
    while k < n
        invariant
            k <= n,
            13 * n <= x@.len() == len,
            r@.len() == k,
            forall|i: int| 0 <= i < k ==> (#[trigger] r@[i])@ == x@.subrange(13 * i, 13 * i + 12),
        decreases n - k,
    {
        let o: usize = 13 * k;
        let s = CentroidalState {
            h_lin_per_mass: Vec3::new(x[o], x[o + 1], x[o + 2]),
            angular_velocity_world: Vec3::new(x[o + 3], x[o + 4], x[o + 5]),
            base_pos_world: Vec3::new(x[o + 6], x[o + 7], x[o + 8]),
            base_euler_zyx: Vec3::new(x[o + 9], x[o + 10], x[o + 11]),
        };
        assert(s@ =~= x@.subrange(13 * k, 13 * k + 12));
        r.push(s);
        k += 1;
    }
    r
}

/// The solution of an iteration from the solver's vector `u` and the states `x`
/// it predicts.
pub fn decode_solution(
    status: QpStatus,
    u: &Vec<Scalar>,
    x: &Vec<Scalar>,
    objective: Scalar,
    n: usize,
) -> (r: CentroidalMpcSolution)
    requires
        0 < n,
        12 * n <= u@.len(),
        13 * n <= x@.len(),
    ensures
        r.spans(n as int),
        r.solved == (status == QpStatus::Solved || status == QpStatus::AlmostSolved),
        r.objective == objective,
        r.grfs_first_step == r.grfs_all_steps@[0],
        forall|k: int, leg: int|
            0 <= k < n && 0 <= leg < 4 ==> #[trigger] r.grfs_all_steps@[k]@[leg] == Vec3::new(
                u@[12 * k + 3 * leg],
                u@[12 * k + 3 * leg + 1],
                u@[12 * k + 3 * leg + 2],
            ),
        forall|k: int|
            0 <= k < n ==> (#[trigger] r.predicted_body_states@[k])@ == x@.subrange(
                13 * k,
                13 * k + 12,
            ),
{
    let grfs_all_steps = decode_forces(u, n);
    let predicted_body_states = decode_body_states(x, n);
    CentroidalMpcSolution {
        grfs_first_step: grfs_all_steps[0],
        grfs_all_steps,
        predicted_body_states,
        objective,
        solved: status.is_solved(),
    }
}

/// The solution reported when the solver refuses the program: no force, and the
/// present state throughout.
pub fn failed_solution(state_now: &CentroidalState, n: usize) -> (r: CentroidalMpcSolution)
    ensures
        forall|leg: int| 0 <= leg < 4 ==> r.grfs_first_step@[leg] == Vec3::zeros(),
        r.grfs_all_steps@ == Seq::new(n as nat, |k: int| r.grfs_first_step),
        r.predicted_body_states@ == Seq::new(n as nat, |k: int| *state_now),
        r.objective == nan(),
        !r.solved,
{
    let o = Vec3::zeros();
    let none = [o, o, o, o];
    let mut forces: Vec<[Vec3; 4]> = Vec::new();
    let mut states: Vec<CentroidalState> = Vec::new();
    let mut k: usize = 0;
    while k < n
        invariant
            k <= n,
            forces@ == Seq::new(k as nat, |k: int| none),
            states@ == Seq::new(k as nat, |k: int| *state_now),
        decreases n - k,
    {
        forces.push(none);
        states.push(*state_now);
        k += 1;
        assert(forces@ =~= Seq::new(k as nat, |k: int| none));
        assert(states@ =~= Seq::new(k as nat, |k: int| *state_now));
    }
    CentroidalMpcSolution {
        grfs_first_step: none,
        grfs_all_steps: forces,
        predicted_body_states: states,
        objective: nan(),
        solved: false,
    }
}

/// The augmented states of a trajectory one after the other.
pub fn stack_states(states: &Vec<CentroidalState>) -> (r: Vec<Scalar>)
    ensures
        r@.len() == 13 * states@.len(),
        forall|k: int|
            0 <= k < states@.len() ==> r@.subrange(13 * k, 13 * k + 13) == (
            #[trigger] states@[k])@.push(Scalar { bits: GRAVITY_Z_BITS }),
{
    let mut r: Vec<Scalar> = Vec::new();
    let mut k: usize = 0;
    while k < states.len()
        invariant
            k <= states@.len(),
            r@.len() == 13 * k,
            forall|i: int|
                0 <= i < k ==> r@.subrange(13 * i, 13 * i + 13) == (#[trigger] states@[i])@.push(
                    Scalar { bits: GRAVITY_Z_BITS },
                ),
        decreases states@.len() - k,
    {
        let ghost before = r@;
        let v = state_to_vec13(&states[k]);
        let mut i: usize = 0;
        while i < 13
            invariant
                i <= 13,
                r@ == before + v@.subrange(0, i as int),
            decreases 13 - i,
        {
            r.push(v[i]);
            i += 1;
            assert(r@ =~= before + v@.subrange(0, i as int));
        }
        assert(r@ =~= before + v@);
        assert forall|i: int| 0 <= i < k + 1 implies r@.subrange(13 * i, 13 * i + 13) == (
        #[trigger] states@[i])@.push(Scalar { bits: GRAVITY_Z_BITS }) by {
            if i < k {
                assert(r@.subrange(13 * i, 13 * i + 13) =~= before.subrange(13 * i, 13 * i + 13));
            } else {
                assert(r@.subrange(13 * i, 13 * i + 13) =~= v@);
            }
        }
        k += 1;
    }
    r
}

/// Diagonal of the state cost over the horizon: the state weights at every
/// step, and no weight on the gravity component.
pub fn state_cost_diagonal(q_diag: &[Scalar; 12], n: usize) -> (r: Vec<Scalar>)
    requires
        13 * n <= usize::MAX,
    ensures
        r@.len() == 13 * n,
        forall|i: int|
            0 <= i < 13 * n ==> #[trigger] r@[i] == (if i % 13 < 12 {
                q_diag@[i % 13]
            } else {
                zero()
            }),
{
    let mut r: Vec<Scalar> = Vec::new();
    let total: usize = 13 * n;
    let mut c: usize = 0;
    while c < total
        invariant
            c <= total,
            r@.len() == c,
            forall|i: int|
                0 <= i < c ==> #[trigger] r@[i] == (if i % 13 < 12 {
                    q_diag@[i % 13]
                } else {
                    zero()
                }),
        decreases total - c,
    {
        let slot: usize = c % 13;
        r.push(if slot < 12 { q_diag[slot] } else { zero() });
        c += 1;
    }
    r
}

} // verus!
