//! One iteration of the centroidal predictive controller.
//!
//! The dynamics are linearised about a yaw per step, lifted over the horizon and
//! put into a quadratic program, whose solution is decoded. The operations on
//! matrices and the solver are the caller's.

use vstd::prelude::*;
use crate::arith::{deterministic, Arithmetic};
use crate::centroidal_mpc::{
    build_constraints, decode_solution, equality_rows, failed_solution, inequality_rows,
    stack_states, state_cost_diagonal, state_to_vec13, yaws, CentroidalMpc, CentroidalMpcConfig,
    CentroidalMpcSolution, CentroidalProblem,
};
use crate::csc::{dense_to_csc_upper, has_shape, rows_of};
use crate::dense::{
    front, is_prediction, is_tracking_cost, listed, prediction, tracking_cost, DenseAlgebra,
};
use crate::dynamics::{settled, BodyAlgebra};
use crate::euler::{euler_step, is_euler};
use crate::full_centroidal_iter::QpAnswer;
use crate::full_centroidal_mpc::GRAVITY_Z_BITS;
use crate::full_centroidal_qp::{QpProblem, QpStatus};
use crate::lift::{is_input_map, is_state_map, lift_dynamics};
use crate::linear_blocks::{body_blocks, is_body_linearised, BodyBlocks};
use crate::linearisation::{body_state_entry, continuous_dynamics, force_entry};
use crate::scalar::{nan, zero, Scalar, Vec3};

verus! {

/// The numeric work of an iteration, supplied by the caller.
pub trait BodyKernel<M>: DenseAlgebra<M> + BodyAlgebra {
    /// The identity on the augmented state.
    fn identity(&self) -> M;

    /// Solves a program; `None` when the solver refuses it.
    fn solve(&self, qp: &QpProblem) -> Option<QpAnswer>;
}

/// The kernel gives values of the right size over a horizon of `n` steps.
pub open spec fn fits_horizon<M, K: BodyKernel<M>>(kernel: &K, n: int) -> bool {
    &&& forall|
        a_x: Vec<M>,
        b_u: Vec<Vec<M>>,
        x_now: Seq<Scalar>,
        x_ref: Vec<Scalar>,
        q: Vec<Scalar>,
        r: Vec<Scalar>,
        out: (Vec<Vec<Scalar>>, Vec<Scalar>),
    |
        r@.len() == 12 * n && #[trigger] is_tracking_cost(
            kernel,
            a_x,
            b_u,
            x_now,
            x_ref,
            q,
            r,
            out,
        ) ==> has_shape(out.0@, (12 * n) as nat, (12 * n) as nat) && out.1@.len() == 12 * n
    &&& forall|qp: QpProblem, out: QpAnswer| #[trigger]
        call_ensures(K::solve, (kernel, &qp), Some(out)) ==> out.z@.len() == qp.q@.len()
    &&& forall|a_x: Vec<M>, b_u: Vec<Vec<M>>, x_now: Seq<Scalar>, u: Seq<Scalar>, out: Vec<Scalar>|
        a_x@.len() == n && #[trigger] is_prediction(kernel, a_x, b_u, x_now, u, out) ==> out@.len() == 13 * n
}

/// Stance of the legs at step `k`.
pub open spec fn stance_at(p: CentroidalProblem, k: int) -> Seq<bool> {
    seq![
        p.contact.stance(0, k),
        p.contact.stance(1, k),
        p.contact.stance(2, k),
        p.contact.stance(3, k),
    ]
}

/// Foot offsets at step `k`.
pub open spec fn feet_at(p: CentroidalProblem, k: int) -> Seq<Vec3> {
    seq![p.feet.r@[0]@[k], p.feet.r@[1]@[k], p.feet.r@[2]@[k], p.feet.r@[3]@[k]]
}

/// `ac` and `bc` are the matrices of the rate with the given blocks.
pub open spec fn is_continuous(
    stance: Seq<bool>,
    bl: BodyBlocks,
    ac: Vec<Vec<Scalar>>,
    bc: Vec<Vec<Scalar>>,
) -> bool {
    &&& has_shape(ac@, 13, 13)
    &&& has_shape(bc@, 13, 12)
    &&& forall|i: int, j: int|
        0 <= i < 13 && 0 <= j < 13 ==> #[trigger] ac@[i]@[j] == body_state_entry(bl.rz_t, 12, i, j)
    &&& forall|i: int, j: int|
        0 <= i < 13 && 0 <= j < 12 ==> #[trigger] bc@[i]@[j] == force_entry(
            stance,
            bl.inv_mass,
            bl.force_blocks@,
            i,
            j,
        )
}

/// `a` and `b` are the matrices of step `k` at a yaw: those of an explicit step.
pub open spec fn is_step<M, A: Arithmetic, K: BodyKernel<M>>(
    ar: &A,
    kernel: &K,
    cfg: CentroidalMpcConfig,
    p: CentroidalProblem,
    psi: Scalar,
    k: int,
    a: M,
    b: M,
) -> bool {
    exists|
        bl: BodyBlocks,
        ac: Vec<Vec<Scalar>>,
        bc: Vec<Vec<Scalar>>,
        ad: Vec<Vec<Scalar>>,
        bd: Vec<Vec<Scalar>>,
    |
        {
            &&& deterministic(ar) && settled(kernel) ==> is_body_linearised(
                ar,
                kernel,
                cfg,
                psi,
                feet_at(p, k),
                bl,
            )
            &&& #[trigger] is_continuous(stance_at(p, k), bl, ac, bc)
            &&& #[trigger] is_euler(ar, ac, bc, cfg.dt_per_step, ad, bd)
            &&& call_ensures(K::block, (kernel, &ad), a)
            &&& call_ensures(K::block, (kernel, &bd), b)
        }
}

fn linear_steps<M, A: Arithmetic, K: BodyKernel<M>>(
    ar: &A,
    kernel: &K,
    cfg: &CentroidalMpcConfig,
    p: &CentroidalProblem,
    psi: &Vec<Scalar>,
    n: usize,
) -> (r: (Vec<M>, Vec<M>))
    requires
        p.spans(n as int),
        psi@.len() == n,
    ensures
        r.0@.len() == n,
        r.1@.len() == n,
        forall|k: int|
            0 <= k < n ==> is_step(ar, kernel, *cfg, *p, psi@[k], k, #[trigger] r.0@[k], r.1@[k]),
{
    let mut a: Vec<M> = Vec::new();
    let mut b: Vec<M> = Vec::new();
    let mut k: usize = 0;
    while k < n
        invariant
            k <= n,
            p.spans(n as int),
            psi@.len() == n,
            a@.len() == k,
            b@.len() == k,
            forall|i: int|
                0 <= i < k ==> is_step(ar, kernel, *cfg, *p, psi@[i], i, #[trigger] a@[i], b@[i]),
        decreases n - k,
    {
        let stance = [
            p.contact.is_stance[0][k],
            p.contact.is_stance[1][k],
            p.contact.is_stance[2][k],
            p.contact.is_stance[3][k],
        ];
        assert(stance@ =~= stance_at(*p, k as int));
        let feet = [p.feet.r[0][k], p.feet.r[1][k], p.feet.r[2][k], p.feet.r[3][k]];
        assert(feet@ =~= feet_at(*p, k as int));
        let bl = body_blocks(ar, kernel, cfg, psi[k], &feet);
        let c = continuous_dynamics(&stance, bl.inv_mass, &bl.force_blocks, &bl.rz_t);
        assert(is_continuous(stance_at(*p, k as int), bl, c.0, c.1));
        let e = euler_step(ar, &c.0, &c.1, cfg.dt_per_step);
        let d = (kernel.block(&e.0), kernel.block(&e.1));
        assert(is_euler(ar, c.0, c.1, cfg.dt_per_step, e.0, e.1));
        assert(is_step(ar, kernel, *cfg, *p, psi@[k as int], k as int, d.0, d.1));
        a.push(d.0);
        b.push(d.1);
        k += 1;
    }
    (a, b)
}

/// What an iteration went through.
pub struct BodyTrace<M> {
    /// The identity on the augmented state.
    pub identity: M,
    /// State matrices of the steps.
    pub a_d: Seq<M>,
    /// Input matrices of the steps.
    pub b_d: Seq<M>,
    /// Lifted state map.
    pub a_x: Vec<M>,
    /// Lifted input map.
    pub b_u: Vec<Vec<M>>,
    /// Present augmented state.
    pub x_now: [Scalar; 13],
    /// Cost over the inputs.
    pub cost: (Vec<Vec<Scalar>>, Vec<Scalar>),
    /// The program.
    pub qp: QpProblem,
    /// What the solver gave.
    pub answer: Option<QpAnswer>,
}

/// The reference and the state weights one step after the other.
pub open spec fn are_stacked(
    cfg: CentroidalMpcConfig,
    p: CentroidalProblem,
    n: int,
    x_ref: Seq<Scalar>,
    q: Seq<Scalar>,
) -> bool {
    &&& x_ref.len() == 13 * n
    &&& q.len() == 13 * n
    &&& forall|k: int|
        0 <= k < n ==> x_ref.subrange(13 * k, 13 * k + 13) == (
        #[trigger] p.reference.states@[k])@.push(Scalar { bits: GRAVITY_Z_BITS })
    &&& forall|i: int|
        0 <= i < 13 * n ==> #[trigger] q[i] == (if i % 13 < 12 {
            cfg.q_diag@[i % 13]
        } else {
            zero()
        })
}

/// `cost` is the cost of the inputs for the stacked reference and weights.
pub open spec fn is_cost<M, K: BodyKernel<M>>(
    kernel: &K,
    cfg: CentroidalMpcConfig,
    p: CentroidalProblem,
    n: int,
    a_x: Vec<M>,
    b_u: Vec<Vec<M>>,
    x_now: [Scalar; 13],
    cost: (Vec<Vec<Scalar>>, Vec<Scalar>),
) -> bool {
    exists|x_ref: Vec<Scalar>, q: Vec<Scalar>, r: Vec<Scalar>|
        {
            &&& are_stacked(cfg, p, n, x_ref@, q@)
            &&& r@ == Seq::new((12 * n) as nat, |i: int| cfg.r_diag)
            &&& #[trigger] is_tracking_cost(kernel, a_x, b_u, x_now@, x_ref, q, r, cost)
        }
}

/// `t` is a run of one iteration about a yaw per step, up to the solver's answer.
pub open spec fn is_iteration<M, A: Arithmetic, K: BodyKernel<M>>(
    ar: &A,
    kernel: &K,
    cfg: CentroidalMpcConfig,
    p: CentroidalProblem,
    psi: Seq<Scalar>,
    n: int,
    t: BodyTrace<M>,
) -> bool {
    &&& t.a_d.len() == n
    &&& t.b_d.len() == n
    &&& forall|k: int|
        0 <= k < n ==> is_step(ar, kernel, cfg, p, psi[k], k, #[trigger] t.a_d[k], t.b_d[k])
    &&& is_state_map(kernel, t.identity, t.a_d, t.a_x@)
    &&& is_input_map(kernel, t.identity, t.a_d, t.b_d, t.b_u@)
    &&& t.x_now@ == p.state_now@.push(Scalar { bits: GRAVITY_Z_BITS })
    &&& is_cost(kernel, cfg, p, n, t.a_x, t.b_u, t.x_now, t.cost)
    &&& t.qp.p.compresses(rows_of(t.cost.0@), true)
    &&& t.qp.q@ == t.cost.1@
    &&& t.qp.constraints.a.ncols == 12 * n
    &&& t.qp.constraints.holds_rows(equality_rows(p.contact, n), inequality_rows(cfg, p.contact, n))
    &&& call_ensures(K::solve, (kernel, &t.qp), t.answer)
}

/// `sol` is decoded from the answer; without one there are no forces.
pub open spec fn is_decoded<M, K: BodyKernel<M>>(
    kernel: &K,
    p: CentroidalProblem,
    n: int,
    t: BodyTrace<M>,
    sol: CentroidalMpcSolution,
) -> bool {
    match t.answer {
        None => {
            &&& forall|leg: int| 0 <= leg < 4 ==> sol.grfs_first_step@[leg] == Vec3::zeros()
            &&& sol.grfs_all_steps@ == Seq::new(n as nat, |k: int| sol.grfs_first_step)
            &&& sol.predicted_body_states@ == Seq::new(n as nat, |k: int| p.state_now)
            &&& sol.objective == nan()
            &&& !sol.solved
        },
        Some(answer) => {
            &&& sol.solved == (answer.status == QpStatus::Solved || answer.status
                == QpStatus::AlmostSolved)
            &&& sol.objective == answer.objective
            &&& sol.grfs_first_step == sol.grfs_all_steps@[0]
            &&& forall|k: int, leg: int|
                0 <= k < n && 0 <= leg < 4 ==> #[trigger] sol.grfs_all_steps@[k]@[leg] == Vec3::new(
                    answer.z@[12 * k + 3 * leg],
                    answer.z@[12 * k + 3 * leg + 1],
                    answer.z@[12 * k + 3 * leg + 2],
                )
            &&& exists|x: Vec<Scalar>|
                {
                    &&& #[trigger] is_prediction(
                        kernel,
                        t.a_x,
                        t.b_u,
                        t.x_now@,
                        answer.z@.subrange(0, 12 * n),
                        x,
                    )
                    &&& forall|k: int|
                        0 <= k < n ==> (#[trigger] sol.predicted_body_states@[k])@ == x@.subrange(
                            13 * k,
                            13 * k + 12,
                        )
                }
        },
    }
}

/// `sol` is the outcome of one iteration.
pub open spec fn iterates<M, A: Arithmetic, K: BodyKernel<M>>(
    ar: &A,
    kernel: &K,
    cfg: CentroidalMpcConfig,
    p: CentroidalProblem,
    psi: Seq<Scalar>,
    n: int,
    sol: CentroidalMpcSolution,
) -> bool {
    exists|t: BodyTrace<M>| #[trigger]
        is_iteration(ar, kernel, cfg, p, psi, n, t) && is_decoded(kernel, p, n, t, sol)
}

/// `sols` are the outcomes of iterations about the yaws `psis`, each of them
/// taken from the previous outcome when that was solved.
pub open spec fn is_run<M, A: Arithmetic, K: BodyKernel<M>>(
    ar: &A,
    kernel: &K,
    cfg: CentroidalMpcConfig,
    p: CentroidalProblem,
    n: int,
    psis: Seq<Vec<Scalar>>,
    sols: Seq<CentroidalMpcSolution>,
) -> bool {
    &&& psis.len() == sols.len()
    &&& psis[0]@ == yaws(p.reference.states@)
    &&& forall|i: int|
        0 <= i < sols.len() ==> iterates(ar, kernel, cfg, p, psis[i]@, n, #[trigger] sols[i])
    &&& forall|i: int|
        0 <= i < sols.len() - 1 ==> psis[i + 1]@ == (if (#[trigger] sols[i]).solved {
            yaws(sols[i].predicted_body_states@)
        } else {
            psis[i]@
        })
}

impl CentroidalMpc {
    /// Solves about a yaw per step once.
    pub fn solve_one_iter<M, A: Arithmetic, K: BodyKernel<M>>(
        &self,
        ar: &A,
        kernel: &K,
        problem: &CentroidalProblem,
        psi: &Vec<Scalar>,
    ) -> (r: CentroidalMpcSolution)
        requires
            problem.spans(self.cfg.horizon_steps as int),
            psi@.len() == self.cfg.horizon_steps,
            0 < self.cfg.horizon_steps,
            13 * self.cfg.horizon_steps < usize::MAX,
            fits_horizon(kernel, self.cfg.horizon_steps as int),
        ensures
            r.spans(self.cfg.horizon_steps as int),
            iterates(
                ar,
                kernel,
                self.cfg,
                *problem,
                psi@,
                self.cfg.horizon_steps as int,
                r,
            ),
    {
        let n: usize = self.cfg.horizon_steps;
        let steps = linear_steps(ar, kernel, &self.cfg, problem, psi, n);
        let identity = kernel.identity();
        let lifted = lift_dynamics(&steps.0, &steps.1, &identity, kernel);
        let a_x = lifted.0;
        let b_u = lifted.1;
        let x_now = state_to_vec13(&problem.state_now);
        let q = state_cost_diagonal(&self.cfg.q_diag, n);
        let x_ref = stack_states(&problem.reference.states);
        assert(are_stacked(self.cfg, *problem, n as int, x_ref@, q@));
        let r_diag = vec![self.cfg.r_diag; 12 * n];
        assert(r_diag@ =~= Seq::new((12 * n) as nat, |i: int| self.cfg.r_diag));
        let cost = tracking_cost(kernel, &a_x, &b_u, listed(&x_now), &x_ref, &q, &r_diag);
        assert(is_cost(kernel, self.cfg, *problem, n as int, a_x, b_u, x_now, cost));
        let ghost whole = cost;
        let p = dense_to_csc_upper(&cost.0);
        let constraints = build_constraints(&self.cfg, &problem.contact, n);
        let qp = QpProblem { p, q: cost.1, constraints };
        let answer = kernel.solve(&qp);
        let ghost t = BodyTrace {
            identity,
            a_d: steps.0@,
            b_d: steps.1@,
            a_x,
            b_u,
            x_now,
            cost: whole,
            qp,
            answer,
        };
        assert(is_iteration(ar, kernel, self.cfg, *problem, psi@, n as int, t));
        match answer {
            None => {
                let r = failed_solution(&problem.state_now, n);
                assert(is_decoded(kernel, *problem, n as int, t, r));
                r
            },
            Some(answer) => {
                let u = front(&answer.z, 12 * n);
                let x = prediction(kernel, &a_x, &b_u, listed(&x_now), u);
                let r = decode_solution(answer.status, &answer.z, &x, answer.objective, n);
                assert(is_decoded(kernel, *problem, n as int, t, r));
                r
            },
        }
    }

    /// Solves the horizon by repeated iterations on a kernel.
    pub fn solve_with<M, A: Arithmetic, K: BodyKernel<M>>(
        &self,
        ar: &A,
        kernel: &K,
        problem: &CentroidalProblem,
    ) -> (r: CentroidalMpcSolution)
        requires
            problem.spans(self.cfg.horizon_steps as int),
            0 < self.cfg.horizon_steps,
            13 * self.cfg.horizon_steps < usize::MAX,
            fits_horizon(kernel, self.cfg.horizon_steps as int),
        ensures
            r.spans(self.cfg.horizon_steps as int),
            exists|psis: Seq<Vec<Scalar>>, sols: Seq<CentroidalMpcSolution>|
                {
                    &&& #[trigger] is_run(
                        ar,
                        kernel,
                        self.cfg,
                        *problem,
                        self.cfg.horizon_steps as int,
                        psis,
                        sols,
                    )
                    &&& sols.len() == (if self.cfg.sqp_iterations == 0 {
                        1
                    } else {
                        self.cfg.sqp_iterations as int
                    })
                    &&& r == sols.last()
                },
    {
        let ghost n = self.cfg.horizon_steps as int;
        let one_iter = |p: &CentroidalProblem, psi: &Vec<Scalar>| -> (sol: CentroidalMpcSolution)
            requires
                p.spans(self.cfg.horizon_steps as int),
                psi@.len() == self.cfg.horizon_steps,
            ensures
                sol.spans(self.cfg.horizon_steps as int),
                iterates(ar, kernel, self.cfg, *p, psi@, self.cfg.horizon_steps as int, sol),
            { self.solve_one_iter(ar, kernel, p, psi) };
        let r = self.solve(problem, one_iter);
        proof {
            let (psis, sols) = choose|psis: Seq<Vec<Scalar>>, sols: Seq<CentroidalMpcSolution>|
                {
                    &&& #[trigger] crate::centroidal_mpc::is_yaw_run(one_iter, *problem, psis, sols)
                    &&& sols.len() == (if self.cfg.sqp_iterations == 0 {
                        1
                    } else {
                        self.cfg.sqp_iterations as int
                    })
                    &&& psis[0]@ == yaws(problem.reference.states@)
                    &&& r == sols.last()
                };
            assert(is_run(ar, kernel, self.cfg, *problem, n, psis, sols)) by {
                assert forall|i: int| 0 <= i < sols.len() implies iterates(
                    ar,
                    kernel,
                    self.cfg,
                    *problem,
                    psis[i]@,
                    n,
                    #[trigger] sols[i],
                ) by {
                    assert(call_ensures(one_iter, (problem, &psis[i]), sols[i]));
                }
            }
        }
        r
    }
}

} // verus!
