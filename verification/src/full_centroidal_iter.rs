//! One iteration of the full-centroidal predictive controller.
//!
//! The dynamics are linearised along the reference, lifted over the horizon and
//! put into a quadratic program, whose solution is decoded. The operations on
//! matrices and the solver are the caller's.

use vstd::prelude::*;
use crate::arith::{deterministic, product, Arithmetic};
use crate::config::LegId;
use crate::controller::LegModel;
use crate::csc::{has_shape, rows_of};
use crate::dense::{
    front, is_prediction, is_reference_cost, listed, prediction, reference_cost, DenseAlgebra,
};
use crate::dynamics::BodyAlgebra;
use crate::euler::{euler_step, is_euler};
use crate::foot_cost::{add_term, term_p, term_q, terms_p, terms_q, FootTerm};
use crate::full_centroidal_mpc::{
    caches, initial_reference, is_sqp_run, iteration_count, state_to_vec_aug,
    FullCentroidalContactSchedule, FullCentroidalMpc, FullCentroidalMpcConfig,
    FullCentroidalMpcSolution, FullCentroidalReference, FullCentroidalState,
};
use crate::full_centroidal_qp::{
    assemble_qp, decode_solution, equality_rows, failed_solution, inequality_rows,
    input_cost_diagonal, padded_cost, slack_count, stack_inputs, stack_states, state_cost_diagonal,
    swing_right_sides, FootVelocity, QpProblem, QpStatus,
};
use crate::horizon_feet::{
    are_lifted, exact, foot_term, foot_velocity, foothold, foothold_of, is_foot_term,
    is_foot_velocity,
};
use crate::ik::TWO_BITS;
use crate::lift::{is_input_map, is_state_map, lift_dynamics};
use crate::linear_blocks::{is_linearised, linear_blocks, LinearBlocks};
use crate::linearisation::{continuous_dynamics_full, full_input_entry, full_state_entry};
use crate::rows::zero_row;
use crate::scalar::{nan, zero, Scalar};

verus! {

/// What the solver gave.
#[derive(Debug)]
pub struct QpAnswer {
    /// What it reported.
    pub status: QpStatus,
    /// Decision vector.
    pub z: Vec<Scalar>,
    /// Value of the cost.
    pub objective: Scalar,
}

/// The numeric work of an iteration, supplied by the caller.
pub trait HorizonKernel<M>: DenseAlgebra<M> + BodyAlgebra + LegModel {
    /// The identity on the augmented state.
    fn identity(&self) -> M;

    /// Entry of a block in row `i` and column `j`.
    fn entry(&self, m: &M, i: usize, j: usize) -> Scalar;

    /// Solves a program; `None` when the solver refuses it.
    fn solve(&self, qp: &QpProblem) -> Option<QpAnswer>;
}

/// The kernel gives values of the right size over a horizon of `n` steps.
pub open spec fn fits_horizon<M, K: HorizonKernel<M>>(kernel: &K, n: int) -> bool {
    &&& forall|
        a_x: Vec<M>,
        b_u: Vec<Vec<M>>,
        x_now: Seq<Scalar>,
        x_ref: Vec<Scalar>,
        u_ref: Vec<Scalar>,
        q: Vec<Scalar>,
        r: Vec<Scalar>,
        out: (Vec<Vec<Scalar>>, Vec<Scalar>),
    |
        u_ref@.len() == 24 * n && #[trigger] is_reference_cost(
            kernel,
            a_x,
            b_u,
            x_now,
            x_ref,
            u_ref,
            q,
            r,
            out,
        ) ==> has_shape(out.0@, (24 * n) as nat, (24 * n) as nat) && out.1@.len() == 24 * n
    &&& forall|qp: QpProblem, out: QpAnswer| #[trigger]
        call_ensures(K::solve, (kernel, &qp), Some(out)) ==> out.z@.len() == qp.q@.len()
    &&& forall|a_x: Vec<M>, b_u: Vec<Vec<M>>, x_now: Seq<Scalar>, u: Seq<Scalar>, out: Vec<Scalar>|
        a_x@.len() == n && #[trigger] is_prediction(kernel, a_x, b_u, x_now, u, out) ==> out@.len() == 25 * n
}

/// Stance of the legs at step `k`.
pub open spec fn stance_at(contact: FullCentroidalContactSchedule, k: int) -> Seq<bool> {
    seq![contact.stance(0, k), contact.stance(1, k), contact.stance(2, k), contact.stance(3, k)]
}

/// `ac` and `bc` are the matrices of the rate with the given blocks.
pub open spec fn is_continuous(
    stance: Seq<bool>,
    bl: LinearBlocks,
    ac: Vec<Vec<Scalar>>,
    bc: Vec<Vec<Scalar>>,
) -> bool {
    &&& has_shape(ac@, 25, 25)
    &&& has_shape(bc@, 25, 24)
    &&& forall|i: int, j: int|
        0 <= i < 25 && 0 <= j < 25 ==> #[trigger] ac@[i]@[j] == full_state_entry(
            stance,
            bl.joint_blocks@,
            bl.euler_block,
            bl.rz_t,
            i,
            j,
        )
    &&& forall|i: int, j: int|
        0 <= i < 25 && 0 <= j < 24 ==> #[trigger] bc@[i]@[j] == full_input_entry(
            stance,
            bl.inv_mass,
            bl.force_blocks@,
            i,
            j,
        )
}

/// `a` and `b` are the matrices of step `k`: those of an explicit step under the
/// rate about the reference.
pub open spec fn is_step<M, A: Arithmetic, K: HorizonKernel<M>>(
    ar: &A,
    kernel: &K,
    cfg: FullCentroidalMpcConfig,
    reference: FullCentroidalReference,
    contact: FullCentroidalContactSchedule,
    k: int,
    a: M,
    b: M,
) -> bool {
    exists|
        bl: LinearBlocks,
        ac: Vec<Vec<Scalar>>,
        bc: Vec<Vec<Scalar>>,
        ad: Vec<Vec<Scalar>>,
        bd: Vec<Vec<Scalar>>,
    |
        {
            &&& exact(ar, kernel) ==> is_linearised(
                ar,
                kernel,
                cfg,
                reference.states@[k],
                reference.inputs@[k],
                stance_at(contact, k),
                reference.states@[k].base_euler_zyx.z,
                bl,
            )
            &&& #[trigger] is_continuous(stance_at(contact, k), bl, ac, bc)
            &&& #[trigger] is_euler(ar, ac, bc, cfg.dt_per_step, ad, bd)
            &&& call_ensures(K::block, (kernel, &ad), a)
            &&& call_ensures(K::block, (kernel, &bd), b)
        }
}

fn linear_steps<M, A: Arithmetic, K: HorizonKernel<M>>(
    ar: &A,
    kernel: &K,
    cfg: &FullCentroidalMpcConfig,
    reference: &FullCentroidalReference,
    contact: &FullCentroidalContactSchedule,
    n: usize,
) -> (r: (Vec<M>, Vec<M>))
    requires
        reference.spans(n as int),
        contact.spans(n as int),
    ensures
        r.0@.len() == n,
        r.1@.len() == n,
        forall|k: int|
            0 <= k < n ==> is_step(
                ar,
                kernel,
                *cfg,
                *reference,
                *contact,
                k,
                #[trigger] r.0@[k],
                r.1@[k],
            ),
{
    let mut a: Vec<M> = Vec::new();
    let mut b: Vec<M> = Vec::new();
    let mut k: usize = 0;
    while k < n
        invariant
            k <= n,
            reference.spans(n as int),
            contact.spans(n as int),
            a@.len() == k,
            b@.len() == k,
            forall|i: int|
                0 <= i < k ==> is_step(
                    ar,
                    kernel,
                    *cfg,
                    *reference,
                    *contact,
                    i,
                    #[trigger] a@[i],
                    b@[i],
                ),
        decreases n - k,
    {
        let stance = [
            contact.is_stance[0][k],
            contact.is_stance[1][k],
            contact.is_stance[2][k],
            contact.is_stance[3][k],
        ];
        assert(stance@ =~= stance_at(*contact, k as int));
        let bl = linear_blocks(
            ar,
            kernel,
            cfg,
            &reference.states[k],
            &reference.inputs[k],
            &stance,
            reference.states[k].base_euler_zyx.z,
        );
        let c = continuous_dynamics_full(
            &stance,
            bl.inv_mass,
            &bl.force_blocks,
            &bl.joint_blocks,
            &bl.euler_block,
            &bl.rz_t,
        );
        assert(is_continuous(stance_at(*contact, k as int), bl, c.0, c.1));
        let e = euler_step(ar, &c.0, &c.1, cfg.dt_per_step);
        let d = (kernel.block(&e.0), kernel.block(&e.1));
        assert(is_euler(ar, c.0, c.1, cfg.dt_per_step, e.0, e.1));
        assert(is_step(ar, kernel, *cfg, *reference, *contact, k as int, d.0, d.1));
        a.push(d.0);
        b.push(d.1);
        k += 1;
    }
    (a, b)
}

/// The foot velocities, step after step and leg after leg.
pub open spec fn are_feet<M, A: Arithmetic, K: HorizonKernel<M>>(
    ar: &A,
    kernel: &K,
    cfg: FullCentroidalMpcConfig,
    reference: FullCentroidalReference,
    n: int,
    a_x: Vec<M>,
    b_u: Vec<Vec<M>>,
    x_now: [Scalar; 25],
    feet: Seq<FootVelocity>,
) -> bool {
    &&& feet.len() == 4 * n
    &&& forall|v: int|
        0 <= v < 4 * n ==> is_foot_velocity(
            ar,
            kernel,
            cfg,
            reference.states@[v / 4],
            v % 4,
            v / 4,
            n,
            a_x@,
            b_u@,
            x_now@,
            #[trigger] feet[v],
        )
}

fn leg_at(slot: usize) -> (r: LegId)
    requires
        slot < 4,
    ensures
        r == LegId::at_slot(slot as int),
{
    if slot == 0 {
        LegId::FL
    } else if slot == 1 {
        LegId::FR
    } else if slot == 2 {
        LegId::RL
    } else {
        LegId::RR
    }
}

fn foot_velocities<M, A: Arithmetic, K: HorizonKernel<M>>(
    ar: &A,
    kernel: &K,
    cfg: &FullCentroidalMpcConfig,
    reference: &FullCentroidalReference,
    n: usize,
    a_x: &Vec<M>,
    b_u: &Vec<Vec<M>>,
    x_now: &[Scalar; 25],
) -> (r: Vec<FootVelocity>)
    requires
        reference.spans(n as int),
        32 * n < usize::MAX,
        are_lifted(a_x@, b_u@, n as int),
    ensures
        are_feet(ar, kernel, *cfg, *reference, n as int, *a_x, *b_u, *x_now, r@),
        forall|v: int| 0 <= v < 4 * n ==> (#[trigger] r@[v]).spans(n as int),
{
    let mut feet: Vec<FootVelocity> = Vec::new();
    let total: usize = 4 * n;
    let mut v: usize = 0;
    while v < total
        invariant
            v <= total,
            total == 4 * n,
            reference.spans(n as int),
            32 * n < usize::MAX,
            are_lifted(a_x@, b_u@, n as int),
            feet@.len() == v,
            forall|i: int|
                0 <= i < v ==> is_foot_velocity(
                    ar,
                    kernel,
                    *cfg,
                    reference.states@[i / 4],
                    i % 4,
                    i / 4,
                    n as int,
                    a_x@,
                    b_u@,
                    x_now@,
                    #[trigger] feet@[i],
                ),
            forall|i: int| 0 <= i < v ==> (#[trigger] feet@[i]).spans(n as int),
        decreases total - v,
    {
        let k: usize = v / 4;
        let slot: usize = v % 4;
        let f = foot_velocity(
            ar,
            kernel,
            cfg,
            &reference.states[k],
            leg_at(slot),
            slot,
            k,
            n,
            a_x,
            b_u,
            x_now,
        );
        feet.push(f);
        v += 1;
    }
    feet
}

/// The terms of the first `m` visits: two for each visit with a target, along x
/// and along y.
pub open spec fn are_terms<M, A: Arithmetic, K: HorizonKernel<M>>(
    ar: &A,
    kernel: &K,
    cfg: FullCentroidalMpcConfig,
    reference: FullCentroidalReference,
    contact: FullCentroidalContactSchedule,
    a_x: Vec<M>,
    b_u: Vec<Vec<M>>,
    x_now: [Scalar; 25],
    n: int,
    m: int,
    terms: Seq<FootTerm>,
) -> bool
    decreases m,
{
    if m <= 0 {
        terms.len() == 0
    } else {
        let k = (m - 1) / 4;
        let slot = (m - 1) % 4;
        match contact.foot_xy_target@[slot]@[k] {
            None => are_terms(
                ar,
                kernel,
                cfg,
                reference,
                contact,
                a_x,
                b_u,
                x_now,
                n,
                m - 1,
                terms,
            ),
            Some(target) => {
                let l = terms.len();
                let at = foothold(ar, target, reference.states@[k]);
                &&& l >= 2
                &&& is_foot_term(
                    ar,
                    kernel,
                    cfg,
                    reference.states@[k],
                    slot,
                    0,
                    at.x,
                    k,
                    n,
                    a_x@,
                    b_u@,
                    x_now@,
                    terms[l - 2],
                )
                &&& is_foot_term(
                    ar,
                    kernel,
                    cfg,
                    reference.states@[k],
                    slot,
                    1,
                    at.y,
                    k,
                    n,
                    a_x@,
                    b_u@,
                    x_now@,
                    terms[l - 1],
                )
                &&& are_terms(
                    ar,
                    kernel,
                    cfg,
                    reference,
                    contact,
                    a_x,
                    b_u,
                    x_now,
                    n,
                    m - 1,
                    terms.drop_last().drop_last(),
                )
            },
        }
    }
}

/// `after` is the cost `before` with a term for each planned touch-down, two per
/// target, at twice the weight; the same when the weight is not positive.
pub open spec fn has_terms<M, A: Arithmetic, K: HorizonKernel<M>>(
    ar: &A,
    kernel: &K,
    cfg: FullCentroidalMpcConfig,
    reference: FullCentroidalReference,
    contact: FullCentroidalContactSchedule,
    n: int,
    a_x: Vec<M>,
    b_u: Vec<Vec<M>>,
    x_now: [Scalar; 25],
    before: (Vec<Vec<Scalar>>, Vec<Scalar>),
    after: (Vec<Vec<Scalar>>, Vec<Scalar>),
) -> bool {
    if cfg.q_foot_xy_world.le_spec(zero()) {
        after == before
    } else {
        deterministic(ar) ==> exists|terms: Seq<FootTerm>|
            {
                let w = product(ar, Scalar { bits: TWO_BITS }, cfg.q_foot_xy_world);
                &&& #[trigger] are_terms(
                    ar,
                    kernel,
                    cfg,
                    reference,
                    contact,
                    a_x,
                    b_u,
                    x_now,
                    n,
                    4 * n,
                    terms,
                )
                &&& rows_of(after.0@) == terms_p(ar, w, rows_of(before.0@), terms)
                &&& after.1@ == terms_q(ar, w, before.1@, terms)
            }
    }
}

/// No step of a horizon of `n` has a foothold target.
pub open spec fn is_untargeted(contact: FullCentroidalContactSchedule, n: int) -> bool {
    forall|slot: int, k: int|
        0 <= slot < 4 && 0 <= k < n ==> (#[trigger] contact.foot_xy_target@[slot]@[k]) is None
}

/// Adds the cost of missing the planned touch-downs. Nothing is added when the
/// weight is not positive or no target is set.
pub fn add_foot_xy_soft_cost<M, A: Arithmetic, K: HorizonKernel<M>>(
    ar: &A,
    kernel: &K,
    cfg: &FullCentroidalMpcConfig,
    contact: &FullCentroidalContactSchedule,
    reference: &FullCentroidalReference,
    n: usize,
    a_x: &Vec<M>,
    b_u: &Vec<Vec<M>>,
    x_now: &[Scalar; 25],
    cost: (Vec<Vec<Scalar>>, Vec<Scalar>),
) -> (r: (Vec<Vec<Scalar>>, Vec<Scalar>))
    requires
        reference.spans(n as int),
        contact.spans(n as int),
        32 * n < usize::MAX,
        are_lifted(a_x@, b_u@, n as int),
        has_shape(cost.0@, (24 * n) as nat, (24 * n) as nat),
        cost.1@.len() == 24 * n,
    ensures
        cfg.q_foot_xy_world.le_spec(zero()) || is_untargeted(*contact, n as int) ==> r == cost,
        has_shape(r.0@, (24 * n) as nat, (24 * n) as nat),
        r.1@.len() == 24 * n,
        has_terms(
            ar,
            kernel,
            *cfg,
            *reference,
            *contact,
            n as int,
            *a_x,
            *b_u,
            *x_now,
            cost,
            r,
        ),
{
    if cfg.q_foot_xy_world.le(zero()) {
        return cost;
    }
    let ghost before = cost;
    let w = ar.times(Scalar { bits: TWO_BITS }, cfg.q_foot_xy_world);
    let mut p = cost.0;
    let mut q = cost.1;
    let ghost mut terms = Seq::<FootTerm>::empty();
    let total: usize = 4 * n;
    let mut v: usize = 0;
    while v < total
        invariant
            v <= total,
            total == 4 * n,
            reference.spans(n as int),
            contact.spans(n as int),
            32 * n < usize::MAX,
            are_lifted(a_x@, b_u@, n as int),
            has_shape(p@, (24 * n) as nat, (24 * n) as nat),
            q@.len() == 24 * n,
            is_untargeted(*contact, n as int) ==> p == before.0 && q == before.1,
            are_terms(
                ar,
                kernel,
                *cfg,
                *reference,
                *contact,
                *a_x,
                *b_u,
                *x_now,
                n as int,
                v as int,
                terms,
            ),
            deterministic(ar) ==> rows_of(p@) == terms_p(ar, w, rows_of(before.0@), terms),
            deterministic(ar) ==> q@ == terms_q(ar, w, before.1@, terms),
        decreases total - v,
    {
        let k: usize = v / 4;
        let slot: usize = v % 4;
        assert(contact.is_stance@[slot as int]@.len() == n);
        match contact.foot_xy_target[slot][k] {
            None => {},
            Some(target) => {
                let s = &reference.states[k];
                let leg = leg_at(slot);
                let at = foothold_of(ar, target, s);
                let tx = foot_term(ar, kernel, cfg, s, leg, slot, 0, at.x, k, n, a_x, b_u, x_now);
                let ty = foot_term(ar, kernel, cfg, s, leg, slot, 1, at.y, k, n, a_x, b_u, x_now);
                let first = add_term(ar, w, &p, &q, &tx);
                let second = add_term(ar, w, &first.0, &first.1, &ty);
                proof {
                    let one = terms.push(tx);
                    let two = one.push(ty);
                    assert(one.drop_last() =~= terms);
                    assert(two.drop_last() =~= one);
                    assert(two[two.len() - 2] == tx);
                    let p0 = rows_of(before.0@);
                    assert(terms_p(ar, w, p0, one) == term_p(
                        ar,
                        w,
                        terms_p(ar, w, p0, terms),
                        tx,
                    ));
                    assert(terms_p(ar, w, p0, two) == term_p(ar, w, terms_p(ar, w, p0, one), ty));
                    assert(terms_q(ar, w, before.1@, one) == term_q(
                        ar,
                        w,
                        terms_q(ar, w, before.1@, terms),
                        tx,
                    ));
                    assert(terms_q(ar, w, before.1@, two) == term_q(
                        ar,
                        w,
                        terms_q(ar, w, before.1@, one),
                        ty,
                    ));
                    terms = two;
                }
                p = second.0;
                q = second.1;
            },
        }
        v += 1;
    }
    (p, q)
}

/// What an iteration went through.
pub struct IterationTrace<M> {
    /// The identity on the augmented state.
    pub identity: M,
    /// State matrices of the steps.
    pub a_d: Seq<M>,
    /// Input matrices of the steps.
    pub b_d: Seq<M>,
    /// Lifted state map.
    pub a_x: Vec<M>,
    /// Lifted input map.
    pub b_u: Vec<Vec<M>>,
    /// Present augmented state.
    pub x_now: [Scalar; 25],
    /// Cost over the inputs.
    pub cost: (Vec<Vec<Scalar>>, Vec<Scalar>),
    /// Cost with the touch-downs.
    pub full_cost: (Vec<Vec<Scalar>>, Vec<Scalar>),
    /// Foot velocities.
    pub feet: Vec<FootVelocity>,
    /// Weight of a slack.
    pub slack_weight: Scalar,
    /// The program.
    pub qp: QpProblem,
    /// What the solver gave.
    pub answer: Option<QpAnswer>,
}

/// `cost` is the cost of the inputs for the stacked reference and weights.
pub open spec fn is_cost<M, K: HorizonKernel<M>>(
    kernel: &K,
    cfg: FullCentroidalMpcConfig,
    reference: FullCentroidalReference,
    n: int,
    a_x: Vec<M>,
    b_u: Vec<Vec<M>>,
    x_now: [Scalar; 25],
    cost: (Vec<Vec<Scalar>>, Vec<Scalar>),
) -> bool {
    exists|x_ref: Vec<Scalar>, u_ref: Vec<Scalar>, q: Vec<Scalar>, r: Vec<Scalar>|
        {
            &&& are_stacked(cfg, reference, n, x_ref@, u_ref@, q@, r@)
            &&& #[trigger] is_reference_cost(
                kernel,
                a_x,
                b_u,
                x_now@,
                x_ref,
                u_ref,
                q,
                r,
                cost,
            )
        }
}

/// The reference and the weights one step after the other.
pub open spec fn are_stacked(
    cfg: FullCentroidalMpcConfig,
    reference: FullCentroidalReference,
    n: int,
    x_ref: Seq<Scalar>,
    u_ref: Seq<Scalar>,
    q: Seq<Scalar>,
    r: Seq<Scalar>,
) -> bool {
    &&& x_ref.len() == 25 * n
    &&& u_ref.len() == 24 * n
    &&& q.len() == 25 * n
    &&& r.len() == 24 * n
    &&& forall|k: int|
        0 <= k < n ==> x_ref.subrange(25 * k, 25 * k + 25) == (
        #[trigger] reference.states@[k])@.push(
            Scalar { bits: crate::full_centroidal_mpc::GRAVITY_Z_BITS },
        )
    &&& forall|k: int|
        0 <= k < n ==> u_ref.subrange(24 * k, 24 * k + 24) == (#[trigger] reference.inputs@[k])@
    &&& forall|i: int|
        0 <= i < 25 * n ==> #[trigger] q[i] == (if i % 25 < 24 {
            cfg.q_diag@[i % 25]
        } else {
            zero()
        })
    &&& forall|i: int| 0 <= i < 24 * n ==> #[trigger] r[i] == cfg.r_diag@[i % 24]
}

/// `qp` is the program with the given cost and feet.
pub open spec fn is_program<A: Arithmetic>(
    ar: &A,
    cfg: FullCentroidalMpcConfig,
    contact: FullCentroidalContactSchedule,
    n: int,
    cost: (Vec<Vec<Scalar>>, Vec<Scalar>),
    feet: Seq<FootVelocity>,
    slack_weight: Scalar,
    qp: QpProblem,
) -> bool {
    let s = slack_count(cfg.friction_cone_soft, contact, n);
    &&& qp.p.compresses(padded_cost(rows_of(cost.0@), s, slack_weight), true)
    &&& qp.q@ == cost.1@ + zero_row(s)
    &&& qp.constraints.a.ncols == 24 * n + s
    &&& exists|swing_rhs: Seq<Scalar>|
        {
            &&& qp.constraints.holds_rows(
                #[trigger] equality_rows(cfg, contact, feet, swing_rhs, n),
                inequality_rows(cfg, contact, n),
            )
            &&& deterministic(ar) ==> swing_rhs == swing_right_sides(ar, contact, feet, n)
        }
}

/// `sol` is decoded from the answer; without one it is the reference.
pub open spec fn is_decoded<M, K: HorizonKernel<M>>(
    kernel: &K,
    state_now: FullCentroidalState,
    reference: FullCentroidalReference,
    n: int,
    t: IterationTrace<M>,
    sol: FullCentroidalMpcSolution,
) -> bool {
    match t.answer {
        None => {
            &&& sol.first_input@ == zero_row(24)
            &&& sol.inputs_all_steps@ == reference.inputs@
            &&& sol.predicted_states@ == Seq::new(n as nat, |k: int| state_now)
            &&& sol.objective == nan()
            &&& !sol.solved
        },
        Some(answer) => {
            &&& sol.solved == (answer.status == QpStatus::Solved || answer.status
                == QpStatus::AlmostSolved)
            &&& sol.objective == answer.objective
            &&& sol.first_input == sol.inputs_all_steps@[0]
            &&& forall|k: int|
                0 <= k < n ==> (#[trigger] sol.inputs_all_steps@[k])@ == answer.z@.subrange(
                    24 * k,
                    24 * k + 24,
                )
            &&& exists|x: Vec<Scalar>|
                {
                    &&& #[trigger] is_prediction(
                        kernel,
                        t.a_x,
                        t.b_u,
                        t.x_now@,
                        answer.z@.subrange(0, 24 * n),
                        x,
                    )
                    &&& forall|k: int|
                        0 <= k < n ==> (#[trigger] sol.predicted_states@[k])@ == x@.subrange(
                            25 * k,
                            25 * k + 24,
                        )
                }
        },
    }
}

/// `t` is a run of one iteration about a reference, up to the solver's answer.
pub open spec fn is_iteration<M, A: Arithmetic, K: HorizonKernel<M>>(
    ar: &A,
    kernel: &K,
    cfg: FullCentroidalMpcConfig,
    state_now: FullCentroidalState,
    reference: FullCentroidalReference,
    contact: FullCentroidalContactSchedule,
    n: int,
    t: IterationTrace<M>,
) -> bool {
    &&& t.a_d.len() == n
    &&& t.b_d.len() == n
    &&& forall|k: int|
        0 <= k < n ==> is_step(
            ar,
            kernel,
            cfg,
            reference,
            contact,
            k,
            #[trigger] t.a_d[k],
            t.b_d[k],
        )
    &&& is_state_map(kernel, t.identity, t.a_d, t.a_x@)
    &&& is_input_map(kernel, t.identity, t.a_d, t.b_d, t.b_u@)
    &&& t.x_now@ == state_now@.push(Scalar { bits: crate::full_centroidal_mpc::GRAVITY_Z_BITS })
    &&& is_cost(kernel, cfg, reference, n, t.a_x, t.b_u, t.x_now, t.cost)
    &&& has_terms(
        ar,
        kernel,
        cfg,
        reference,
        contact,
        n,
        t.a_x,
        t.b_u,
        t.x_now,
        t.cost,
        t.full_cost,
    )
    &&& are_feet(ar, kernel, cfg, reference, n, t.a_x, t.b_u, t.x_now, t.feet@)
    &&& deterministic(ar) ==> t.slack_weight == product(
        ar,
        Scalar { bits: TWO_BITS },
        cfg.friction_cone_slack_penalty,
    )
    &&& is_program(ar, cfg, contact, n, t.full_cost, t.feet@, t.slack_weight, t.qp)
    &&& call_ensures(K::solve, (kernel, &t.qp), t.answer)
}

/// `sol` is the outcome of one iteration.
pub open spec fn iterates<M, A: Arithmetic, K: HorizonKernel<M>>(
    ar: &A,
    kernel: &K,
    cfg: FullCentroidalMpcConfig,
    state_now: FullCentroidalState,
    reference: FullCentroidalReference,
    contact: FullCentroidalContactSchedule,
    n: int,
    sol: FullCentroidalMpcSolution,
) -> bool {
    exists|t: IterationTrace<M>|
        {
            &&& #[trigger] is_iteration(ar, kernel, cfg, state_now, reference, contact, n, t)
            &&& is_decoded(kernel, state_now, reference, n, t, sol)
        }
}

/// `sols` are the outcomes of iterations about the references `refs`, each of
/// them the trajectory of the previous outcome when that was solved.
pub open spec fn is_run<M, A: Arithmetic, K: HorizonKernel<M>>(
    ar: &A,
    kernel: &K,
    cfg: FullCentroidalMpcConfig,
    state_now: FullCentroidalState,
    contact: FullCentroidalContactSchedule,
    n: int,
    refs: Seq<FullCentroidalReference>,
    sols: Seq<FullCentroidalMpcSolution>,
) -> bool {
    &&& refs.len() == sols.len()
    &&& forall|i: int|
        0 <= i < sols.len() ==> iterates(
            ar,
            kernel,
            cfg,
            state_now,
            refs[i],
            contact,
            n,
            #[trigger] sols[i],
        )
    &&& forall|i: int|
        0 <= i < sols.len() - 1 ==> refs[i + 1]@ == (if (#[trigger] sols[i]).solved {
            sols[i].trajectory()
        } else {
            refs[i]@
        })
}

impl FullCentroidalMpc {
    /// Solves about a reference once.
    pub fn solve_one_iter<M, A: Arithmetic, K: HorizonKernel<M>>(
        &self,
        ar: &A,
        kernel: &K,
        state_now: &FullCentroidalState,
        reference: &FullCentroidalReference,
        contact: &FullCentroidalContactSchedule,
    ) -> (r: FullCentroidalMpcSolution)
        requires
            reference.spans(self.cfg.horizon_steps as int),
            contact.spans(self.cfg.horizon_steps as int),
            0 < self.cfg.horizon_steps,
            32 * self.cfg.horizon_steps < usize::MAX,
            fits_horizon(kernel, self.cfg.horizon_steps as int),
        ensures
            r.spans(self.cfg.horizon_steps as int),
            iterates(
                ar,
                kernel,
                self.cfg,
                *state_now,
                *reference,
                *contact,
                self.cfg.horizon_steps as int,
                r,
            ),
    {
        let n: usize = self.cfg.horizon_steps;
        let steps = linear_steps(ar, kernel, &self.cfg, reference, contact, n);
        let identity = kernel.identity();
        let lifted = lift_dynamics(&steps.0, &steps.1, &identity, kernel);
        let a_x = lifted.0;
        let b_u = lifted.1;
        assert(are_lifted(a_x@, b_u@, n as int));
        let x_now = state_to_vec_aug(state_now);
        let cost = cost_of(kernel, &self.cfg, reference, n, &a_x, &b_u, &x_now);
        let ghost first_cost = cost;
        let full = add_foot_xy_soft_cost(
            ar,
            kernel,
            &self.cfg,
            contact,
            reference,
            n,
            &a_x,
            &b_u,
            &x_now,
            cost,
        );
        let feet = foot_velocities(ar, kernel, &self.cfg, reference, n, &a_x, &b_u, &x_now);
        let weight = ar.times(Scalar { bits: TWO_BITS }, self.cfg.friction_cone_slack_penalty);
        let qp = assemble_qp(ar, &self.cfg, contact, &feet, &full.0, &full.1, weight, n);
        let answer = kernel.solve(&qp);
        let ghost t = IterationTrace {
            identity,
            a_d: steps.0@,
            b_d: steps.1@,
            a_x,
            b_u,
            x_now,
            cost: first_cost,
            full_cost: full,
            feet,
            slack_weight: weight,
            qp,
            answer,
        };
        assert(is_program(ar, self.cfg, *contact, n as int, full, feet@, weight, qp));
        assert(is_iteration(
            ar,
            kernel,
            self.cfg,
            *state_now,
            *reference,
            *contact,
            n as int,
            t,
        ));
        match answer {
            None => {
                let r = failed_solution(state_now, &reference.inputs, n);
                assert(is_decoded(kernel, *state_now, *reference, n as int, t, r));
                r
            },
            Some(answer) => {
                let u = front(&answer.z, 24 * n);
                let x = prediction(kernel, &a_x, &b_u, listed(&x_now), u);
                let r = decode_solution(answer.status, &answer.z, &x, answer.objective, n);
                assert(is_decoded(kernel, *state_now, *reference, n as int, t, r));
                r
            },
        }
    }
}

impl FullCentroidalMpc {
    /// Solves the horizon by repeated iterations on a kernel, from the cached
    /// trajectory when warm starting.
    pub fn solve_with<M, A: Arithmetic, K: HorizonKernel<M>>(
        &mut self,
        ar: &A,
        kernel: &K,
        state_now: FullCentroidalState,
        reference: &FullCentroidalReference,
        contact: &FullCentroidalContactSchedule,
    ) -> (r: FullCentroidalMpcSolution)
        requires
            reference.spans(old(self).cfg.horizon_steps as int),
            contact.spans(old(self).cfg.horizon_steps as int),
            0 < old(self).cfg.horizon_steps,
            32 * old(self).cfg.horizon_steps < usize::MAX,
            fits_horizon(kernel, old(self).cfg.horizon_steps as int),
        ensures
            r.spans(old(self).cfg.horizon_steps as int),
            caches(*old(self), r, *final(self)),
            exists|refs: Seq<FullCentroidalReference>, sols: Seq<FullCentroidalMpcSolution>|
                {
                    &&& #[trigger] is_run(
                        ar,
                        kernel,
                        old(self).cfg,
                        state_now,
                        *contact,
                        old(self).cfg.horizon_steps as int,
                        refs,
                        sols,
                    )
                    &&& sols.len() == iteration_count(old(self).cfg)
                    &&& refs[0]@ == initial_reference(
                        *old(self),
                        *reference,
                        old(self).cfg.horizon_steps as int,
                    )
                    &&& r == sols.last()
                },
    {
        let held = FullCentroidalMpc { cfg: self.cfg.clone(), warm_start_cache: None };
        let once = &held;
        let ghost n = self.cfg.horizon_steps as int;
        let ghost cfg = self.cfg;
        let one_iter = |
            s: &FullCentroidalState,
            at: &FullCentroidalReference,
            c: &FullCentroidalContactSchedule,
        | -> (sol: FullCentroidalMpcSolution)
            requires
                at.spans(once.cfg.horizon_steps as int),
                c.spans(once.cfg.horizon_steps as int),
            ensures
                sol.spans(once.cfg.horizon_steps as int),
                iterates(ar, kernel, once.cfg, *s, *at, *c, once.cfg.horizon_steps as int, sol),
            { once.solve_one_iter(ar, kernel, s, at, c) };
        let r = self.solve(state_now, reference, contact, one_iter);
        proof {
            let (refs, sols) = choose|
                refs: Seq<FullCentroidalReference>,
                sols: Seq<FullCentroidalMpcSolution>,
            |
                {
                    &&& #[trigger] is_sqp_run(one_iter, state_now, *contact, refs, sols)
                    &&& sols.len() == iteration_count(cfg)
                    &&& refs[0]@ == initial_reference(*old(self), *reference, n)
                    &&& r == sols.last()
                };
            assert(is_run(ar, kernel, cfg, state_now, *contact, n, refs, sols)) by {
                assert forall|i: int| 0 <= i < sols.len() implies iterates(
                    ar,
                    kernel,
                    cfg,
                    state_now,
                    refs[i],
                    *contact,
                    n,
                    #[trigger] sols[i],
                ) by {
                    assert(call_ensures(one_iter, (&state_now, &refs[i], contact), sols[i]));
                }
            }
        }
        r
    }
}

fn cost_of<M, K: HorizonKernel<M>>(
    kernel: &K,
    cfg: &FullCentroidalMpcConfig,
    reference: &FullCentroidalReference,
    n: usize,
    a_x: &Vec<M>,
    b_u: &Vec<Vec<M>>,
    x_now: &[Scalar; 25],
) -> (r: (Vec<Vec<Scalar>>, Vec<Scalar>))
    requires
        reference.spans(n as int),
        25 * n <= usize::MAX,
        fits_horizon(kernel, n as int),
    ensures
        has_shape(r.0@, (24 * n) as nat, (24 * n) as nat),
        r.1@.len() == 24 * n,
        is_cost(kernel, *cfg, *reference, n as int, *a_x, *b_u, *x_now, r),
{
    let q = state_cost_diagonal(&cfg.q_diag, n);
    let r = input_cost_diagonal(&cfg.r_diag, n);
    let x_ref = stack_states(&reference.states);
    let u_ref = stack_inputs(&reference.inputs);
    assert(are_stacked(*cfg, *reference, n as int, x_ref@, u_ref@, q@, r@));
    reference_cost(kernel, a_x, b_u, listed(x_now), &x_ref, &u_ref, &q, &r)
}

} // verus!
