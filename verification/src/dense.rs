//! Costs and predictions of a linear system over a horizon, composed of single
//! operations on the caller's matrices.
//!
//! With the lifted maps `A` and `B` of [`crate::lift`], the states of the horizon
//! are `A x + B u`. The weights `Q` and `R` make the cost of the inputs
//! `u' P u / 2 + l' u` with `P = 2 (B' Q B + R)` and `l = 2 (B' Q (A x - x_ref) - R u_ref)`.

use vstd::prelude::*;
use crate::ik::TWO_BITS;
use crate::lift::BlockAlgebra;
use crate::scalar::Scalar;

verus! {

/// Single operations on the caller's matrices.
pub trait DenseAlgebra<M>: BlockAlgebra<M> {
    /// The matrix with the given rows.
    fn block(&self, rows: &Vec<Vec<Scalar>>) -> M;

    /// The column with the given entries.
    fn column(&self, entries: &Vec<Scalar>) -> M;

    /// The diagonal matrix with the given entries.
    fn diagonal(&self, entries: &Vec<Scalar>) -> M;

    /// The blocks one below the other.
    fn stacked(&self, blocks: &Vec<M>) -> M;

    /// Rows of blocks one below the other, each filled up with zeros on the right.
    fn stepped(&self, rows: &Vec<Vec<M>>) -> M;

    /// The rows of a matrix.
    fn rows(&self, m: &M) -> Vec<Vec<Scalar>>;

    /// The entries of a column.
    fn entries(&self, m: &M) -> Vec<Scalar>;

    /// `a + b`.
    fn plus(&self, a: &M, b: &M) -> M;

    /// `a - b`.
    fn minus(&self, a: &M, b: &M) -> M;

    /// `k m`.
    fn scaled(&self, k: Scalar, m: &M) -> M;

    /// `m'`.
    fn transposed(&self, m: &M) -> M;

    /// `a` with `s a == b`; `None` when `s` is singular.
    fn solved(&self, s: &M, b: &M) -> Option<M>;
}

/// What the computation of a cost went through.
pub struct CostSteps<M> {
    /// Present state.
    pub x: Vec<Scalar>,
    /// State map `A`.
    pub a: M,
    /// Input map `B`.
    pub b: M,
    /// Present state as a column.
    pub x0: M,
    /// Reference states.
    pub x_ref: M,
    /// State weights `Q`.
    pub q: M,
    /// Input weights `R`.
    pub r: M,
    /// `B'`.
    pub b_t: M,
    /// `B' Q`.
    pub b_t_q: M,
    /// `B' Q B`.
    pub b_t_q_b: M,
    /// `B' Q B + R`.
    pub half_p: M,
    /// `2 (B' Q B + R)`.
    pub p: M,
    /// `A x`.
    pub a_x0: M,
    /// `A x - x_ref`.
    pub drift: M,
    /// `B' Q (A x - x_ref)`.
    pub pull: M,
}

/// `t` is the part of a cost that does not depend on reference inputs.
pub open spec fn are_cost_steps<M, K: DenseAlgebra<M>>(
    kernel: &K,
    a_x: Vec<M>,
    b_u: Vec<Vec<M>>,
    x_now: Seq<Scalar>,
    x_ref: Vec<Scalar>,
    q_diag: Vec<Scalar>,
    r_diag: Vec<Scalar>,
    t: CostSteps<M>,
) -> bool {
    &&& t.x@ == x_now
    &&& call_ensures(K::stacked, (kernel, &a_x), t.a)
    &&& call_ensures(K::stepped, (kernel, &b_u), t.b)
    &&& call_ensures(K::column, (kernel, &t.x), t.x0)
    &&& call_ensures(K::column, (kernel, &x_ref), t.x_ref)
    &&& call_ensures(K::diagonal, (kernel, &q_diag), t.q)
    &&& call_ensures(K::diagonal, (kernel, &r_diag), t.r)
    &&& call_ensures(K::transposed, (kernel, &t.b), t.b_t)
    &&& call_ensures(K::times, (kernel, &t.b_t, &t.q), t.b_t_q)
    &&& call_ensures(K::times, (kernel, &t.b_t_q, &t.b), t.b_t_q_b)
    &&& call_ensures(K::plus, (kernel, &t.b_t_q_b, &t.r), t.half_p)
    &&& call_ensures(K::scaled, (kernel, Scalar { bits: TWO_BITS }, &t.half_p), t.p)
    &&& call_ensures(K::times, (kernel, &t.a, &t.x0), t.a_x0)
    &&& call_ensures(K::minus, (kernel, &t.a_x0, &t.x_ref), t.drift)
    &&& call_ensures(K::times, (kernel, &t.b_t_q, &t.drift), t.pull)
}

/// `l` is `2 (B' Q (A x - x_ref))`, and `out` holds the cost `P`, `l`.
pub open spec fn ends_cost<M, K: DenseAlgebra<M>>(
    kernel: &K,
    t: CostSteps<M>,
    l: M,
    out: (Vec<Vec<Scalar>>, Vec<Scalar>),
) -> bool {
    &&& call_ensures(K::scaled, (kernel, Scalar { bits: TWO_BITS }, &t.pull), l)
    &&& call_ensures(K::rows, (kernel, &t.p), out.0)
    &&& call_ensures(K::entries, (kernel, &l), out.1)
}

/// `l` is `2 (B' Q (A x - x_ref) - R u_ref)`, and `out` holds the cost `P`, `l`.
pub open spec fn ends_cost_toward<M, K: DenseAlgebra<M>>(
    kernel: &K,
    t: CostSteps<M>,
    u_ref: Vec<Scalar>,
    u: M,
    r_u: M,
    d: M,
    l: M,
    out: (Vec<Vec<Scalar>>, Vec<Scalar>),
) -> bool {
    &&& call_ensures(K::column, (kernel, &u_ref), u)
    &&& call_ensures(K::times, (kernel, &t.r, &u), r_u)
    &&& call_ensures(K::minus, (kernel, &t.pull, &r_u), d)
    &&& call_ensures(K::scaled, (kernel, Scalar { bits: TWO_BITS }, &d), l)
    &&& call_ensures(K::rows, (kernel, &t.p), out.0)
    &&& call_ensures(K::entries, (kernel, &l), out.1)
}

/// `out` is the cost of tracking the states with inputs that are weighed by
/// themselves.
pub open spec fn is_tracking_cost<M, K: DenseAlgebra<M>>(
    kernel: &K,
    a_x: Vec<M>,
    b_u: Vec<Vec<M>>,
    x_now: Seq<Scalar>,
    x_ref: Vec<Scalar>,
    q_diag: Vec<Scalar>,
    r_diag: Vec<Scalar>,
    out: (Vec<Vec<Scalar>>, Vec<Scalar>),
) -> bool {
    exists|t: CostSteps<M>, l: M|
        {
            &&& are_cost_steps(kernel, a_x, b_u, x_now, x_ref, q_diag, r_diag, t)
            &&& #[trigger] ends_cost(kernel, t, l, out)
        }
}

/// `out` is the cost of tracking the states and the inputs of a reference.
pub open spec fn is_reference_cost<M, K: DenseAlgebra<M>>(
    kernel: &K,
    a_x: Vec<M>,
    b_u: Vec<Vec<M>>,
    x_now: Seq<Scalar>,
    x_ref: Vec<Scalar>,
    u_ref: Vec<Scalar>,
    q_diag: Vec<Scalar>,
    r_diag: Vec<Scalar>,
    out: (Vec<Vec<Scalar>>, Vec<Scalar>),
) -> bool {
    exists|t: CostSteps<M>, u: M, r_u: M, d: M, l: M|
        {
            &&& are_cost_steps(kernel, a_x, b_u, x_now, x_ref, q_diag, r_diag, t)
            &&& #[trigger] ends_cost_toward(kernel, t, u_ref, u, r_u, d, l, out)
        }
}

/// What a prediction went through.
pub struct PredictionSteps<M> {
    /// Present state.
    pub x: Vec<Scalar>,
    /// Inputs.
    pub u: Vec<Scalar>,
    /// State map `A`.
    pub a: M,
    /// Input map `B`.
    pub b: M,
    /// Present state as a column.
    pub x0: M,
    /// Inputs as a column.
    pub u0: M,
    /// `A x`.
    pub a_x0: M,
    /// `B u`.
    pub b_u0: M,
    /// `A x + B u`.
    pub states: M,
}

/// `t` went through `A x + B u` and gave `out`.
pub open spec fn are_prediction_steps<M, K: DenseAlgebra<M>>(
    kernel: &K,
    a_x: Vec<M>,
    b_u: Vec<Vec<M>>,
    x_now: Seq<Scalar>,
    u: Seq<Scalar>,
    t: PredictionSteps<M>,
    out: Vec<Scalar>,
) -> bool {
    &&& t.x@ == x_now
    &&& t.u@ == u
    &&& call_ensures(K::stacked, (kernel, &a_x), t.a)
    &&& call_ensures(K::stepped, (kernel, &b_u), t.b)
    &&& call_ensures(K::column, (kernel, &t.x), t.x0)
    &&& call_ensures(K::column, (kernel, &t.u), t.u0)
    &&& call_ensures(K::times, (kernel, &t.a, &t.x0), t.a_x0)
    &&& call_ensures(K::times, (kernel, &t.b, &t.u0), t.b_u0)
    &&& call_ensures(K::plus, (kernel, &t.a_x0, &t.b_u0), t.states)
    &&& call_ensures(K::entries, (kernel, &t.states), out)
}

/// `out` are the states `A x + B u` of the horizon.
pub open spec fn is_prediction<M, K: DenseAlgebra<M>>(
    kernel: &K,
    a_x: Vec<M>,
    b_u: Vec<Vec<M>>,
    x_now: Seq<Scalar>,
    u: Seq<Scalar>,
    out: Vec<Scalar>,
) -> bool {
    exists|t: PredictionSteps<M>| #[trigger]
        are_prediction_steps(kernel, a_x, b_u, x_now, u, t, out)
}

/// The entries of an array.
pub fn listed<const N: usize>(a: &[Scalar; N]) -> (r: Vec<Scalar>)
    ensures
        r@ == a@,
{
    let mut r: Vec<Scalar> = Vec::new();
    let mut i: usize = 0;
    while i < N
        invariant
            i <= N,
            r@ == a@.subrange(0, i as int),
        decreases N - i,
    {
        r.push(a[i]);
        i += 1;
        assert(r@ =~= a@.subrange(0, i as int));
    }
    assert(r@ =~= a@);
    r
}

/// The first `m` entries of a list.
pub fn front(z: &Vec<Scalar>, m: usize) -> (r: Vec<Scalar>)
    requires
        m <= z@.len(),
    ensures
        r@ == z@.subrange(0, m as int),
{
    let mut r: Vec<Scalar> = Vec::new();
    let mut i: usize = 0;
    while i < m
        invariant
            i <= m <= z@.len(),
            r@ == z@.subrange(0, i as int),
        decreases m - i,
    {
        r.push(z[i]);
        i += 1;
        assert(r@ =~= z@.subrange(0, i as int));
    }
    r
}

fn cost_steps<M, K: DenseAlgebra<M>>(
    kernel: &K,
    a_x: &Vec<M>,
    b_u: &Vec<Vec<M>>,
    x: Vec<Scalar>,
    x_ref: &Vec<Scalar>,
    q_diag: &Vec<Scalar>,
    r_diag: &Vec<Scalar>,
) -> (t: CostSteps<M>)
    ensures
        are_cost_steps(kernel, *a_x, *b_u, x@, *x_ref, *q_diag, *r_diag, t),
{
    let two = Scalar { bits: TWO_BITS };
    let a = kernel.stacked(a_x);
    let b = kernel.stepped(b_u);
    let x0 = kernel.column(&x);
    let x_ref = kernel.column(x_ref);
    let q = kernel.diagonal(q_diag);
    let r = kernel.diagonal(r_diag);
    let b_t = kernel.transposed(&b);
    let b_t_q = kernel.times(&b_t, &q);
    let b_t_q_b = kernel.times(&b_t_q, &b);
    let half_p = kernel.plus(&b_t_q_b, &r);
    let p = kernel.scaled(two, &half_p);
    let a_x0 = kernel.times(&a, &x0);
    let drift = kernel.minus(&a_x0, &x_ref);
    let pull = kernel.times(&b_t_q, &drift);
    CostSteps { x, a, b, x0, x_ref, q, r, b_t, b_t_q, b_t_q_b, half_p, p, a_x0, drift, pull }
}

/// The cost of tracking the states with inputs that are weighed by themselves.
pub fn tracking_cost<M, K: DenseAlgebra<M>>(
    kernel: &K,
    a_x: &Vec<M>,
    b_u: &Vec<Vec<M>>,
    x: Vec<Scalar>,
    x_ref: &Vec<Scalar>,
    q_diag: &Vec<Scalar>,
    r_diag: &Vec<Scalar>,
) -> (out: (Vec<Vec<Scalar>>, Vec<Scalar>))
    ensures
        is_tracking_cost(kernel, *a_x, *b_u, x@, *x_ref, *q_diag, *r_diag, out),
{
    let t = cost_steps(kernel, a_x, b_u, x, x_ref, q_diag, r_diag);
    let l = kernel.scaled(Scalar { bits: TWO_BITS }, &t.pull);
    let out = (kernel.rows(&t.p), kernel.entries(&l));
    assert(ends_cost(kernel, t, l, out));
    out
}

/// The cost of tracking the states and the inputs of a reference.
pub fn reference_cost<M, K: DenseAlgebra<M>>(
    kernel: &K,
    a_x: &Vec<M>,
    b_u: &Vec<Vec<M>>,
    x: Vec<Scalar>,
    x_ref: &Vec<Scalar>,
    u_ref: &Vec<Scalar>,
    q_diag: &Vec<Scalar>,
    r_diag: &Vec<Scalar>,
) -> (out: (Vec<Vec<Scalar>>, Vec<Scalar>))
    ensures
        is_reference_cost(kernel, *a_x, *b_u, x@, *x_ref, *u_ref, *q_diag, *r_diag, out),
{
    let t = cost_steps(kernel, a_x, b_u, x, x_ref, q_diag, r_diag);
    let u = kernel.column(u_ref);
    let r_u = kernel.times(&t.r, &u);
    let d = kernel.minus(&t.pull, &r_u);
    let l = kernel.scaled(Scalar { bits: TWO_BITS }, &d);
    let out = (kernel.rows(&t.p), kernel.entries(&l));
    assert(ends_cost_toward(kernel, t, *u_ref, u, r_u, d, l, out));
    out
}

/// The states `A x + B u` of the horizon.
pub fn prediction<M, K: DenseAlgebra<M>>(
    kernel: &K,
    a_x: &Vec<M>,
    b_u: &Vec<Vec<M>>,
    x: Vec<Scalar>,
    u: Vec<Scalar>,
) -> (out: Vec<Scalar>)
    ensures
        is_prediction(kernel, *a_x, *b_u, x@, u@, out),
{
    let a = kernel.stacked(a_x);
    let b = kernel.stepped(b_u);
    let x0 = kernel.column(&x);
    let u0 = kernel.column(&u);
    let a_x0 = kernel.times(&a, &x0);
    let b_u0 = kernel.times(&b, &u0);
    let states = kernel.plus(&a_x0, &b_u0);
    let out = kernel.entries(&states);
    let ghost t = PredictionSteps { x, u, a, b, x0, u0, a_x0, b_u0, states };
    assert(are_prediction_steps(kernel, *a_x, *b_u, x@, u@, t, out));
    out
}

} // verus!
