//! The equations of a Kalman filter, composed of single operations on the caller's
//! matrices.

use vstd::prelude::*;
use crate::dense::DenseAlgebra;
use crate::scalar::{one, Scalar, Vec3};

verus! {

/// What the prediction of a state went through.
pub struct StateSteps<M> {
    /// The input as a list.
    pub input: Vec<Scalar>,
    /// `a`.
    pub a: M,
    /// `x`.
    pub x: M,
    /// `b`.
    pub b: M,
    /// `u`.
    pub u: M,
    /// `a x`.
    pub a_x: M,
    /// `b u`.
    pub b_u: M,
    /// `a x + b u`.
    pub next: M,
}

/// `t` went through `a x + b u` and gave `out`.
pub open spec fn are_state_steps<M, L: DenseAlgebra<M>>(
    la: &L,
    a: Vec<Vec<Scalar>>,
    x: Vec<Scalar>,
    b: Vec<Vec<Scalar>>,
    u: Vec3,
    t: StateSteps<M>,
    out: Vec<Scalar>,
) -> bool {
    &&& t.input@ == seq![u.x, u.y, u.z]
    &&& call_ensures(L::block, (la, &a), t.a)
    &&& call_ensures(L::column, (la, &x), t.x)
    &&& call_ensures(L::block, (la, &b), t.b)
    &&& call_ensures(L::column, (la, &t.input), t.u)
    &&& call_ensures(L::times, (la, &t.a, &t.x), t.a_x)
    &&& call_ensures(L::times, (la, &t.b, &t.u), t.b_u)
    &&& call_ensures(L::plus, (la, &t.a_x, &t.b_u), t.next)
    &&& call_ensures(L::entries, (la, &t.next), out)
}

/// `out` is `a x + b u`.
pub open spec fn is_next_state<M, L: DenseAlgebra<M>>(
    la: &L,
    a: Vec<Vec<Scalar>>,
    x: Vec<Scalar>,
    b: Vec<Vec<Scalar>>,
    u: Vec3,
    out: Vec<Scalar>,
) -> bool {
    exists|t: StateSteps<M>| #[trigger] are_state_steps(la, a, x, b, u, t, out)
}

/// `a x + b u`.
pub fn next_state<M, L: DenseAlgebra<M>>(
    la: &L,
    a: &Vec<Vec<Scalar>>,
    x: &Vec<Scalar>,
    b: &Vec<Vec<Scalar>>,
    u: Vec3,
) -> (out: Vec<Scalar>)
    ensures
        is_next_state::<M, L>(la, *a, *x, *b, u, out),
{
    let input = vec![u.x, u.y, u.z];
    assert(input@ =~= seq![u.x, u.y, u.z]);
    let am = la.block(a);
    let xm = la.column(x);
    let bm = la.block(b);
    let um = la.column(&input);
    let a_x = la.times(&am, &xm);
    let b_u = la.times(&bm, &um);
    let next = la.plus(&a_x, &b_u);
    let out = la.entries(&next);
    let ghost t = StateSteps { input, a: am, x: xm, b: bm, u: um, a_x, b_u, next };
    assert(are_state_steps(la, *a, *x, *b, u, t, out));
    out
}

/// What carrying a covariance through a map went through.
pub struct SpreadSteps<M> {
    /// `a`.
    pub a: M,
    /// `p`.
    pub p: M,
    /// `q`.
    pub q: M,
    /// `a'`.
    pub a_t: M,
    /// `a p`.
    pub a_p: M,
    /// `a p a'`.
    pub a_p_a_t: M,
    /// `a p a' + q`.
    pub spread: M,
}

/// `t` went through `a p a' + q` and gave `out`.
pub open spec fn are_spread_steps<M, L: DenseAlgebra<M>>(
    la: &L,
    a: Vec<Vec<Scalar>>,
    p: Vec<Vec<Scalar>>,
    q: Vec<Vec<Scalar>>,
    t: SpreadSteps<M>,
    out: Vec<Vec<Scalar>>,
) -> bool {
    &&& call_ensures(L::block, (la, &a), t.a)
    &&& call_ensures(L::block, (la, &p), t.p)
    &&& call_ensures(L::block, (la, &q), t.q)
    &&& call_ensures(L::transposed, (la, &t.a), t.a_t)
    &&& call_ensures(L::times, (la, &t.a, &t.p), t.a_p)
    &&& call_ensures(L::times, (la, &t.a_p, &t.a_t), t.a_p_a_t)
    &&& call_ensures(L::plus, (la, &t.a_p_a_t, &t.q), t.spread)
    &&& call_ensures(L::rows, (la, &t.spread), out)
}

/// `out` is `a p a' + q`.
pub open spec fn is_spread<M, L: DenseAlgebra<M>>(
    la: &L,
    a: Vec<Vec<Scalar>>,
    p: Vec<Vec<Scalar>>,
    q: Vec<Vec<Scalar>>,
    out: Vec<Vec<Scalar>>,
) -> bool {
    exists|t: SpreadSteps<M>| #[trigger] are_spread_steps(la, a, p, q, t, out)
}

/// `a p a' + q`.
pub fn spread<M, L: DenseAlgebra<M>>(
    la: &L,
    a: &Vec<Vec<Scalar>>,
    p: &Vec<Vec<Scalar>>,
    q: &Vec<Vec<Scalar>>,
) -> (out: Vec<Vec<Scalar>>)
    ensures
        is_spread::<M, L>(la, *a, *p, *q, out),
{
    let am = la.block(a);
    let pm = la.block(p);
    let qm = la.block(q);
    let a_t = la.transposed(&am);
    let a_p = la.times(&am, &pm);
    let a_p_a_t = la.times(&a_p, &a_t);
    let sum = la.plus(&a_p_a_t, &qm);
    let out = la.rows(&sum);
    let ghost t = SpreadSteps { a: am, p: pm, q: qm, a_t, a_p, a_p_a_t, spread: sum };
    assert(are_spread_steps(la, *a, *p, *q, t, out));
    out
}

/// What an innovation went through.
pub struct InnovationSteps<M> {
    /// `y`.
    pub y: M,
    /// `c`.
    pub c: M,
    /// `x`.
    pub x: M,
    /// `c x`.
    pub c_x: M,
    /// `y - c x`.
    pub e: M,
}

/// `t` went through `y - c x` and gave `out`.
pub open spec fn are_innovation_steps<M, L: DenseAlgebra<M>>(
    la: &L,
    y: Vec<Scalar>,
    c: Vec<Vec<Scalar>>,
    x: Vec<Scalar>,
    t: InnovationSteps<M>,
    out: Vec<Scalar>,
) -> bool {
    &&& call_ensures(L::column, (la, &y), t.y)
    &&& call_ensures(L::block, (la, &c), t.c)
    &&& call_ensures(L::column, (la, &x), t.x)
    &&& call_ensures(L::times, (la, &t.c, &t.x), t.c_x)
    &&& call_ensures(L::minus, (la, &t.y, &t.c_x), t.e)
    &&& call_ensures(L::entries, (la, &t.e), out)
}

/// `out` is `y - c x`.
pub open spec fn is_innovation<M, L: DenseAlgebra<M>>(
    la: &L,
    y: Vec<Scalar>,
    c: Vec<Vec<Scalar>>,
    x: Vec<Scalar>,
    out: Vec<Scalar>,
) -> bool {
    exists|t: InnovationSteps<M>| #[trigger] are_innovation_steps(la, y, c, x, t, out)
}

/// `y - c x`.
pub fn innovation<M, L: DenseAlgebra<M>>(
    la: &L,
    y: &Vec<Scalar>,
    c: &Vec<Vec<Scalar>>,
    x: &Vec<Scalar>,
) -> (out: Vec<Scalar>)
    ensures
        is_innovation::<M, L>(la, *y, *c, *x, out),
{
    let ym = la.column(y);
    let cm = la.block(c);
    let xm = la.column(x);
    let c_x = la.times(&cm, &xm);
    let e = la.minus(&ym, &c_x);
    let out = la.entries(&e);
    let ghost t = InnovationSteps { y: ym, c: cm, x: xm, c_x, e };
    assert(are_innovation_steps(la, *y, *c, *x, t, out));
    out
}

/// What a gain went through: `p c' d` with `s d == b`.
pub struct GainSteps<M> {
    /// `p`.
    pub p: M,
    /// `c`.
    pub c: M,
    /// `s`.
    pub s: M,
    /// `c'`.
    pub c_t: M,
    /// `p c'`.
    pub p_c_t: M,
}

/// `t` holds the matrices of a gain.
pub open spec fn are_gain_steps<M, L: DenseAlgebra<M>>(
    la: &L,
    p: Vec<Vec<Scalar>>,
    c: Vec<Vec<Scalar>>,
    s: Vec<Vec<Scalar>>,
    t: GainSteps<M>,
) -> bool {
    &&& call_ensures(L::block, (la, &p), t.p)
    &&& call_ensures(L::block, (la, &c), t.c)
    &&& call_ensures(L::block, (la, &s), t.s)
    &&& call_ensures(L::transposed, (la, &t.c), t.c_t)
    &&& call_ensures(L::times, (la, &t.p, &t.c_t), t.p_c_t)
}

fn gain_steps<M, L: DenseAlgebra<M>>(
    la: &L,
    p: &Vec<Vec<Scalar>>,
    c: &Vec<Vec<Scalar>>,
    s: &Vec<Vec<Scalar>>,
) -> (t: GainSteps<M>)
    ensures
        are_gain_steps(la, *p, *c, *s, t),
{
    let pm = la.block(p);
    let cm = la.block(c);
    let sm = la.block(s);
    let c_t = la.transposed(&cm);
    let p_c_t = la.times(&pm, &c_t);
    GainSteps { p: pm, c: cm, s: sm, c_t, p_c_t }
}

/// `out` is `p c' d` for the `d` with `s d == e`; none when there is no `d`.
pub open spec fn ends_correction<M, L: DenseAlgebra<M>>(
    la: &L,
    e: Vec<Scalar>,
    t: GainSteps<M>,
    em: M,
    d: Option<M>,
    k: M,
    out: Option<Vec<Scalar>>,
) -> bool {
    &&& call_ensures(L::column, (la, &e), em)
    &&& call_ensures(L::solved, (la, &t.s, &em), d)
    &&& match (d, out) {
        (None, None) => true,
        (Some(d), Some(out)) => call_ensures(L::times, (la, &t.p_c_t, &d), k) && call_ensures(
            L::entries,
            (la, &k),
            out,
        ),
        _ => false,
    }
}

/// `out` is the correction `p c' s^-1 e`; none when `s` is singular.
pub open spec fn is_correction<M, L: DenseAlgebra<M>>(
    la: &L,
    p: Vec<Vec<Scalar>>,
    c: Vec<Vec<Scalar>>,
    s: Vec<Vec<Scalar>>,
    e: Vec<Scalar>,
    out: Option<Vec<Scalar>>,
) -> bool {
    exists|t: GainSteps<M>, em: M, d: Option<M>, k: M|
        {
            &&& are_gain_steps(la, p, c, s, t)
            &&& #[trigger] ends_correction(la, e, t, em, d, k, out)
        }
}

/// The correction `p c' s^-1 e`; none when `s` is singular.
pub fn correction<M, L: DenseAlgebra<M>>(
    la: &L,
    p: &Vec<Vec<Scalar>>,
    c: &Vec<Vec<Scalar>>,
    s: &Vec<Vec<Scalar>>,
    e: &Vec<Scalar>,
) -> (out: Option<Vec<Scalar>>)
    ensures
        is_correction::<M, L>(la, *p, *c, *s, *e, out),
{
    let t = gain_steps(la, p, c, s);
    let em = la.column(e);
    match la.solved(&t.s, &em) {
        None => {
            assert(ends_correction(la, *e, t, em, None, em, None));
            None
        },
        Some(d) => {
            let k = la.times(&t.p_c_t, &d);
            let out = la.entries(&k);
            assert(ends_correction(la, *e, t, em, Some(d), k, Some(out)));
            Some(out)
        },
    }
}

/// `out` is `(1 - p c' d) p` for the `d` with `s d == c`; none when there is no `d`.
pub open spec fn ends_posterior<M, L: DenseAlgebra<M>>(
    la: &L,
    t: GainSteps<M>,
    ones: Vec<Scalar>,
    d: Option<M>,
    identity: M,
    k: M,
    rest: M,
    post: M,
    out: Option<Vec<Vec<Scalar>>>,
) -> bool {
    &&& call_ensures(L::solved, (la, &t.s, &t.c), d)
    &&& match (d, out) {
        (None, None) => true,
        (Some(d), Some(out)) => {
            &&& call_ensures(L::diagonal, (la, &ones), identity)
            &&& call_ensures(L::times, (la, &t.p_c_t, &d), k)
            &&& call_ensures(L::minus, (la, &identity, &k), rest)
            &&& call_ensures(L::times, (la, &rest, &t.p), post)
            &&& call_ensures(L::rows, (la, &post), out)
        },
        _ => false,
    }
}

/// `out` is the covariance `(1 - p c' s^-1 c) p`; none when `s` is singular.
pub open spec fn is_posterior<M, L: DenseAlgebra<M>>(
    la: &L,
    p: Vec<Vec<Scalar>>,
    c: Vec<Vec<Scalar>>,
    s: Vec<Vec<Scalar>>,
    out: Option<Vec<Vec<Scalar>>>,
) -> bool {
    exists|
        t: GainSteps<M>,
        ones: Vec<Scalar>,
        d: Option<M>,
        identity: M,
        k: M,
        rest: M,
        post: M,
    |
        {
            &&& are_gain_steps(la, p, c, s, t)
            &&& ones@ == Seq::new(p@.len(), |i: int| one())
            &&& #[trigger] ends_posterior(la, t, ones, d, identity, k, rest, post, out)
        }
}

/// The covariance `(1 - p c' s^-1 c) p`; none when `s` is singular.
pub fn posterior<M, L: DenseAlgebra<M>>(
    la: &L,
    p: &Vec<Vec<Scalar>>,
    c: &Vec<Vec<Scalar>>,
    s: &Vec<Vec<Scalar>>,
) -> (out: Option<Vec<Vec<Scalar>>>)
    ensures
        is_posterior::<M, L>(la, *p, *c, *s, out),
{
    let t = gain_steps(la, p, c, s);
    let ones = vec![one(); p.len()];
    assert(ones@ =~= Seq::new(p@.len(), |i: int| one()));
    match la.solved(&t.s, &t.c) {
        None => {
            assert(ends_posterior(la, t, ones, None, t.p, t.p, t.p, t.p, None));
            None
        },
        Some(d) => {
            let identity = la.diagonal(&ones);
            let k = la.times(&t.p_c_t, &d);
            let rest = la.minus(&identity, &k);
            let post = la.times(&rest, &t.p);
            let out = la.rows(&post);
            assert(ends_posterior(la, t, ones, Some(d), identity, k, rest, post, Some(out)));
            Some(out)
        },
    }
}

} // verus!
