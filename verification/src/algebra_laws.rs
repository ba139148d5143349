//! Laws of the equations that are composed on the caller's matrices: what the filter, the
//! prediction and the cost of a horizon come to when the algebra is that of linear maps.
//!
//! A matrix is read by what it does to a vector of real numbers. A column acts on the
//! vector that holds one alone, and gives its entries.

use vstd::prelude::*;
use crate::arith::{deterministic, sum, Arithmetic};
use crate::dense::{
    are_cost_steps, are_prediction_steps, ends_cost, ends_cost_toward, is_prediction,
    is_reference_cost, is_tracking_cost, CostSteps, DenseAlgebra, PredictionSteps,
};
use crate::exact::adds;
use crate::ik::TWO_BITS;
use crate::kalman_steps::{
    are_gain_steps, are_innovation_steps, are_spread_steps, are_state_steps, ends_correction,
    ends_posterior, is_correction, is_innovation, is_next_state, is_posterior, is_spread, GainSteps,
    InnovationSteps, SpreadSteps, StateSteps,
};
use crate::linear_kalman::{is_corrected, KalmanTrace, LinearKalmanEstimator, LinearKalmanInputs};
use crate::reals::{commutes, one_is_neutral, subtracts, times};
use crate::scalar::{one, Scalar, Vec3};

verus! {

/// A list of scalars as `val` reads it.
pub open spec fn listed_as(val: spec_fn(Scalar) -> real, x: Seq<Scalar>) -> Seq<real> {
    Seq::new(x.len(), |i: int| val(x[i]))
}

/// The vector that holds one alone.
pub open spec fn alone() -> Seq<real> {
    seq![1real]
}

/// `a + b`.
pub open spec fn added(a: Seq<real>, b: Seq<real>) -> Seq<real> {
    Seq::new(a.len(), |i: int| a[i] + b[i])
}

/// `a - b`.
pub open spec fn less(a: Seq<real>, b: Seq<real>) -> Seq<real> {
    Seq::new(a.len(), |i: int| a[i] - b[i])
}

/// `a + a`.
pub open spec fn twice(a: Seq<real>) -> Seq<real> {
    Seq::new(a.len(), |i: int| a[i] + a[i])
}

/// Sum of the first `n` products of the parts.
pub open spec fn paired(a: Seq<real>, b: Seq<real>, n: int) -> real
    decreases n,
{
    if n <= 0 {
        0real
    } else {
        paired(a, b, n - 1) + times(a[n - 1], b[n - 1])
    }
}

/// Inner product of two vectors.
pub open spec fn flat(a: Seq<real>, b: Seq<real>) -> real {
    paired(a, b, a.len() as int)
}

/// A matrix given by its rows, times a vector.
pub open spec fn applied(
    val: spec_fn(Scalar) -> real,
    rows: Seq<Vec<Scalar>>,
    v: Seq<real>,
) -> Seq<real> {
    Seq::new(rows.len(), |i: int| flat(listed_as(val, rows[i]@), v))
}

/// The algebra composes linear maps: each operation acts as its name says.
pub open spec fn composes_maps<M, L: DenseAlgebra<M>>(
    la: &L,
    val: spec_fn(Scalar) -> real,
    acts: spec_fn(M, Seq<real>) -> Seq<real>,
) -> bool {
    &&& forall|a: M, b: M, r: M, v: Seq<real>|
        #![trigger call_ensures(L::times, (la, &a, &b), r), acts(r, v)]
        call_ensures(L::times, (la, &a, &b), r) ==> acts(r, v) == acts(a, acts(b, v))
    &&& forall|a: M, b: M, r: M, v: Seq<real>|
        #![trigger call_ensures(L::plus, (la, &a, &b), r), acts(r, v)]
        call_ensures(L::plus, (la, &a, &b), r) ==> acts(r, v) == added(acts(a, v), acts(b, v))
    &&& forall|a: M, b: M, r: M, v: Seq<real>|
        #![trigger call_ensures(L::minus, (la, &a, &b), r), acts(r, v)]
        call_ensures(L::minus, (la, &a, &b), r) ==> acts(r, v) == less(acts(a, v), acts(b, v))
    &&& forall|m: M, r: M, v: Seq<real>|
        #![trigger call_ensures(L::scaled, (la, Scalar { bits: TWO_BITS }, &m), r), acts(r, v)]
        call_ensures(L::scaled, (la, Scalar { bits: TWO_BITS }, &m), r) ==> acts(r, v) == twice(
            acts(m, v),
        )
    &&& forall|x: Vec<Scalar>, r: M| #[trigger]
        call_ensures(L::column, (la, &x), r) ==> acts(r, alone()) == listed_as(val, x@)
    &&& forall|m: M, x: Vec<Scalar>| #[trigger]
        call_ensures(L::entries, (la, &m), x) ==> listed_as(val, x@) == acts(m, alone())
    &&& forall|x: Vec<Vec<Scalar>>, r: M, v: Seq<real>|
        #![trigger call_ensures(L::block, (la, &x), r), acts(r, v)]
        call_ensures(L::block, (la, &x), r) ==> acts(r, v) == applied(val, x@, v)
    &&& forall|m: M, x: Vec<Vec<Scalar>>, v: Seq<real>|
        #![trigger call_ensures(L::rows, (la, &m), x), applied(val, x@, v)]
        call_ensures(L::rows, (la, &m), x) ==> applied(val, x@, v) == acts(m, v)
    &&& forall|m: M, r: M, v: Seq<real>, w: Seq<real>|
        #![trigger call_ensures(L::transposed, (la, &m), r), flat(acts(r, v), w)]
        call_ensures(L::transposed, (la, &m), r) ==> flat(acts(r, v), w) == flat(v, acts(m, w))
    &&& forall|s: M, b: M, d: M, v: Seq<real>|
        #![trigger call_ensures(L::solved, (la, &s, &b), Some(d)), acts(d, v)]
        call_ensures(L::solved, (la, &s, &b), Some(d)) ==> acts(s, acts(d, v)) == acts(b, v)
    &&& forall|x: Vec<Scalar>, r: M, v: Seq<real>|
        #![trigger call_ensures(L::diagonal, (la, &x), r), acts(r, v)]
        call_ensures(L::diagonal, (la, &x), r) ==> acts(r, v) == weighed(val, x@, v)
}

/// A vector with each part times its weight.
pub open spec fn weighed(
    val: spec_fn(Scalar) -> real,
    w: Seq<Scalar>,
    v: Seq<real>,
) -> Seq<real> {
    Seq::new(w.len(), |i: int| times(val(w[i]), v[i]))
}

/// `w` is what the transpose of a matrix makes of `v`.
pub open spec fn drawn_back(
    val: spec_fn(Scalar) -> real,
    rows: Seq<Vec<Scalar>>,
    v: Seq<real>,
    w: Seq<real>,
) -> bool {
    forall|z: Seq<real>| #[trigger] flat(w, z) == flat(v, applied(val, rows, z))
}

/// The next state of a filter is the transition of the state and the effect of the input.
pub proof fn the_state_is_carried_on<M, L: DenseAlgebra<M>>(
    la: &L,
    val: spec_fn(Scalar) -> real,
    acts: spec_fn(M, Seq<real>) -> Seq<real>,
    a: Vec<Vec<Scalar>>,
    x: Vec<Scalar>,
    b: Vec<Vec<Scalar>>,
    u: Vec3,
    out: Vec<Scalar>,
)
    requires
        composes_maps(la, val, acts),
        is_next_state::<M, L>(la, a, x, b, u, out),
    ensures
        listed_as(val, out@) == added(
            applied(val, a@, listed_as(val, x@)),
            applied(val, b@, listed_as(val, seq![u.x, u.y, u.z])),
        ),
{
    let t = choose|t: StateSteps<M>| #[trigger] are_state_steps(la, a, x, b, u, t, out);
    assert(acts(t.next, alone()) == added(acts(t.a_x, alone()), acts(t.b_u, alone())));
    assert(acts(t.a_x, alone()) == acts(t.a, acts(t.x, alone())));
    assert(acts(t.b_u, alone()) == acts(t.b, acts(t.u, alone())));
}

/// The innovation is what is observed less what the state lets expect.
pub proof fn the_innovation_is_what_was_not_expected<M, L: DenseAlgebra<M>>(
    la: &L,
    val: spec_fn(Scalar) -> real,
    acts: spec_fn(M, Seq<real>) -> Seq<real>,
    y: Vec<Scalar>,
    c: Vec<Vec<Scalar>>,
    x: Vec<Scalar>,
    out: Vec<Scalar>,
)
    requires
        composes_maps(la, val, acts),
        is_innovation::<M, L>(la, y, c, x, out),
    ensures
        listed_as(val, out@) == less(
            listed_as(val, y@),
            applied(val, c@, listed_as(val, x@)),
        ),
{
    let t = choose|t: InnovationSteps<M>| #[trigger] are_innovation_steps(la, y, c, x, t, out);
    assert(acts(t.e, alone()) == less(acts(t.y, alone()), acts(t.c_x, alone())));
    assert(acts(t.c_x, alone()) == acts(t.c, acts(t.x, alone())));
}

/// A covariance is carried through a map on both sides, and the noise is added: what it
/// makes of a vector is the map of what the covariance makes of the vector drawn back, and
/// what the noise makes of it.
pub proof fn a_covariance_is_carried_on_both_sides<M, L: DenseAlgebra<M>>(
    la: &L,
    val: spec_fn(Scalar) -> real,
    acts: spec_fn(M, Seq<real>) -> Seq<real>,
    a: Vec<Vec<Scalar>>,
    p: Vec<Vec<Scalar>>,
    q: Vec<Vec<Scalar>>,
    out: Vec<Vec<Scalar>>,
    v: Seq<real>,
)
    requires
        composes_maps(la, val, acts),
        is_spread::<M, L>(la, a, p, q, out),
    ensures
        exists|w: Seq<real>| #[trigger]
            drawn_back(val, a@, v, w) && applied(val, out@, v) == added(
                applied(val, a@, applied(val, p@, w)),
                applied(val, q@, v),
            ),
{
    let t = choose|t: SpreadSteps<M>| #[trigger] are_spread_steps(la, a, p, q, t, out);
    let w = acts(t.a_t, v);
    assert forall|z: Seq<real>| #[trigger] flat(w, z) == flat(v, applied(val, a@, z)) by {
        assert(acts(t.a, z) == applied(val, a@, z));
    }
    assert(drawn_back(val, a@, v, w));
    assert(applied(val, out@, v) == acts(t.spread, v));
    assert(acts(t.spread, v) == added(acts(t.a_p_a_t, v), acts(t.q, v)));
    assert(acts(t.a_p_a_t, v) == acts(t.a_p, w));
    assert(acts(t.a_p, w) == acts(t.a, acts(t.p, w)));
}

/// The correction moves the state by the covariance of what was observed: it is what the
/// covariance makes of the innovation, undone by its own covariance and drawn back.
pub proof fn the_correction_follows_the_innovation<M, L: DenseAlgebra<M>>(
    la: &L,
    val: spec_fn(Scalar) -> real,
    acts: spec_fn(M, Seq<real>) -> Seq<real>,
    p: Vec<Vec<Scalar>>,
    c: Vec<Vec<Scalar>>,
    s: Vec<Vec<Scalar>>,
    e: Vec<Scalar>,
    out: Vec<Scalar>,
)
    requires
        composes_maps(la, val, acts),
        is_correction::<M, L>(la, p, c, s, e, Some(out)),
    ensures
        exists|d: Seq<real>, w: Seq<real>|
            {
                &&& applied(val, s@, d) == listed_as(val, e@)
                &&& #[trigger] drawn_back(val, c@, d, w)
                &&& listed_as(val, out@) == applied(val, p@, w)
            },
{
    let (t, em, d, k) = choose|t: GainSteps<M>, em: M, d: Option<M>, k: M|
        {
            &&& are_gain_steps(la, p, c, s, t)
            &&& #[trigger] ends_correction(la, e, t, em, d, k, Some(out))
        };
    let dm = d->0;
    let dv = acts(dm, alone());
    let w = acts(t.c_t, dv);
    assert(acts(t.s, dv) == acts(em, alone()));
    assert(acts(t.s, dv) == applied(val, s@, dv));
    assert forall|z: Seq<real>| #[trigger] flat(w, z) == flat(dv, applied(val, c@, z)) by {
        assert(acts(t.c, z) == applied(val, c@, z));
    }
    assert(drawn_back(val, c@, dv, w));
    assert(listed_as(val, out@) == acts(k, alone()));
    assert(acts(k, alone()) == acts(t.p_c_t, dv));
    assert(acts(t.p_c_t, dv) == acts(t.p, w));
}

/// What was observed takes from the covariance: on every vector, the covariance after the
/// correction is the one before it, less what the correction would make of the part of it
/// that is observed.
pub proof fn what_is_observed_takes_from_the_covariance<M, L: DenseAlgebra<M>>(
    la: &L,
    val: spec_fn(Scalar) -> real,
    acts: spec_fn(M, Seq<real>) -> Seq<real>,
    p: Vec<Vec<Scalar>>,
    c: Vec<Vec<Scalar>>,
    s: Vec<Vec<Scalar>>,
    out: Vec<Vec<Scalar>>,
    v: Seq<real>,
)
    requires
        composes_maps(la, val, acts),
        val(one()) == 1real,
        is_posterior::<M, L>(la, p, c, s, Some(out)),
    ensures
        exists|d: Seq<real>, w: Seq<real>|
            {
                &&& applied(val, s@, d) == applied(val, c@, applied(val, p@, v))
                &&& #[trigger] drawn_back(val, c@, d, w)
                &&& applied(val, out@, v) == less(applied(val, p@, v), applied(val, p@, w))
            },
{
    let (t, ones, d, identity, k, rest, post) = choose|
        t: GainSteps<M>,
        ones: Vec<Scalar>,
        d: Option<M>,
        identity: M,
        k: M,
        rest: M,
        post: M,
    |
        {
            &&& are_gain_steps(la, p, c, s, t)
            &&& ones@ == Seq::new(p@.len(), |i: int| one())
            &&& #[trigger] ends_posterior(la, t, ones, d, identity, k, rest, post, Some(out))
        };
    let pv = acts(t.p, v);
    let dm = d->0;
    let dv = acts(dm, pv);
    let w = acts(t.c_t, dv);
    assert(pv == applied(val, p@, v));
    assert(acts(t.s, dv) == acts(t.c, pv));
    assert(acts(t.s, dv) == applied(val, s@, dv));
    assert forall|z: Seq<real>| #[trigger] flat(w, z) == flat(dv, applied(val, c@, z)) by {
        assert(acts(t.c, z) == applied(val, c@, z));
    }
    assert(drawn_back(val, c@, dv, w));
    assert(applied(val, out@, v) == acts(post, v));
    assert(acts(post, v) == acts(rest, pv));
    assert(acts(rest, pv) == less(acts(identity, pv), acts(k, pv)));
    assert(acts(identity, pv) == weighed(val, ones@, pv));
    assert forall|i: int| 0 <= i < pv.len() implies weighed(val, ones@, pv)[i] == pv[i] by {
        one_is_neutral(pv[i]);
        commutes(1real, pv[i]);
    }
    assert(weighed(val, ones@, pv) =~= pv);
    assert(acts(k, pv) == acts(t.p_c_t, dv));
    assert(acts(t.p_c_t, dv) == acts(t.p, w));
}

/// The states of a horizon are what the present state leads to and what the inputs add.
pub proof fn the_inputs_add_to_the_states<M, K: DenseAlgebra<M>>(
    kernel: &K,
    val: spec_fn(Scalar) -> real,
    acts: spec_fn(M, Seq<real>) -> Seq<real>,
    a_x: Vec<M>,
    b_u: Vec<Vec<M>>,
    x_now: Seq<Scalar>,
    u: Seq<Scalar>,
    out: Vec<Scalar>,
)
    requires
        composes_maps(kernel, val, acts),
        is_prediction::<M, K>(kernel, a_x, b_u, x_now, u, out),
    ensures
        exists|a: M, b: M|
            {
                &&& #[trigger] call_ensures(K::stacked, (kernel, &a_x), a)
                &&& #[trigger] call_ensures(K::stepped, (kernel, &b_u), b)
                &&& listed_as(val, out@) == added(
                    acts(a, listed_as(val, x_now)),
                    acts(b, listed_as(val, u)),
                )
            },
{
    let t = choose|t: PredictionSteps<M>| #[trigger]
        are_prediction_steps(kernel, a_x, b_u, x_now, u, t, out);
    assert(call_ensures(K::stacked, (kernel, &a_x), t.a));
    assert(call_ensures(K::stepped, (kernel, &b_u), t.b));
    assert(acts(t.states, alone()) == added(acts(t.a_x0, alone()), acts(t.b_u0, alone())));
    assert(acts(t.a_x0, alone()) == acts(t.a, acts(t.x0, alone())));
    assert(acts(t.b_u0, alone()) == acts(t.b, acts(t.u0, alone())));
}

/// What a matrix makes of a sum is the sum of what it makes of the parts.
pub open spec fn is_linear<M>(acts: spec_fn(M, Seq<real>) -> Seq<real>) -> bool {
    forall|m: M, v: Seq<real>, w: Seq<real>|
        v.len() == w.len() ==> #[trigger] acts(m, added(v, w)) == added(acts(m, v), acts(m, w))
}

/// All that a matrix gives has its height.
pub open spec fn has_heights<M>(
    acts: spec_fn(M, Seq<real>) -> Seq<real>,
    height: spec_fn(M) -> nat,
) -> bool {
    forall|m: M, v: Seq<real>| (#[trigger] acts(m, v)).len() == height(m)
}

/// `slope` is twice the weighed miss of the states that the inputs `u` lead to, drawn back
/// to the inputs by the transpose of the input map, and twice what the inputs cost by
/// themselves.
pub open spec fn is_slope<M, K: DenseAlgebra<M>>(
    kernel: &K,
    val: spec_fn(Scalar) -> real,
    acts: spec_fn(M, Seq<real>) -> Seq<real>,
    a_x: Vec<M>,
    b_u: Vec<Vec<M>>,
    x_now: Seq<Scalar>,
    x_ref: Seq<Scalar>,
    q_diag: Seq<Scalar>,
    u: Seq<real>,
    own: Seq<real>,
    slope: Seq<real>,
    a: M,
    b: M,
    w: Seq<real>,
) -> bool {
    let states = added(acts(a, listed_as(val, x_now)), acts(b, u));
    let miss = weighed(val, q_diag, less(states, listed_as(val, x_ref)));
    &&& call_ensures(K::stacked, (kernel, &a_x), a)
    &&& call_ensures(K::stepped, (kernel, &b_u), b)
    &&& forall|z: Seq<real>| #[trigger] flat(w, z) == flat(miss, acts(b, z))
    &&& slope == twice(added(w, own))
}

/// The maps of a horizon give its states.
pub open spec fn spans_states<M, K: DenseAlgebra<M>>(
    kernel: &K,
    height: spec_fn(M) -> nat,
    a_x: Vec<M>,
    b_u: Vec<Vec<M>>,
    n: nat,
) -> bool {
    &&& forall|b: M| #[trigger] call_ensures(K::stepped, (kernel, &b_u), b) ==> height(b) == n
    &&& forall|a: M| #[trigger] call_ensures(K::stacked, (kernel, &a_x), a) ==> height(a) == n
}

/// What the parts of a cost make of the inputs `u`: the weighed miss is drawn back in two
/// parts, one through `P` and one through the pull.
proof fn the_miss_is_drawn_back<M, K: DenseAlgebra<M>>(
    kernel: &K,
    val: spec_fn(Scalar) -> real,
    acts: spec_fn(M, Seq<real>) -> Seq<real>,
    height: spec_fn(M) -> nat,
    a_x: Vec<M>,
    b_u: Vec<Vec<M>>,
    x_now: Seq<Scalar>,
    x_ref: Vec<Scalar>,
    q_diag: Vec<Scalar>,
    r_diag: Vec<Scalar>,
    t: CostSteps<M>,
    u: Seq<real>,
) -> (w: Seq<real>)
    requires
        composes_maps(kernel, val, acts),
        is_linear(acts),
        has_heights(acts, height),
        spans_states(kernel, height, a_x, b_u, x_ref@.len()),
        are_cost_steps(kernel, a_x, b_u, x_now, x_ref, q_diag, r_diag, t),
    ensures
        is_slope(
            kernel,
            val,
            acts,
            a_x,
            b_u,
            x_now,
            x_ref@,
            q_diag@,
            u,
            u,
            twice(added(w, u)),
            t.a,
            t.b,
            w,
        ),
        w == added(acts(t.b_t_q_b, u), acts(t.pull, alone())),
        acts(t.p, u) == twice(added(acts(t.b_t_q_b, u), weighed(val, r_diag@, u))),
        acts(t.pull, alone()).len() == acts(t.b_t_q_b, u).len(),
{
    let x = listed_as(val, x_now);
    let reference = listed_as(val, x_ref@);
    let drift = acts(t.drift, alone());
    assert(drift == less(acts(t.a_x0, alone()), acts(t.x_ref, alone())));
    assert(acts(t.a_x0, alone()) == acts(t.a, acts(t.x0, alone())));
    assert(drift == less(acts(t.a, x), reference));
    let bu = acts(t.b, u);
    let states = added(acts(t.a, x), bu);
    assert(acts(t.a, x).len() == x_ref@.len() && bu.len() == x_ref@.len());
    assert(less(states, reference) =~= added(bu, drift));
    let miss = weighed(val, q_diag@, less(states, reference));
    assert(acts(t.q, added(bu, drift)) == weighed(val, q_diag@, added(bu, drift)));
    let w = acts(t.b_t, miss);
    assert forall|z: Seq<real>| #[trigger] flat(w, z) == flat(miss, acts(t.b, z)) by {}
    assert(miss == added(acts(t.q, bu), acts(t.q, drift)));
    assert(w == added(acts(t.b_t, acts(t.q, bu)), acts(t.b_t, acts(t.q, drift))));
    assert(acts(t.b_t_q, drift) == acts(t.b_t, acts(t.q, drift)));
    assert(acts(t.b_t_q, bu) == acts(t.b_t, acts(t.q, bu)));
    assert(acts(t.pull, alone()) == acts(t.b_t_q, drift));
    assert(acts(t.p, u) == twice(acts(t.half_p, u)));
    assert(acts(t.half_p, u) == added(acts(t.b_t_q_b, u), acts(t.r, u)));
    assert(acts(t.b_t_q_b, u) == acts(t.b_t_q, bu));
    assert(acts(t.r, u) == weighed(val, r_diag@, u));
    w
}

/// The slope of the cost of tracking states at any inputs: twice the weighed miss of the
/// states that these inputs lead to, drawn back to the inputs, and twice the weighed inputs.
pub proof fn the_cost_slopes_by_the_miss<M, K: DenseAlgebra<M>>(
    kernel: &K,
    val: spec_fn(Scalar) -> real,
    acts: spec_fn(M, Seq<real>) -> Seq<real>,
    height: spec_fn(M) -> nat,
    a_x: Vec<M>,
    b_u: Vec<Vec<M>>,
    x_now: Seq<Scalar>,
    x_ref: Vec<Scalar>,
    q_diag: Vec<Scalar>,
    r_diag: Vec<Scalar>,
    out: (Vec<Vec<Scalar>>, Vec<Scalar>),
    u: Seq<real>,
)
    requires
        composes_maps(kernel, val, acts),
        is_linear(acts),
        has_heights(acts, height),
        spans_states(kernel, height, a_x, b_u, x_ref@.len()),
        is_tracking_cost::<M, K>(kernel, a_x, b_u, x_now, x_ref, q_diag, r_diag, out),
        u.len() == r_diag@.len(),
        u.len() == out.0@.len(),
        u.len() == out.1@.len(),
    ensures
        exists|a: M, b: M, w: Seq<real>| #[trigger]
            is_slope(
                kernel,
                val,
                acts,
                a_x,
                b_u,
                x_now,
                x_ref@,
                q_diag@,
                u,
                weighed(val, r_diag@, u),
                added(applied(val, out.0@, u), listed_as(val, out.1@)),
                a,
                b,
                w,
            ),
{
    let (t, l) = choose|t: CostSteps<M>, l: M|
        {
            &&& are_cost_steps(kernel, a_x, b_u, x_now, x_ref, q_diag, r_diag, t)
            &&& #[trigger] ends_cost(kernel, t, l, out)
        };
    let w = the_miss_is_drawn_back(
        kernel,
        val,
        acts,
        height,
        a_x,
        b_u,
        x_now,
        x_ref,
        q_diag,
        r_diag,
        t,
        u,
    );
    assert(acts(l, alone()) == twice(acts(t.pull, alone())));
    assert(listed_as(val, out.1@) == twice(acts(t.pull, alone())));
    assert(applied(val, out.0@, u) == acts(t.p, u));
    assert(acts(t.p, u).len() == u.len());
    let slope = added(applied(val, out.0@, u), listed_as(val, out.1@));
    assert(slope =~= twice(added(w, weighed(val, r_diag@, u))));
    assert(is_slope(
        kernel,
        val,
        acts,
        a_x,
        b_u,
        x_now,
        x_ref@,
        q_diag@,
        u,
        weighed(val, r_diag@, u),
        slope,
        t.a,
        t.b,
        w,
    ));
}

/// The slope of the cost of tracking states and inputs: the inputs count by how far they are
/// from the inputs of the reference.
pub proof fn the_cost_slopes_by_the_miss_of_both<M, K: DenseAlgebra<M>>(
    kernel: &K,
    val: spec_fn(Scalar) -> real,
    acts: spec_fn(M, Seq<real>) -> Seq<real>,
    height: spec_fn(M) -> nat,
    a_x: Vec<M>,
    b_u: Vec<Vec<M>>,
    x_now: Seq<Scalar>,
    x_ref: Vec<Scalar>,
    u_ref: Vec<Scalar>,
    q_diag: Vec<Scalar>,
    r_diag: Vec<Scalar>,
    out: (Vec<Vec<Scalar>>, Vec<Scalar>),
    u: Seq<real>,
)
    requires
        composes_maps(kernel, val, acts),
        is_linear(acts),
        has_heights(acts, height),
        spans_states(kernel, height, a_x, b_u, x_ref@.len()),
        is_reference_cost::<M, K>(kernel, a_x, b_u, x_now, x_ref, u_ref, q_diag, r_diag, out),
        u.len() == r_diag@.len(),
        u.len() == out.0@.len(),
        u.len() == out.1@.len(),
        u.len() == u_ref@.len(),
    ensures
        exists|a: M, b: M, w: Seq<real>| #[trigger]
            is_slope(
                kernel,
                val,
                acts,
                a_x,
                b_u,
                x_now,
                x_ref@,
                q_diag@,
                u,
                weighed(val, r_diag@, less(u, listed_as(val, u_ref@))),
                added(applied(val, out.0@, u), listed_as(val, out.1@)),
                a,
                b,
                w,
            ),
{
    let (t, um, r_u, d, l) = choose|t: CostSteps<M>, um: M, r_u: M, d: M, l: M|
        {
            &&& are_cost_steps(kernel, a_x, b_u, x_now, x_ref, q_diag, r_diag, t)
            &&& #[trigger] ends_cost_toward(kernel, t, u_ref, um, r_u, d, l, out)
        };
    let w = the_miss_is_drawn_back(
        kernel,
        val,
        acts,
        height,
        a_x,
        b_u,
        x_now,
        x_ref,
        q_diag,
        r_diag,
        t,
        u,
    );
    let toward = listed_as(val, u_ref@);
    let pull = acts(t.pull, alone());
    assert(acts(l, alone()) == twice(acts(d, alone())));
    assert(acts(d, alone()) == less(pull, acts(r_u, alone())));
    assert(acts(r_u, alone()) == acts(t.r, acts(um, alone())));
    assert(acts(t.r, toward) == weighed(val, r_diag@, toward));
    assert(listed_as(val, out.1@) == twice(less(pull, weighed(val, r_diag@, toward))));
    assert(applied(val, out.0@, u) == acts(t.p, u));
    assert(acts(t.p, u).len() == u.len());
    let own = weighed(val, r_diag@, less(u, toward));
    let slope = added(applied(val, out.0@, u), listed_as(val, out.1@));
    assert forall|i: int| 0 <= i < u.len() implies slope[i] == twice(added(w, own))[i] by {
        subtracts(val(r_diag@[i]), u[i], toward[i]);
    }
    assert(slope =~= twice(added(w, own)));
    assert(is_slope(
        kernel,
        val,
        acts,
        a_x,
        b_u,
        x_now,
        x_ref@,
        q_diag@,
        u,
        own,
        slope,
        t.a,
        t.b,
        w,
    ));
}

/// A filter predicts before it corrects: the predicted state is the old one carried on by the
/// model and the acceleration, and the innovation is the observation less what that predicted
/// state lets expect.
pub proof fn a_filter_predicts_before_it_corrects<M, A: Arithmetic, L: DenseAlgebra<M>>(
    ar: &A,
    la: &L,
    val: spec_fn(Scalar) -> real,
    acts: spec_fn(M, Seq<real>) -> Seq<real>,
    f: LinearKalmanEstimator,
    inputs: LinearKalmanInputs,
    t: KalmanTrace,
)
    requires
        composes_maps(la, val, acts),
        crate::linear_kalman::is_prediction::<M, A, L>(ar, la, f, inputs, t),
    ensures
        ({
            let a = inputs.accel_world;
            let x = listed_as(val, t.x@);
            &&& x == added(
                applied(val, t.sys.a@, listed_as(val, f.x_hat@)),
                applied(val, t.sys.b@, listed_as(val, seq![a.x, a.y, a.z])),
            )
            &&& listed_as(val, t.e@) == less(
                listed_as(val, t.sys.y@),
                applied(val, t.sys.c@, x),
            )
        }),
{
    the_state_is_carried_on(
        la,
        val,
        acts,
        t.sys.a,
        f.x_hat,
        t.sys.b,
        inputs.accel_world,
        t.x,
    );
    the_innovation_is_what_was_not_expected(la, val, acts, t.sys.y, t.sys.c, t.x, t.e);
}

/// A filter adds its correction to the predicted state, or leaves it as it was predicted when
/// there is none.
pub proof fn a_filter_adds_its_correction<M, A: Arithmetic, L: DenseAlgebra<M>>(
    ar: &A,
    la: &L,
    val: spec_fn(Scalar) -> real,
    f: LinearKalmanEstimator,
    t: KalmanTrace,
    g: LinearKalmanEstimator,
)
    requires
        deterministic(ar),
        is_corrected::<M, A, L>(ar, la, f, t, g),
        forall|d: Vec<Scalar>, i: int|
            is_correction::<M, L>(la, t.pm, t.sys.c, t.s, t.e, Some(d)) && 0 <= i < 18 ==> adds(
                ar,
                val,
                t.x@[i],
                #[trigger] d@[i],
            ),
    ensures
        g.x_hat == t.x || exists|d: Vec<Scalar>| #[trigger]
            is_correction::<M, L>(la, t.pm, t.sys.c, t.s, t.e, Some(d)) && moves_by(
                val,
                t.x@,
                g.x_hat@,
                d@,
            ),
{
    if g.x_hat != t.x {
        let d = choose|d: Vec<Scalar>| {
            &&& #[trigger] is_correction::<M, L>(la, t.pm, t.sys.c, t.s, t.e, Some(d))
            &&& forall|i: int| 0 <= i < 18 ==> #[trigger] g.x_hat@[i] == sum(ar, t.x@[i], d@[i])
        };
        assert forall|i: int| 0 <= i < 18 implies val(#[trigger] g.x_hat@[i]) - val(t.x@[i])
            == val(d@[i]) by {
            assert(adds(ar, val, t.x@[i], d@[i]));
        }
        assert(moves_by(val, t.x@, g.x_hat@, d@));
    }
}

/// A state of the filter moves from `x` to `y` by `d`.
pub open spec fn moves_by(
    val: spec_fn(Scalar) -> real,
    x: Seq<Scalar>,
    y: Seq<Scalar>,
    d: Seq<Scalar>,
) -> bool {
    forall|i: int| 0 <= i < 18 ==> val(#[trigger] y[i]) - val(x[i]) == val(d[i])
}

} // verus!
