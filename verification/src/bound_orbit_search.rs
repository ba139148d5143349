//! Search for the periodic orbit of a bound by damped least squares.

use vstd::prelude::*;
use crate::arith::{counted, deterministic, difference, product, quotient, sum, Arithmetic};
use crate::bound_periodic_orbit::{
    flight_time, forces, forces_of, integrate, is_trajectory, openings, openings_of,
    residual_values, residuals, stance_in, stance_of, state_after, PeriodicBoundParams, Stance,
    N_RESIDUAL,
};
use crate::bound_reference::GRAVITY_BITS;
use crate::config::HALF_BITS;
use crate::scalar::{infinity, one, zero, Scalar};

verus! {

/// Bits of 1e-6, the relative step of a difference quotient, and the least
/// vertical force that friction is looked at for.
pub const SMALL_BITS: u64 = 0x3EB0_C6F7_A0B5_ED8D;

/// Bits of the damping the search starts with.
pub const DAMPING_BITS: u64 = 0x3F50_624D_D2F1_A9FC;

/// Bits of 1e-12, the least damping, and the cost the search ends at.
pub const LEAST_BITS: u64 = 0x3D71_9799_812D_EA11;

/// Bits of four.
pub const FOUR_BITS: u64 = 0x4010_0000_0000_0000;

/// Bits of the largest opening of an orbit.
pub const OPENING_MAX_BITS: u64 = 0x3F50_624D_D2F1_A9FC;

/// Bits of the least friction margin of an orbit.
pub const MARGIN_MIN_BITS: u64 = 0xBFA9_9999_9999_999A;

/// Number of parts of a quarter in the orbit.
pub const ORBIT_PARTS: usize = 12;

/// The linear algebra of the search, supplied by the caller. A matrix is held by
/// columns.
pub trait LeastSquares {
    /// The product of two vectors.
    fn dot(&self, a: &Vec<Scalar>, b: &Vec<Scalar>) -> Scalar;

    /// `j' j` and `j' r`.
    fn normal(&self, j: &Vec<Vec<Scalar>>, r: &Vec<Scalar>) -> (Vec<Vec<Scalar>>, Vec<Scalar>);

    /// The solution of `a d = -b`; `None` when there is none.
    fn descend(&self, a: &Vec<Vec<Scalar>>, b: &Vec<Scalar>) -> Option<Vec<Scalar>>;
}

/// Matrices and steps have the size of the search.
pub open spec fn is_sized<L: LeastSquares>(ls: &L) -> bool {
    &&& forall|j: Vec<Vec<Scalar>>, r: Vec<Scalar>, out: (Vec<Vec<Scalar>>, Vec<Scalar>)|
        #[trigger] call_ensures(L::normal, (ls, &j, &r), out) ==> out.0@.len() == 19 && (forall|
            i: int,
        |
            0 <= i < 19 ==> (#[trigger] out.0@[i])@.len() == 19)
    &&& forall|a: Vec<Vec<Scalar>>, b: Vec<Scalar>, d: Vec<Scalar>| #[trigger]
        call_ensures(L::descend, (ls, &a, &b), Some(d)) ==> d@.len() == 19
}

/// `v` is a cost of the unknowns `c`: half the product of the residuals with
/// themselves.
pub open spec fn is_cost<A: Arithmetic, L: LeastSquares>(
    ar: &A,
    ls: &L,
    p: PeriodicBoundParams,
    c: Seq<Scalar>,
    v: Scalar,
) -> bool {
    exists|r: Vec<Scalar>, d: Scalar|
        {
            &&& r@ == residual_values(ar, p, c)
            &&& #[trigger] call_ensures(L::dot, (ls, &r, &r), d)
            &&& v == product(ar, Scalar { bits: HALF_BITS }, d)
        }
}

/// `v` is half the product of the residuals `r` with themselves.
pub open spec fn weighs<A: Arithmetic, L: LeastSquares>(
    ar: &A,
    ls: &L,
    r: Vec<Scalar>,
    v: Scalar,
) -> bool {
    exists|d: Scalar|
        {
            &&& #[trigger] call_ensures(L::dot, (ls, &r, &r), d)
            &&& v == product(ar, Scalar { bits: HALF_BITS }, d)
        }
}

fn cost_of<A: Arithmetic, L: LeastSquares>(
    ar: &A,
    ls: &L,
    p: &PeriodicBoundParams,
    c: &Vec<Scalar>,
    r: &Vec<Scalar>,
) -> (v: Scalar)
    requires
        deterministic(ar) ==> r@ == residual_values(ar, *p, c@),
    ensures
        deterministic(ar) ==> is_cost(ar, ls, *p, c@, v),
        deterministic(ar) ==> weighs(ar, ls, *r, v),
{
    ar.times(Scalar { bits: HALF_BITS }, ls.dot(r, r))
}

/// Step of a difference quotient.
pub open spec fn probe<A: Arithmetic>(ar: &A, x: Scalar) -> Scalar {
    product(ar, Scalar { bits: SMALL_BITS }, sum(ar, one(), x.abs_spec()))
}

/// Derivative of the residuals by unknown `i`, as a difference quotient.
pub open spec fn slope<A: Arithmetic>(
    ar: &A,
    p: PeriodicBoundParams,
    c: Seq<Scalar>,
    r0: Seq<Scalar>,
    i: int,
    row: int,
) -> Scalar {
    let h = probe(ar, c[i]);
    quotient(
        ar,
        difference(ar, residual_values(ar, p, c.update(i, sum(ar, c[i], h)))[row], r0[row]),
        h,
    )
}

/// Derivative of the residuals, by columns.
pub fn jacobian<A: Arithmetic>(
    ar: &A,
    p: &PeriodicBoundParams,
    c: &Vec<Scalar>,
    r0: &Vec<Scalar>,
) -> (j: Vec<Vec<Scalar>>)
    requires
        c@.len() == 19,
        r0@.len() == N_RESIDUAL,
    ensures
        j@.len() == 19,
        forall|i: int| 0 <= i < 19 ==> (#[trigger] j@[i])@.len() == N_RESIDUAL,
        deterministic(ar) ==> forall|i: int, row: int|
            0 <= i < 19 && 0 <= row < N_RESIDUAL ==> #[trigger] j@[i]@[row] == slope(
                ar,
                *p,
                c@,
                r0@,
                i,
                row,
            ),
{
    let mut j: Vec<Vec<Scalar>> = Vec::new();
    let mut i: usize = 0;
    while i < 19
        invariant
            i <= 19,
            c@.len() == 19,
            r0@.len() == N_RESIDUAL,
            j@.len() == i,
            forall|a: int| 0 <= a < i ==> (#[trigger] j@[a])@.len() == N_RESIDUAL,
            deterministic(ar) ==> forall|a: int, row: int|
                0 <= a < i && 0 <= row < N_RESIDUAL ==> #[trigger] j@[a]@[row] == slope(
                    ar,
                    *p,
                    c@,
                    r0@,
                    a,
                    row,
                ),
        decreases 19 - i,
    {
        let h = ar.times(Scalar { bits: SMALL_BITS }, ar.plus(one(), c[i].abs()));
        let shifted = with_value(c, i, ar.plus(c[i], h));
        let rp = residuals(ar, p, &shifted);
        let mut col: Vec<Scalar> = Vec::new();
        let mut row: usize = 0;
        while row < N_RESIDUAL
            invariant
                row <= N_RESIDUAL,
                rp@.len() == N_RESIDUAL,
                r0@.len() == N_RESIDUAL,
                col@.len() == row,
                deterministic(ar) ==> forall|k: int|
                    0 <= k < row ==> #[trigger] col@[k] == quotient(
                        ar,
                        difference(ar, rp@[k], r0@[k]),
                        h,
                    ),
            decreases N_RESIDUAL - row,
        {
            col.push(ar.over(ar.minus(rp[row], r0[row]), h));
            row += 1;
        }
        j.push(col);
        i += 1;
    }
    j
}

fn with_value(c: &Vec<Scalar>, i: usize, v: Scalar) -> (r: Vec<Scalar>)
    requires
        i < c@.len(),
    ensures
        r@ == c@.update(i as int, v),
{
    let mut r: Vec<Scalar> = Vec::new();
    let mut k: usize = 0;
    while k < c.len()
        invariant
            k <= c@.len(),
            i < c@.len(),
            r@ == c@.update(i as int, v).subrange(0, k as int),
        decreases c@.len() - k,
    {
        r.push(if k == i { v } else { c[k] });
        k += 1;
        assert(r@ =~= c@.update(i as int, v).subrange(0, k as int));
    }
    assert(r@ =~= c@.update(i as int, v));
    r
}

/// Entry of the damped normal matrix: the diagonal is raised by `lambda (1 + a)`.
pub open spec fn damped_entry<A: Arithmetic>(
    ar: &A,
    a: Seq<Vec<Scalar>>,
    lambda: Scalar,
    i: int,
    j: int,
) -> Scalar {
    if i == j {
        sum(ar, a[i]@[i], product(ar, lambda, sum(ar, one(), a[i]@[i])))
    } else {
        a[i]@[j]
    }
}

fn damped<A: Arithmetic>(ar: &A, a: &Vec<Vec<Scalar>>, lambda: Scalar) -> (r: Vec<Vec<Scalar>>)
    requires
        a@.len() == 19,
        forall|i: int| 0 <= i < 19 ==> (#[trigger] a@[i])@.len() == 19,
    ensures
        r@.len() == 19,
        forall|i: int| 0 <= i < 19 ==> (#[trigger] r@[i])@.len() == 19,
        deterministic(ar) ==> forall|i: int, j: int|
            0 <= i < 19 && 0 <= j < 19 ==> #[trigger] r@[i]@[j] == damped_entry(
                ar,
                a@,
                lambda,
                i,
                j,
            ),
{
    let mut r: Vec<Vec<Scalar>> = Vec::new();
    let mut i: usize = 0;
    while i < 19
        invariant
            i <= 19,
            a@.len() == 19,
            forall|k: int| 0 <= k < 19 ==> (#[trigger] a@[k])@.len() == 19,
            r@.len() == i,
            forall|k: int| 0 <= k < i ==> (#[trigger] r@[k])@.len() == 19,
            deterministic(ar) ==> forall|k: int, j: int|
                0 <= k < i && 0 <= j < 19 ==> #[trigger] r@[k]@[j] == damped_entry(
                    ar,
                    a@,
                    lambda,
                    k,
                    j,
                ),
        decreases 19 - i,
    {
        assert(a@[i as int]@.len() == 19);
        let d = a[i][i];
        let raised = ar.plus(d, ar.times(lambda, ar.plus(one(), d)));
        r.push(with_value(&a[i], i, raised));
        i += 1;
    }
    r
}

/// The unknowns moved by a step.
pub open spec fn moved<A: Arithmetic>(ar: &A, c: Seq<Scalar>, d: Seq<Scalar>) -> Seq<Scalar> {
    Seq::new(19, |i: int| sum(ar, c[i], d[i]))
}

fn moved_by<A: Arithmetic>(ar: &A, c: &Vec<Scalar>, d: &Vec<Scalar>) -> (r: Vec<Scalar>)
    requires
        c@.len() == 19,
        d@.len() == 19,
    ensures
        r@.len() == 19,
        deterministic(ar) ==> r@ == moved(ar, c@, d@),
{
    let mut r: Vec<Scalar> = Vec::new();
    let mut i: usize = 0;
    while i < 19
        invariant
            i <= 19,
            c@.len() == 19,
            d@.len() == 19,
            r@.len() == i,
            deterministic(ar) ==> forall|k: int|
                0 <= k < i ==> #[trigger] r@[k] == sum(ar, c@[k], d@[k]),
        decreases 19 - i,
    {
        r.push(ar.plus(c[i], d[i]));
        i += 1;
    }
    assert(deterministic(ar) ==> r@ =~= moved(ar, c@, d@));
    r
}

/// `v` is `u` or below it.
pub open spec fn at_most(v: Scalar, u: Scalar) -> bool {
    v == u || v.lt_spec(u)
}

/// Where a search stands.
#[derive(Debug)]
pub struct SearchState {
    /// Unknowns.
    pub c: Vec<Scalar>,
    /// Their residuals.
    pub r: Vec<Scalar>,
    /// Their cost.
    pub cost: Scalar,
    /// Damping.
    pub lambda: Scalar,
}

impl SearchState {
    /// Residuals and cost belong to the unknowns.
    pub open spec fn wf<A: Arithmetic, L: LeastSquares>(
        self,
        ar: &A,
        ls: &L,
        p: PeriodicBoundParams,
    ) -> bool {
        &&& self.c@.len() == 19
        &&& self.r@.len() == N_RESIDUAL
        &&& deterministic(ar) ==> self.r@ == residual_values(ar, p, self.c@)
        &&& deterministic(ar) ==> is_cost(ar, ls, p, self.c@, self.cost)
    }

    /// One round: a step along the damped normal equations is taken when it
    /// lowers the cost; the damping grows until one does, up to twelve times.
    /// Tells whether a step was taken.
    fn improve<A: Arithmetic, L: LeastSquares>(
        &mut self,
        ar: &A,
        ls: &L,
        p: &PeriodicBoundParams,
    ) -> (taken: bool)
        requires
            old(self).wf(ar, ls, *p),
            is_sized(ls),
        ensures
            final(self).wf(ar, ls, *p),
            taken ==> final(self).cost.lt_spec(old(self).cost),
            !taken ==> final(self).c == old(self).c && final(self).cost == old(self).cost,
            deterministic(ar) ==> is_round(ar, ls, *p, *old(self), *final(self), taken),
    {
        let j = jacobian(ar, p, &self.c, &self.r);
        let n = ls.normal(&j, &self.r);
        let ghost before = *self;
        let ghost mut tries = Seq::<Attempt>::empty();
        assert(deterministic(ar) ==> are_slopes(ar, *p, before, j));
        let mut count: usize = 0;
        while count < 12
            invariant
                count <= 12,
                before == *old(self),
                self.wf(ar, ls, *p),
                is_sized(ls),
                call_ensures(L::normal, (ls, &j, &before.r), n),
                self.c == before.c,
                self.r == before.r,
                self.cost == before.cost,
                deterministic(ar) ==> are_slopes(ar, *p, before, j),
                tries.len() == count,
                deterministic(ar) ==> are_attempts(ar, ls, *p, before, n, tries),
                deterministic(ar) ==> self.lambda == next_damping(ar, before, tries),
                forall|k: int| 0 <= k < tries.len() ==> #[trigger] tries[k].fails(before),
            decreases 12 - count,
        {
            let lambda = self.lambda;
            let a = damped(ar, &n.0, lambda);
            let step = ls.descend(&a, &n.1);
            let d = match step {
                Some(d) => d,
                None => {
                    proof {
                        let last = Attempt { lambda, a, d: None, next: before };
                        let all = tries.push(last);
                        assert(all.drop_last() =~= tries);
                        if deterministic(ar) {
                            attempts_grow(ar, ls, *p, before, n, tries, last);
                            assert(rounds_off(ar, before, *self, false, all));
                            assert(is_round_with(ar, ls, *p, before, *self, false, j, n, all));
                        }
                    }
                    return false;
                },
            };
            let c = moved_by(ar, &self.c, &d);
            let r = residuals(ar, p, &c);
            let cost = cost_of(ar, ls, p, &c, &r);
            let ghost last = Attempt {
                lambda,
                a,
                d: Some(d),
                next: SearchState { c, r, cost, lambda },
            };
            proof {
                if deterministic(ar) {
                    assert(is_attempt(ar, ls, *p, before, n, last));
                    attempts_grow(ar, ls, *p, before, n, tries, last);
                }
            }
            if cost.lt(self.cost) {
                self.c = c;
                self.r = r;
                self.cost = cost;
                self.lambda = ar.times(lambda, Scalar { bits: HALF_BITS }).max(
                    Scalar { bits: LEAST_BITS },
                );
                proof {
                    let all = tries.push(last);
                    assert(all.drop_last() =~= tries);
                    if deterministic(ar) {
                        assert(rounds_off(ar, before, *self, true, all));
                        assert(is_round_with(ar, ls, *p, before, *self, true, j, n, all));
                    }
                }
                return true;
            }
            self.lambda = ar.times(lambda, Scalar { bits: FOUR_BITS });
            proof {
                tries = tries.push(last);
                assert(last.fails(before));
            }
            count += 1;
        }
        proof {
            if deterministic(ar) {
                let rest = tries.drop_last();
                assert forall|k: int| 0 <= k < rest.len() implies #[trigger] rest[k].fails(
                    before,
                ) by {
                    assert(tries[k].fails(before));
                }
                assert(tries[11].fails(before));
                assert(rounds_off(ar, before, *self, false, tries));
                assert(is_round_with(ar, ls, *p, before, *self, false, j, n, tries));
            }
        }
        false
    }
}

/// The columns `j` are the derivatives of the residuals at a state.
pub open spec fn are_slopes<A: Arithmetic>(
    ar: &A,
    p: PeriodicBoundParams,
    s: SearchState,
    j: Vec<Vec<Scalar>>,
) -> bool {
    &&& j@.len() == 19
    &&& forall|i: int| 0 <= i < 19 ==> (#[trigger] j@[i])@.len() == N_RESIDUAL
    &&& forall|i: int, row: int|
        0 <= i < 19 && 0 <= row < N_RESIDUAL ==> #[trigger] j@[i]@[row] == slope(
            ar,
            p,
            s.c@,
            s.r@,
            i,
            row,
        )
}

/// A try of a round.
pub struct Attempt {
    /// Damping.
    pub lambda: Scalar,
    /// Damped normal matrix.
    pub a: Vec<Vec<Scalar>>,
    /// Step, if the equations have a solution.
    pub d: Option<Vec<Scalar>>,
    /// Where the step leads.
    pub next: SearchState,
}

impl Attempt {
    /// There is a step, and it does not lower the cost.
    pub open spec fn fails(self, s: SearchState) -> bool {
        self.d is Some && !self.next.cost.lt_spec(s.cost)
    }
}

/// `t` is a try from a state with the normal equations `n`: its matrix is damped, its
/// step solves the damped equations, and it leads to the unknowns moved by the step
/// with their residuals and cost.
pub open spec fn is_attempt<A: Arithmetic, L: LeastSquares>(
    ar: &A,
    ls: &L,
    p: PeriodicBoundParams,
    s: SearchState,
    n: (Vec<Vec<Scalar>>, Vec<Scalar>),
    t: Attempt,
) -> bool {
    &&& t.a@.len() == 19
    &&& forall|i: int| 0 <= i < 19 ==> (#[trigger] t.a@[i])@.len() == 19
    &&& forall|i: int, j: int|
        0 <= i < 19 && 0 <= j < 19 ==> #[trigger] t.a@[i]@[j] == damped_entry(
            ar,
            n.0@,
            t.lambda,
            i,
            j,
        )
    &&& call_ensures(L::descend, (ls, &t.a, &n.1), t.d)
    &&& t.d is Some ==> {
        &&& t.next.c@ == moved(ar, s.c@, t.d->0@)
        &&& t.next.r@ == residual_values(ar, p, t.next.c@)
        &&& weighs(ar, ls, t.next.r, t.next.cost)
    }
}

/// The damping of the try after `tries`: that of the state, four times as much after
/// each try.
pub open spec fn next_damping<A: Arithmetic>(
    ar: &A,
    s: SearchState,
    tries: Seq<Attempt>,
) -> Scalar {
    if tries.len() == 0 {
        s.lambda
    } else {
        product(ar, tries.last().lambda, Scalar { bits: FOUR_BITS })
    }
}

/// `tries` are tries from a state, one after the other.
pub open spec fn are_attempts<A: Arithmetic, L: LeastSquares>(
    ar: &A,
    ls: &L,
    p: PeriodicBoundParams,
    s: SearchState,
    n: (Vec<Vec<Scalar>>, Vec<Scalar>),
    tries: Seq<Attempt>,
) -> bool {
    &&& forall|k: int| 0 <= k < tries.len() ==> is_attempt(ar, ls, p, s, n, #[trigger] tries[k])
    &&& forall|k: int|
        0 <= k < tries.len() ==> (#[trigger] tries[k]).lambda == next_damping(
            ar,
            s,
            tries.subrange(0, k),
        )
}

proof fn attempts_grow<A: Arithmetic, L: LeastSquares>(
    ar: &A,
    ls: &L,
    p: PeriodicBoundParams,
    s: SearchState,
    n: (Vec<Vec<Scalar>>, Vec<Scalar>),
    tries: Seq<Attempt>,
    last: Attempt,
)
    requires
        are_attempts(ar, ls, p, s, n, tries),
        is_attempt(ar, ls, p, s, n, last),
        last.lambda == next_damping(ar, s, tries),
    ensures
        are_attempts(ar, ls, p, s, n, tries.push(last)),
{
    let all = tries.push(last);
    assert forall|k: int| 0 <= k < all.len() implies (#[trigger] all[k]).lambda == next_damping(
        ar,
        s,
        all.subrange(0, k),
    ) by {
        if k < tries.len() {
            assert(all[k] == tries[k]);
            assert(all.subrange(0, k) =~= tries.subrange(0, k));
        } else {
            assert(all.subrange(0, k) =~= tries);
        }
    }
    assert forall|k: int| 0 <= k < all.len() implies is_attempt(
        ar,
        ls,
        p,
        s,
        n,
        #[trigger] all[k],
    ) by {
        if k < tries.len() {
            assert(all[k] == tries[k]);
        }
    }
}

/// How a round ends: all tries but the last failed. With a step taken the last one
/// lowers the cost, the search stands where it leads, and the damping is halved, but
/// not below the least. Without one the equations had no solution or twelve tries
/// failed, and the search stands where it was.
pub open spec fn rounds_off<A: Arithmetic>(
    ar: &A,
    s: SearchState,
    next: SearchState,
    taken: bool,
    tries: Seq<Attempt>,
) -> bool {
    let last = tries.last();
    &&& 1 <= tries.len() <= 12
    &&& forall|k: int| 0 <= k < tries.len() - 1 ==> #[trigger] tries.drop_last()[k].fails(s)
    &&& taken ==> {
        &&& last.d is Some
        &&& last.next.cost.lt_spec(s.cost)
        &&& next.c == last.next.c
        &&& next.r == last.next.r
        &&& next.cost == last.next.cost
        &&& next.lambda == product(ar, last.lambda, Scalar { bits: HALF_BITS }).max_spec(
            Scalar { bits: LEAST_BITS },
        )
    }
    &&& !taken ==> {
        &&& last.d is None || (tries.len() == 12 && last.fails(s))
        &&& next.c == s.c
        &&& next.r == s.r
        &&& next.cost == s.cost
        &&& next.lambda == (if last.d is None {
            last.lambda
        } else {
            next_damping(ar, s, tries)
        })
    }
}

/// A round from `s` to `next` with the derivatives `j`, the normal equations `n` and the
/// given tries.
pub open spec fn is_round_with<A: Arithmetic, L: LeastSquares>(
    ar: &A,
    ls: &L,
    p: PeriodicBoundParams,
    s: SearchState,
    next: SearchState,
    taken: bool,
    j: Vec<Vec<Scalar>>,
    n: (Vec<Vec<Scalar>>, Vec<Scalar>),
    tries: Seq<Attempt>,
) -> bool {
    &&& are_slopes(ar, p, s, j)
    &&& call_ensures(L::normal, (ls, &j, &s.r), n)
    &&& are_attempts(ar, ls, p, s, n, tries)
    &&& rounds_off(ar, s, next, taken, tries)
}

/// A round of the search leads from `s` to `next`; `taken` tells whether it took a step.
pub open spec fn is_round<A: Arithmetic, L: LeastSquares>(
    ar: &A,
    ls: &L,
    p: PeriodicBoundParams,
    s: SearchState,
    next: SearchState,
    taken: bool,
) -> bool {
    exists|j: Vec<Vec<Scalar>>, n: (Vec<Vec<Scalar>>, Vec<Scalar>), tries: Seq<Attempt>| #[trigger]
        is_round_with(ar, ls, p, s, next, taken, j, n, tries)
}

/// The search begins at `s`: the start with its residuals, its cost and the first
/// damping.
pub open spec fn is_start<A: Arithmetic, L: LeastSquares>(
    ar: &A,
    ls: &L,
    p: PeriodicBoundParams,
    start: Seq<Scalar>,
    s: SearchState,
) -> bool {
    &&& s.c@ == start
    &&& s.r@ == residual_values(ar, p, start)
    &&& weighs(ar, ls, s.r, s.cost)
    &&& s.lambda == (Scalar { bits: DAMPING_BITS })
}

/// The search goes on after a round.
pub open spec fn goes_on(next: SearchState, taken: bool) -> bool {
    taken && !next.cost.lt_spec(Scalar { bits: LEAST_BITS })
}

/// `run` are the states of a search, with a round from each to the next; every round
/// but the last lets it go on. `taken` tells of each round whether it took a step.
pub open spec fn are_rounds<A: Arithmetic, L: LeastSquares>(
    ar: &A,
    ls: &L,
    p: PeriodicBoundParams,
    start: Seq<Scalar>,
    run: Seq<SearchState>,
    taken: Seq<bool>,
) -> bool {
    &&& run.len() == taken.len() + 1
    &&& is_start(ar, ls, p, start, run[0])
    &&& forall|i: int|
        0 <= i < taken.len() ==> is_round(
            ar,
            ls,
            p,
            run[i],
            run[i + 1],
            #[trigger] taken[i],
        )
    &&& forall|i: int|
        0 <= i < taken.len() - 1 ==> goes_on(run[i + 1], #[trigger] taken[i])
}

/// `run` is a whole search from `start`: it ends after `max_iter` rounds, at the first
/// round without a step, or once the cost is negligible, and not before.
pub open spec fn is_search<A: Arithmetic, L: LeastSquares>(
    ar: &A,
    ls: &L,
    p: PeriodicBoundParams,
    start: Seq<Scalar>,
    max_iter: usize,
    run: Seq<SearchState>,
) -> bool {
    exists|taken: Seq<bool>|
        {
            &&& #[trigger] are_rounds(ar, ls, p, start, run, taken)
            &&& taken.len() <= max_iter
            &&& taken.len() == max_iter || (taken.len() > 0 && !goes_on(run.last(), taken.last()))
        }
}

/// Lowers the cost from given unknowns by damped least-squares steps, in at most
/// `max_iter` rounds; ends when a round finds no step or the cost is negligible. The
/// cost never grows.
pub fn levenberg_marquardt<A: Arithmetic, L: LeastSquares>(
    ar: &A,
    ls: &L,
    p: &PeriodicBoundParams,
    start: Vec<Scalar>,
    max_iter: usize,
) -> (r: (Vec<Scalar>, Scalar))
    requires
        start@.len() == 19,
        is_sized(ls),
    ensures
        r.0@.len() == 19,
        deterministic(ar) ==> is_cost(ar, ls, *p, r.0@, r.1),
        deterministic(ar) ==> exists|first: Scalar| #[trigger]
            is_cost(ar, ls, *p, start@, first) && at_most(r.1, first),
        deterministic(ar) ==> exists|run: Seq<SearchState>|
            {
                &&& #[trigger] is_search(ar, ls, *p, start@, max_iter, run)
                &&& r.0@ == run.last().c@
                &&& r.1 == run.last().cost
            },
{
    let r = residuals(ar, p, &start);
    let cost = cost_of(ar, ls, p, &start, &r);
    let ghost first = cost;
    let ghost begun = start@;
    let mut st = SearchState { c: start, r, cost, lambda: Scalar { bits: DAMPING_BITS } };
    let ghost mut run = seq![st];
    let ghost mut done = Seq::<bool>::empty();
    let mut i: usize = 0;
    let mut going = true;
    while going && i < max_iter
        invariant
            i <= max_iter,
            st.wf(ar, ls, *p),
            is_sized(ls),
            deterministic(ar) ==> is_cost(ar, ls, *p, begun, first),
            at_most(st.cost, first),
            done.len() == i,
            run.len() == i + 1,
            run.last() == st,
            deterministic(ar) ==> are_rounds(ar, ls, *p, begun, run, done),
            going == (i == 0 || goes_on(st, done.last())),
        decreases max_iter - i,
    {
        let ghost before = st;
        let taken = st.improve(ar, ls, p);
        if !taken || st.cost.lt(Scalar { bits: LEAST_BITS }) {
            going = false;
        }
        proof {
            let longer = run.push(st);
            let told = done.push(taken);
            if deterministic(ar) {
                assert forall|k: int| 0 <= k < told.len() implies is_round(
                    ar,
                    ls,
                    *p,
                    longer[k],
                    longer[k + 1],
                    #[trigger] told[k],
                ) by {
                    if k < done.len() {
                        assert(told[k] == done[k]);
                        assert(longer[k] == run[k] && longer[k + 1] == run[k + 1]);
                    } else {
                        assert(longer[k] == before && longer[k + 1] == st);
                    }
                }
                assert forall|k: int| 0 <= k < told.len() - 1 implies goes_on(
                    longer[k + 1],
                    #[trigger] told[k],
                ) by {
                    assert(told[k] == done[k]);
                    assert(longer[k + 1] == run[k + 1]);
                    if k == done.len() - 1 {
                        assert(run[k + 1] == before);
                    }
                }
                assert(longer[0] == run[0]);
            }
            run = longer;
            done = told;
        }
        i += 1;
    }
    assert(deterministic(ar) ==> is_search(ar, ls, *p, begun, max_iter, run));
    (st.c, st.cost)
}

/// A point of the orbit.
#[derive(Clone, Copy, Debug, PartialEq, Eq, Structural)]
pub struct OrbitSample {
    /// Fraction of the cycle.
    pub phase: Scalar,
    /// Height (m).
    pub z: Scalar,
    /// Pitch (rad).
    pub pitch: Scalar,
    /// Forward velocity (m/s).
    pub vx: Scalar,
    /// Vertical velocity (m/s).
    pub vz: Scalar,
    /// Pitch rate (rad/s).
    pub w: Scalar,
}

/// A periodic orbit.
#[derive(Debug)]
pub struct BoundOrbit {
    /// Points over one cycle.
    pub samples: Vec<OrbitSample>,
    /// Front foot place at the start of the cycle (m).
    pub xf: Scalar,
    /// Rear foot place at the start of the cycle (m).
    pub xr: Scalar,
    /// Front foot relative to the body at its touch-down (m).
    pub front_foothold: Scalar,
    /// Rear foot relative to the body at its touch-down (m).
    pub rear_foothold: Scalar,
    /// Largest opening of the cycle.
    pub periodicity_residual: Scalar,
    /// Least friction margin over the stances.
    pub friction_margin: Scalar,
    /// The points as rows of phase, height, pitch, forward, vertical and pitch
    /// velocity.
    pub table: Vec<[Scalar; 6]>,
}

/// The point of the orbit after `k` parts.
pub open spec fn sample_at<A: Arithmetic>(
    ar: &A,
    p: PeriodicBoundParams,
    c: Seq<Scalar>,
    k: int,
) -> OrbitSample {
    let s = state_after(ar, p, c, ORBIT_PARTS, k);
    OrbitSample {
        phase: quotient(ar, counted(ar, k as usize), counted(ar, 48)),
        z: s.z,
        pitch: s.th,
        vx: s.vx,
        vz: s.vz,
        w: s.w,
    }
}

/// A point as a row.
pub open spec fn row_of(s: OrbitSample) -> Seq<Scalar> {
    seq![s.phase, s.z, s.pitch, s.vx, s.vz, s.w]
}

/// Largest size among the first `n` values and zero.
pub open spec fn largest(v: Seq<Scalar>, n: int) -> Scalar
    decreases n,
{
    if n <= 0 {
        zero()
    } else {
        largest(v, n - 1).max_spec(v[n - 1].abs_spec())
    }
}

/// Friction margin so far and that of a pair with the given force; a force that
/// hardly presses is left out.
pub open spec fn margin_with<A: Arithmetic>(
    ar: &A,
    mu: Scalar,
    so_far: Scalar,
    fx: Scalar,
    fz: Scalar,
) -> Scalar {
    if (Scalar { bits: SMALL_BITS }).lt_spec(fz) {
        so_far.min_spec(difference(ar, mu, quotient(ar, fx.abs_spec(), fz)))
    } else {
        so_far
    }
}

/// Least friction margin over the first `m` of sixty points of each quarter.
pub open spec fn margin<A: Arithmetic>(
    ar: &A,
    p: PeriodicBoundParams,
    c: Seq<Scalar>,
    m: int,
) -> Scalar
    decreases m,
{
    if m <= 0 {
        infinity()
    } else {
        let before = margin(ar, p, c, m - 1);
        let active = stance_of((m - 1) / 60);
        let t = quotient(ar, counted(ar, ((m - 1) % 60) as usize), counted(ar, 60));
        let f = forces(ar, active, t, c);
        match active {
            Stance::Front => margin_with(ar, p.friction_mu, before, f.fx, f.fz),
            Stance::Rear => margin_with(ar, p.friction_mu, before, f.rx, f.rz),
            Stance::Flight => before,
        }
    }
}

/// The points and the rows of an orbit are the same 48.
pub open spec fn is_tabulated(o: BoundOrbit) -> bool {
    &&& o.samples@.len() == 48
    &&& o.table@.len() == 48
    &&& forall|k: int| 0 <= k < 48 ==> (#[trigger] o.table@[k])@ == row_of(o.samples@[k])
}

/// `o` is the orbit of the unknowns `c`.
pub open spec fn is_orbit<A: Arithmetic>(
    ar: &A,
    p: PeriodicBoundParams,
    c: Seq<Scalar>,
    o: BoundOrbit,
) -> bool {
    &&& is_tabulated(o)
    &&& o.xf == c[17]
    &&& o.xr == c[18]
    &&& deterministic(ar) ==> {
        &&& forall|k: int| 0 <= k < 48 ==> #[trigger] o.samples@[k] == sample_at(ar, p, c, k)
        &&& o.front_foothold == difference(ar, c[17], zero())
        &&& o.rear_foothold == difference(
            ar,
            c[18],
            state_after(ar, p, c, ORBIT_PARTS, 24).x,
        )
        &&& o.periodicity_residual == largest(
            openings(ar, p, c, state_after(ar, p, c, ORBIT_PARTS, 48)),
            6,
        )
        &&& o.friction_margin == margin(ar, p, c, 240)
    }
}

fn margin_with_of<A: Arithmetic>(ar: &A, mu: Scalar, so_far: Scalar, fx: Scalar, fz: Scalar) -> (r:
    Scalar)
    ensures
        deterministic(ar) ==> r == margin_with(ar, mu, so_far, fx, fz),
{
    if (Scalar { bits: SMALL_BITS }).lt(fz) {
        so_far.min(ar.minus(mu, ar.over(fx.abs(), fz)))
    } else {
        so_far
    }
}

fn margin_of<A: Arithmetic>(ar: &A, p: &PeriodicBoundParams, c: &Vec<Scalar>) -> (r: Scalar)
    requires
        c@.len() == 19,
    ensures
        deterministic(ar) ==> r == margin(ar, *p, c@, 240),
{
    let mut so_far = infinity();
    let mut m: usize = 0;
    while m < 240
        invariant
            m <= 240,
            c@.len() == 19,
            deterministic(ar) ==> so_far == margin(ar, *p, c@, m as int),
        decreases 240 - m,
    {
        let active = stance_in(m / 60);
        let t = ar.over(ar.from_count(m % 60), ar.from_count(60));
        let f = forces_of(ar, active, t, c);
        match active {
            Stance::Front => {
                so_far = margin_with_of(ar, p.friction_mu, so_far, f.fx, f.fz);
            },
            Stance::Rear => {
                so_far = margin_with_of(ar, p.friction_mu, so_far, f.rx, f.rz);
            },
            Stance::Flight => {},
        }
        m += 1;
    }
    so_far
}

fn largest_of(v: &[Scalar; 6]) -> (r: Scalar)
    ensures
        r == largest(v@, 6),
{
    let mut r = zero();
    let mut i: usize = 0;
    while i < 6
        invariant
            i <= 6,
            r == largest(v@, i as int),
        decreases 6 - i,
    {
        r = r.max(v[i].abs());
        i += 1;
    }
    r
}

/// The orbit of given unknowns.
pub fn build_orbit<A: Arithmetic>(ar: &A, p: &PeriodicBoundParams, c: &Vec<Scalar>) -> (r: BoundOrbit)
    requires
        c@.len() == 19,
    ensures
        is_orbit(ar, *p, c@, r),
{
    let traj = integrate(ar, p, c, ORBIT_PARTS);
    let front_foothold = ar.minus(c[17], traj[0].x);
    let rear_foothold = ar.minus(c[18], traj[24].x);
    let mut samples: Vec<OrbitSample> = Vec::new();
    let mut table: Vec<[Scalar; 6]> = Vec::new();
    let mut k: usize = 0;
    while k < 48
        invariant
            k <= 48,
            traj@.len() == 49,
            is_trajectory(ar, *p, c@, ORBIT_PARTS, traj@),
            samples@.len() == k,
            table@.len() == k,
            forall|i: int| 0 <= i < k ==> (#[trigger] table@[i])@ == row_of(samples@[i]),
            deterministic(ar) ==> forall|i: int|
                0 <= i < k ==> #[trigger] samples@[i] == sample_at(ar, *p, c@, i),
        decreases 48 - k,
    {
        let s = traj[k];
        let phase = ar.over(ar.from_count(k), ar.from_count(48));
        let sample = OrbitSample { phase, z: s.z, pitch: s.th, vx: s.vx, vz: s.vz, w: s.w };
        let row = [phase, s.z, s.th, s.vx, s.vz, s.w];
        assert(row@ =~= row_of(sample));
        samples.push(sample);
        table.push(row);
        k += 1;
    }
    let o = openings_of(ar, p, c, traj[48]);
    BoundOrbit {
        samples,
        xf: c[17],
        xr: c[18],
        front_foothold,
        rear_foothold,
        periodicity_residual: largest_of(&o),
        friction_margin: margin_of(ar, p, c),
        table,
    }
}

/// An orbit that closes and does not slip.
pub open spec fn is_acceptable(o: BoundOrbit) -> bool {
    o.periodicity_residual.lt_spec(Scalar { bits: OPENING_MAX_BITS }) && (Scalar {
        bits: MARGIN_MIN_BITS,
    }).lt_spec(o.friction_margin)
}

/// Bits of the vertical velocities the search starts from (m/s).
pub const SEEDS_BITS: [u64; 3] = [0x3FC9_9999_9999_999A, 0x3FD9_9999_9999_999A, 0x3FE3_3333_3333_3333];

/// The unknowns the search starts from: level at the target speed, the weight
/// spread over the stances, the feet at their nominal places.
pub open spec fn seed<A: Arithmetic>(ar: &A, p: PeriodicBoundParams, vz0: Scalar) -> Seq<Scalar> {
    let o = zero();
    let f = quotient(
        ar,
        product(ar, p.mass_kg, Scalar { bits: GRAVITY_BITS }),
        p.duty_factor,
    );
    seq![
        p.h0, o, p.vx_target, vz0, o,
        o, o, o, f, o, o,
        o, o, o, f, o, o,
        p.r_x, p.r_x.neg_spec(),
    ]
}

fn seed_of<A: Arithmetic>(ar: &A, p: &PeriodicBoundParams, vz0: Scalar) -> (r: Vec<Scalar>)
    ensures
        r@.len() == 19,
        deterministic(ar) ==> r@ == seed(ar, *p, vz0),
{
    let o = zero();
    let f = ar.over(ar.times(p.mass_kg, Scalar { bits: GRAVITY_BITS }), p.duty_factor);
    let r = vec![
        p.h0, o, p.vx_target, vz0, o,
        o, o, o, f, o, o,
        o, o, o, f, o, o,
        p.r_x, p.r_x.neg(),
    ];
    assert(deterministic(ar) ==> r@ =~= seed(ar, *p, vz0));
    r
}

fn search_from<A: Arithmetic, L: LeastSquares>(
    ar: &A,
    ls: &L,
    p: &PeriodicBoundParams,
    i: usize,
) -> (r: (Vec<Scalar>, Scalar))
    requires
        i < 3,
        is_sized(ls),
    ensures
        r.0@.len() == 19,
        deterministic(ar) ==> exists|run: Seq<SearchState>|
            {
                &&& #[trigger] is_descent(ar, ls, *p, i as int, run)
                &&& r.0@ == run.last().c@
                &&& r.1 == run.last().cost
            },
{
    let start = seed_of(ar, p, Scalar { bits: SEEDS_BITS[i] });
    let ghost begun = start@;
    let r = levenberg_marquardt(ar, ls, p, start, 120);
    proof {
        if deterministic(ar) {
            let run = choose|run: Seq<SearchState>|
                {
                    &&& #[trigger] is_search(ar, ls, *p, begun, 120, run)
                    &&& r.0@ == run.last().c@
                    &&& r.1 == run.last().cost
                };
            assert(is_descent(ar, ls, *p, i as int, run));
        }
    }
    r
}

/// Seeks a periodic orbit from three starts and takes the one of least cost.
/// `None` without a flight, or when the orbit does not close or slips.
pub fn solve<A: Arithmetic, L: LeastSquares>(ar: &A, ls: &L, params: &PeriodicBoundParams) -> (r: Option<
    BoundOrbit,
>)
    requires
        is_sized(ls),
    ensures
        r is Some ==> is_acceptable(r->0) && is_tabulated(r->0),
        deterministic(ar) && flight_time(ar, *params).le_spec(zero()) ==> r is None,
        deterministic(ar) && !flight_time(ar, *params).le_spec(zero()) ==> exists|
            c: Seq<Scalar>,
            o: BoundOrbit,
        |
            {
                &&& c.len() == 19
                &&& #[trigger] is_orbit(ar, *params, c, o)
                &&& is_found(ar, ls, *params, c)
                &&& r == (if is_acceptable(o) {
                    Some(o)
                } else {
                    None
                })
            },
{
    let t_st = ar.times(params.duty_factor, params.cycle_period_s);
    let t_fl = ar.minus(
        ar.times(Scalar { bits: HALF_BITS }, params.cycle_period_s),
        t_st,
    );
    if t_fl.le(zero()) {
        return None;
    }
    let a = search_from(ar, ls, params, 0);
    let b = search_from(ar, ls, params, 1);
    let c = search_from(ar, ls, params, 2);
    let ghost mut at: int = 0;
    let mut best = a;
    if b.1.lt(best.1) {
        best = b;
        proof {
            at = 1;
        }
    }
    if c.1.lt(best.1) {
        best = c;
        proof {
            at = 2;
        }
    }
    let orbit = build_orbit(ar, params, &best.0);
    proof {
        if deterministic(ar) {
            let ra = choose|run: Seq<SearchState>|
                {
                    &&& #[trigger] is_descent(ar, ls, *params, 0, run)
                    &&& a.0@ == run.last().c@
                    &&& a.1 == run.last().cost
                };
            let rb = choose|run: Seq<SearchState>|
                {
                    &&& #[trigger] is_descent(ar, ls, *params, 1, run)
                    &&& b.0@ == run.last().c@
                    &&& b.1 == run.last().cost
                };
            let rc = choose|run: Seq<SearchState>|
                {
                    &&& #[trigger] is_descent(ar, ls, *params, 2, run)
                    &&& c.0@ == run.last().c@
                    &&& c.1 == run.last().cost
                };
            let runs = seq![ra, rb, rc];
            assert(is_choice(runs, at));
            assert forall|i: int| 0 <= i < 3 implies is_descent(
                ar,
                ls,
                *params,
                i,
                #[trigger] runs[i],
            ) by {}
            assert(is_found(ar, ls, *params, best.0@));
        }
    }
    if orbit.periodicity_residual.lt(Scalar { bits: OPENING_MAX_BITS }) && (Scalar {
        bits: MARGIN_MIN_BITS,
    }).lt(orbit.friction_margin) {
        Some(orbit)
    } else {
        None
    }
}

/// `run` is the whole search from start `i`, of at most 120 rounds.
pub open spec fn is_descent<A: Arithmetic, L: LeastSquares>(
    ar: &A,
    ls: &L,
    p: PeriodicBoundParams,
    i: int,
    run: Seq<SearchState>,
) -> bool {
    is_search(ar, ls, p, seed(ar, p, Scalar { bits: SEEDS_BITS@[i] }), 120, run)
}

/// `at` is the place of the first search whose final cost no later one undercuts.
pub open spec fn is_choice(runs: Seq<Seq<SearchState>>, at: int) -> bool {
    let second = if runs[1].last().cost.lt_spec(runs[0].last().cost) {
        1int
    } else {
        0
    };
    at == (if runs[2].last().cost.lt_spec(runs[second].last().cost) {
        2
    } else {
        second
    })
}

/// `c` are the unknowns that the chosen one of the searches from the three starts ended
/// with.
pub open spec fn is_found<A: Arithmetic, L: LeastSquares>(
    ar: &A,
    ls: &L,
    p: PeriodicBoundParams,
    c: Seq<Scalar>,
) -> bool {
    exists|runs: Seq<Seq<SearchState>>, at: int|
        {
            &&& runs.len() == 3
            &&& #[trigger] is_choice(runs, at)
            &&& forall|i: int| 0 <= i < 3 ==> is_descent(ar, ls, p, i, #[trigger] runs[i])
            &&& c == runs[at].last().c@
        }
}

} // verus!
