//! Rows of a linear constraint system, and their collection over the legs and
//! steps of a horizon.

use vstd::prelude::*;
use crate::scalar::{zero, Scalar};

verus! {

/// One constraint row: coefficients and right-hand side.
#[verifier::ext_equal]
pub struct Row {
    /// Coefficient of each decision variable.
    pub coef: Seq<Scalar>,
    /// Right-hand side.
    pub rhs: Scalar,
}

/// A row of `width` zeros.
pub open spec fn zero_row(width: int) -> Seq<Scalar> {
    Seq::new(width as nat, |i: int| zero())
}

/// The rows held by a list of coefficient vectors and a list of right-hand sides.
pub open spec fn rows_view(a: Seq<Vec<Scalar>>, b: Seq<Scalar>) -> Seq<Row> {
    Seq::new(a.len(), |i: int| Row { coef: a[i]@, rhs: b[i] })
}

/// The coefficients of each row.
pub open spec fn coefs(rows: Seq<Row>) -> Seq<Seq<Scalar>> {
    Seq::new(rows.len(), |i: int| rows[i].coef)
}

/// The right-hand side of each row.
pub open spec fn right_sides(rows: Seq<Row>) -> Seq<Scalar> {
    Seq::new(rows.len(), |i: int| rows[i].rhs)
}

/// The rows of visits `0, 1, .., m - 1` one after the other. A visit is a leg at
/// a step: visit `4 k + leg`.
pub open spec fn collect(f: spec_fn(int) -> Seq<Row>, m: int) -> Seq<Row>
    decreases m,
{
    if m <= 0 {
        Seq::empty()
    } else {
        collect(f, m - 1) + f(m - 1)
    }
}

/// Number of visits among the first `m` that satisfy `p`.
pub open spec fn count(p: spec_fn(int) -> bool, m: int) -> int
    decreases m,
{
    if m <= 0 {
        0
    } else {
        count(p, m - 1) + if p(m - 1) {
            1int
        } else {
            0
        }
    }
}

/// A count is at most the number of visits.
pub proof fn count_is_bounded(p: spec_fn(int) -> bool, m: int)
    requires
        0 <= m,
    ensures
        0 <= count(p, m) <= m,
    decreases m,
{
    if m > 0 {
        count_is_bounded(p, m - 1);
    }
}

/// A visit that satisfies `p` takes one place in the count.
pub proof fn count_grows(p: spec_fn(int) -> bool, v: int, m: int)
    requires
        0 <= v < m,
    ensures
        count(p, v) + (if p(v) { 1int } else { 0 }) <= count(p, m),
        count(p, v + 1) == count(p, v) + (if p(v) { 1int } else { 0 }),
    decreases m,
{
    if v < m - 1 {
        count_grows(p, v, m - 1);
    }
}

/// The rows of a visit stand in the collection, after those of the earlier visits.
pub proof fn collected_rows_are_found(f: spec_fn(int) -> Seq<Row>, m: int, v: int)
    requires
        0 <= v < m,
    ensures
        collect(f, v).len() + f(v).len() <= collect(f, m).len(),
        forall|i: int|
            0 <= i < f(v).len() ==> collect(f, m)[collect(f, v).len() + i] == #[trigger] f(v)[i],
    decreases m,
{
    if v < m - 1 {
        collected_rows_are_found(f, m - 1, v);
    }
}

/// Every collected row comes from some visit.
pub proof fn collected_row_has_a_visit(f: spec_fn(int) -> Seq<Row>, m: int, r: int) -> (vi: (int, int))
    requires
        0 <= r < collect(f, m).len(),
    ensures
        0 <= vi.0 < m,
        0 <= vi.1 < f(vi.0).len(),
        collect(f, m)[r] == f(vi.0)[vi.1],
    decreases m,
{
    if r < collect(f, m - 1).len() {
        collected_row_has_a_visit(f, m - 1, r)
    } else {
        (m - 1, r - collect(f, m - 1).len())
    }
}

/// A row of `width` zeros.
pub fn make_zero_row(width: usize) -> (r: Vec<Scalar>)
    ensures
        r@ == zero_row(width as int),
{
    let r = vec![zero(); width];
    assert(r@ =~= zero_row(width as int));
    r
}

/// Appends a row.
pub fn push_row(a: &mut Vec<Vec<Scalar>>, b: &mut Vec<Scalar>, coef: Vec<Scalar>, rhs: Scalar)
    requires
        old(a)@.len() == old(b)@.len(),
    ensures
        final(a)@.len() == final(b)@.len(),
        final(a)@.len() == old(a)@.len() + 1,
        rows_view(final(a)@, final(b)@) == rows_view(old(a)@, old(b)@).push(
            Row { coef: coef@, rhs },
        ),
{
    a.push(coef);
    b.push(rhs);
    assert(rows_view(a@, b@) =~= rows_view(old(a)@, old(b)@).push(Row { coef: coef@, rhs }));
}

} // verus!
