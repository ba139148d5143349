//! Cost of missing the planned touch-down, added to the cost over the inputs.
//!
//! Along one axis the miss of a foot is `b . u + r0` in the inputs `u` of the
//! horizon. Its square, times the weight, adds a matrix of rank one.

use vstd::prelude::*;
use crate::arith::{deterministic, product, sum, Arithmetic};
use crate::csc::{has_shape, rows_of};
use crate::full_centroidal_qp::COEF_TOLERANCE_BITS;
use crate::scalar::Scalar;

verus! {

/// Miss of a foot along one axis as a linear function of the inputs.
#[derive(Debug)]
pub struct FootTerm {
    /// Coefficients, one per input.
    pub b: Vec<Scalar>,
    /// Miss under zero input.
    pub r0: Scalar,
}

/// A coefficient that counts as zero.
pub open spec fn is_tiny(x: Scalar) -> bool {
    x.abs_spec().lt_spec(Scalar { bits: COEF_TOLERANCE_BITS })
}

/// A linear cost with a term of weight `w` added.
pub open spec fn term_q<A: Arithmetic>(ar: &A, w: Scalar, q: Seq<Scalar>, t: FootTerm) -> Seq<Scalar> {
    Seq::new(
        q.len(),
        |i: int|
            if is_tiny(t.b@[i]) {
                q[i]
            } else {
                sum(ar, q[i], product(ar, product(ar, w, t.r0), t.b@[i]))
            },
    )
}

/// An entry of the quadratic cost with a term of weight `w` added.
pub open spec fn term_entry<A: Arithmetic>(
    ar: &A,
    w: Scalar,
    p: Scalar,
    bi: Scalar,
    bj: Scalar,
) -> Scalar {
    if is_tiny(bi) || is_tiny(bj) {
        p
    } else {
        sum(ar, p, product(ar, product(ar, w, bi), bj))
    }
}

/// A quadratic cost with a term of weight `w` added.
pub open spec fn term_p<A: Arithmetic>(
    ar: &A,
    w: Scalar,
    p: Seq<Seq<Scalar>>,
    t: FootTerm,
) -> Seq<Seq<Scalar>> {
    Seq::new(
        p.len(),
        |i: int|
            Seq::new(p[i].len(), |j: int| term_entry(ar, w, p[i][j], t.b@[i], t.b@[j])),
    )
}

/// A quadratic cost with terms added one after the other.
pub open spec fn terms_p<A: Arithmetic>(
    ar: &A,
    w: Scalar,
    p: Seq<Seq<Scalar>>,
    terms: Seq<FootTerm>,
) -> Seq<Seq<Scalar>>
    decreases terms.len(),
{
    if terms.len() == 0 {
        p
    } else {
        term_p(ar, w, terms_p(ar, w, p, terms.drop_last()), terms.last())
    }
}

/// A linear cost with terms added one after the other.
pub open spec fn terms_q<A: Arithmetic>(
    ar: &A,
    w: Scalar,
    q: Seq<Scalar>,
    terms: Seq<FootTerm>,
) -> Seq<Scalar>
    decreases terms.len(),
{
    if terms.len() == 0 {
        q
    } else {
        term_q(ar, w, terms_q(ar, w, q, terms.drop_last()), terms.last())
    }
}

fn tiny(x: Scalar) -> (r: bool)
    ensures
        r == is_tiny(x),
{
    x.abs().lt(Scalar { bits: COEF_TOLERANCE_BITS })
}

fn row_with_term<A: Arithmetic>(ar: &A, w: Scalar, row: &Vec<Scalar>, bi: Scalar, t: &FootTerm) -> (r:
    Vec<Scalar>)
    requires
        row@.len() == t.b@.len(),
    ensures
        r@.len() == row@.len(),
        deterministic(ar) ==> r@ == Seq::new(
            row@.len(),
            |j: int| term_entry(ar, w, row@[j], bi, t.b@[j]),
        ),
{
    let mut r: Vec<Scalar> = Vec::new();
    let mut j: usize = 0;
    while j < row.len()
        invariant
            j <= row@.len(),
            row@.len() == t.b@.len(),
            r@.len() == j,
            deterministic(ar) ==> forall|c: int|
                0 <= c < j ==> #[trigger] r@[c] == term_entry(ar, w, row@[c], bi, t.b@[c]),
        decreases row@.len() - j,
    {
        if tiny(bi) || tiny(t.b[j]) {
            r.push(row[j]);
        } else {
            r.push(ar.plus(row[j], ar.times(ar.times(w, bi), t.b[j])));
        }
        j += 1;
    }
    assert(deterministic(ar) ==> r@ =~= Seq::new(
        row@.len(),
        |j: int| term_entry(ar, w, row@[j], bi, t.b@[j]),
    ));
    r
}

/// The cost with a term of weight `w` added.
pub fn add_term<A: Arithmetic>(
    ar: &A,
    w: Scalar,
    p: &Vec<Vec<Scalar>>,
    q: &Vec<Scalar>,
    t: &FootTerm,
) -> (r: (Vec<Vec<Scalar>>, Vec<Scalar>))
    requires
        has_shape(p@, p@.len(), p@.len()),
        q@.len() == p@.len(),
        t.b@.len() == p@.len(),
    ensures
        has_shape(r.0@, p@.len(), p@.len()),
        r.1@.len() == q@.len(),
        deterministic(ar) ==> rows_of(r.0@) == term_p(ar, w, rows_of(p@), *t),
        deterministic(ar) ==> r.1@ == term_q(ar, w, q@, *t),
{
    let m: usize = p.len();
    let mut rows: Vec<Vec<Scalar>> = Vec::new();
    let mut lin: Vec<Scalar> = Vec::new();
    let mut i: usize = 0;
    while i < m
        invariant
            i <= m,
            m == p@.len(),
            has_shape(p@, m as nat, m as nat),
            q@.len() == m,
            t.b@.len() == m,
            rows@.len() == i,
            lin@.len() == i,
            forall|a: int| 0 <= a < i ==> (#[trigger] rows@[a])@.len() == m,
            deterministic(ar) ==> forall|a: int|
                0 <= a < i ==> (#[trigger] rows@[a])@ == term_p(ar, w, rows_of(p@), *t)[a],
            deterministic(ar) ==> forall|a: int|
                0 <= a < i ==> #[trigger] lin@[a] == term_q(ar, w, q@, *t)[a],
        decreases m - i,
    {
        let bi = t.b[i];
        let row = row_with_term(ar, w, &p[i], bi, t);
        assert(rows_of(p@)[i as int] == p@[i as int]@);
        assert(deterministic(ar) ==> row@ =~= term_p(ar, w, rows_of(p@), *t)[i as int]);
        rows.push(row);
        if tiny(bi) {
            lin.push(q[i]);
        } else {
            lin.push(ar.plus(q[i], ar.times(ar.times(w, t.r0), bi)));
        }
        i += 1;
    }
    assert(deterministic(ar) ==> rows_of(rows@) =~= term_p(ar, w, rows_of(p@), *t));
    assert(deterministic(ar) ==> lin@ =~= term_q(ar, w, q@, *t));
    (rows, lin)
}

} // verus!
