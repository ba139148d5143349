//! One explicit step of a linear system: from the matrices of its rate to those
//! of a step of length `dt`.

use vstd::prelude::*;
use crate::arith::{deterministic, product, sum, Arithmetic};
use crate::scalar::{one, zero, Scalar};

verus! {

/// Entry of `I + dt A`.
pub open spec fn state_step<A: Arithmetic>(ar: &A, a: Scalar, dt: Scalar, i: int, j: int) -> Scalar {
    sum(
        ar,
        if i == j {
            one()
        } else {
            zero()
        },
        product(ar, a, dt),
    )
}

/// `ad` is `I + dt A` and `bd` is `dt B`.
pub open spec fn is_euler<A: Arithmetic>(
    ar: &A,
    a: Vec<Vec<Scalar>>,
    b: Vec<Vec<Scalar>>,
    dt: Scalar,
    ad: Vec<Vec<Scalar>>,
    bd: Vec<Vec<Scalar>>,
) -> bool {
    &&& ad@.len() == a@.len()
    &&& bd@.len() == b@.len()
    &&& forall|i: int| 0 <= i < a@.len() ==> (#[trigger] ad@[i])@.len() == a@[i]@.len()
    &&& forall|i: int| 0 <= i < b@.len() ==> (#[trigger] bd@[i])@.len() == b@[i]@.len()
    &&& deterministic(ar) ==> forall|i: int, j: int|
        0 <= i < a@.len() && 0 <= j < a@[i]@.len() ==> #[trigger] ad@[i]@[j] == state_step(
            ar,
            a@[i]@[j],
            dt,
            i,
            j,
        )
    &&& deterministic(ar) ==> forall|i: int, j: int|
        0 <= i < b@.len() && 0 <= j < b@[i]@.len() ==> #[trigger] bd@[i]@[j] == product(
            ar,
            b@[i]@[j],
            dt,
        )
}

fn state_row<A: Arithmetic>(ar: &A, a: &Vec<Scalar>, dt: Scalar, i: usize) -> (r: Vec<Scalar>)
    ensures
        r@.len() == a@.len(),
        deterministic(ar) ==> forall|j: int|
            0 <= j < a@.len() ==> #[trigger] r@[j] == state_step(ar, a@[j], dt, i as int, j),
{
    let mut r: Vec<Scalar> = Vec::new();
    let mut j: usize = 0;
    while j < a.len()
        invariant
            j <= a@.len(),
            r@.len() == j,
            deterministic(ar) ==> forall|c: int|
                0 <= c < j ==> #[trigger] r@[c] == state_step(ar, a@[c], dt, i as int, c),
        decreases a@.len() - j,
    {
        let start = if i == j { one() } else { zero() };
        r.push(ar.plus(start, ar.times(a[j], dt)));
        j += 1;
    }
    r
}

fn input_row<A: Arithmetic>(ar: &A, b: &Vec<Scalar>, dt: Scalar) -> (r: Vec<Scalar>)
    ensures
        r@.len() == b@.len(),
        deterministic(ar) ==> forall|j: int|
            0 <= j < b@.len() ==> #[trigger] r@[j] == product(ar, b@[j], dt),
{
    let mut r: Vec<Scalar> = Vec::new();
    let mut j: usize = 0;
    while j < b.len()
        invariant
            j <= b@.len(),
            r@.len() == j,
            deterministic(ar) ==> forall|c: int|
                0 <= c < j ==> #[trigger] r@[c] == product(ar, b@[c], dt),
        decreases b@.len() - j,
    {
        r.push(ar.times(b[j], dt));
        j += 1;
    }
    r
}

/// The matrices of one explicit step: `I + dt A` and `dt B`.
pub fn euler_step<A: Arithmetic>(
    ar: &A,
    a: &Vec<Vec<Scalar>>,
    b: &Vec<Vec<Scalar>>,
    dt: Scalar,
) -> (r: (Vec<Vec<Scalar>>, Vec<Vec<Scalar>>))
    ensures
        is_euler(ar, *a, *b, dt, r.0, r.1),
{
    let mut ad: Vec<Vec<Scalar>> = Vec::new();
    let mut i: usize = 0;
    while i < a.len()
        invariant
            i <= a@.len(),
            ad@.len() == i,
            forall|k: int| 0 <= k < i ==> (#[trigger] ad@[k])@.len() == a@[k]@.len(),
            deterministic(ar) ==> forall|k: int, j: int|
                0 <= k < i && 0 <= j < a@[k]@.len() ==> #[trigger] ad@[k]@[j] == state_step(
                    ar,
                    a@[k]@[j],
                    dt,
                    k,
                    j,
                ),
        decreases a@.len() - i,
    {
        let row = state_row(ar, &a[i], dt, i);
        ad.push(row);
        i += 1;
    }
    let mut bd: Vec<Vec<Scalar>> = Vec::new();
    let mut k: usize = 0;
    while k < b.len()
        invariant
            k <= b@.len(),
            bd@.len() == k,
            forall|i: int| 0 <= i < k ==> (#[trigger] bd@[i])@.len() == b@[i]@.len(),
            deterministic(ar) ==> forall|i: int, j: int|
                0 <= i < k && 0 <= j < b@[i]@.len() ==> #[trigger] bd@[i]@[j] == product(
                    ar,
                    b@[i]@[j],
                    dt,
                ),
        decreases b@.len() - k,
    {
        let row = input_row(ar, &b[k], dt);
        bd.push(row);
        k += 1;
    }
    (ad, bd)
}

} // verus!
