//! Lifted dynamics of a linear system over a horizon.
//!
//! With `x[k + 1] = a[k] x[k] + b[k] u[k]`, the state after step `k` is
//! `a_x[k] x[0]` plus the sum over `j <= k` of `b_u[k][j] u[j]`. The matrices
//! are the caller's, and so is their product.

use vstd::prelude::*;

verus! {

/// Product of the caller's matrices.
pub trait BlockAlgebra<M> {
    /// `a * b`.
    fn times(&self, a: &M, b: &M) -> M;
}

/// `a_x[k]` is `a[k]` times `a_x[k - 1]`, starting from the identity.
pub open spec fn is_state_map<M, K: BlockAlgebra<M>>(
    kernel: &K,
    identity: M,
    a: Seq<M>,
    a_x: Seq<M>,
) -> bool {
    &&& a_x.len() == a.len()
    &&& forall|k: int|
        0 <= k < a.len() ==> call_ensures(
            K::times,
            (kernel, &a[k], if k == 0 { &identity } else { &a_x[k - 1] }),
            #[trigger] a_x[k],
        )
}

/// `tails[j]` is the product of `a[k], a[k - 1], .., a[j + 1]`, and `row[j]` is
/// `tails[j]` times `b[j]`.
pub open spec fn is_input_row<M, K: BlockAlgebra<M>>(
    kernel: &K,
    identity: M,
    a: Seq<M>,
    b: Seq<M>,
    k: int,
    tails: Seq<M>,
    row: Seq<M>,
) -> bool {
    &&& tails.len() == k + 1
    &&& row.len() == k + 1
    &&& tails[k] == identity
    &&& forall|j: int|
        0 < j <= k ==> call_ensures(K::times, (kernel, &tails[j], &a[j]), #[trigger] tails[j - 1])
    &&& forall|j: int| 0 <= j <= k ==> call_ensures(K::times, (kernel, &tails[j], &b[j]), #[trigger] row[j])
}

/// `row` holds the blocks of step `k`, one for each input up to `k`.
pub open spec fn has_input_row<M, K: BlockAlgebra<M>>(
    kernel: &K,
    identity: M,
    a: Seq<M>,
    b: Seq<M>,
    k: int,
    row: Seq<M>,
) -> bool {
    exists|tails: Seq<M>| is_input_row(kernel, identity, a, b, k, tails, row)
}

/// Every row of the input map holds the blocks of its step.
pub open spec fn is_input_map<M, K: BlockAlgebra<M>>(
    kernel: &K,
    identity: M,
    a: Seq<M>,
    b: Seq<M>,
    b_u: Seq<Vec<M>>,
) -> bool {
    &&& b_u.len() == a.len()
    &&& forall|k: int|
        0 <= k < a.len() ==> has_input_row(kernel, identity, a, b, k, (#[trigger] b_u[k])@)
}

fn input_row<M, K: BlockAlgebra<M>>(
    a: &Vec<M>,
    b: &Vec<M>,
    identity: &M,
    k: usize,
    kernel: &K,
) -> (row: Vec<M>)
    requires
        k < a@.len(),
        a@.len() == b@.len(),
    ensures
        has_input_row(kernel, *identity, a@, b@, k as int, row@),
{
    let mut reversed: Vec<M> = Vec::new();
    let first = kernel.times(identity, &b[k]);
    reversed.push(first);
    let ghost mut held = seq![*identity];
    if k > 0 {
        let mut tail = kernel.times(identity, &a[k]);
        let mut j: usize = k;
        proof {
            held = held.push(tail);
        }
        while j > 0
            invariant
                0 <= j <= k < a@.len(),
                a@.len() == b@.len(),
                        reversed@.len() == k + 1 - j,
                held.len() == (if j > 0 { k + 2 - j } else { k + 1 }),
                held[0] == *identity,
                j > 0 ==> held[k + 1 - j] == tail,
                forall|i: int|
                    0 <= i < held.len() - 1 ==> call_ensures(
                        K::times,
                        (kernel, &held[i], &a@[k - i]),
                        #[trigger] held[i + 1],
                    ),
                forall|i: int|
                    0 <= i < reversed@.len() ==> call_ensures(
                        K::times,
                        (kernel, &held[i], &b@[k - i]),
                        #[trigger] reversed@[i],
                    ),
            decreases j,
        {
            j -= 1;
            let block = kernel.times(&tail, &b[j]);
            let ghost before = held;
            reversed.push(block);
            if j > 0 {
                tail = kernel.times(&tail, &a[j]);
                proof {
                    held = held.push(tail);
                }
            }
        }
    }
    let ghost tails = Seq::new(k as nat + 1, |j: int| held[k - j]);
    let mut row: Vec<M> = Vec::new();
    let ghost all = reversed@;
    while reversed.len() > 0
        invariant
            row@.len() + reversed@.len() == all.len(),
            reversed@ == all.subrange(0, reversed@.len() as int),
            forall|i: int| 0 <= i < row@.len() ==> row@[i] == #[trigger] all[all.len() - 1 - i],
        decreases reversed@.len(),
    {
        match reversed.pop() {
            Some(m) => {
                row.push(m);
            },
            None => {},
        }
        assert(reversed@ =~= all.subrange(0, reversed@.len() as int));
    }
    assert(is_input_row(kernel, *identity, a@, b@, k as int, tails, row@)) by {
        assert forall|j: int| 0 < j <= k implies call_ensures(
            K::times,
            (kernel, &tails[j], &a@[j]),
            #[trigger] tails[j - 1],
        ) by {
            assert(call_ensures(K::times, (kernel, &held[k - j], &a@[k - (k - j)]), held[k - j + 1]));
        }
        assert forall|j: int| 0 <= j <= k implies call_ensures(
            K::times,
            (kernel, &tails[j], &b@[j]),
            #[trigger] row@[j],
        ) by {
            assert(row@[j] == all[all.len() - 1 - j]);
            assert(call_ensures(K::times, (kernel, &held[k - j], &b@[k - (k - j)]), all[k - j]));
        }
    }
    row
}

/// The lifted dynamics of a horizon.
pub fn lift_dynamics<M, K: BlockAlgebra<M>>(
    a: &Vec<M>,
    b: &Vec<M>,
    identity: &M,
    kernel: &K,
) -> (r: (Vec<M>, Vec<Vec<M>>))
    requires
        a@.len() == b@.len(),
    ensures
        is_state_map(kernel, *identity, a@, r.0@),
        is_input_map(kernel, *identity, a@, b@, r.1@),
{
    let mut a_x: Vec<M> = Vec::new();
    let mut b_u: Vec<Vec<M>> = Vec::new();
    let mut k: usize = 0;
    while k < a.len()
        invariant
            k <= a@.len(),
            a@.len() == b@.len(),
            a_x@.len() == k,
            b_u@.len() == k,
            forall|i: int|
                0 <= i < k ==> call_ensures(
                    K::times,
                    (kernel, &a@[i], if i == 0 { identity } else { &a_x@[i - 1] }),
                    #[trigger] a_x@[i],
                ),
            forall|i: int|
                0 <= i < k ==> has_input_row(kernel, *identity, a@, b@, i, (#[trigger] b_u@[i])@),
        decreases a@.len() - k,
    {
        let prod = if k == 0 {
            kernel.times(&a[k], identity)
        } else {
            kernel.times(&a[k], &a_x[k - 1])
        };
        let row = input_row(a, b, identity, k, kernel);
        a_x.push(prod);
        b_u.push(row);
        k += 1;
    }
    (a_x, b_u)
}

} // verus!
