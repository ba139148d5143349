//! Compressed sparse column matrices built from dense rows.

use vstd::prelude::*;
use crate::scalar::Scalar;

verus! {

/// Bits of the magnitude at or below which an entry is dropped (1e-12).
pub const DROP_TOLERANCE_BITS: u64 = 0x3D71_9799_812D_EA11;

/// A sparse matrix: column `j` holds the entries `colptr[j] .. colptr[j + 1]`.
#[derive(Clone, Debug)]
pub struct Csc {
    /// Number of rows.
    pub nrows: usize,
    /// Number of columns.
    pub ncols: usize,
    /// First entry of each column, and the number of entries at the end.
    pub colptr: Vec<usize>,
    /// Row of each entry.
    pub rowval: Vec<usize>,
    /// Value of each entry.
    pub nzval: Vec<Scalar>,
}

/// Whether `m` has `nr` rows of `nc` entries each.
pub open spec fn has_shape(m: Seq<Vec<Scalar>>, nr: nat, nc: nat) -> bool {
    m.len() == nr && forall|i: int| 0 <= i < nr ==> (#[trigger] m[i])@.len() == nc
}

/// The rows of a matrix.
pub open spec fn rows_of(m: Seq<Vec<Scalar>>) -> Seq<Seq<Scalar>> {
    Seq::new(m.len(), |i: int| m[i]@)
}

/// Whether an entry is kept: its magnitude exceeds the tolerance. NaN is dropped.
pub open spec fn is_kept(v: Scalar) -> bool {
    (Scalar { bits: DROP_TOLERANCE_BITS }).lt_spec(v.abs_spec())
}

impl Csc {
    /// Entry `p` belongs to column `j`.
    pub open spec fn in_column(self, p: int, j: int) -> bool {
        self.colptr@[j] <= p < self.colptr@[j + 1]
    }

    /// The column ranges are consecutive and cover all entries, rows are in
    /// range and strictly increasing within a column.
    pub open spec fn wf(self) -> bool {
        &&& self.colptr@.len() == self.ncols + 1
        &&& self.colptr@[0] == 0
        &&& self.colptr@[self.ncols as int] == self.rowval@.len()
        &&& self.nzval@.len() == self.rowval@.len()
        &&& forall|a: int, b: int|
            0 <= a <= b <= self.ncols ==> self.colptr@[a] <= self.colptr@[b]
        &&& forall|p: int| 0 <= p < self.rowval@.len() ==> #[trigger] self.rowval@[p] < self.nrows
        &&& forall|j: int, p: int, q: int|
            0 <= j < self.ncols && p < q && #[trigger] self.in_column(p, j)
                && #[trigger] self.in_column(q, j) ==> self.rowval@[p] < self.rowval@[q]
    }

    /// Position `(i, j)` holds a stored entry.
    pub open spec fn stores(self, i: int, j: int) -> bool {
        exists|p: int| #[trigger] self.in_column(p, j) && self.rowval@[p] == i
    }

    /// The value at `(i, j)`: the stored entry, or zero.
    pub open spec fn value(self, i: int, j: int) -> Scalar {
        if self.stores(i, j) {
            let p = choose|p: int| #[trigger] self.in_column(p, j) && self.rowval@[p] == i;
            self.nzval@[p]
        } else {
            crate::scalar::zero()
        }
    }

    /// The matrix stores exactly the entries of `m` that are kept and selected
    /// by `upper` (`i <= j`), each with its value.
    pub open spec fn compresses(self, m: Seq<Seq<Scalar>>, upper: bool) -> bool {
        &&& forall|j: int, p: int|
            0 <= j < self.ncols && #[trigger] self.in_column(p, j) ==> {
                let i = self.rowval@[p] as int;
                self.nzval@[p] == m[i][j] && is_kept(m[i][j]) && (upper ==> i <= j)
            }
        &&& forall|i: int, j: int|
            0 <= i < self.nrows && 0 <= j < self.ncols && (upper ==> i <= j)
                && is_kept(#[trigger] m[i][j]) ==> self.stores(i, j)
    }
}

/// Whether an entry is kept.
fn keeps(v: Scalar) -> (b: bool)
    ensures
        b == is_kept(v),
{
    let tolerance = Scalar { bits: DROP_TOLERANCE_BITS };
    tolerance.lt(v.abs())
}

fn compress(m: &Vec<Vec<Scalar>>, nc: usize, upper: bool) -> (r: Csc)
    requires
        has_shape(m@, m@.len(), nc as nat),
        upper ==> m@.len() == nc,
        nc < usize::MAX,
    ensures
        r.nrows == m@.len(),
        r.ncols == nc,
        r.wf(),
        r.compresses(rows_of(m@), upper),
{
    let nr: usize = m.len();
    let mut r = Csc {
        nrows: nr,
        ncols: nc,
        colptr: Vec::new(),
        rowval: Vec::new(),
        nzval: Vec::new(),
    };
    r.colptr.push(0);
    let mut j: usize = 0;
    while j < nc
        invariant
            has_shape(m@, nr as nat, nc as nat),
            upper ==> nr == nc,
            j <= nc,
            nc < usize::MAX,
            r.nrows == nr,
            r.ncols == nc,
            r.colptr@.len() == j + 1,
            r.colptr@[0] == 0,
            r.colptr@[j as int] == r.rowval@.len(),
            r.nzval@.len() == r.rowval@.len(),
            forall|a: int, b: int| 0 <= a <= b <= j ==> r.colptr@[a] <= r.colptr@[b],
            forall|p: int| 0 <= p < r.rowval@.len() ==> #[trigger] r.rowval@[p] < nr,
            forall|c: int, p: int, q: int|
                0 <= c < j && p < q && #[trigger] r.in_column(p, c) && #[trigger] r.in_column(q, c)
                    ==> r.rowval@[p] < r.rowval@[q],
            forall|c: int, p: int|
                0 <= c < j && #[trigger] r.in_column(p, c) ==> {
                    let i = r.rowval@[p] as int;
                    r.nzval@[p] == m@[i]@[c] && is_kept(m@[i]@[c]) && (upper ==> i <= c)
                },
            forall|i: int, c: int|
                0 <= i < nr && 0 <= c < j && (upper ==> i <= c) && is_kept(#[trigger] m@[i]@[c])
                    ==> r.stores(i, c),
        decreases nc - j,
    {
        let ghost r0 = r;
        let limit: usize = if upper { j + 1 } else { nr };
        let start: usize = r.rowval.len();
        let mut i: usize = 0;
        while i < limit
            invariant
                has_shape(m@, nr as nat, nc as nat),
                upper ==> nr == nc,
                limit == (if upper { j + 1 } else { nr as int }),
                i <= limit,
                j < nc,
                start == r0.rowval@.len(),
                r.nrows == nr,
                r.ncols == nc,
                r.colptr == r0.colptr,
                r0.colptr@.len() == j + 1,
                r0.nzval@.len() == start,
                r.rowval@.len() >= start,
                r.nzval@.len() == r.rowval@.len(),
                r.rowval@.subrange(0, start as int) == r0.rowval@,
                r.nzval@.subrange(0, start as int) == r0.nzval@,
                forall|p: int| start <= p < r.rowval@.len() ==> {
                    &&& (#[trigger] r.rowval@[p]) < i
                    &&& r.nzval@[p] == m@[r.rowval@[p] as int]@[j as int]
                    &&& is_kept(r.nzval@[p])
                },
                forall|p: int, q: int|
                    start <= p < q < r.rowval@.len() ==> r.rowval@[p] < r.rowval@[q],
                forall|a: int| 0 <= a < i && is_kept(#[trigger] m@[a]@[j as int]) ==> exists|p: int|
                    start <= p < r.rowval@.len() && #[trigger] r.rowval@[p] == a,
            decreases limit - i,
        {
            let ghost before = r;
            let v = m[i][j];
            if keeps(v) {
                r.rowval.push(i);
                r.nzval.push(v);
                assert(r.rowval@.subrange(0, start as int) =~= before.rowval@.subrange(0, start as int));
                assert(r.nzval@.subrange(0, start as int) =~= before.nzval@.subrange(0, start as int));
                assert(r.rowval@[before.rowval@.len() as int] == i);
            }
            assert forall|a: int| 0 <= a < i + 1 && is_kept(#[trigger] m@[a]@[j as int]) implies exists|
                p: int,
            | start <= p < r.rowval@.len() && #[trigger] r.rowval@[p] == a by {
                if a < i {
                    let p = choose|p: int|
                        start <= p < before.rowval@.len() && #[trigger] before.rowval@[p] == a;
                    assert(r.rowval@[p] == a);
                }
            }
            i += 1;
        }
        r.colptr.push(r.rowval.len());
        proof {
            assert forall|p: int| 0 <= p < start implies r.rowval@[p] == r0.rowval@[p]
                && r.nzval@[p] == r0.nzval@[p] by {
                assert(r.rowval@.subrange(0, start as int)[p] == r.rowval@[p]);
                assert(r.nzval@.subrange(0, start as int)[p] == r.nzval@[p]);
            }
            assert(forall|c: int| 0 <= c <= j ==> r.colptr@[c] == r0.colptr@[c]);
            assert forall|c: int, p: int| 0 <= c < j implies r.in_column(p, c) == r0.in_column(p, c)
                && (r.in_column(p, c) ==> 0 <= p < start) by {
                assert(r0.colptr@[c + 1] <= r0.colptr@[j as int]);
            }
            assert forall|p: int| r.in_column(p, j as int) == (start <= p < r.rowval@.len()) by {}
            assert forall|i: int, c: int|
                0 <= i < nr && 0 <= c < j + 1 && (upper ==> i <= c) && is_kept(#[trigger] m@[i]@[c])
                implies r.stores(i, c) by {
                if c < j {
                    assert(r0.stores(i, c));
                    let p = choose|p: int| #[trigger] r0.in_column(p, c) && r0.rowval@[p] == i;
                    assert(r.in_column(p, c) && r.rowval@[p] == i);
                } else {
                    let p = choose|p: int|
                        start <= p < r.rowval@.len() && #[trigger] r.rowval@[p] == i;
                    assert(r.in_column(p, c) && r.rowval@[p] == i);
                }
            }
        }
        j += 1;
    }
    r
}

/// Compresses a dense matrix given by rows, dropping entries whose magnitude
/// does not exceed the tolerance.
pub fn dense_to_csc(m: &Vec<Vec<Scalar>>, nc: usize) -> (r: Csc)
    requires
        has_shape(m@, m@.len(), nc as nat),
        nc < usize::MAX,
    ensures
        r.nrows == m@.len(),
        r.ncols == nc,
        r.wf(),
        r.compresses(rows_of(m@), false),
{
    compress(m, nc, false)
}

/// Compresses the upper triangle of a square matrix given by rows.
pub fn dense_to_csc_upper(m: &Vec<Vec<Scalar>>) -> (r: Csc)
    requires
        has_shape(m@, m@.len(), m@.len()),
        m@.len() < usize::MAX,
    ensures
        r.nrows == m@.len(),
        r.ncols == m@.len(),
        r.wf(),
        r.compresses(rows_of(m@), true),
{
    compress(m, m.len(), true)
}

/// Reading a compressed matrix back gives every kept entry of the dense one and
/// zero elsewhere; the upper form gives zero below the diagonal.
pub proof fn csc_reads_back(r: Csc, m: Seq<Seq<Scalar>>, upper: bool, i: int, j: int)
    requires
        r.wf(),
        r.compresses(m, upper),
        0 <= i < r.nrows,
        0 <= j < r.ncols,
    ensures
        r.value(i, j) == (if is_kept(m[i][j]) && (upper ==> i <= j) {
            m[i][j]
        } else {
            crate::scalar::zero()
        }),
{
    if r.stores(i, j) {
        let p = choose|p: int| #[trigger] r.in_column(p, j) && r.rowval@[p] == i;
        assert(r.nzval@[p] == m[i][j]);
    }
}

/// A matrix position is stored at most once.
pub proof fn csc_entries_are_unique(r: Csc, j: int, p: int, q: int)
    requires
        r.wf(),
        0 <= j < r.ncols,
        r.in_column(p, j),
        r.in_column(q, j),
        r.rowval@[p] == r.rowval@[q],
    ensures
        p == q,
{
    if p < q {
        assert(r.rowval@[p] < r.rowval@[q]);
    } else if q < p {
        assert(r.rowval@[q] < r.rowval@[p]);
    }
}

} // verus!
