//! The linear operator a solve runs against.
//!
//! An operator is an immutable dense matrix in row-major order together with
//! the right-hand side `y` and the `target_cost` threshold the termination
//! policy compares the residual against.  The solver reads it only through
//! `apply`, `apply_transpose`, `is_square`, and its `y` and `target_cost`
//! fields.

use vstd::prelude::*;

use crate::linalg::{dot, spec_dot, vec_wf};
use crate::rational::{rat_wf, Ratio};

verus! {

/// A dense linear operator with its right-hand side and cost threshold.
pub struct Operator {
    /// Number of rows (codomain dimension).
    pub rows: usize,
    /// Number of columns (domain dimension).
    pub cols: usize,
    /// Matrix entries in row-major order; length `rows * cols`.
    pub a: Vec<Ratio>,
    /// Right-hand side; length `rows`.
    pub y: Vec<Ratio>,
    /// Threshold on the residual norm for the cost-based stopping criterion.
    pub target_cost: Ratio,
}

/// Well-formedness: the entry buffer matches the declared shape and every
/// scalar is well-formed.
pub open spec fn op_wf(op: Operator) -> bool {
    &&& op.a@.len() == op.rows * op.cols
    &&& op.y@.len() == op.rows
    &&& vec_wf(op.a@)
    &&& vec_wf(op.y@)
    &&& rat_wf(op.target_cost)
}

/// Row `i` of the matrix.
pub open spec fn spec_row(op: Operator, i: int) -> Seq<Ratio>
    recommends
        0 <= i < op.rows,
        op_wf(op),
{
    op.a@.subrange(i * op.cols, i * op.cols + op.cols)
}

/// Column `j` of the matrix.
pub open spec fn spec_col(op: Operator, j: int) -> Seq<Ratio>
    recommends
        0 <= j < op.cols,
        op_wf(op),
{
    Seq::new(op.rows as nat, |i: int| op.a@[i * op.cols + j])
}

/// The matrix-vector product `A x`.
pub open spec fn spec_apply(op: Operator, x: Seq<Ratio>) -> Seq<Ratio>
    recommends
        x.len() == op.cols,
        op_wf(op),
{
    Seq::new(op.rows as nat, |i: int| spec_dot(spec_row(op, i), x))
}

/// The transposed product `Aᵗ v`.
pub open spec fn spec_apply_transpose(op: Operator, v: Seq<Ratio>) -> Seq<Ratio>
    recommends
        v.len() == op.rows,
        op_wf(op),
{
    Seq::new(op.cols as nat, |j: int| spec_dot(spec_col(op, j), v))
}

/// The operator maps a space onto itself.
pub open spec fn spec_is_square(op: Operator) -> bool {
    op.rows == op.cols
}

proof fn lemma_index_bound(i: int, j: int, rows: int, cols: int)
    by (nonlinear_arith)
    requires
        0 <= i < rows,
        0 <= j < cols,
    ensures
        0 <= i * cols,
        i * cols + j < rows * cols,
        i * cols + cols <= rows * cols,
{
}

proof fn lemma_row_bounds(i: int, rows: int, cols: int)
    by (nonlinear_arith)
    requires
        0 <= i < rows,
        0 <= cols,
    ensures
        0 <= i * cols,
        i * cols + cols <= rows * cols,
{
}

impl Operator {
    /// Assembles an operator from its shape, entries, right-hand side, and
    /// cost threshold.
    pub fn new(rows: usize, cols: usize, a: Vec<Ratio>, y: Vec<Ratio>, target_cost: Ratio) -> (r:
        Operator)
        requires
            a@.len() == rows * cols,
            y@.len() == rows,
            vec_wf(a@),
            vec_wf(y@),
            rat_wf(target_cost),
        ensures
            r == (Operator { rows, cols, a, y, target_cost }),
            op_wf(r),
    {
        Operator { rows, cols, a, y, target_cost }
    }

    /// Whether the operator maps a space onto itself.
    pub fn is_square(&self) -> (r: bool)
        ensures
            r == spec_is_square(*self),
    {
        self.rows == self.cols
    }

    /// The matrix-vector product `A x`.
    pub fn apply(&self, x: &Vec<Ratio>) -> (r: Vec<Ratio>)
        requires
            op_wf(*self),
            x@.len() == self.cols,
            vec_wf(x@),
        ensures
            r@ == spec_apply(*self, x@),
            r@.len() == self.rows,
            vec_wf(r@),
    {
        proof {
            assert(self.a.len() == self.a@.len());
        }
        let mut r: Vec<Ratio> = Vec::new();
        let mut i: usize = 0;
        while i < self.rows
            invariant
                i <= self.rows,
                op_wf(*self),
                self.a@.len() <= usize::MAX,
                x@.len() == self.cols,
                vec_wf(x@),
                r@.len() == i,
                forall|k: int| 0 <= k < i ==> r@[k] == spec_dot(spec_row(*self, k), x@),
                forall|k: int| 0 <= k < i ==> rat_wf(#[trigger] r@[k]),
            decreases self.rows - i,
        {
            let mut row: Vec<Ratio> = Vec::new();
            let mut j: usize = 0;
            while j < self.cols
                invariant
                    j <= self.cols,
                    i < self.rows,
                    op_wf(*self),
                    self.a@.len() <= usize::MAX,
                    row@.len() == j,
                    forall|t: int| 0 <= t < j ==> row@[t] == self.a@[i * self.cols + t],
                decreases self.cols - j,
            {
                proof {
                    lemma_index_bound(i as int, j as int, self.rows as int, self.cols as int);
                }
                let idx: usize = i * self.cols + j;
                let e = self.a[idx];
                row.push(e);
                j = j + 1;
            }
            proof {
                lemma_row_bounds(i as int, self.rows as int, self.cols as int);
                assert(row@ =~= spec_row(*self, i as int));
                assert forall|t: int| 0 <= t < row@.len() implies rat_wf(#[trigger] row@[t]) by {
                    lemma_index_bound(i as int, t, self.rows as int, self.cols as int);
                    assert(row@[t] == self.a@[i as int * self.cols + t]);
                }
            }
            let e = dot(&row, x);
            r.push(e);
            i = i + 1;
        }
        proof {
            assert(r@ =~= spec_apply(*self, x@));
        }
        r
    }

    /// The transposed product `Aᵗ v`.
    pub fn apply_transpose(&self, v: &Vec<Ratio>) -> (r: Vec<Ratio>)
        requires
            op_wf(*self),
            v@.len() == self.rows,
            vec_wf(v@),
        ensures
            r@ == spec_apply_transpose(*self, v@),
            r@.len() == self.cols,
            vec_wf(r@),
    {
        proof {
            assert(self.a.len() == self.a@.len());
        }
        let mut r: Vec<Ratio> = Vec::new();
        let mut j: usize = 0;
        while j < self.cols
            invariant
                j <= self.cols,
                op_wf(*self),
                self.a@.len() <= usize::MAX,
                v@.len() == self.rows,
                vec_wf(v@),
                r@.len() == j,
                forall|k: int| 0 <= k < j ==> r@[k] == spec_dot(spec_col(*self, k), v@),
                forall|k: int| 0 <= k < j ==> rat_wf(#[trigger] r@[k]),
            decreases self.cols - j,
        {
            let mut col: Vec<Ratio> = Vec::new();
            let mut i: usize = 0;
            while i < self.rows
                invariant
                    i <= self.rows,
                    j < self.cols,
                    op_wf(*self),
                    self.a@.len() <= usize::MAX,
                    col@.len() == i,
                    forall|t: int| 0 <= t < i ==> col@[t] == self.a@[t * self.cols + j],
                decreases self.rows - i,
            {
                proof {
                    lemma_index_bound(i as int, j as int, self.rows as int, self.cols as int);
                }
                let idx: usize = i * self.cols + j;
                let e = self.a[idx];
                col.push(e);
                i = i + 1;
            }
            proof {
                assert(col@ =~= spec_col(*self, j as int));
                assert forall|t: int| 0 <= t < col@.len() implies rat_wf(#[trigger] col@[t]) by {
                    lemma_index_bound(t, j as int, self.rows as int, self.cols as int);
                    assert(col@[t] == self.a@[t * self.cols + j as int]);
                }
            }
            let e = dot(&col, v);
            r.push(e);
            j = j + 1;
        }
        proof {
            assert(r@ =~= spec_apply_transpose(*self, v@));
        }
        r
    }
}

} // verus!
