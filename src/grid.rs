use vstd::prelude::*;
use crate::error::AnalysisError;
use crate::ieee::{Real, ONE_BITS};

verus! {

/// A dense matrix of reals, stored row by row.
#[derive(Clone, Debug)]
pub struct Grid {
    pub rows: Vec<Vec<Real>>,
    pub cols: usize,
}

impl Grid {
    /// Every row holds `cols` entries.
    pub open spec fn wf(&self) -> bool {
        forall|i: int| 0 <= i < self.rows@.len() ==> (#[trigger] self.rows@[i])@.len() == self.cols
    }

    pub open spec fn nrows(&self) -> nat {
        self.rows@.len()
    }

    /// The entry in row `i`, column `j`.
    pub open spec fn at(&self, i: int, j: int) -> Real {
        self.rows@[i]@[j]
    }

    /// Whether `self` is `n × m` and well formed.
    pub open spec fn shaped(&self, n: nat, m: nat) -> bool {
        self.wf() && self.nrows() == n && self.cols == m
    }

    pub open spec fn symmetric(&self) -> bool {
        self.wf() && self.nrows() == self.cols && forall|i: int, j: int|
            0 <= i < self.nrows() && 0 <= j < self.cols ==> #[trigger] self.at(i, j) == self.at(j, i)
    }

    /// Whether `self` is the `n × n` identity: `1.0` on the diagonal and
    /// `0.0` elsewhere, bit for bit.
    pub open spec fn is_identity(&self, n: nat) -> bool {
        &&& self.shaped(n, n)
        &&& forall|i: int, j: int| 0 <= i < n && 0 <= j < n ==>
                #[trigger] self.at(i, j) == (if i == j { Real { bits: ONE_BITS } } else { Real { bits: 0 } })
    }

    /// A matrix from its rows, each of which must hold `cols` entries.
    pub fn new(rows: Vec<Vec<Real>>, cols: usize) -> (r: Result<Grid, AnalysisError>)
        ensures
            r is Ok <==> forall|i: int| 0 <= i < rows@.len() ==> (#[trigger] rows@[i])@.len() == cols,
            r is Ok ==> r->Ok_0.rows@ == rows@ && r->Ok_0.cols == cols && r->Ok_0.wf(),
            r is Err ==> r->Err_0 == AnalysisError::DimensionMismatch,
    {
        let mut i: usize = 0;
        while i < rows.len()
            invariant
                i <= rows@.len(),
                forall|a: int| 0 <= a < i ==> (#[trigger] rows@[a])@.len() == cols,
            decreases rows@.len() - i,
        {
            if rows[i].len() != cols {
                return Err(AnalysisError::DimensionMismatch);
            }
            i += 1;
        }
        Ok(Grid { rows, cols })
    }

    pub fn num_rows(&self) -> (r: usize)
        ensures
            r == self.nrows(),
    {
        self.rows.len()
    }

    pub fn num_cols(&self) -> (r: usize)
        ensures
            r == self.cols,
    {
        self.cols
    }

    /// The entry in row `i`, column `j`.
    pub fn get(&self, i: usize, j: usize) -> (r: Real)
        requires
            self.wf(),
            i < self.nrows(),
            j < self.cols,
        ensures
            r == self.at(i as int, j as int),
    {
        self.rows[i][j]
    }

    /// The `n × n` identity matrix: `1.0` on the diagonal, `0.0` elsewhere.
    pub fn identity(n: usize) -> (r: Grid)
        ensures
            r.shaped(n as nat, n as nat),
            r.is_identity(n as nat),
    {
        let mut rows: Vec<Vec<Real>> = Vec::new();
        let mut i: usize = 0;
        while i < n
            invariant
                i <= n,
                rows@.len() == i,
                forall|a: int, b: int| 0 <= a < i && 0 <= b < n ==>
                    (#[trigger] rows@[a]@[b]) == (if a == b { Real { bits: ONE_BITS } } else { Real { bits: 0 } }),
                forall|a: int| 0 <= a < i ==> (#[trigger] rows@[a])@.len() == n,
            decreases n - i,
        {
            let mut row: Vec<Real> = Vec::new();
            let mut j: usize = 0;
            while j < n
                invariant
                    j <= n,
                    i < n,
                    row@.len() == j,
                    forall|b: int| 0 <= b < j ==>
                        (#[trigger] row@[b]) == (if i == b { Real { bits: ONE_BITS } } else { Real { bits: 0 } }),
                decreases n - j,
            {
                if i == j {
                    row.push(Real::one());
                } else {
                    row.push(Real::zero());
                }
                j += 1;
            }
            rows.push(row);
            i += 1;
        }
        Grid { rows, cols: n }
    }

    /// The transpose.
    pub fn transpose(&self) -> (r: Grid)
        requires
            self.wf(),
        ensures
            r.shaped(self.cols as nat, self.nrows()),
            forall|i: int, j: int| 0 <= i < self.cols && 0 <= j < self.nrows() ==>
                #[trigger] r.at(i, j) == self.at(j, i),
    {
        let n = self.rows.len();
        let mut rows: Vec<Vec<Real>> = Vec::new();
        let mut i: usize = 0;
        while i < self.cols
            invariant
                self.wf(),
                n == self.nrows(),
                i <= self.cols,
                rows@.len() == i,
                forall|a: int| 0 <= a < i ==> (#[trigger] rows@[a])@.len() == n,
                forall|a: int, b: int| 0 <= a < i && 0 <= b < n ==>
                    (#[trigger] rows@[a]@[b]) == self.at(b, a),
            decreases self.cols - i,
        {
            let mut row: Vec<Real> = Vec::new();
            let mut j: usize = 0;
            while j < n
                invariant
                    self.wf(),
                    n == self.nrows(),
                    i < self.cols,
                    j <= n,
                    row@.len() == j,
                    forall|b: int| 0 <= b < j ==> (#[trigger] row@[b]) == self.at(b, i as int),
                decreases n - j,
            {
                row.push(self.rows[j][i]);
                j += 1;
            }
            rows.push(row);
            i += 1;
        }
        Grid { rows, cols: n }
    }

    /// The matrix made of columns `order[0]`, `order[1]`, ... of `self`:
    /// column `c` of the result is column `order[c]`. Taking the first `k`
    /// columns and reordering factors are both this.
    pub fn select_columns(&self, order: &Vec<usize>) -> (r: Grid)
        requires
            self.wf(),
            forall|c: int| 0 <= c < order@.len() ==> #[trigger] order@[c] < self.cols,
        ensures
            r.shaped(self.nrows(), order@.len()),
            forall|i: int, c: int| 0 <= i < self.nrows() && 0 <= c < order@.len() ==>
                #[trigger] r.at(i, c) == self.at(i, order@[c] as int),
    {
        let mut rows: Vec<Vec<Real>> = Vec::new();
        let mut i: usize = 0;
        while i < self.rows.len()
            invariant
                self.wf(),
                forall|c: int| 0 <= c < order@.len() ==> #[trigger] order@[c] < self.cols,
                i <= self.nrows(),
                rows@.len() == i,
                forall|a: int| 0 <= a < i ==> (#[trigger] rows@[a])@.len() == order@.len(),
                forall|a: int, c: int| 0 <= a < i && 0 <= c < order@.len() ==>
                    (#[trigger] rows@[a]@[c]) == self.at(a, order@[c] as int),
            decreases self.nrows() - i,
        {
            let mut row: Vec<Real> = Vec::new();
            let mut c: usize = 0;
            while c < order.len()
                invariant
                    self.wf(),
                    forall|c: int| 0 <= c < order@.len() ==> #[trigger] order@[c] < self.cols,
                    i < self.nrows(),
                    c <= order@.len(),
                    row@.len() == c,
                    forall|b: int| 0 <= b < c ==> (#[trigger] row@[b]) == self.at(i as int, order@[b] as int),
                decreases order@.len() - c,
            {
                row.push(self.rows[i][order[c]]);
                c += 1;
            }
            rows.push(row);
            i += 1;
        }
        Grid { rows, cols: order.len() }
    }

    /// `self` with every column `j` for which `flags[j]` holds negated.
    pub fn negate_columns(&self, flags: &Vec<bool>) -> (r: Grid)
        requires
            self.wf(),
            flags@.len() == self.cols,
        ensures
            r.shaped(self.nrows(), self.cols as nat),
            forall|i: int, j: int| 0 <= i < self.nrows() && 0 <= j < self.cols ==>
                #[trigger] r.at(i, j) == (if flags@[j] { self.at(i, j).neg_spec() } else { self.at(i, j) }),
    {
        let mut rows: Vec<Vec<Real>> = Vec::new();
        let mut i: usize = 0;
        while i < self.rows.len()
            invariant
                self.wf(),
                flags@.len() == self.cols,
                i <= self.nrows(),
                rows@.len() == i,
                forall|a: int| 0 <= a < i ==> (#[trigger] rows@[a])@.len() == self.cols,
                forall|a: int, b: int| 0 <= a < i && 0 <= b < self.cols ==>
                    (#[trigger] rows@[a]@[b]) == (if flags@[b] { self.at(a, b).neg_spec() } else { self.at(a, b) }),
            decreases self.nrows() - i,
        {
            let mut row: Vec<Real> = Vec::new();
            let mut j: usize = 0;
            while j < self.cols
                invariant
                    self.wf(),
                    flags@.len() == self.cols,
                    i < self.nrows(),
                    j <= self.cols,
                    row@.len() == j,
                    forall|b: int| 0 <= b < j ==>
                        (#[trigger] row@[b]) == (if flags@[b] { self.at(i as int, b).neg_spec() } else { self.at(i as int, b) }),
                decreases self.cols - j,
            {
                let x = self.rows[i][j];
                if flags[j] {
                    row.push(x.neg());
                } else {
                    row.push(x);
                }
                j += 1;
            }
            rows.push(row);
            i += 1;
        }
        Grid { rows, cols: self.cols }
    }

    /// The square matrix whose entry `(a, b)` is entry `(order[a], order[b])`
    /// of `self`: rows and columns permuted together.
    pub fn select_symmetric(&self, order: &Vec<usize>) -> (r: Grid)
        requires
            self.wf(),
            self.nrows() == self.cols,
            forall|c: int| 0 <= c < order@.len() ==> #[trigger] order@[c] < self.cols,
        ensures
            r.shaped(order@.len(), order@.len()),
            forall|a: int, b: int| 0 <= a < order@.len() && 0 <= b < order@.len() ==>
                #[trigger] r.at(a, b) == self.at(order@[a] as int, order@[b] as int),
    {
        let mut rows: Vec<Vec<Real>> = Vec::new();
        let mut a: usize = 0;
        while a < order.len()
            invariant
                self.wf(),
                self.nrows() == self.cols,
                forall|c: int| 0 <= c < order@.len() ==> #[trigger] order@[c] < self.cols,
                a <= order@.len(),
                rows@.len() == a,
                forall|x: int| 0 <= x < a ==> (#[trigger] rows@[x])@.len() == order@.len(),
                forall|x: int, y: int| 0 <= x < a && 0 <= y < order@.len() ==>
                    (#[trigger] rows@[x]@[y]) == self.at(order@[x] as int, order@[y] as int),
            decreases order@.len() - a,
        {
            let src = order[a];
            let mut row: Vec<Real> = Vec::new();
            let mut b: usize = 0;
            while b < order.len()
                invariant
                    self.wf(),
                    self.nrows() == self.cols,
                    forall|c: int| 0 <= c < order@.len() ==> #[trigger] order@[c] < self.cols,
                    a < order@.len(),
                    src == order@[a as int],
                    b <= order@.len(),
                    row@.len() == b,
                    forall|y: int| 0 <= y < b ==> (#[trigger] row@[y]) == self.at(src as int, order@[y] as int),
                decreases order@.len() - b,
            {
                row.push(self.rows[src][order[b]]);
                b += 1;
            }
            rows.push(row);
            a += 1;
        }
        Grid { rows, cols: order.len() }
    }

    /// `self` with `1.0` on the diagonal and every other entry kept.
    pub fn with_unit_diagonal(&self) -> (r: Grid)
        requires
            self.wf(),
        ensures
            r.shaped(self.nrows(), self.cols as nat),
            forall|i: int, j: int| 0 <= i < self.nrows() && 0 <= j < self.cols ==>
                #[trigger] r.at(i, j) == (if i == j { Real { bits: ONE_BITS } } else { self.at(i, j) }),
    {
        let mut rows: Vec<Vec<Real>> = Vec::new();
        let mut i: usize = 0;
        while i < self.rows.len()
            invariant
                self.wf(),
                i <= self.nrows(),
                rows@.len() == i,
                forall|a: int| 0 <= a < i ==> (#[trigger] rows@[a])@.len() == self.cols,
                forall|a: int, b: int| 0 <= a < i && 0 <= b < self.cols ==>
                    (#[trigger] rows@[a]@[b]) == (if a == b { Real { bits: ONE_BITS } } else { self.at(a, b) }),
            decreases self.nrows() - i,
        {
            let mut row: Vec<Real> = Vec::new();
            let mut j: usize = 0;
            while j < self.cols
                invariant
                    self.wf(),
                    i < self.nrows(),
                    j <= self.cols,
                    row@.len() == j,
                    forall|b: int| 0 <= b < j ==>
                        (#[trigger] row@[b]) == (if i == b { Real { bits: ONE_BITS } } else { self.at(i as int, b) }),
                decreases self.cols - j,
            {
                if i == j {
                    row.push(Real::one());
                } else {
                    row.push(self.rows[i][j]);
                }
                j += 1;
            }
            rows.push(row);
            i += 1;
        }
        Grid { rows, cols: self.cols }
    }

    /// A copy of `self`, entry for entry.
    pub fn duplicate(&self) -> (r: Grid)
        requires
            self.wf(),
        ensures
            r.shaped(self.nrows(), self.cols as nat),
            forall|i: int, j: int| 0 <= i < self.nrows() && 0 <= j < self.cols ==>
                #[trigger] r.at(i, j) == self.at(i, j),
    {
        let mut rows: Vec<Vec<Real>> = Vec::new();
        let mut i: usize = 0;
        while i < self.rows.len()
            invariant
                self.wf(),
                i <= self.nrows(),
                rows@.len() == i,
                forall|a: int| 0 <= a < i ==> (#[trigger] rows@[a])@ == self.rows@[a]@,
            decreases self.nrows() - i,
        {
            let mut row: Vec<Real> = Vec::new();
            let mut j: usize = 0;
            while j < self.cols
                invariant
                    self.wf(),
                    i < self.nrows(),
                    j <= self.cols,
                    row@ =~= self.rows@[i as int]@.subrange(0, j as int),
                decreases self.cols - j,
            {
                row.push(self.rows[i][j]);
                j += 1;
            }
            assert(row@ =~= self.rows@[i as int]@);
            rows.push(row);
            i += 1;
        }
        Grid { rows, cols: self.cols }
    }

    /// Whether `self` is well formed and `n × m`.
    pub fn has_shape(&self, n: usize, m: usize) -> (r: bool)
        ensures
            r == self.shaped(n as nat, m as nat),
    {
        if self.rows.len() != n || self.cols != m {
            return false;
        }
        let mut i: usize = 0;
        while i < self.rows.len()
            invariant
                i <= self.nrows(),
                forall|a: int| 0 <= a < i ==> (#[trigger] self.rows@[a])@.len() == self.cols,
            decreases self.nrows() - i,
        {
            if self.rows[i].len() != self.cols {
                return false;
            }
            i += 1;
        }
        true
    }

    /// `self` with every entry `(i, j)` for which exactly one of `flags[i]`
    /// and `flags[j]` holds negated: the correlations of factors after the
    /// factors flagged have been negated.
    pub fn negate_cross(&self, flags: &Vec<bool>) -> (r: Grid)
        requires
            self.wf(),
            self.nrows() == self.cols,
            flags@.len() == self.cols,
        ensures
            r.shaped(self.cols as nat, self.cols as nat),
            forall|i: int, j: int| 0 <= i < self.cols && 0 <= j < self.cols ==>
                #[trigger] r.at(i, j) == (if flags@[i] != flags@[j] { self.at(i, j).neg_spec() } else { self.at(i, j) }),
    {
        let mut rows: Vec<Vec<Real>> = Vec::new();
        let mut i: usize = 0;
        while i < self.rows.len()
            invariant
                self.wf(),
                self.nrows() == self.cols,
                flags@.len() == self.cols,
                i <= self.nrows(),
                rows@.len() == i,
                forall|a: int| 0 <= a < i ==> (#[trigger] rows@[a])@.len() == self.cols,
                forall|a: int, b: int| 0 <= a < i && 0 <= b < self.cols ==>
                    (#[trigger] rows@[a]@[b]) == (if flags@[a] != flags@[b] { self.at(a, b).neg_spec() } else { self.at(a, b) }),
            decreases self.nrows() - i,
        {
            let mut row: Vec<Real> = Vec::new();
            let mut j: usize = 0;
            while j < self.cols
                invariant
                    self.wf(),
                    self.nrows() == self.cols,
                    flags@.len() == self.cols,
                    i < self.nrows(),
                    j <= self.cols,
                    row@.len() == j,
                    forall|b: int| 0 <= b < j ==>
                        (#[trigger] row@[b]) == (if flags@[i as int] != flags@[b] { self.at(i as int, b).neg_spec() } else { self.at(i as int, b) }),
                decreases self.cols - j,
            {
                let x = self.rows[i][j];
                if flags[i] != flags[j] {
                    row.push(x.neg());
                } else {
                    row.push(x);
                }
                j += 1;
            }
            rows.push(row);
            i += 1;
        }
        Grid { rows, cols: self.cols }
    }

    /// The rows of `self`, copied.
    pub fn to_rows(&self) -> (r: Vec<Vec<Real>>)
        ensures
            r@.len() == self.rows@.len(),
            forall|i: int| 0 <= i < self.rows@.len() ==> (#[trigger] r@[i])@ == self.rows@[i]@,
    {
        let mut r: Vec<Vec<Real>> = Vec::new();
        let mut i: usize = 0;
        while i < self.rows.len()
            invariant
                i <= self.rows@.len(),
                r@.len() == i,
                forall|a: int| 0 <= a < i ==> (#[trigger] r@[a])@ == self.rows@[a]@,
            decreases self.rows@.len() - i,
        {
            r.push(copy_reals(&self.rows[i]));
            i += 1;
        }
        r
    }
}

/// A copy of `v`.
pub fn copy_reals(v: &Vec<Real>) -> (r: Vec<Real>)
    ensures
        r@ == v@,
{
    let mut r: Vec<Real> = Vec::new();
    let mut j: usize = 0;
    while j < v.len()
        invariant
            j <= v@.len(),
            r@ =~= v@.subrange(0, j as int),
        decreases v@.len() - j,
    {
        r.push(v[j]);
        j += 1;
    }
    assert(r@ =~= v@);
    r
}

} // verus!
