use vstd::prelude::*;
use crate::config::FactorRule;
use crate::error::AnalysisError;
use crate::grid::Grid;
use crate::ieee::Real;
use crate::ordering::{descending_order, is_permutation};
use crate::report::copy_names;
use crate::grid::copy_reals;

verus! {

/// How many of `values` lie strictly above `cutoff`.
pub open spec fn count_above(values: Seq<Real>, cutoff: Real) -> nat
    decreases values.len(),
{
    if values.len() == 0 {
        0
    } else {
        count_above(values.drop_last(), cutoff) + if cutoff.below(values.last()) { 1nat } else { 0nat }
    }
}

/// `k` clamped to `[1, p]`.
pub open spec fn clamp_factors(k: int, p: int) -> int {
    if k < 1 {
        1
    } else if k > p {
        p
    } else {
        k
    }
}

/// The number of factors the rule retains out of these eigenvalues, before
/// clamping.
pub open spec fn rule_count(rule: FactorRule, eigenvalues: Seq<Real>) -> int {
    match rule {
        FactorRule::EigenvalueAbove(cutoff) => count_above(eigenvalues, cutoff) as int,
        FactorRule::Fixed(k) => k as int,
    }
}

/// Eigenvalues sorted from the largest down, paired with their eigenvectors.
pub open spec fn levels_non_increasing(values: Seq<Real>) -> bool {
    forall|a: int, b: int| 0 <= a < b < values.len() ==>
        (#[trigger] values[a]).level() >= (#[trigger] values[b]).level()
}

/// The initial factor solution.
#[derive(Debug)]
pub struct ExtractionResult {
    /// `p × k` loadings.
    pub loadings: Grid,
    /// All `p` eigenvalues of the working matrix, from the largest down.
    pub eigenvalues: Vec<Real>,
    /// One extraction communality per variable.
    pub communalities: Vec<Real>,
    /// The number `k` of retained factors.
    pub n_factors: usize,
    pub var_names: Vec<String>,
}

impl ExtractionResult {
    /// Shapes agree: `k ≤ p`, the loadings are `p × k`, one eigenvalue,
    /// communality and name per variable.
    pub open spec fn wf(&self) -> bool {
        let p = self.var_names@.len();
        &&& 1 <= self.n_factors <= p
        &&& self.loadings.shaped(p, self.n_factors as nat)
        &&& self.eigenvalues@.len() == p
        &&& self.communalities@.len() == p
    }
}

/// The number of factors to retain: every eigenvalue strictly above the
/// cutoff, or the fixed count, clamped to `[1, p]` where `p` is the number
/// of eigenvalues. There is nothing to retain without eigenvalues.
pub fn retained_factors(eigenvalues: &Vec<Real>, rule: FactorRule) -> (r: Result<usize, AnalysisError>)
    ensures
        r is Err <==> eigenvalues@.len() == 0,
        r is Err ==> r->Err_0 == AnalysisError::DimensionMismatch,
        r is Ok ==> r->Ok_0 == clamp_factors(rule_count(rule, eigenvalues@), eigenvalues@.len() as int),
{
    let p = eigenvalues.len();
    if p == 0 {
        return Err(AnalysisError::DimensionMismatch);
    }
    let raw: usize = match rule {
        FactorRule::Fixed(k) => k,
        FactorRule::EigenvalueAbove(cutoff) => {
            let mut count: usize = 0;
            let mut i: usize = 0;
            while i < p
                invariant
                    p == eigenvalues@.len(),
                    i <= p,
                    count <= i,
                    count == count_above(eigenvalues@.subrange(0, i as int), cutoff),
                decreases p - i,
            {
                proof {
                    assert(eigenvalues@.subrange(0, i + 1).drop_last() =~= eigenvalues@.subrange(0, i as int));
                }
                if cutoff.lt(eigenvalues[i]) {
                    count += 1;
                }
                i += 1;
            }
            assert(eigenvalues@.subrange(0, p as int) =~= eigenvalues@);
            count
        },
    };
    if raw < 1 {
        Ok(1)
    } else if raw > p {
        Ok(p)
    } else {
        Ok(raw)
    }
}

/// Which columns the sign rule flips: column `j` is flipped exactly when its
/// orientation score (the sum of its cubed loadings) is negative.
pub fn column_flips(scores: &Vec<Real>) -> (r: Vec<bool>)
    ensures
        r@.len() == scores@.len(),
        forall|j: int| 0 <= j < scores@.len() ==> #[trigger] r@[j] == scores@[j].negative(),
{
    let mut r: Vec<bool> = Vec::new();
    let mut j: usize = 0;
    while j < scores.len()
        invariant
            j <= scores@.len(),
            r@.len() == j,
            forall|b: int| 0 <= b < j ==> #[trigger] r@[b] == scores@[b].negative(),
        decreases scores@.len() - j,
    {
        r.push(scores[j].is_negative());
        j += 1;
    }
    r
}

/// The sign-canonical form of `loadings`: every column whose sum of cubed
/// loadings (`cube_sums[j]`) is negative is negated, so that no column's
/// net orientation is negative whatever signs the eigen-decomposition
/// returned.
pub fn canonical_signs(loadings: &Grid, cube_sums: &Vec<Real>) -> (r: Grid)
    requires
        loadings.wf(),
        cube_sums@.len() == loadings.cols,
    ensures
        r.shaped(loadings.nrows(), loadings.cols as nat),
        forall|i: int, j: int| 0 <= i < loadings.nrows() && 0 <= j < loadings.cols ==>
            #[trigger] r.at(i, j) == (if cube_sums@[j].negative() { loadings.at(i, j).neg_spec() } else { loadings.at(i, j) }),
{
    let flips = column_flips(cube_sums);
    loadings.negate_columns(&flips)
}

/// Eigenpairs sorted by descending eigenvalue: eigenvalue `c` of the result
/// is eigenvalue `order[c]` of the input and column `c` of the result is
/// eigenvector column `order[c]`, where `order` is a stable descending
/// ordering of the eigenvalues.
pub fn sort_eigenpairs(eigenvalues: &Vec<Real>, eigenvectors: &Grid) -> (r: (Vec<Real>, Grid))
    requires
        eigenvectors.wf(),
        eigenvectors.cols == eigenvalues@.len(),
    ensures
        levels_non_increasing(r.0@),
        r.1.shaped(eigenvectors.nrows(), eigenvectors.cols as nat),
        r.0@.len() == eigenvalues@.len(),
        exists|order: Seq<usize>| {
            &&& is_permutation(order, eigenvalues@.len())
            &&& forall|c: int| 0 <= c < order.len() ==> #[trigger] r.0@[c] == eigenvalues@[order[c] as int]
            &&& forall|i: int, c: int| 0 <= i < eigenvectors.nrows() && 0 <= c < order.len() ==>
                    #[trigger] r.1.at(i, c) == eigenvectors.at(i, order[c] as int)
        },
{
    let order = descending_order(eigenvalues);
    let mut values: Vec<Real> = Vec::new();
    let mut c: usize = 0;
    while c < order.len()
        invariant
            is_permutation(order@, eigenvalues@.len()),
            c <= order@.len(),
            values@.len() == c,
            forall|b: int| 0 <= b < c ==> #[trigger] values@[b] == eigenvalues@[order@[b] as int],
        decreases order@.len() - c,
    {
        values.push(eigenvalues[order[c]]);
        c += 1;
    }
    let vectors = eigenvectors.select_columns(&order);
    assert forall|a: int, b: int| 0 <= a < b < values@.len() implies
        (#[trigger] values@[a]).level() >= (#[trigger] values@[b]).level() by {
        assert(values@[a] == eigenvalues@[order@[a] as int]);
        assert(values@[b] == eigenvalues@[order@[b] as int]);
    }
    (values, vectors)
}

/// `0, 1, ..., k - 1`
pub fn leading_indices(k: usize) -> (r: Vec<usize>)
    ensures
        r@.len() == k,
        forall|c: int| 0 <= c < k ==> #[trigger] r@[c] == c,
{
    let mut r: Vec<usize> = Vec::new();
    let mut c: usize = 0;
    while c < k
        invariant
            c <= k,
            r@.len() == c,
            forall|b: int| 0 <= b < c ==> #[trigger] r@[b] == b,
        decreases k - c,
    {
        r.push(c);
        c += 1;
    }
    r
}

/// The first `k` columns of `m`: the loadings of the retained factors, as
/// the reproduced matrices use them.
pub fn leading_columns(m: &Grid, k: usize) -> (r: Grid)
    requires
        m.wf(),
        k <= m.cols,
    ensures
        r.shaped(m.nrows(), k as nat),
        forall|i: int, c: int| 0 <= i < m.nrows() && 0 <= c < k ==> #[trigger] r.at(i, c) == m.at(i, c),
{
    let order = leading_indices(k);
    m.select_columns(&order)
}

/// The extraction result of `p = var_names.len()` variables: the first `k`
/// columns of the full loadings (`p × p`, sorted by descending eigenvalue),
/// in sign-canonical form by the sums of cubes of those columns. Every
/// input must have one entry per variable, `cube_sums` one per retained
/// factor, and `k` must lie in `[1, p]`.
pub fn build_extraction_result(
    full_loadings: &Grid,
    cube_sums: &Vec<Real>,
    eigenvalues: &Vec<Real>,
    communalities: &Vec<Real>,
    k: usize,
    var_names: &Vec<String>,
) -> (r: Result<ExtractionResult, AnalysisError>)
    requires
        full_loadings.wf(),
    ensures
        ({
            let p = var_names@.len();
            &&& r is Ok <==> (full_loadings.nrows() == p && full_loadings.cols == p && 1 <= k <= p
                && cube_sums@.len() == k && eigenvalues@.len() == p && communalities@.len() == p)
            &&& r is Err ==> r->Err_0 == AnalysisError::DimensionMismatch
            &&& r is Ok ==> {
                let e = r->Ok_0;
                &&& e.wf()
                &&& e.n_factors == k
                &&& e.eigenvalues@ == eigenvalues@
                &&& e.communalities@ == communalities@
                &&& forall|i: int| 0 <= i < p ==> (#[trigger] e.var_names@[i])@ == var_names@[i]@
                &&& forall|i: int, j: int| 0 <= i < p && 0 <= j < k ==> #[trigger] e.loadings.at(i, j) == (
                        if cube_sums@[j].negative() { full_loadings.at(i, j).neg_spec() } else { full_loadings.at(i, j) })
            }
        }),
{
    let p = var_names.len();
    if full_loadings.rows.len() != p || full_loadings.cols != p || k < 1 || k > p || cube_sums.len() != k
        || eigenvalues.len() != p || communalities.len() != p {
        return Err(AnalysisError::DimensionMismatch);
    }
    let retained = leading_columns(full_loadings, k);
    let loadings = canonical_signs(&retained, cube_sums);
    Ok(ExtractionResult {
        loadings,
        eigenvalues: copy_reals(eigenvalues),
        communalities: copy_reals(communalities),
        n_factors: k,
        var_names: copy_names(var_names),
    })
}

/// The orientation score of a column after the sign rule: negating a column
/// negates each of its cubes and so its sum of cubes, hence a flipped
/// column scores `-s` where it scored `s`.
pub open spec fn orientation_after(s: Real) -> Real {
    if s.negative() {
        s.neg_spec()
    } else {
        s
    }
}

/// After the sign rule no column has a negative sum of cubed loadings: a
/// flipped column's score `-s` is positive, an unflipped one's was not
/// negative. Applying the rule a second time therefore flips nothing.
pub proof fn lemma_orientation_non_negative(s: Real)
    ensures
        !orientation_after(s).negative(),
        !orientation_after(orientation_after(s)).negative(),
        orientation_after(orientation_after(s)) == orientation_after(s),
{
}

} // verus!
