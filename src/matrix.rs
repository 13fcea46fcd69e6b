use vstd::prelude::*;
use crate::error::AnalysisError;
use crate::grid::Grid;
use crate::ieee::{Real, ONE_BITS};
use crate::report::copy_names;

verus! {

/// The entry of `g` for the unordered pair `{i, j}`, read from the upper
/// triangle.
pub open spec fn upper(g: Grid, i: int, j: int) -> Real {
    if i < j {
        g.at(i, j)
    } else {
        g.at(j, i)
    }
}

/// Entry `(i, j)` of a correlation matrix assembled from Pearson quotients
/// and their denominators: `1.0` on the diagonal; off the diagonal the
/// quotient of the upper-triangle pair when its denominator is positive, and
/// `0.0` when it is not (a variable without variation).
pub open spec fn correlation_entry(quotients: Grid, denominators: Grid, i: int, j: int) -> Real {
    if i == j {
        Real { bits: ONE_BITS }
    } else if upper(denominators, i, j).positive() {
        upper(quotients, i, j)
    } else {
        Real { bits: 0 }
    }
}

/// Checks a data matrix of observations (rows) over `p` variables (columns)
/// and returns the number of observations.
pub fn check_data_matrix(data: &Vec<Vec<Real>>, p: usize) -> (r: Result<usize, AnalysisError>)
    ensures
        data@.len() < 2 ==> r == Err::<usize, AnalysisError>(AnalysisError::InsufficientData),
        data@.len() >= 2 ==> (r is Ok <==> forall|i: int| 0 <= i < data@.len() ==> (#[trigger] data@[i])@.len() == p),
        data@.len() >= 2 && r is Err ==> r->Err_0 == AnalysisError::DimensionMismatch,
        r is Ok ==> r->Ok_0 == data@.len(),
{
    if data.len() < 2 {
        return Err(AnalysisError::InsufficientData);
    }
    let mut i: usize = 0;
    while i < data.len()
        invariant
            2 <= data@.len(),
            i <= data@.len(),
            forall|a: int| 0 <= a < i ==> (#[trigger] data@[a])@.len() == p,
        decreases data@.len() - i,
    {
        if data[i].len() != p {
            return Err(AnalysisError::DimensionMismatch);
        }
        i += 1;
    }
    Ok(data.len())
}

/// The correlation matrix from the Pearson quotients `quotients[i][j]` and
/// their denominators `denominators[i][j]` (the square root of the product of
/// the two variables' sums of squared deviations). Only the upper triangle
/// of both is read, so the result is symmetric; its diagonal is exactly
/// `1.0`, and a pair whose denominator is not positive correlates `0.0`.
pub fn assemble_correlation(quotients: &Grid, denominators: &Grid) -> (r: Result<Grid, AnalysisError>)
    requires
        quotients.wf(),
        denominators.wf(),
    ensures
        r is Ok <==> (quotients.nrows() == quotients.cols && denominators.nrows() == quotients.cols
            && denominators.cols == quotients.cols),
        r is Err ==> r->Err_0 == AnalysisError::DimensionMismatch,
        r is Ok ==> {
            let m = r->Ok_0;
            &&& m.shaped(quotients.cols as nat, quotients.cols as nat)
            &&& m.symmetric()
            &&& forall|i: int| 0 <= i < m.cols ==> (#[trigger] m.at(i, i)).bits == ONE_BITS
            &&& forall|i: int, j: int| 0 <= i < m.cols && 0 <= j < m.cols ==>
                    #[trigger] m.at(i, j) == correlation_entry(*quotients, *denominators, i, j)
        },
{
    let p = quotients.cols;
    if quotients.rows.len() != p || denominators.rows.len() != p || denominators.cols != p {
        return Err(AnalysisError::DimensionMismatch);
    }
    let mut rows: Vec<Vec<Real>> = Vec::new();
    let mut i: usize = 0;
    while i < p
        invariant
            quotients.shaped(p as nat, p as nat),
            denominators.shaped(p as nat, p as nat),
            i <= p,
            rows@.len() == i,
            forall|a: int| 0 <= a < i ==> (#[trigger] rows@[a])@.len() == p,
            forall|a: int, b: int| 0 <= a < i && 0 <= b < p ==>
                (#[trigger] rows@[a]@[b]) == correlation_entry(*quotients, *denominators, a, b),
        decreases p - i,
    {
        let mut row: Vec<Real> = Vec::new();
        let mut j: usize = 0;
        while j < p
            invariant
                quotients.shaped(p as nat, p as nat),
                denominators.shaped(p as nat, p as nat),
                i < p,
                j <= p,
                row@.len() == j,
                forall|b: int| 0 <= b < j ==>
                    (#[trigger] row@[b]) == correlation_entry(*quotients, *denominators, i as int, b),
            decreases p - j,
        {
            let (lo, hi) = if i < j { (i, j) } else { (j, i) };
            let entry = if i == j {
                Real::one()
            } else if denominators.rows[lo][hi].is_positive() {
                quotients.rows[lo][hi]
            } else {
                Real::zero()
            };
            row.push(entry);
            j += 1;
        }
        rows.push(row);
        i += 1;
    }
    Ok(Grid { rows, cols: p })
}

/// The symmetric matrix that agrees with `m` on and above the diagonal.
pub fn mirror_upper(m: &Grid) -> (r: Grid)
    requires
        m.wf(),
        m.nrows() == m.cols,
    ensures
        r.shaped(m.cols as nat, m.cols as nat),
        r.symmetric(),
        forall|i: int, j: int| 0 <= i <= j < m.cols ==> #[trigger] r.at(i, j) == m.at(i, j),
{
    let p = m.cols;
    let mut rows: Vec<Vec<Real>> = Vec::new();
    let mut i: usize = 0;
    while i < p
        invariant
            m.shaped(p as nat, p as nat),
            i <= p,
            rows@.len() == i,
            forall|a: int| 0 <= a < i ==> (#[trigger] rows@[a])@.len() == p,
            forall|a: int, b: int| 0 <= a < i && 0 <= b < p ==>
                (#[trigger] rows@[a]@[b]) == (if a <= b { m.at(a, b) } else { m.at(b, a) }),
        decreases p - i,
    {
        let mut row: Vec<Real> = Vec::new();
        let mut j: usize = 0;
        while j < p
            invariant
                m.shaped(p as nat, p as nat),
                i < p,
                j <= p,
                row@.len() == j,
                forall|b: int| 0 <= b < j ==>
                    (#[trigger] row@[b]) == (if i <= b { m.at(i as int, b) } else { m.at(b, i as int) }),
            decreases p - j,
        {
            if i <= j {
                row.push(m.rows[i][j]);
            } else {
                row.push(m.rows[j][i]);
            }
            j += 1;
        }
        rows.push(row);
        i += 1;
    }
    Grid { rows, cols: p }
}

/// Correlation entries are symmetric: `(i, j)` and `(j, i)` read the same
/// upper-triangle pair.
pub proof fn lemma_correlation_symmetric(quotients: Grid, denominators: Grid, i: int, j: int)
    ensures
        correlation_entry(quotients, denominators, i, j) == correlation_entry(quotients, denominators, j, i),
{
}

/// A variable without variation, whose denominators with every other
/// variable are not positive, correlates `1.0` with itself and `0.0` with
/// every other variable, in its row and in its column.
pub proof fn lemma_constant_variable(quotients: Grid, denominators: Grid, c: int, p: int)
    requires
        0 <= c < p,
        forall|j: int| 0 <= j < p && j != c ==>
            !(#[trigger] upper(denominators, c, j)).positive(),
    ensures
        correlation_entry(quotients, denominators, c, c).bits == ONE_BITS,
        forall|j: int| 0 <= j < p && j != c ==> (#[trigger] correlation_entry(quotients, denominators, c, j)).bits == 0,
        forall|j: int| 0 <= j < p && j != c ==> (#[trigger] correlation_entry(quotients, denominators, j, c)).bits == 0,
{
    assert forall|j: int| 0 <= j < p && j != c implies (#[trigger] correlation_entry(quotients, denominators, j, c)).bits == 0 by {
        lemma_correlation_symmetric(quotients, denominators, j, c);
    }
}

/// A correlation matrix with its significance values and variable order.
#[derive(Debug)]
pub struct CorrelationMatrix {
    /// `p × p` correlations.
    pub correlations: Grid,
    /// One-tailed p-values, row by row; every row is empty when significance
    /// was not requested.
    pub sig_values: Vec<Vec<Real>>,
    pub variable_order: Vec<String>,
}

/// The significance row of variable `i`: the p-values of its pairs, with
/// `0.0` against itself.
pub open spec fn sig_row_ok(row: Seq<Real>, p_values: Grid, i: int, p: nat) -> bool {
    &&& row.len() == p
    &&& forall|j: int| 0 <= j < p ==> #[trigger] row[j] == (if i == j { Real { bits: 0 } } else { p_values.at(i, j) })
}

/// The correlation report of the variables `var_names` (`p` of them): the
/// correlations, and the p-values when significance was requested
/// (`p_values` is `Some`). Without them every significance row is empty,
/// not filled with zeros.
pub fn calculate_correlation_matrix(
    var_names: &Vec<String>,
    correlations: Grid,
    p_values: Option<Grid>,
) -> (r: Result<CorrelationMatrix, AnalysisError>)
    ensures
        ({
            let p = var_names@.len();
            &&& r is Ok <==> (correlations.shaped(p, p) && (p_values matches Some(pv) ==> pv.shaped(p, p)))
            &&& r is Err ==> r->Err_0 == AnalysisError::DimensionMismatch
            &&& r is Ok ==> {
                let m = r->Ok_0;
                &&& m.correlations == correlations
                &&& m.variable_order@.len() == p
                &&& forall|i: int| 0 <= i < p ==> (#[trigger] m.variable_order@[i])@ == var_names@[i]@
                &&& m.sig_values@.len() == p
                &&& p_values is None ==> forall|i: int| 0 <= i < p ==> (#[trigger] m.sig_values@[i])@.len() == 0
                &&& p_values matches Some(pv) ==> forall|i: int| 0 <= i < p ==>
                        sig_row_ok((#[trigger] m.sig_values@[i])@, pv, i, p)
            }
        }),
{
    let p = var_names.len();
    if !correlations.has_shape(p, p) {
        return Err(AnalysisError::DimensionMismatch);
    }
    let mut sig: Vec<Vec<Real>> = Vec::new();
    match &p_values {
        Some(pv) => {
            if !pv.has_shape(p, p) {
                return Err(AnalysisError::DimensionMismatch);
            }
            let mut i: usize = 0;
            while i < p
                invariant
                    pv.shaped(p as nat, p as nat),
                    i <= p,
                    sig@.len() == i,
                    forall|a: int| 0 <= a < i ==> sig_row_ok((#[trigger] sig@[a])@, *pv, a, p as nat),
                decreases p - i,
            {
                let mut row: Vec<Real> = Vec::new();
                let mut j: usize = 0;
                while j < p
                    invariant
                        pv.shaped(p as nat, p as nat),
                        i < p,
                        j <= p,
                        row@.len() == j,
                        forall|b: int| 0 <= b < j ==> #[trigger] row@[b] == (if i == b { Real { bits: 0 } } else { pv.at(i as int, b) }),
                    decreases p - j,
                {
                    if i == j {
                        row.push(Real::zero());
                    } else {
                        row.push(pv.rows[i][j]);
                    }
                    j += 1;
                }
                sig.push(row);
                i += 1;
            }
        },
        None => {
            let mut i: usize = 0;
            while i < p
                invariant
                    i <= p,
                    sig@.len() == i,
                    forall|a: int| 0 <= a < i ==> (#[trigger] sig@[a])@.len() == 0,
                decreases p - i,
            {
                sig.push(Vec::new());
                i += 1;
            }
        },
    }
    Ok(CorrelationMatrix { correlations, sig_values: sig, variable_order: copy_names(var_names) })
}

} // verus!
