use vstd::prelude::*;
use crate::config::{ExtractionMethod, MatrixBasis, ScoreMethod};
use crate::error::AnalysisError;
use crate::extraction::ExtractionResult;
use crate::grid::{copy_reals, Grid};
use crate::ieee::{Real, ONE_BITS};
use crate::rotation::RotationResult;

verus! {

/// A copy of `names`.
pub fn copy_names(names: &Vec<String>) -> (r: Vec<String>)
    ensures
        r@.len() == names@.len(),
        forall|i: int| 0 <= i < names@.len() ==> (#[trigger] r@[i])@ == names@[i]@,
{
    let mut r: Vec<String> = Vec::new();
    let mut i: usize = 0;
    while i < names.len()
        invariant
            i <= names@.len(),
            r@.len() == i,
            forall|a: int| 0 <= a < i ==> (#[trigger] r@[a])@ == names@[a]@,
        decreases names@.len() - i,
    {
        r.push(names[i].clone());
        i += 1;
    }
    r
}

/// Loadings (or coefficients) labelled by variable: `components[i]` is the
/// row of `variable_order[i]`.
#[derive(Debug)]
pub struct LoadingTable {
    pub components: Vec<Vec<Real>>,
    pub variable_order: Vec<String>,
}

/// The unrotated loadings of the retained factors.
pub type ComponentMatrix = LoadingTable;
/// The loadings of an orthogonal rotation.
pub type RotatedComponentMatrix = LoadingTable;
/// The pattern loadings of an oblique rotation.
pub type PatternMatrix = LoadingTable;
/// Pattern loadings times factor correlations, for an oblique rotation.
pub type StructureMatrix = LoadingTable;
/// The factor-score coefficients.
pub type ComponentScoreCoefficientMatrix = LoadingTable;

/// The rows of `m` labelled by `names`: one row per variable that both have,
/// and every name kept in the variable order.
pub open spec fn labels_rows(t: LoadingTable, m: Grid, names: Seq<String>) -> bool {
    let n = if m.nrows() < names.len() { m.nrows() } else { names.len() };
    &&& t.variable_order@.len() == names.len()
    &&& forall|i: int| 0 <= i < names.len() ==> (#[trigger] t.variable_order@[i])@ == names[i]@
    &&& t.components@.len() == n
    &&& forall|i: int| 0 <= i < n ==> (#[trigger] t.components@[i])@ == m.rows@[i]@
}

/// The rows of `m` labelled by `names`.
pub fn labelled_rows(m: &Grid, names: &Vec<String>) -> (r: LoadingTable)
    ensures
        labels_rows(r, *m, names@),
{
    let n = if m.rows.len() < names.len() { m.rows.len() } else { names.len() };
    let mut components: Vec<Vec<Real>> = Vec::new();
    let mut i: usize = 0;
    while i < n
        invariant
            n <= m.rows@.len(),
            i <= n,
            components@.len() == i,
            forall|a: int| 0 <= a < i ==> (#[trigger] components@[a])@ == m.rows@[a]@,
        decreases n - i,
    {
        components.push(copy_reals(&m.rows[i]));
        i += 1;
    }
    LoadingTable { components, variable_order: copy_names(names) }
}

/// The component matrix of an extraction: its loadings by variable.
pub fn calculate_component_matrix(extraction: &ExtractionResult) -> (r: ComponentMatrix)
    ensures
        labels_rows(r, extraction.loadings, extraction.var_names@),
{
    labelled_rows(&extraction.loadings, &extraction.var_names)
}

/// The rotated component matrix: rotated loadings by variable.
pub fn create_rotated_component_matrix(rotation: &RotationResult, var_names: &Vec<String>) -> (r: RotatedComponentMatrix)
    ensures
        labels_rows(r, rotation.rotated_loadings, var_names@),
{
    labelled_rows(&rotation.rotated_loadings, var_names)
}

/// The pattern matrix: the pattern loadings of an oblique rotation by
/// variable.
pub fn create_pattern_matrix(rotation: &RotationResult, var_names: &Vec<String>) -> (r: PatternMatrix)
    ensures
        labels_rows(r, rotation.rotated_loadings, var_names@),
{
    labelled_rows(&rotation.rotated_loadings, var_names)
}

/// The `k × k` transformation matrix, row by row.
#[derive(Debug)]
pub struct ComponentTransformationMatrix {
    pub components: Vec<Vec<Real>>,
}

/// The factor correlations, row by row; empty for an orthogonal solution.
#[derive(Debug)]
pub struct ComponentCorrelationMatrix {
    pub correlations: Vec<Vec<Real>>,
}

/// The transformation matrix of a rotation.
pub fn create_component_transformation_matrix(rotation: &RotationResult) -> (r: ComponentTransformationMatrix)
    ensures
        r.components@.len() == rotation.transformation_matrix.rows@.len(),
        forall|i: int| 0 <= i < r.components@.len() ==>
            (#[trigger] r.components@[i])@ == rotation.transformation_matrix.rows@[i]@,
{
    ComponentTransformationMatrix { components: rotation.transformation_matrix.to_rows() }
}

/// The factor correlations of a rotation, or no rows when it has none.
pub fn create_component_correlation_matrix(rotation: &RotationResult) -> (r: ComponentCorrelationMatrix)
    ensures
        rotation.factor_correlations is None ==> r.correlations@.len() == 0,
        rotation.factor_correlations matches Some(c) ==> {
            &&& r.correlations@.len() == c.rows@.len()
            &&& forall|i: int| 0 <= i < r.correlations@.len() ==> (#[trigger] r.correlations@[i])@ == c.rows@[i]@
        },
{
    match &rotation.factor_correlations {
        Some(c) => ComponentCorrelationMatrix { correlations: c.to_rows() },
        None => ComponentCorrelationMatrix { correlations: Vec::new() },
    }
}

/// Initial and extraction communalities, by variable.
#[derive(Debug)]
pub struct Communalities {
    /// The sample variance of each variable, whatever the basis.
    pub raw_initial: Vec<Real>,
    /// `1.0` for principal components; the squared multiple correlation
    /// for the common-factor methods.
    pub rescaled_initial: Vec<Real>,
    /// The final communalities of the extraction.
    pub extraction: Vec<Real>,
    pub variable_order: Vec<String>,
    pub extraction_matrix_type: MatrixBasis,
}

/// `p` copies of `1.0`.
pub fn ones(p: usize) -> (r: Vec<Real>)
    ensures
        r@.len() == p,
        forall|i: int| 0 <= i < p ==> (#[trigger] r@[i]).bits == ONE_BITS,
{
    let mut r: Vec<Real> = Vec::new();
    let mut i: usize = 0;
    while i < p
        invariant
            i <= p,
            r@.len() == i,
            forall|a: int| 0 <= a < i ==> (#[trigger] r@[a]).bits == ONE_BITS,
        decreases p - i,
    {
        r.push(Real::one());
        i += 1;
    }
    r
}

/// The communalities table of `p = var_names.len()` variables, from the
/// sample variances, the squared multiple correlations (read only for the
/// common-factor methods) and the extraction communalities. Every vector
/// that is read must hold one value per variable.
pub fn calculate_communalities(
    method: ExtractionMethod,
    basis: MatrixBasis,
    var_names: &Vec<String>,
    raw_variances: &Vec<Real>,
    smc: &Vec<Real>,
    extraction: &Vec<Real>,
) -> (r: Result<Communalities, AnalysisError>)
    ensures
        ({
            let p = var_names@.len();
            let common = method != ExtractionMethod::PrincipalComponents;
            &&& r is Ok <==> (raw_variances@.len() == p && extraction@.len() == p && (common ==> smc@.len() == p))
            &&& r is Err ==> r->Err_0 == AnalysisError::DimensionMismatch
            &&& r is Ok ==> {
                let c = r->Ok_0;
                &&& c.raw_initial@ == raw_variances@
                &&& c.extraction@ == extraction@
                &&& c.extraction_matrix_type == basis
                &&& c.variable_order@.len() == p
                &&& forall|i: int| 0 <= i < p ==> (#[trigger] c.variable_order@[i])@ == var_names@[i]@
                &&& common ==> c.rescaled_initial@ == smc@
                &&& !common ==> c.rescaled_initial@.len() == p && forall|i: int| 0 <= i < p ==>
                        (#[trigger] c.rescaled_initial@[i]).bits == ONE_BITS
            }
        }),
{
    let p = var_names.len();
    let common = method.is_common_factor();
    if raw_variances.len() != p || extraction.len() != p || (common && smc.len() != p) {
        return Err(AnalysisError::DimensionMismatch);
    }
    let rescaled = if common { copy_reals(smc) } else { ones(p) };
    Ok(Communalities {
        raw_initial: copy_reals(raw_variances),
        rescaled_initial: rescaled,
        extraction: copy_reals(extraction),
        variable_order: copy_names(var_names),
        extraction_matrix_type: basis,
    })
}

/// One row of the variance-explained table.
#[derive(Clone, Copy, Debug, PartialEq, Eq)]
pub struct TotalVarianceComponent {
    pub total: Real,
    pub percent_of_variance: Real,
    pub cumulative_percent: Real,
}

/// Which solution a block of the variance table describes.
#[derive(Clone, Copy, Debug, PartialEq, Eq)]
pub enum BlockLabel {
    /// The single block of a correlation-based analysis.
    Component,
    Raw,
    Rescaled,
}

/// One block of the variance-explained table.
#[derive(Debug)]
pub struct TotalVarianceBlock {
    pub label: BlockLabel,
    /// One row per initial eigenvalue, all `p` of them.
    pub initial: Vec<TotalVarianceComponent>,
    /// The rows of the retained factors.
    pub extraction: Vec<TotalVarianceComponent>,
    /// The rotation sums, reported for a correlation basis only.
    pub rotation: Option<Vec<TotalVarianceComponent>>,
}

/// The variance-explained table.
#[derive(Debug)]
pub struct TotalVarianceExplained {
    pub blocks: Vec<TotalVarianceBlock>,
    pub extraction_matrix_type: MatrixBasis,
}

/// The first `k` rows.
pub fn first_rows(rows: &Vec<TotalVarianceComponent>, k: usize) -> (r: Vec<TotalVarianceComponent>)
    requires
        k <= rows@.len(),
    ensures
        r@ == rows@.subrange(0, k as int),
{
    let mut r: Vec<TotalVarianceComponent> = Vec::new();
    let mut i: usize = 0;
    while i < k
        invariant
            k <= rows@.len(),
            i <= k,
            r@ =~= rows@.subrange(0, i as int),
        decreases k - i,
    {
        r.push(rows[i]);
        i += 1;
    }
    r
}

/// Whether `b` is a block with this label that reports all of `rows` as
/// initial eigenvalues and the first `k` as extraction sums, and repeats
/// those as rotation sums exactly when `with_rotation` holds.
pub open spec fn block_of(b: TotalVarianceBlock, label: BlockLabel, rows: Seq<TotalVarianceComponent>, k: nat, with_rotation: bool) -> bool {
    &&& b.label == label
    &&& b.initial@ == rows
    &&& b.extraction@ == rows.subrange(0, k as int)
    &&& (b.rotation is Some <==> with_rotation)
    &&& b.rotation matches Some(rot) ==> rot@ == rows.subrange(0, k as int)
}

/// The variance-explained table from its rows (one per initial eigenvalue,
/// with its percentage and cumulative percentage) and the number `k` of
/// retained factors. A correlation basis gives one "Component" block whose
/// rotation sums repeat the extraction sums; a covariance basis gives a
/// "Raw" and a "Rescaled" block with the same figures and no rotation sums.
pub fn calculate_total_variance_explained(
    rows: &Vec<TotalVarianceComponent>,
    k: usize,
    basis: MatrixBasis,
) -> (r: Result<TotalVarianceExplained, AnalysisError>)
    ensures
        r is Ok <==> k <= rows@.len(),
        r is Err ==> r->Err_0 == AnalysisError::DimensionMismatch,
        r is Ok ==> {
            let t = r->Ok_0;
            &&& t.extraction_matrix_type == basis
            &&& basis == MatrixBasis::Correlation ==> t.blocks@.len() == 1
                    && block_of(t.blocks@[0], BlockLabel::Component, rows@, k as nat, true)
            &&& basis == MatrixBasis::Covariance ==> t.blocks@.len() == 2
                    && block_of(t.blocks@[0], BlockLabel::Raw, rows@, k as nat, false)
                    && block_of(t.blocks@[1], BlockLabel::Rescaled, rows@, k as nat, false)
        },
{
    if k > rows.len() {
        return Err(AnalysisError::DimensionMismatch);
    }
    let all = rows.len();
    let mut blocks: Vec<TotalVarianceBlock> = Vec::new();
    match basis {
        MatrixBasis::Correlation => {
            blocks.push(TotalVarianceBlock {
                label: BlockLabel::Component,
                initial: first_rows(rows, all),
                extraction: first_rows(rows, k),
                rotation: Some(first_rows(rows, k)),
            });
        },
        MatrixBasis::Covariance => {
            blocks.push(TotalVarianceBlock {
                label: BlockLabel::Raw,
                initial: first_rows(rows, all),
                extraction: first_rows(rows, k),
                rotation: None,
            });
            blocks.push(TotalVarianceBlock {
                label: BlockLabel::Rescaled,
                initial: first_rows(rows, all),
                extraction: first_rows(rows, k),
                rotation: None,
            });
        },
    }
    proof {
        assert(rows@.subrange(0, all as int) =~= rows@);
    }
    Ok(TotalVarianceExplained { blocks, extraction_matrix_type: basis })
}

/// The scree plot: the initial eigenvalues against their component numbers.
#[derive(Debug)]
pub struct ScreePlot {
    pub eigenvalues: Vec<Real>,
    pub component_numbers: Vec<usize>,
}

/// The scree plot of `p` components: the first `p` eigenvalues, padded with
/// `0.0` when there are fewer, numbered `1` to `p`.
pub fn calculate_scree_plot(eigenvalues: &Vec<Real>, p: usize) -> (r: ScreePlot)
    ensures
        r.eigenvalues@.len() == p,
        r.component_numbers@.len() == p,
        forall|i: int| 0 <= i < p ==> #[trigger] r.component_numbers@[i] == i + 1,
        forall|i: int| 0 <= i < p ==> #[trigger] r.eigenvalues@[i] == (if i < eigenvalues@.len() {
            eigenvalues@[i]
        } else {
            Real { bits: 0 }
        }),
{
    let mut values: Vec<Real> = Vec::new();
    let mut numbers: Vec<usize> = Vec::new();
    let mut i: usize = 0;
    while i < p
        invariant
            i <= p,
            values@.len() == i,
            numbers@.len() == i,
            forall|a: int| 0 <= a < i ==> #[trigger] numbers@[a] == a + 1,
            forall|a: int| 0 <= a < i ==> #[trigger] values@[a] == (if a < eigenvalues@.len() {
                eigenvalues@[a]
            } else {
                Real { bits: 0 }
            }),
        decreases p - i,
    {
        if i < eigenvalues.len() {
            values.push(eigenvalues[i]);
        } else {
            values.push(Real::zero());
        }
        numbers.push(i + 1);
        i += 1;
    }
    ScreePlot { eigenvalues: values, component_numbers: numbers }
}

} // verus!
