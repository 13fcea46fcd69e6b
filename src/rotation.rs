use vstd::prelude::*;
use crate::config::RotationFamily;
use crate::grid::Grid;
use crate::ieee::{Real, ONE_BITS};
use crate::extraction::column_flips;
use crate::ordering::{descending_order, is_permutation, sorted_descending};

verus! {

/// The computation a rotation family calls for on `k` factors of `p`
/// variables.
#[derive(Clone, Copy, Debug, PartialEq, Eq)]
pub enum RotationStep {
    /// Loadings stay as extracted, with the identity transformation.
    Keep,
    /// The orthomax iteration, whose gradient subtracts
    /// `gamma / p · Λ · diag(Σ Λ²)` from `Λ³`, with
    /// `gamma = gamma_num / gamma_den`.
    Orthomax { gamma_num: u128, gamma_den: u128 },
    /// Gradient-based direct oblimin with parameter `delta`.
    Oblimin { delta: Real },
    /// Varimax followed by the promax target fit with power `kappa`.
    Promax { kappa: Real },
}

/// The step each family calls for: varimax is orthomax with `gamma = 1`,
/// quartimax with `gamma = 0`, equamax with `gamma = p / (2k)` except that
/// on exactly two factors it is varimax.
pub open spec fn step_of(family: RotationFamily, p: nat, k: nat) -> RotationStep {
    match family {
        RotationFamily::NoRotation => RotationStep::Keep,
        RotationFamily::Varimax => RotationStep::Orthomax { gamma_num: 1, gamma_den: 1 },
        RotationFamily::Quartimax => RotationStep::Orthomax { gamma_num: 0, gamma_den: 1 },
        RotationFamily::Equamax => if k == 2 {
            RotationStep::Orthomax { gamma_num: 1, gamma_den: 1 }
        } else {
            RotationStep::Orthomax { gamma_num: p as u128, gamma_den: (2 * k) as u128 }
        },
        RotationFamily::Oblimin { delta } => RotationStep::Oblimin { delta },
        RotationFamily::Promax { kappa } => RotationStep::Promax { kappa },
    }
}

/// The computation that `family` calls for on `k` factors of `p` variables.
pub fn rotation_step(family: RotationFamily, p: usize, k: usize) -> (r: RotationStep)
    ensures
        r == step_of(family, p as nat, k as nat),
{
    match family {
        RotationFamily::NoRotation => RotationStep::Keep,
        RotationFamily::Varimax => RotationStep::Orthomax { gamma_num: 1, gamma_den: 1 },
        RotationFamily::Quartimax => RotationStep::Orthomax { gamma_num: 0, gamma_den: 1 },
        RotationFamily::Equamax => if k == 2 {
            RotationStep::Orthomax { gamma_num: 1, gamma_den: 1 }
        } else {
            RotationStep::Orthomax { gamma_num: p as u128, gamma_den: 2 * (k as u128) }
        },
        RotationFamily::Oblimin { delta } => RotationStep::Oblimin { delta },
        RotationFamily::Promax { kappa } => RotationStep::Promax { kappa },
    }
}

/// A rotated factor solution.
#[derive(Debug)]
pub struct RotationResult {
    /// `p × k` rotated (pattern, for oblique families) loadings.
    pub rotated_loadings: Grid,
    /// `k × k` transformation matrix.
    pub transformation_matrix: Grid,
    /// `k × k` factor correlations, present for oblique families only.
    pub factor_correlations: Option<Grid>,
}

impl RotationResult {
    /// The loadings are `p × k`, the transformation and any factor
    /// correlations `k × k`.
    pub open spec fn wf(&self) -> bool {
        let k = self.rotated_loadings.cols as nat;
        &&& self.rotated_loadings.wf()
        &&& self.transformation_matrix.shaped(k, k)
        &&& self.factor_correlations matches Some(c) ==> c.shaped(k, k)
    }

    /// The factor correlations, if any, have `1.0` on their diagonal.
    pub open spec fn unit_correlation_diagonal(&self) -> bool {
        self.factor_correlations matches Some(c) ==>
            forall|i: int| 0 <= i < c.cols ==> (#[trigger] c.at(i, i)).bits == ONE_BITS
    }
}

/// The result of the "None" family: the extracted loadings unchanged, the
/// identity transformation, and no factor correlations.
pub fn unrotated(loadings: Grid) -> (r: RotationResult)
    requires
        loadings.wf(),
    ensures
        r.wf(),
        r.rotated_loadings == loadings,
        r.transformation_matrix.is_identity(loadings.cols as nat),
        r.factor_correlations is None,
{
    let k = loadings.cols;
    RotationResult {
        rotated_loadings: loadings,
        transformation_matrix: Grid::identity(k),
        factor_correlations: None,
    }
}

/// An orthogonal solution: no factor correlations.
pub fn orthogonal_result(loadings: Grid, transformation: Grid) -> (r: RotationResult)
    requires
        loadings.wf(),
        transformation.shaped(loadings.cols as nat, loadings.cols as nat),
    ensures
        r.wf(),
        r.rotated_loadings == loadings,
        r.transformation_matrix == transformation,
        r.factor_correlations is None,
{
    RotationResult { rotated_loadings: loadings, transformation_matrix: transformation, factor_correlations: None }
}

/// An oblique solution whose factor correlations are `correlations` with
/// the diagonal set to exactly `1.0`.
pub fn oblique_result(loadings: Grid, transformation: Grid, correlations: &Grid) -> (r: RotationResult)
    requires
        loadings.wf(),
        transformation.shaped(loadings.cols as nat, loadings.cols as nat),
        correlations.shaped(loadings.cols as nat, loadings.cols as nat),
    ensures
        r.wf(),
        r.unit_correlation_diagonal(),
        r.rotated_loadings == loadings,
        r.transformation_matrix == transformation,
        r.factor_correlations is Some,
        forall|i: int, j: int| 0 <= i < correlations.cols && 0 <= j < correlations.cols && i != j ==>
            #[trigger] r.factor_correlations->Some_0.at(i, j) == correlations.at(i, j),
{
    let c = correlations.with_unit_diagonal();
    RotationResult { rotated_loadings: loadings, transformation_matrix: transformation, factor_correlations: Some(c) }
}

/// Factors reordered by descending explained variance (`variances[j]` is
/// the sum of squared loadings of column `j`), stable among ties. The
/// loadings' columns, the transformation's columns and the factor
/// correlations' rows and columns all follow the same permutation, which is
/// returned beside the result.
pub fn reorder_factors(result: &RotationResult, variances: &Vec<Real>) -> (r: (RotationResult, Vec<usize>))
    requires
        result.wf(),
        variances@.len() == result.rotated_loadings.cols,
    ensures
        ({
            let (out, order) = r;
            let k = result.rotated_loadings.cols as nat;
            &&& out.wf()
            &&& out.rotated_loadings.shaped(result.rotated_loadings.nrows(), k)
            &&& is_permutation(order@, k)
            &&& sorted_descending(variances@, order@)
            &&& forall|i: int, c: int| 0 <= i < result.rotated_loadings.nrows() && 0 <= c < k ==>
                    #[trigger] out.rotated_loadings.at(i, c) == result.rotated_loadings.at(i, order@[c] as int)
            &&& forall|i: int, c: int| 0 <= i < k && 0 <= c < k ==>
                    #[trigger] out.transformation_matrix.at(i, c) == result.transformation_matrix.at(i, order@[c] as int)
            &&& (out.factor_correlations is Some <==> result.factor_correlations is Some)
            &&& result.unit_correlation_diagonal() ==> out.unit_correlation_diagonal()
            &&& result.factor_correlations matches Some(old_c) ==> forall|a: int, b: int| 0 <= a < k && 0 <= b < k ==>
                    #[trigger] out.factor_correlations->Some_0.at(a, b) == old_c.at(order@[a] as int, order@[b] as int)
        }),
{
    let order = descending_order(variances);
    let loadings = result.rotated_loadings.select_columns(&order);
    let transformation = result.transformation_matrix.select_columns(&order);
    let correlations = match &result.factor_correlations {
        Some(c) => Some(c.select_symmetric(&order)),
        None => None,
    };
    (RotationResult { rotated_loadings: loadings, transformation_matrix: transformation, factor_correlations: correlations }, order)
}

/// The sign-canonical form of a rotated solution: every factor whose sum of
/// cubed loadings (`cube_sums[j]`) is negative is negated. Its loadings
/// column and transformation column change sign, and so does its
/// correlation with every factor whose sign did not change.
pub fn reflect_factors(result: &RotationResult, cube_sums: &Vec<Real>) -> (r: RotationResult)
    requires
        result.wf(),
        cube_sums@.len() == result.rotated_loadings.cols,
    ensures
        r.wf(),
        r.rotated_loadings.shaped(result.rotated_loadings.nrows(), result.rotated_loadings.cols as nat),
        forall|i: int, j: int| 0 <= i < result.rotated_loadings.nrows() && 0 <= j < result.rotated_loadings.cols ==>
            #[trigger] r.rotated_loadings.at(i, j) == (if cube_sums@[j].negative() {
                result.rotated_loadings.at(i, j).neg_spec()
            } else {
                result.rotated_loadings.at(i, j)
            }),
        forall|i: int, j: int| 0 <= i < result.rotated_loadings.cols && 0 <= j < result.rotated_loadings.cols ==>
            #[trigger] r.transformation_matrix.at(i, j) == (if cube_sums@[j].negative() {
                result.transformation_matrix.at(i, j).neg_spec()
            } else {
                result.transformation_matrix.at(i, j)
            }),
        (r.factor_correlations is Some <==> result.factor_correlations is Some),
        result.unit_correlation_diagonal() ==> r.unit_correlation_diagonal(),
        result.factor_correlations matches Some(c) ==> forall|a: int, b: int|
            0 <= a < c.cols && 0 <= b < c.cols ==>
            #[trigger] r.factor_correlations->Some_0.at(a, b) == (if cube_sums@[a].negative() != cube_sums@[b].negative() {
                c.at(a, b).neg_spec()
            } else {
                c.at(a, b)
            }),
{
    let flips = column_flips(cube_sums);
    let loadings = result.rotated_loadings.negate_columns(&flips);
    let transformation = result.transformation_matrix.negate_columns(&flips);
    let correlations = match &result.factor_correlations {
        Some(c) => Some(c.negate_cross(&flips)),
        None => None,
    };
    RotationResult { rotated_loadings: loadings, transformation_matrix: transformation, factor_correlations: correlations }
}

} // verus!
