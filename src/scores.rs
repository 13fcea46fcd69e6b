use vstd::prelude::*;
use crate::config::{ExtractionMethod, ScoreMethod};
use crate::grid::Grid;

verus! {

/// How the factor-score coefficients are to be computed.
#[derive(Clone, Copy, Debug, PartialEq, Eq)]
pub enum CoefficientRoute {
    /// No scores were requested.
    Skip,
    /// `B[i][j] = L[i][j] / Σ_i L[i][j]²`, exact for unrotated principal
    /// components.
    RegressionShortcut,
    /// `B = R⁻¹ · L`.
    RegressionInverse,
    /// `B = U⁻² · L · (Lᵗ · U⁻² · L)⁻¹`.
    Bartlett,
    /// `B = U⁻² · L · (Lᵗ · U⁻² · L)^(-1/2)`.
    AndersonRubin,
}

/// The route for a score method: regression takes the shortcut exactly when
/// the loadings are the unrotated principal-components solution.
pub open spec fn route_of(method: ScoreMethod, extraction: ExtractionMethod, rotated: bool) -> CoefficientRoute {
    match method {
        ScoreMethod::NoScores => CoefficientRoute::Skip,
        ScoreMethod::Regression => if extraction == ExtractionMethod::PrincipalComponents && !rotated {
            CoefficientRoute::RegressionShortcut
        } else {
            CoefficientRoute::RegressionInverse
        },
        ScoreMethod::Bartlett => CoefficientRoute::Bartlett,
        ScoreMethod::AndersonRubin => CoefficientRoute::AndersonRubin,
    }
}

/// How to compute score coefficients for `method`, given the extraction
/// method and whether the solution was rotated at all.
pub fn score_coefficient_route(method: ScoreMethod, extraction: ExtractionMethod, rotated: bool) -> (r: CoefficientRoute)
    ensures
        r == route_of(method, extraction, rotated),
{
    match method {
        ScoreMethod::NoScores => CoefficientRoute::Skip,
        ScoreMethod::Regression => {
            if !extraction.is_common_factor() && !rotated {
                CoefficientRoute::RegressionShortcut
            } else {
                CoefficientRoute::RegressionInverse
            }
        },
        ScoreMethod::Bartlett => CoefficientRoute::Bartlett,
        ScoreMethod::AndersonRubin => CoefficientRoute::AndersonRubin,
    }
}

/// The covariance matrix of the factor scores.
#[derive(Debug)]
pub struct ComponentScoreCovarianceMatrix {
    pub components: Grid,
}

/// The score covariance that `method` reports on `k` factors, given the
/// Bartlett inverse `(Lᵗ·U⁻²·L)⁻¹` and the regression product `Bᵗ·R·B`
/// (each `None` when its inversion failed): Anderson–Rubin scores are
/// uncorrelated, so their covariance is the identity; Bartlett and
/// regression report their matrix, and fall back to the identity when it
/// is missing or not `k × k`.
pub open spec fn covariance_of(method: ScoreMethod, k: nat, bartlett: Option<Grid>, regression: Option<Grid>) -> Option<Grid>
    recommends
        method != ScoreMethod::AndersonRubin,
{
    match method {
        ScoreMethod::Bartlett => match bartlett {
            Some(m) => if m.shaped(k, k) { Some(m) } else { None },
            None => None,
        },
        ScoreMethod::Regression => match regression {
            Some(m) => if m.shaped(k, k) { Some(m) } else { None },
            None => None,
        },
        _ => None,
    }
}

/// The score covariance matrix for `method` on `k` factors, or `None` when
/// no scores were requested.
pub fn calculate_component_score_covariance_matrix(
    method: ScoreMethod,
    k: usize,
    bartlett: Option<Grid>,
    regression: Option<Grid>,
) -> (r: Option<ComponentScoreCovarianceMatrix>)
    ensures
        method == ScoreMethod::NoScores <==> r is None,
        method == ScoreMethod::AndersonRubin ==> r->Some_0.components.is_identity(k as nat),
        (method == ScoreMethod::Bartlett || method == ScoreMethod::Regression) ==> {
            let chosen = covariance_of(method, k as nat, bartlett, regression);
            &&& chosen matches Some(m) ==> r->Some_0.components == m
            &&& chosen is None ==> r->Some_0.components.is_identity(k as nat)
        },
{
    let supplied = match method {
        ScoreMethod::NoScores => {
            return None;
        },
        ScoreMethod::AndersonRubin => {
            return Some(ComponentScoreCovarianceMatrix { components: Grid::identity(k) });
        },
        ScoreMethod::Bartlett => bartlett,
        ScoreMethod::Regression => regression,
    };
    match supplied {
        Some(m) => {
            if m.has_shape(k, k) {
                Some(ComponentScoreCovarianceMatrix { components: m })
            } else {
                Some(ComponentScoreCovarianceMatrix { components: Grid::identity(k) })
            }
        },
        None => Some(ComponentScoreCovarianceMatrix { components: Grid::identity(k) }),
    }
}

} // verus!
