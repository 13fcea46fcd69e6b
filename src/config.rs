use vstd::prelude::*;
use crate::ieee::Real;

verus! {

/// How the initial factor solution is extracted.
#[derive(Clone, Copy, Debug, PartialEq, Eq)]
pub enum ExtractionMethod {
    PrincipalComponents,
    UnweightedLeastSquares,
    PrincipalAxisFactoring,
    MaximumLikelihood,
    Alpha,
    Image,
}

/// The matrix that extraction decomposes.
#[derive(Clone, Copy, Debug, PartialEq, Eq)]
pub enum MatrixBasis {
    Correlation,
    Covariance,
}

/// How many factors are retained.
#[derive(Clone, Copy, Debug, PartialEq, Eq)]
pub enum FactorRule {
    /// Every eigenvalue strictly above the cutoff.
    EigenvalueAbove(Real),
    /// A fixed count.
    Fixed(usize),
}

/// The rotation applied to the extracted loadings.
#[derive(Clone, Copy, Debug, PartialEq, Eq)]
pub enum RotationFamily {
    /// Loadings are reported as extracted.
    NoRotation,
    Varimax,
    Quartimax,
    Equamax,
    Oblimin { delta: Real },
    Promax { kappa: Real },
}

/// How factor-score coefficients are computed.
#[derive(Clone, Copy, Debug, PartialEq, Eq)]
pub enum ScoreMethod {
    /// No scores are computed.
    NoScores,
    Regression,
    Bartlett,
    AndersonRubin,
}

impl ExtractionMethod {
    /// Every method but principal components is a common-factor method,
    /// which starts from squared multiple correlations.
    pub fn is_common_factor(self) -> (r: bool)
        ensures
            r == (self != ExtractionMethod::PrincipalComponents),
    {
        match self {
            ExtractionMethod::PrincipalComponents => false,
            _ => true,
        }
    }
}

impl RotationFamily {
    /// Whether the family lets factors correlate.
    pub open spec fn oblique(self) -> bool {
        self is Oblimin || self is Promax
    }

    pub fn is_oblique(self) -> (r: bool)
        ensures
            r == self.oblique(),
    {
        match self {
            RotationFamily::Oblimin { .. } => true,
            RotationFamily::Promax { .. } => true,
            _ => false,
        }
    }
}

} // verus!
