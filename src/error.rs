use vstd::prelude::*;

verus! {

/// Why an analysis step could not produce its result.
#[derive(Clone, Copy, Debug, PartialEq, Eq)]
pub enum AnalysisError {
    /// Fewer observations than the computation needs.
    InsufficientData,
    /// A matrix shape does not match the variable or factor count.
    DimensionMismatch,
    /// A required inversion failed.
    SingularMatrix,
    /// An eigen-decomposition or SVD did not converge, or a required
    /// definiteness check failed.
    NumericalFailure,
    /// No usable source matrix for a derived report.
    MissingInput,
}

} // verus!
