use vstd::prelude::*;
use crate::ieee::Real;

verus! {

/// When an iterative procedure stops: after `max_iter` iterations, or as
/// soon as the change between two iterations falls below `tolerance`.
#[derive(Clone, Copy, Debug, PartialEq, Eq)]
pub struct Convergence {
    pub max_iter: usize,
    pub tolerance: Real,
}

impl Convergence {
    /// Whether to stop after `completed` iterations whose last one changed
    /// the tracked quantity by `change`. A NaN change never counts as
    /// converged.
    pub fn should_stop(&self, completed: usize, change: Real) -> (r: bool)
        ensures
            r == (completed >= self.max_iter || change.below(self.tolerance)),
    {
        completed >= self.max_iter || change.lt(self.tolerance)
    }

    /// Whether another iteration may start after `completed` of them.
    pub fn may_continue(&self, completed: usize) -> (r: bool)
        ensures
            r == (completed < self.max_iter),
    {
        completed < self.max_iter
    }
}

/// The number of degrees of freedom of Bartlett's sphericity test on `p`
/// variables, `p (p − 1) / 2`, or `None` when it does not fit in `usize`.
pub fn sphericity_degrees_of_freedom(p: usize) -> (r: Option<usize>)
    ensures
        r is Some <==> p * (p - 1) / 2 <= usize::MAX,
        r matches Some(df) ==> df == p * (p - 1) / 2,
{
    if p == 0 {
        return Some(0);
    }
    let (a, b) = if p % 2 == 0 { (p / 2, p - 1) } else { (p, (p - 1) / 2) };
    proof {
        assert(a * b == p * (p - 1) / 2) by (nonlinear_arith)
            requires
                p > 0,
                (p % 2 == 0 && a == p / 2 && b == p - 1) || (p % 2 == 1 && a == p && b == (p - 1) / 2);
    }
    a.checked_mul(b)
}

} // verus!
