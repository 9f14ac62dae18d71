//! Termination verdicts for the iterative solver.

use vstd::prelude::*;

verus! {

/// The outcome of evaluating all stopping criteria at one state snapshot.
#[derive(Clone, Copy, PartialEq, Eq, Structural, Debug)]
pub enum TerminationReason {
    /// No stopping criterion holds; the driver should keep iterating.
    NotTerminated,
    /// The configured iteration cap has been reached.
    MaxItersReached,
    /// The residual norm has fallen to or below the operator's cost threshold.
    TargetCostReached,
}

impl TerminationReason {
    /// Whether this verdict stops the run.
    pub fn terminated(self) -> (r: bool)
        ensures
            r == (self != TerminationReason::NotTerminated),
    {
        match self {
            TerminationReason::NotTerminated => false,
            TerminationReason::MaxItersReached => true,
            TerminationReason::TargetCostReached => true,
        }
    }
}

} // verus!
