//! The per-iteration result handed back to the driver loop.

use vstd::prelude::*;

use crate::rational::Ratio;
use crate::termination::TerminationReason;

verus! {

/// A snapshot of one iteration: the parameter estimate, the squared residual
/// norm, the iteration count, and the termination verdict attached to it.
pub struct ArgminResult {
    /// Parameter estimate after the iteration.
    pub param: Vec<Ratio>,
    /// Squared L2 norm of the residual after the iteration.
    pub norm_sq: Ratio,
    /// Number of completed iterations since initialization.
    pub iter: u64,
    /// The termination verdict attached to this snapshot.
    pub termination_reason: TerminationReason,
}

impl ArgminResult {
    /// Packages a snapshot; the verdict starts as `NotTerminated` until the
    /// solver attaches the real one.
    pub fn new(param: Vec<Ratio>, norm_sq: Ratio, iter: u64) -> (r: ArgminResult)
        ensures
            r.param@ == param@,
            r.norm_sq == norm_sq,
            r.iter == iter,
            r.termination_reason == TerminationReason::NotTerminated,
    {
        ArgminResult { param, norm_sq, iter, termination_reason: TerminationReason::NotTerminated }
    }

    /// Attaches a termination verdict, leaving the numeric snapshot as it is.
    pub fn set_termination_reason(&mut self, reason: TerminationReason)
        ensures
            final(self).param@ == old(self).param@,
            final(self).norm_sq == old(self).norm_sq,
            final(self).iter == old(self).iter,
            final(self).termination_reason == reason,
    {
        self.termination_reason = reason;
    }
}

} // verus!
