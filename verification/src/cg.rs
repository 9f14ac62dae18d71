//! Conjugate Gradient method.
//!
//! The solver is a sequential state machine: `init` builds the numeric state
//! for one problem, `next_iter` performs one Fletcher-Reeves CG step on it,
//! and `terminate` evaluates the stopping criteria as a pure function of the
//! current snapshot.  For a non-square operator the solver works on the
//! normal equations: the residual is projected through the transposed
//! operator in `init` and in every step alike.

use vstd::prelude::*;

use crate::linalg::{
    dot, lemma_norm_sq_nonneg, norm_sq, spec_dot, spec_norm_sq, spec_vadd, spec_vscale, spec_vsub,
    vadd, vcopy, vec_wf, vscale, vsub,
};
use crate::operator::{
    op_wf, spec_apply, spec_apply_transpose, spec_is_square, Operator,
};
use crate::outcome::ArgminResult;
use crate::rational::{rat_is_nan, rat_wf, rat_zero, spec_le, spec_mul, Ratio};
use crate::termination::TerminationReason;

verus! {

/// The failures a solve can surface: the operator rejecting an input of the
/// wrong dimension is the one failure mode of this operator representation.
#[derive(Clone, Copy, PartialEq, Eq, Structural, Debug)]
pub enum Error {
    /// The starting parameter does not match the operator's domain dimension.
    DimensionMismatch,
}

/// Indicates the current state of the Conjugate Gradient algorithm
pub struct ConjugateGradientState {
    /// The solver's own copy of the immutable operator being solved.
    pub operator: Operator,
    /// Current parameter vector
    pub param: Vec<Ratio>,
    /// Conjugate vector
    pub p: Vec<Ratio>,
    /// Residual
    pub r: Vec<Ratio>,
    /// Current number of iteration
    pub iter: u64,
    /// Squared L2 norm of the residual after the most recent step; `None`
    /// until a step has run.
    pub norm_sq: Option<Ratio>,
}

/// Conjugate Gradient method struct
pub struct ConjugateGradient {
    /// Maximum number of iterations
    pub max_iters: u64,
    /// current state
    pub state: Option<ConjugateGradientState>,
}

/// Two operators hold the same problem: equal shape, entries, right-hand
/// side, and cost threshold.
pub open spec fn op_equiv(a: Operator, b: Operator) -> bool {
    &&& a.rows == b.rows
    &&& a.cols == b.cols
    &&& a.a@ == b.a@
    &&& a.y@ == b.y@
    &&& a.target_cost == b.target_cost
}

/// Well-formedness of the numeric state: a coherent operator, and parameter,
/// direction, and residual vectors of the operator's domain dimension, all
/// with well-formed entries.
pub open spec fn state_wf(s: ConjugateGradientState) -> bool {
    &&& op_wf(s.operator)
    &&& s.param@.len() == s.operator.cols
    &&& s.p@.len() == s.operator.cols
    &&& s.r@.len() == s.operator.cols
    &&& vec_wf(s.param@)
    &&& vec_wf(s.p@)
    &&& vec_wf(s.r@)
    &&& (s.norm_sq is Some ==> rat_wf(s.norm_sq.unwrap()))
}

/// The initial residual: `y - A x`, projected through `Aᵗ` onto the normal
/// equations when the operator is not square.
pub open spec fn spec_init_residual(op: Operator, x: Seq<Ratio>) -> Seq<Ratio> {
    let r0 = spec_vsub(op.y@, spec_apply(op, x));
    if spec_is_square(op) {
        r0
    } else {
        spec_apply_transpose(op, r0)
    }
}

/// The product the step works with: `A p`, projected through `Aᵗ` onto the
/// normal equations when the operator is not square.
pub open spec fn spec_step_ap(op: Operator, p: Seq<Ratio>) -> Seq<Ratio> {
    if spec_is_square(op) {
        spec_apply(op, p)
    } else {
        spec_apply_transpose(op, spec_apply(op, p))
    }
}

/// The step size `alpha = (rᵗr) / (pᵗ A p)`; undefined when the denominator
/// is zero, which then propagates through the updated vectors.
pub open spec fn spec_alpha(op: Operator, p: Seq<Ratio>, r: Seq<Ratio>) -> Ratio {
    crate::rational::spec_div(spec_norm_sq(r), spec_dot(p, spec_step_ap(op, p)))
}

/// The parameter after one step: `param + alpha p`.
pub open spec fn spec_next_param(
    op: Operator,
    param: Seq<Ratio>,
    p: Seq<Ratio>,
    r: Seq<Ratio>,
) -> Seq<Ratio> {
    spec_vadd(param, spec_vscale(spec_alpha(op, p, r), p))
}

/// The residual after one step: `r - alpha A p`.
pub open spec fn spec_next_r(op: Operator, p: Seq<Ratio>, r: Seq<Ratio>) -> Seq<Ratio> {
    spec_vsub(r, spec_vscale(spec_alpha(op, p, r), spec_step_ap(op, p)))
}

/// The Fletcher-Reeves coefficient `beta = (r'ᵗr') / (rᵗr)` over the updated
/// and the previous residual.
pub open spec fn spec_beta(op: Operator, p: Seq<Ratio>, r: Seq<Ratio>) -> Ratio {
    crate::rational::spec_div(spec_norm_sq(spec_next_r(op, p, r)), spec_norm_sq(r))
}

/// The direction after one step: `beta p + r'`, scaling only the old
/// direction before adding the new residual.
pub open spec fn spec_next_p(op: Operator, p: Seq<Ratio>, r: Seq<Ratio>) -> Seq<Ratio> {
    spec_vadd(spec_vscale(spec_beta(op, p, r), p), spec_next_r(op, p, r))
}

/// The residual norm has reached the cost threshold: a squared norm exists,
/// the threshold is non-negative, and the squared norm is at most the squared
/// threshold.  A comparison against an undefined quantity never succeeds.
pub open spec fn spec_cost_reached(ns: Option<Ratio>, tc: Ratio) -> bool {
    &&& ns is Some
    &&& spec_le(rat_zero(), tc)
    &&& spec_le(ns.unwrap(), spec_mul(tc, tc))
}

/// The stopping verdict as a pure function of the solver snapshot.  The
/// iteration cap is checked first; `iter` counts completed steps, so a cap of
/// zero terminates the very first check after `init`, before any step.
pub open spec fn spec_terminate(cg: ConjugateGradient) -> TerminationReason
    recommends
        cg.state is Some,
{
    let s = cg.state.unwrap();
    if s.iter >= cg.max_iters {
        TerminationReason::MaxItersReached
    } else if spec_cost_reached(s.norm_sq, s.operator.target_cost) {
        TerminationReason::TargetCostReached
    } else {
        TerminationReason::NotTerminated
    }
}

impl ConjugateGradientState {
    /// Constructor for `ConjugateGradientState`
    pub fn new(operator: Operator, param: Vec<Ratio>, p: Vec<Ratio>, r: Vec<Ratio>) -> (s: Self)
        ensures
            op_equiv(s.operator, operator),
            s.param@ == param@,
            s.p@ == p@,
            s.r@ == r@,
            s.iter == 0,
            s.norm_sq is None,
    {
        ConjugateGradientState { operator, param, p, r, iter: 0u64, norm_sq: None }
    }
}

impl ConjugateGradient {
    /// Return a `ConjugateGradient` struct with no active state and an
    /// unbounded iteration cap.
    pub fn new() -> (cg: Self)
        ensures
            cg.max_iters == u64::MAX,
            cg.state is None,
    {
        ConjugateGradient { max_iters: u64::MAX, state: None }
    }

    /// Set maximum number of iterations; takes effect on the next
    /// termination check.
    pub fn max_iters(&mut self, max_iters: u64)
        ensures
            final(self).max_iters == max_iters,
            final(self).state == old(self).state,
    {
        self.max_iters = max_iters;
    }

    /// Initialize with a given problem and a starting point.
    ///
    /// Computes the initial residual `y - A x`, projects it onto the normal
    /// equations when the operator is not square, copies it into the initial
    /// search direction, and replaces any previously held state.  Fails
    /// exactly when the starting point does not match the operator's domain
    /// dimension, leaving the solver unchanged.
    pub fn init(&mut self, operator: &Operator, init_param: &Vec<Ratio>) -> (res: Result<
        (),
        Error,
    >)
        requires
            op_wf(*operator),
            vec_wf(init_param@),
        ensures
            res is Ok <==> init_param@.len() == operator.cols,
            res is Err ==> *final(self) == *old(self) && res == Err::<(), Error>(
                Error::DimensionMismatch,
            ),
            res is Ok ==> {
                &&& final(self).max_iters == old(self).max_iters
                &&& final(self).state is Some
                &&& state_wf(final(self).state.unwrap())
                &&& op_equiv(final(self).state.unwrap().operator, *operator)
                &&& final(self).state.unwrap().param@ == init_param@
                &&& final(self).state.unwrap().r@ == spec_init_residual(*operator, init_param@)
                &&& final(self).state.unwrap().p@ == spec_init_residual(*operator, init_param@)
                &&& final(self).state.unwrap().iter == 0
                &&& final(self).state.unwrap().norm_sq is None
            },
    {
        if init_param.len() != operator.cols {
            return Err(Error::DimensionMismatch);
        }
        let ax = operator.apply(init_param);
        let mut r = vsub(&operator.y, &ax);
        if !operator.is_square() {
            r = operator.apply_transpose(&r);
        }
        let p = vcopy(&r);
        let op = Operator::new(
            operator.rows,
            operator.cols,
            vcopy(&operator.a),
            vcopy(&operator.y),
            operator.target_cost,
        );
        self.state = Some(ConjugateGradientState::new(op, vcopy(init_param), p, r));
        Ok(())
    }

    /// Compute next point: one Fletcher-Reeves CG step on the current state.
    ///
    /// Requires an initialized solver; the returned snapshot carries the
    /// updated parameter, the squared residual norm, the iteration count,
    /// and the termination verdict of the updated state.
    pub fn next_iter(&mut self) -> (res: Result<ArgminResult, Error>)
        requires
            old(self).state is Some,
            state_wf(old(self).state.unwrap()),
            old(self).state.unwrap().iter < u64::MAX,
        ensures
            res is Ok,
            final(self).max_iters == old(self).max_iters,
            final(self).state is Some,
            state_wf(final(self).state.unwrap()),
            ({
                let s = old(self).state.unwrap();
                let t = final(self).state.unwrap();
                &&& op_equiv(t.operator, s.operator)
                &&& t.iter == s.iter + 1
                &&& t.param@ == spec_next_param(s.operator, s.param@, s.p@, s.r@)
                &&& t.r@ == spec_next_r(s.operator, s.p@, s.r@)
                &&& t.p@ == spec_next_p(s.operator, s.p@, s.r@)
                &&& t.norm_sq == Some(spec_norm_sq(spec_next_r(s.operator, s.p@, s.r@)))
            }),
            ({
                let t = final(self).state.unwrap();
                &&& res->Ok_0.param@ == t.param@
                &&& res->Ok_0.norm_sq == t.norm_sq.unwrap()
                &&& res->Ok_0.iter == t.iter
                &&& res->Ok_0.termination_reason == spec_terminate(*final(self))
            }),
    {
        let mut st = self.state.take().unwrap();
        let ap0 = st.operator.apply(&st.p);
        let ap = if !st.operator.is_square() {
            st.operator.apply_transpose(&ap0)
        } else {
            ap0
        };
        let rtr = norm_sq(&st.r);
        let pap = dot(&st.p, &ap);
        let alpha = rtr.div(pap);
        let alpha_p = vscale(alpha, &st.p);
        let alpha_ap = vscale(alpha, &ap);
        let new_param = vadd(&st.param, &alpha_p);
        let new_r = vsub(&st.r, &alpha_ap);
        let rtr_new = norm_sq(&new_r);
        let beta = rtr_new.div(rtr);
        let beta_p = vscale(beta, &st.p);
        let new_p = vadd(&beta_p, &new_r);
        st.param = new_param;
        st.r = new_r;
        st.p = new_p;
        st.iter = st.iter + 1;
        st.norm_sq = Some(rtr_new);
        let out_param = vcopy(&st.param);
        let out_iter = st.iter;
        self.state = Some(st);
        let mut out = ArgminResult::new(out_param, rtr_new, out_iter);
        let reason = self.terminate();
        out.set_termination_reason(reason);
        Ok(out)
    }

    /// Run Conjugate Gradient method: initialize with the given problem and
    /// step until a stopping criterion holds, returning the final snapshot.
    ///
    /// At least one step always runs; its attached verdict is checked after
    /// every step, so with an iteration cap of `n >= 1` at most `n` steps
    /// run, and a cap of zero stops after the first step.
    pub fn run(&mut self, operator: &Operator, init_param: &Vec<Ratio>) -> (res: Result<
        ArgminResult,
        Error,
    >)
        requires
            op_wf(*operator),
            vec_wf(init_param@),
        ensures
            res is Ok <==> init_param@.len() == operator.cols,
            res is Err ==> *final(self) == *old(self) && res == Err::<ArgminResult, Error>(
                Error::DimensionMismatch,
            ),
            res is Ok ==> {
                &&& final(self).max_iters == old(self).max_iters
                &&& final(self).state is Some
                &&& state_wf(final(self).state.unwrap())
                &&& res->Ok_0.termination_reason == spec_terminate(*final(self))
                &&& res->Ok_0.termination_reason != TerminationReason::NotTerminated
                &&& res->Ok_0.iter == final(self).state.unwrap().iter
                &&& res->Ok_0.param@ == final(self).state.unwrap().param@
                &&& final(self).state.unwrap().norm_sq == Some(res->Ok_0.norm_sq)
                &&& res->Ok_0.iter >= 1
                &&& (final(self).max_iters >= 1 ==> res->Ok_0.iter <= final(self).max_iters)
            },
    {
        match self.init(operator, init_param) {
            Ok(()) => (),
            Err(e) => {
                return Err(e);
            },
        }
        let mut out = match self.next_iter() {
            Ok(o) => o,
            Err(e) => {
                return Err(e);
            },
        };
        loop
            invariant
                init_param@.len() == operator.cols,
                self.max_iters == old(self).max_iters,
                self.state is Some,
                state_wf(self.state.unwrap()),
                self.state.unwrap().norm_sq is Some,
                out.termination_reason == spec_terminate(*self),
                out.iter == self.state.unwrap().iter,
                out.param@ == self.state.unwrap().param@,
                self.state.unwrap().norm_sq == Some(out.norm_sq),
                1 <= out.iter,
                out.iter <= self.max_iters || out.iter == 1,
            decreases self.max_iters - self.state.unwrap().iter,
        {
            if out.termination_reason.terminated() {
                return Ok(out);
            }
            out = match self.next_iter() {
                Ok(o) => o,
                Err(e) => {
                    return Err(e);
                },
            };
        }
    }

    /// Indicates whether any of the stopping criteria are met.
    ///
    /// A pure query of the current snapshot: the iteration cap is checked
    /// first, then the cost threshold.  Calling it repeatedly without an
    /// intervening step returns the identical verdict.
    pub fn terminate(&self) -> (r: TerminationReason)
        requires
            self.state is Some,
            state_wf(self.state.unwrap()),
        ensures
            r == spec_terminate(*self),
    {
        let st = self.state.as_ref().unwrap();
        if st.iter >= self.max_iters {
            return TerminationReason::MaxItersReached;
        }
        match st.norm_sq {
            None => TerminationReason::NotTerminated,
            Some(ns) => {
                let tc = st.operator.target_cost;
                if Ratio::zero().le(tc) && ns.le(tc.mul(tc)) {
                    TerminationReason::TargetCostReached
                } else {
                    TerminationReason::NotTerminated
                }
            },
        }
    }
}

impl Default for ConjugateGradient {
    /// A solver with no active state and an unbounded iteration cap.
    fn default() -> (cg: Self)
        ensures
            cg.max_iters == u64::MAX,
            cg.state is None,
    {
        ConjugateGradient::new()
    }
}

/// The iteration cap takes priority: whenever the count of completed steps
/// has reached the cap, the verdict is `MaxItersReached`, whether or not the
/// cost threshold is also met.
pub proof fn lemma_max_iters_priority(cg: ConjugateGradient)
    requires
        cg.state is Some,
        cg.state.unwrap().iter >= cg.max_iters,
    ensures
        spec_terminate(cg) == TerminationReason::MaxItersReached,
{
}

/// Below the iteration cap, the verdict is `TargetCostReached` exactly when
/// the squared residual norm has reached the squared cost threshold.
pub proof fn lemma_target_cost_below_cap(cg: ConjugateGradient)
    requires
        cg.state is Some,
        cg.state.unwrap().iter < cg.max_iters,
    ensures
        spec_terminate(cg) == TerminationReason::TargetCostReached <==> spec_cost_reached(
            cg.state.unwrap().norm_sq,
            cg.state.unwrap().operator.target_cost,
        ),
{
}

/// The squared residual norm held by a state that carries the norm of its own
/// residual is never negative: it is the undefined value or at least zero.
pub proof fn lemma_snapshot_norm_nonneg(s: ConjugateGradientState)
    requires
        state_wf(s),
        s.norm_sq == Some(spec_norm_sq(s.r@)),
    ensures
        !rat_is_nan(s.norm_sq.unwrap()) ==> spec_le(rat_zero(), s.norm_sq.unwrap()),
{
    lemma_norm_sq_nonneg(s.r@);
}

/// Exact convergence is detected: below the iteration cap, a state whose
/// squared residual norm is exactly zero reports `TargetCostReached` for any
/// non-negative threshold whose square is representable.
pub proof fn lemma_exact_convergence_detected(cg: ConjugateGradient)
    requires
        cg.state is Some,
        cg.state.unwrap().iter < cg.max_iters,
        cg.state.unwrap().norm_sq == Some(rat_zero()),
        rat_wf(cg.state.unwrap().operator.target_cost),
        spec_le(rat_zero(), cg.state.unwrap().operator.target_cost),
        !rat_is_nan(
            spec_mul(
                cg.state.unwrap().operator.target_cost,
                cg.state.unwrap().operator.target_cost,
            ),
        ),
    ensures
        spec_terminate(cg) == TerminationReason::TargetCostReached,
{
    crate::rational::lemma_self_mul_nonneg(cg.state.unwrap().operator.target_cost);
}

/// The termination check is an idempotent query: two verdicts drawn from the
/// same solver snapshot, with no step between them, are identical.
pub proof fn lemma_terminate_idempotent(
    cg: ConjugateGradient,
    first: TerminationReason,
    second: TerminationReason,
)
    requires
        first == spec_terminate(cg),
        second == spec_terminate(cg),
    ensures
        first == second,
{
}

/// With an iteration cap of zero, the very first termination check after
/// `init` — before any step has run — already reports `MaxItersReached`.
pub proof fn lemma_zero_cap_terminates(cg: ConjugateGradient)
    requires
        cg.state is Some,
        cg.max_iters == 0,
    ensures
        spec_terminate(cg) == TerminationReason::MaxItersReached,
{
}

/// The normal-equations projection is applied consistently: for a non-square
/// operator both the initial residual and every step's operator product go
/// through `Aᵗ`, and for a square operator neither does.
pub proof fn lemma_normal_equations_consistency(op: Operator, x: Seq<Ratio>, p: Seq<Ratio>)
    ensures
        !spec_is_square(op) ==> spec_init_residual(op, x) == spec_apply_transpose(
            op,
            spec_vsub(op.y@, spec_apply(op, x)),
        ),
        !spec_is_square(op) ==> spec_step_ap(op, p) == spec_apply_transpose(
            op,
            spec_apply(op, p),
        ),
        spec_is_square(op) ==> spec_init_residual(op, x) == spec_vsub(op.y@, spec_apply(op, x)),
        spec_is_square(op) ==> spec_step_ap(op, p) == spec_apply(op, p),
{
}

} // verus!
