//! An iterative solver library built around the Conjugate Gradient (CG)
//! method, carried out in exact rational arithmetic.
//!
//! The solver advances one matrix-free linear-algebra iteration at a time:
//! `init` sets up the residual and search direction for a problem given as an
//! [`operator::Operator`], `next_iter` performs one Fletcher-Reeves CG step,
//! and `terminate` evaluates the stopping criteria.  A driver loop outside
//! this crate calls `init` once and then alternates `next_iter` with
//! `terminate` until a terminal verdict appears.

pub mod cg;
pub mod linalg;
pub mod operator;
pub mod outcome;
pub mod rational;
pub mod termination;
