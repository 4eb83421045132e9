//! The core of a transient circuit simulator: Modified Nodal Analysis with
//! Backward Euler companion models and a Newton loop for nonlinear elements.
//!
//! The library decides everything that is exact: which equation and which
//! unknown an element touches, with which formula, in which order, how the
//! entries of the system add up, when the Newton loop has converged and how
//! it proceeds. It never rounds a number. Formulas are built as
//! [`expr::Expr`] values; the caller brings the arithmetic that evaluates
//! them and that solves a dense linear system, and gets back elements whose
//! state is held as [`scalar::Scalar`] bit patterns.
//!
//! - [`components`]: the elements and the netlist.
//! - [`be_solver::matrix`] and [`be_solver::matrix_view`]: coordinates into
//!   the system, of the whole and as one element sees it.
//! - [`be_solver::stampable`]: what each element adds to the system and
//!   takes from its solution.
//! - [`be_solver::assembly`]: the passes over the netlist.
//! - [`be_solver::round`]: one Newton round around the caller's arithmetic.
//! - [`be_solver`]: the solver, step by step ([`BESolver::begin`],
//!   [`BESolver::advance`], [`BESolver::finish`]), as a loop over rounds of
//!   the caller ([`BESolver::newton`]) and as a whole
//!   ([`BESolver::solve`]).
//! - [`be_solver::laws`] and [`be_solver::determinism`]: what holds of
//!   every system and of every step.
pub mod scalar;
pub mod expr;
pub mod be_solver;
pub mod components;

pub use scalar::Scalar;
pub use expr::Expr;
pub use be_solver::BESolver;
