//! Interfaces of the iteration framework: solvers, reports, monitors and
//! stop criteria.

use vstd::prelude::*;

use crate::opt::error::Error;

verus! {

/// One step of an iterative method over the operation `T`.
pub trait Solver<T> {
    /// The iterate the method advances.
    type Variable;

    /// What a report of the method's progress is fed with.
    type ReportArg;

    /// Computes the next iterate from the current one.
    fn next_iter(&mut self, op: &T, x: &Self::Variable) -> Result<Self::Variable, Error>;
}

/// A record of an iteration's progress, rebuilt before the first step and
/// updated after each one.
pub trait Report {
    /// What the report is fed with: usually the current iterate.
    type Arg;

    /// The operation being iterated.
    type Op;

    /// Resets the report for a fresh run starting at `s`.
    fn init(&mut self, op: &Self::Op, s: &Self::Arg) -> Result<(), Error>;

    /// Folds the next iterate `s` into the report.
    fn update(&mut self, op: &Self::Op, s: &Self::Arg) -> Result<(), Error>;
}

/// An observer that is shown the report after every step.
pub trait Monitor<T> {
    /// Consumes one snapshot of the report.
    fn observe(&mut self, report: &T) -> Result<(), Error>;
}

/// Decides, from the report alone, whether the iteration is finished.
pub trait Criteria<T> {
    /// True when the iteration should stop.
    fn check(&self, report: &T) -> bool;
}

} // verus!
