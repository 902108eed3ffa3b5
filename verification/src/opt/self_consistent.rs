//! Self-consistent equations: iterate a solver until `x = f(x)` settles.

use vstd::prelude::*;

use crate::opt::error::Error;
use crate::opt::executor::{ExecutorReady, ExecutorStage1};
use crate::opt::traits::{Criteria, Monitor, Report, Solver};
use crate::traits::{BinaryOperand, Extension, NumOps};

verus! {

/// A fixed-point equation `x = f(x)`.
pub trait SelfConsistentOp {
    /// The iterate's type.
    type Variable;

    /// Evaluates `f` at `x`.
    fn apply(&self, x: &Self::Variable) -> Result<Self::Variable, Error>;
}

/// Progress of a fixed-point run: step count, current iterate, relative
/// change from the previous one, and that previous iterate.
pub struct DefaultReport<T> where T: SelfConsistentOp {
    pub count: usize,
    pub current: T::Variable,
    pub error: T::Variable,
    pub prev: Option<T::Variable>,
}

impl<T> Report for DefaultReport<T> where T: SelfConsistentOp, T::Variable: Extension {
    type Arg = T::Variable;

    type Op = T;

    fn init(&mut self, _op: &Self::Op, x: &Self::Arg) -> Result<(), Error> {
        self.count = 0;
        self.current = x.clone();
        self.error = Extension::nan();
        self.prev = None;
        Ok(())
    }

    fn update(&mut self, _op: &Self::Op, x: &Self::Arg) -> Result<(), Error> {
        let prev = self.current.clone();
        self.current = x.clone();
        self.error = self.current.sub(&prev).abs().div(&prev);
        self.prev = Some(prev);
        self.count = self.count.wrapping_add(1);
        Ok(())
    }
}

impl<T> Default for DefaultReport<T> where T: SelfConsistentOp, T::Variable: Extension {
    /// A blank report: no steps yet, zero iterate, unknown error.
    fn default() -> (r: Self)
        ensures
            r.count == 0,
            r.prev is None,
    {
        DefaultReport { count: 0, current: Extension::zero(), error: Extension::nan(), prev: None }
    }
}

/// Entry point of a fixed-point run: pairs a solver with the operation,
/// then stages the report, monitors and criteria.
pub struct Executor<S, O> {
    pub solver: S,
    pub op: O,
}

impl<S, O> Executor<S, O> where
    S: Solver<O, Variable = O::Variable>,
    O: SelfConsistentOp,
    O::Variable: Extension,
 {
    pub fn new(solver: S, op: O) -> (r: Self)
        ensures
            r.solver == solver,
            r.op == op,
    {
        Executor { solver, op }
    }

    /// Chooses the report the run maintains.
    pub fn report<P, M>(self, report: P) -> (r: ExecutorStage1<S, O, P, M>)
        where
            P: Report<Arg = S::Variable, Op = O>,
            M: Monitor<P>,
        ensures
            r.solver == self.solver,
            r.op == self.op,
            r.report == report,
            r.monitor@.len() == 0,
    {
        ExecutorStage1 { solver: self.solver, op: self.op, report, monitor: Vec::new() }
    }

    /// Registers an observer, with the default report.
    pub fn add_monitor<M>(self, f: M) -> (r: ExecutorStage1<S, O, DefaultReport<O>, M>)
        where M: Monitor<DefaultReport<O>>,
        ensures
            r.solver == self.solver,
            r.op == self.op,
            r.monitor@.len() == 1,
    {
        self.report(Default::default()).add_monitor(f)
    }

    /// Fixes the stop criteria, with the default report.
    pub fn terminate<M, F>(self, c: F) -> (r: ExecutorReady<S, O, DefaultReport<O>, M, F>)
        where
            M: Monitor<DefaultReport<O>>,
            F: Criteria<DefaultReport<O>>,
        ensures
            r.solver == self.solver,
            r.op == self.op,
            r.criteria == c,
            r.monitor@.len() == 0,
    {
        self.report(Default::default()).terminate(c)
    }
}

} // verus!

pub mod solver;
