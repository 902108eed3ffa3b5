//! Staged executor that drives a solver, keeps a report, shows it to
//! monitors and stops when the criteria accept it.

use vstd::prelude::*;

use crate::opt::error::Error;
use crate::opt::traits::{Criteria, Monitor, Report, Solver};

verus! {

/// An executor with its report chosen, still waiting for stop criteria.
pub struct ExecutorStage1<S, O, P, M> {
    pub solver: S,
    pub op: O,
    pub report: P,
    pub monitor: Vec<M>,
}

/// An executor ready to run: solver, report, monitors and criteria.
pub struct ExecutorReady<S, O, P, M, F> {
    pub solver: S,
    pub op: O,
    pub report: P,
    pub monitor: Vec<M>,
    pub criteria: F,
}

impl<S, O, P, M> ExecutorStage1<S, O, P, M> where
    S: Solver<O>,
    P: Report<Arg = S::Variable, Op = O>,
    M: Monitor<P>,
 {
    /// Fixes the stop criteria and makes the executor runnable.
    pub fn terminate<F: Criteria<P>>(self, c: F) -> (r: ExecutorReady<S, O, P, M, F>)
        ensures
            r.solver == self.solver,
            r.op == self.op,
            r.report == self.report,
            r.monitor == self.monitor,
            r.criteria == c,
    {
        ExecutorReady {
            solver: self.solver,
            op: self.op,
            report: self.report,
            monitor: self.monitor,
            criteria: c,
        }
    }

    /// Registers one more observer of the report.
    pub fn add_monitor(self, f: M) -> (r: Self)
        ensures
            r.solver == self.solver,
            r.op == self.op,
            r.report == self.report,
            r.monitor@ == self.monitor@.push(f),
    {
        let mut s = self;
        s.monitor.push(f);
        s
    }
}

impl<S, O, P, M, F> ExecutorReady<S, O, P, M, F> where
    S: Solver<O>,
    P: Report<Arg = S::Variable, Op = O>,
    M: Monitor<P>,
    F: Criteria<P>,
 {
    /// Shows the report to every monitor in turn.
    fn observe_all(&mut self) -> Result<(), Error> {
        let mut i: usize = 0;
        while i < self.monitor.len()
            invariant
                i <= self.monitor@.len(),
            decreases self.monitor@.len() - i,
        {
            self.monitor[i].observe(&self.report)?;
            i += 1;
        }
        Ok(())
    }

    /// Iterates from `init` until the criteria accept the report.
    ///
    /// The report is rebuilt at `init` and shown to every monitor before the
    /// first step and after each one; the first error from the solver, the
    /// report or a monitor ends the run, and so does exhausting the step
    /// budget without the criteria ever accepting.
    pub fn run(&mut self, init: S::Variable) -> Result<S::Variable, Error> {
        let mut x = init;
        self.report.init(&self.op, &x)?;
        self.observe_all()?;
        let mut res = self.criteria.check(&self.report);
        let mut steps: usize = 0;
        while !res && steps < usize::MAX
            decreases usize::MAX - steps,
        {
            x = self.solver.next_iter(&self.op, &x)?;
            self.report.update(&self.op, &x)?;
            self.observe_all()?;
            res = self.criteria.check(&self.report);
            steps += 1;
        }
        if res {
            Ok(x)
        } else {
            Err(Error::ConditionViolated)
        }
    }

    /// Registers one more observer of the report.
    pub fn add_monitor(self, f: M) -> (r: Self)
        ensures
            r.solver == self.solver,
            r.op == self.op,
            r.report == self.report,
            r.criteria == self.criteria,
            r.monitor@ == self.monitor@.push(f),
    {
        let mut s = self;
        s.monitor.push(f);
        s
    }
}

} // verus!
