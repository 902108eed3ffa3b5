//! Forward-mode automatic differentiation over a generic scalar.
//!
//! A `Dual` value pairs a scalar with a gradient vector: component `i` holds
//! the partial derivative of the represented expression with respect to the
//! `i`-th independent variable.  `Variables` mints the independent variables
//! with one-hot gradients.  The arithmetic and elementary-function layers
//! propagate derivatives by the chain rule, generically over any scalar that
//! implements the capability traits in [`scalar`]; gradient storage comes
//! heap-backed with a run-time arity ([`dual`]) or as a stack array with a
//! compile-time arity ([`static_size`]).
//!
//! Around the core stand the consumers it was built for: iterative solver
//! frameworks ([`opt`], [`find_root`], and the executor here at the root)
//! that accept any iterate satisfying the capability traits in [`traits`]
//! - a plain scalar, or a `Dual` for an automatic Jacobian - and a
//! tab-separated progress dump ([`table`]).

use vstd::prelude::*;

pub mod dual;
pub mod find_root;
pub mod opt;
pub mod scalar;
pub mod static_size;
pub mod table;
pub mod traits;

pub use dual::{Dual, Variables};

use crate::traits::{Criteria, Op, Solver};

verus! {

/// What can go wrong while the root executor drives a solver.
#[derive(Debug, Clone, PartialEq, Eq, Structural)]
pub enum Error {
    /// A function could not be applied to the given variables.
    InvalidVariable,
    /// A condition required by the framework was violated.
    ConditionViolated,
}

impl Error {
    /// A short description of the error.
    pub fn message(&self) -> (r: String)
        ensures
            self is InvalidVariable ==> r@ == "failed with apply a function due to invalid variables"@,
            self is ConditionViolated ==> r@ == "a condition is violated"@,
    {
        match self {
            Error::InvalidVariable => {
                String::from_str("failed with apply a function due to invalid variables")
            },
            Error::ConditionViolated => String::from_str("a condition is violated"),
        }
    }
}

/// Drives a solver over an operation until the criteria accept two
/// consecutive iterates.
pub struct Executor<S, O, T> {
    pub solver: S,
    pub op: O,
    pub criteria: Option<T>,
}

impl<S, O, T> Executor<S, O, T> where
    S: Solver<O>,
    O: Op,
    T: Criteria<Variable = O::Variable>,
 {
    /// An executor without stop criteria yet; `terminate` must supply them
    /// before `run`.
    pub fn new(solver: S, op: O) -> (r: Self)
        ensures
            r.solver == solver,
            r.op == op,
            r.criteria is None,
    {
        Executor { solver, op, criteria: None }
    }

    /// Iterates from `init` until the criteria accept an iterate, which is
    /// then returned; a solver error ends the run early, and so does
    /// exhausting the step budget without the criteria ever accepting.
    pub fn run(&mut self, init: O::Variable) -> Result<O::Variable, Error>
        requires
            old(self).criteria is Some,
    {
        let mut x = init;
        let mut x_new = self.solver.next_iter(&self.op, &x)?;
        let mut res = match &self.criteria {
            Some(c) => c.apply(&x_new, &x),
            None => return Err(Error::ConditionViolated),
        };
        let mut steps: usize = 0;
        while !res && steps < usize::MAX
            decreases usize::MAX - steps,
        {
            x = x_new;
            x_new = self.solver.next_iter(&self.op, &x)?;
            res = match &self.criteria {
                Some(c) => c.apply(&x_new, &x),
                None => return Err(Error::ConditionViolated),
            };
            steps += 1;
        }
        if res {
            Ok(x_new)
        } else {
            Err(Error::ConditionViolated)
        }
    }

    /// Fixes the stop criteria.
    pub fn terminate(self, c: T) -> (r: Self)
        ensures
            r.solver == self.solver,
            r.op == self.op,
            r.criteria == Some(c),
    {
        Executor { criteria: Some(c), ..self }
    }
}

} // verus!
