//! Error taxonomy of the iteration framework.

use vstd::prelude::*;

verus! {

/// What can go wrong while driving an iterative solver.
#[derive(Debug, Clone, PartialEq, Eq)]
pub enum Error {
    /// A function could not be applied to the given variables.
    InvalidVariable,
    /// A condition required by the framework was violated.
    ConditionViolated,
    /// Another failure, described by its message.
    Failure(String),
}

impl Error {
    /// A short description of the error.
    pub fn message(&self) -> (r: String)
        ensures
            self is InvalidVariable ==> r@ == "failed with apply a function due to invalid variables"@,
            self is ConditionViolated ==> r@ == "a condition is violated"@,
            self is Failure ==> r@ == self->Failure_0@,
    {
        match self {
            Error::InvalidVariable => {
                String::from_str("failed with apply a function due to invalid variables")
            },
            Error::ConditionViolated => String::from_str("a condition is violated"),
            Error::Failure(msg) => msg.clone(),
        }
    }
}

} // verus!
