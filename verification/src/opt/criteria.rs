//! Building stop criteria from plain predicates.

use vstd::prelude::*;

use crate::opt::traits::Criteria;

verus! {

/// A stop criterion made from a predicate over the report.
pub struct When<R, F: Fn(&R) -> bool> {
    /// The predicate: true when the iteration should stop.
    f: F,
    _report: core::marker::PhantomData<R>,
}

impl<R, F: Fn(&R) -> bool> When<R, F> {
    #[verifier::type_invariant]
    spec fn callable(self) -> bool {
        forall|r: &R| call_requires(self.f, (r,))
    }
}

/// Lifts a predicate over the report into a stop criterion: the iteration
/// ends as soon as the predicate holds.
pub fn when<R, F: Fn(&R) -> bool>(f: F) -> (c: When<R, F>)
    requires
        forall|r: &R| call_requires(f, (r,)),
{
    When { f, _report: core::marker::PhantomData }
}

impl<R, F: Fn(&R) -> bool> Criteria<R> for When<R, F> {
    fn check(&self, report: &R) -> bool {
        proof {
            use_type_invariant(self);
        }
        (self.f)(report)
    }
}

} // verus!
