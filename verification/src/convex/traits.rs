//! The support-function interface.
use vstd::prelude::*;
use crate::error::Error;
use crate::scalar::Scalar;
use crate::support::SupportResult;

verus! {

/// A convex set, known through its support function.
///
/// Answering support queries is the one thing a set has to offer to take
/// part in hulls, sums, transformations and overapproximation.
pub trait LazySet {
    /// Whether `answer` is something that the set may give to a support
    /// query in `direction`. A set that says nothing of its answers may give
    /// any; a set that is built from others says how its answers come from
    /// theirs.
    open spec fn answers(&self, direction: Seq<Scalar>, answer: Result<SupportResult, Error>) -> bool {
        true
    }

    /// The largest value of `direction . x` over the set and a point of the
    /// set where it is taken, or the reason why the set cannot tell.
    fn support(&self, direction: &Vec<Scalar>) -> (answer: Result<SupportResult, Error>)
        ensures
            self.answers(direction@, answer),
    ;
}

} // verus!
