//! What can go wrong in a query or an overapproximation.
use vstd::prelude::*;

verus! {

/// Why a linear program has no optimum.
#[derive(Clone, Copy, Debug, PartialEq, Eq)]
pub enum LpError {
    /// No point satisfies every constraint.
    Infeasible,
    /// The objective grows without bound over the feasible region.
    Unbounded,
}

/// The failures that the library reports.
#[derive(Clone, Copy, Debug, PartialEq, Eq)]
pub enum Error {
    /// A vector or matrix does not have the shape that its use demands.
    DimensionMismatch,
    /// The constraint set of a linear program is infeasible.
    Infeasible,
    /// The objective of a linear program is unbounded.
    Unbounded,
    /// An overapproximation run was handed an event that its phase does not expect.
    UnexpectedEvent,
}

impl Error {
    /// The failure that an unsolved linear program stands for.
    pub open spec fn spec_from_lp(e: LpError) -> Error {
        match e {
            LpError::Infeasible => Error::Infeasible,
            LpError::Unbounded => Error::Unbounded,
        }
    }

    /// The failure that an unsolved linear program stands for.
    pub fn from_lp(e: LpError) -> (r: Error)
        ensures
            r == Self::spec_from_lp(e),
    {
        match e {
            LpError::Infeasible => Error::Infeasible,
            LpError::Unbounded => Error::Unbounded,
        }
    }
}

} // verus!
