//! The answer to a support query, and the directions a query may be asked in.
use vstd::prelude::*;
use crate::error::Error;
use crate::linear_program::LpOutcome;
use crate::linear_program::LpSolution;
use crate::scalar::Scalar;

verus! {

/// The support of a set in some direction: the largest value that the
/// direction's linear functional takes on the set, and a point of the set
/// where it takes it.
#[derive(Clone, Debug, PartialEq, Eq)]
pub struct SupportResult {
    pub value: Scalar,
    pub point: Vec<Scalar>,
}

/// A vector that can serve as a direction: every component is a number and
/// at least one of them is not zero.
pub open spec fn spec_is_direction(v: Seq<Scalar>) -> bool {
    &&& forall|i: int| 0 <= i < v.len() ==> !(#[trigger] v[i]).spec_is_nan()
    &&& exists|i: int| 0 <= i < v.len() && !(#[trigger] v[i]).spec_is_zero()
}

/// Whether `v` can serve as a direction. The zero vector cannot: it has no
/// unit multiple.
pub fn is_direction(v: &Vec<Scalar>) -> (r: bool)
    ensures
        r == spec_is_direction(v@),
{
    let mut nonzero = false;
    let mut i: usize = 0;
    while i < v.len()
        invariant
            i <= v@.len(),
            forall|k: int| 0 <= k < i ==> !(#[trigger] v@[k]).spec_is_nan(),
            nonzero == (exists|k: int| 0 <= k < i && !(#[trigger] v@[k]).spec_is_zero()),
        decreases v@.len() - i,
    {
        if v[i].is_nan() {
            return false;
        }
        if !v[i].is_zero() {
            nonzero = true;
        }
        i += 1;
    }
    nonzero
}

impl SupportResult {
    /// What an answered support program says of a set of the given
    /// dimension: the optimum is the support value and the variables'
    /// values are the witness point.
    pub open spec fn spec_from_outcome(outcome: LpOutcome, dim: nat) -> Result<
        (Scalar, Seq<Scalar>),
        Error,
    > {
        match outcome {
            Ok(solution) => if solution.values@.len() == dim {
                Ok((solution.objective, solution.values@))
            } else {
                Err(Error::DimensionMismatch)
            },
            Err(e) => Err(Error::spec_from_lp(e)),
        }
    }

    /// Reads an answered support program: the optimum becomes the support
    /// value and the variables' values the witness point. A program
    /// without an optimum gives its failure, and an answer with another number
    /// of values than `dim` is a dimension mismatch.
    pub fn from_outcome(outcome: LpOutcome, dim: usize) -> (r: Result<SupportResult, Error>)
        ensures
            match Self::spec_from_outcome(outcome, dim as nat) {
                Ok((value, point)) => r is Ok && r->Ok_0.value == value && r->Ok_0.point@ == point,
                Err(e) => r == Err::<SupportResult, Error>(e),
            },
    {
        match outcome {
            Ok(solution) => {
                if solution.values.len() == dim {
                    Ok(SupportResult { value: solution.objective, point: solution.values })
                } else {
                    Err(Error::DimensionMismatch)
                }
            },
            Err(e) => Err(Error::from_lp(e)),
        }
    }
}

} // verus!
