//! The convex hull of two sets: its support is the larger of the two supports.
use vstd::prelude::*;
use crate::convex::traits::LazySet;
use crate::error::Error;
use crate::scalar::Scalar;
use crate::support::SupportResult;

verus! {

/// The answer of a hull to a support query, given the answers of its two
/// sets to the same query: the left one where its value is strictly the
/// larger, else the right one.
pub open spec fn spec_select(lhs: SupportResult, rhs: SupportResult) -> SupportResult {
    if lhs.value.spec_gt(rhs.value) {
        lhs
    } else {
        rhs
    }
}

/// Picks the answer of a hull from the answers of its two sets: the left one
/// where its value is strictly the larger, else the right one. A tie goes to
/// the right, and so does every comparison with a NaN.
pub fn select(lhs: SupportResult, rhs: SupportResult) -> (r: SupportResult)
    ensures
        r == spec_select(lhs, rhs),
{
    if lhs.value.gt(&rhs.value) {
        lhs
    } else {
        rhs
    }
}

/// What a hull answers, given what its two sets answered or why they could
/// not: the first failure, the left set's before the right set's, or else the
/// answer with the larger value.
pub open spec fn spec_combine(
    lhs: Result<SupportResult, Error>,
    rhs: Result<SupportResult, Error>,
) -> Result<SupportResult, Error> {
    match lhs {
        Err(e) => Err(e),
        Ok(a) => match rhs {
            Err(e) => Err(e),
            Ok(b) => Ok(spec_select(a, b)),
        },
    }
}

/// Combines what a hull's two sets answered into what the hull answers.
pub fn combine(lhs: Result<SupportResult, Error>, rhs: Result<SupportResult, Error>) -> (r: Result<
    SupportResult,
    Error,
>)
    ensures
        r == spec_combine(lhs, rhs),
{
    match lhs {
        Err(e) => Err(e),
        Ok(a) => match rhs {
            Err(e) => Err(e),
            Ok(b) => Ok(select(a, b)),
        },
    }
}

/// The hull's support value is the maximum of the two sets' support values:
/// the hull answers as one of the two, and neither value is above the
/// hull's.
pub proof fn lemma_hull_value_is_maximum(lhs: SupportResult, rhs: SupportResult)
    requires
        !lhs.value.spec_is_nan(),
        !rhs.value.spec_is_nan(),
    ensures
        spec_select(lhs, rhs) == lhs || spec_select(lhs, rhs) == rhs,
        spec_select(lhs, rhs).value.spec_ge(lhs.value),
        spec_select(lhs, rhs).value.spec_ge(rhs.value),
        spec_select(lhs, rhs).value.rank() == if lhs.value.rank() >= rhs.value.rank() {
            lhs.value.rank()
        } else {
            rhs.value.rank()
        },
        spec_combine(Ok(lhs), Ok(rhs)) == Ok::<SupportResult, Error>(spec_select(lhs, rhs)),
{
}

/// The hull of a set with itself answers as the set does, and swapping the
/// two sets changes the hull's value only between equal numbers.
pub proof fn lemma_hull_value_is_symmetric(lhs: SupportResult, rhs: SupportResult)
    requires
        !lhs.value.spec_is_nan(),
        !rhs.value.spec_is_nan(),
    ensures
        spec_select(lhs, lhs) == lhs,
        spec_select(lhs, rhs).value.rank() == spec_select(rhs, lhs).value.rank(),
{
}

/// The convex hull of two convex sets.
pub struct ConvexHull {
    lhs: Box<dyn LazySet>,
    rhs: Box<dyn LazySet>,
}

impl ConvexHull {
    /// The left set.
    pub closed spec fn spec_lhs(&self) -> &Box<dyn LazySet> {
        &self.lhs
    }

    /// The right set.
    pub closed spec fn spec_rhs(&self) -> &Box<dyn LazySet> {
        &self.rhs
    }

    /// The convex hull of `lhs` and `rhs`.
    pub fn new(lhs: Box<dyn LazySet>, rhs: Box<dyn LazySet>) -> (hull: ConvexHull)
        ensures
            *hull.spec_lhs() === lhs,
            *hull.spec_rhs() === rhs,
    {
        ConvexHull { lhs, rhs }
    }
}

impl LazySet for ConvexHull {
    /// A hull may answer what [`spec_combine`] makes of an answer of its left
    /// set and an answer of its right set to the same query; where the left
    /// set fails, the right set's answer does not matter.
    open spec fn answers(&self, direction: Seq<Scalar>, answer: Result<SupportResult, Error>) -> bool {
        exists|lhs: Result<SupportResult, Error>, rhs: Result<SupportResult, Error>|
            {
                &&& self.spec_lhs().answers(direction, lhs)
                &&& lhs is Ok ==> self.spec_rhs().answers(direction, rhs)
                &&& answer == #[trigger] spec_combine(lhs, rhs)
            }
    }

    /// Asks both sets in `direction`, the left one first, and answers as
    /// [`combine`] lays down. The right set is not asked where the left one
    /// fails.
    fn support(&self, direction: &Vec<Scalar>) -> (answer: Result<SupportResult, Error>) {
        match self.lhs.support(direction) {
            Err(e) => {
                let lhs: Result<SupportResult, Error> = Err(e);
                assert(lhs == spec_combine(lhs, lhs));
                lhs
            },
            Ok(a) => {
                let ghost lhs: Result<SupportResult, Error> = Ok(a);
                let rhs = self.rhs.support(direction);
                let ghost asked = rhs;
                let answer = combine(Ok(a), rhs);
                assert(answer == spec_combine(lhs, asked));
                answer
            },
        }
    }
}

/// The hull's support value is the maximum of its two sets' support values:
/// whatever a hull answers, it is the answer of one of its sets to the same
/// query, the left set's exactly where that one's value is strictly the
/// larger, so that neither set's value is above the hull's.
pub proof fn lemma_hull_answers_with_the_maximum(
    hull: &ConvexHull,
    direction: Seq<Scalar>,
    answer: SupportResult,
)
    requires
        hull.answers(direction, Ok(answer)),
    ensures
        exists|lhs: SupportResult, rhs: SupportResult|
            {
                &&& hull.spec_lhs().answers(direction, Ok(lhs))
                &&& hull.spec_rhs().answers(direction, Ok(rhs))
                &&& answer == #[trigger] spec_select(lhs, rhs)
                &&& !lhs.value.spec_is_nan() && !rhs.value.spec_is_nan() ==> {
                    &&& answer.value.spec_ge(lhs.value)
                    &&& answer.value.spec_ge(rhs.value)
                }
            },
{
    let (lhs, rhs) = choose|lhs: Result<SupportResult, Error>, rhs: Result<SupportResult, Error>|
        {
            &&& hull.spec_lhs().answers(direction, lhs)
            &&& lhs is Ok ==> hull.spec_rhs().answers(direction, rhs)
            &&& Ok::<SupportResult, Error>(answer) == #[trigger] spec_combine(lhs, rhs)
        };
    assert(lhs is Ok && rhs is Ok);
    assert(hull.spec_lhs().answers(direction, Ok(lhs->Ok_0)));
    assert(hull.spec_rhs().answers(direction, Ok(rhs->Ok_0)));
    assert(answer == spec_select(lhs->Ok_0, rhs->Ok_0));
}

/// A hull fails as its sets do: with the left set's failure, or, where the
/// left set answers, with the right set's.
pub proof fn lemma_hull_fails_with_its_sets(hull: &ConvexHull, direction: Seq<Scalar>, e: Error)
    requires
        hull.answers(direction, Err(e)),
    ensures
        hull.spec_lhs().answers(direction, Err(e)) || hull.spec_rhs().answers(direction, Err(e)),
{
    let (lhs, rhs) = choose|lhs: Result<SupportResult, Error>, rhs: Result<SupportResult, Error>|
        {
            &&& hull.spec_lhs().answers(direction, lhs)
            &&& lhs is Ok ==> hull.spec_rhs().answers(direction, rhs)
            &&& Err::<SupportResult, Error>(e) == #[trigger] spec_combine(lhs, rhs)
        };
    if lhs is Ok {
        assert(rhs == Err::<SupportResult, Error>(e));
    } else {
        assert(lhs == Err::<SupportResult, Error>(e));
    }
}

} // verus!
