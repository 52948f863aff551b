//! Linear programs as plain data: what is asked of a solver and what it answers.
//!
//! Every program here maximises a linear objective over free variables subject
//! to `<=` constraints. The library builds the request and reads the answer; a
//! solver outside it does the arithmetic.
use vstd::prelude::*;
use crate::error::LpError;
use crate::scalar::Scalar;
use crate::scalar::ONE_BITS;

verus! {

/// One constraint `sum_j coefficients[j] * x[j] <= bound`, or
/// `<= bound + slack` where a slack is given.
#[derive(Clone, Debug, PartialEq, Eq)]
pub struct LpConstraint {
    pub coefficients: Vec<Scalar>,
    pub bound: Scalar,
    pub slack: Option<Scalar>,
}

/// The mathematical content of an [`LpConstraint`].
pub struct ConstraintModel {
    pub coefficients: Seq<Scalar>,
    pub bound: Scalar,
    pub slack: Option<Scalar>,
}

impl View for LpConstraint {
    type V = ConstraintModel;

    open spec fn view(&self) -> ConstraintModel {
        ConstraintModel { coefficients: self.coefficients@, bound: self.bound, slack: self.slack }
    }
}

/// Maximise `sum_j objective[j] * x[j]` over free variables `x`, subject to
/// every constraint.
#[derive(Clone, Debug, PartialEq, Eq)]
pub struct LpProblem {
    pub objective: Vec<Scalar>,
    pub constraints: Vec<LpConstraint>,
}

/// The mathematical content of an [`LpProblem`].
pub struct ProblemModel {
    pub objective: Seq<Scalar>,
    pub constraints: Seq<ConstraintModel>,
}

impl ProblemModel {
    /// Every constraint has one coefficient per variable.
    pub open spec fn well_formed(self) -> bool {
        forall|i: int|
            0 <= i < self.constraints.len() ==> (#[trigger] self.constraints[i]).coefficients.len()
                == self.objective.len()
    }
}

impl View for LpProblem {
    type V = ProblemModel;

    open spec fn view(&self) -> ProblemModel {
        ProblemModel {
            objective: self.objective@,
            constraints: Seq::new(self.constraints@.len(), |i: int| self.constraints@[i]@),
        }
    }
}

/// An optimum: the objective's value and one value per variable.
#[derive(Clone, Debug, PartialEq, Eq)]
pub struct LpSolution {
    pub objective: Scalar,
    pub values: Vec<Scalar>,
}

/// What a solver answers.
pub type LpOutcome = Result<LpSolution, LpError>;

/// The rows of a list of vectors, as sequences.
pub open spec fn rows_model(rows: &Vec<Vec<Scalar>>) -> Seq<Seq<Scalar>> {
    Seq::new(rows@.len(), |i: int| rows@[i]@)
}

/// The constraints `rows[i] . x <= bounds[i]`, in order, none with a slack.
pub open spec fn plain_constraints(rows: Seq<Seq<Scalar>>, bounds: Seq<Scalar>) -> Seq<
    ConstraintModel,
> {
    Seq::new(
        rows.len(),
        |i: int| ConstraintModel { coefficients: rows[i], bound: bounds[i], slack: None },
    )
}

/// The program whose optimum is the support of `{x : rows x <= bounds}` in
/// `direction`: maximise `direction . x` subject to `rows x <= bounds`.
pub open spec fn support_program(
    rows: Seq<Seq<Scalar>>,
    bounds: Seq<Scalar>,
    direction: Seq<Scalar>,
) -> ProblemModel {
    ProblemModel { objective: direction, constraints: plain_constraints(rows, bounds) }
}

/// The program that tests whether `face . x <= bound` follows from
/// `rows x <= bounds`: maximise `face . x` subject to `rows x <= bounds` and to
/// `face . x <= bound + 1`.
pub open spec fn redundancy_program(
    rows: Seq<Seq<Scalar>>,
    bounds: Seq<Scalar>,
    face: Seq<Scalar>,
    bound: Scalar,
) -> ProblemModel {
    ProblemModel {
        objective: face,
        constraints: plain_constraints(rows, bounds).push(
            ConstraintModel {
                coefficients: face,
                bound,
                slack: Some(Scalar { bits: ONE_BITS }),
            },
        ),
    }
}

/// A copy of `v`.
pub fn copy_scalars(v: &Vec<Scalar>) -> (r: Vec<Scalar>)
    ensures
        r@ == v@,
{
    let mut r: Vec<Scalar> = Vec::new();
    let mut i: usize = 0;
    while i < v.len()
        invariant
            i <= v@.len(),
            r@ == v@.take(i as int),
        decreases v@.len() - i,
    {
        r.push(v[i]);
        assert(v@.take(i as int).push(v@[i as int]) =~= v@.take(i + 1));
        i += 1;
    }
    assert(v@.take(v@.len() as int) =~= v@);
    r
}

impl LpProblem {
    /// The program with the given objective and no constraint yet.
    pub fn new(objective: Vec<Scalar>) -> (p: LpProblem)
        ensures
            p@.objective == objective@,
            p@.constraints == Seq::<ConstraintModel>::empty(),
    {
        let p = LpProblem { objective, constraints: Vec::new() };
        assert(p@.constraints =~= Seq::<ConstraintModel>::empty());
        p
    }

    /// Appends one constraint.
    pub fn push_constraint(&mut self, constraint: LpConstraint)
        ensures
            final(self)@.objective == old(self)@.objective,
            final(self)@.constraints == old(self)@.constraints.push(constraint@),
    {
        self.constraints.push(constraint);
        assert(self@.constraints =~= old(self)@.constraints.push(constraint@));
    }
}

} // verus!
