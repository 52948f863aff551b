//! Halfspace polytopes `{x : A x <= b}` and the linear programs that answer
//! their support queries.
use vstd::prelude::*;
use crate::error::Error;
use crate::linear_program::copy_scalars;
use crate::linear_program::plain_constraints;
use crate::linear_program::support_program;
use crate::linear_program::LpConstraint;
use crate::linear_program::LpProblem;
use crate::matrix::Matrix;
use crate::scalar::Scalar;

verus! {

/// A halfspace polytope whose shape is known at run time: one row of
/// `a_transform` and one entry of `upper_bounds` for each constraint.
#[derive(Debug, PartialEq, Eq)]
pub struct DHalfspacePolytope {
    a_transform: Matrix,
    upper_bounds: Vec<Scalar>,
}

impl DHalfspacePolytope {
    #[verifier::type_invariant]
    spec fn well_formed(self) -> bool {
        self.a_transform.spec_nrows() == self.upper_bounds@.len()
    }

    /// The constraint matrix `A`.
    pub closed spec fn spec_a_transform(self) -> Matrix {
        self.a_transform
    }

    /// The bounds `b`.
    pub closed spec fn spec_upper_bounds(self) -> Seq<Scalar> {
        self.upper_bounds@
    }

    /// The dimension of the space that the polytope lies in.
    pub open spec fn dim(self) -> nat {
        self.spec_a_transform().spec_ncols()
    }

    /// The polytope `{x : a_transform x <= h}`; the matrix must have one row
    /// for each entry of `h`.
    pub fn new(a_transform: Matrix, h: Vec<Scalar>) -> (r: Result<DHalfspacePolytope, Error>)
        ensures
            r is Ok <==> a_transform.spec_nrows() == h@.len(),
            r is Err ==> r == Err::<DHalfspacePolytope, Error>(Error::DimensionMismatch),
            r is Ok ==> r->Ok_0.spec_a_transform() == a_transform && r->Ok_0.spec_upper_bounds()
                == h@,
    {
        if a_transform.nrows() == h.len() {
            Ok(DHalfspacePolytope { a_transform, upper_bounds: h })
        } else {
            Err(Error::DimensionMismatch)
        }
    }

    /// The constraint matrix `A`.
    pub fn a_transform(&self) -> (a: &Matrix)
        ensures
            *a == self.spec_a_transform(),
            a.spec_nrows() == self.spec_upper_bounds().len(),
    {
        proof {
            use_type_invariant(self);
        }
        &self.a_transform
    }

    /// The bounds `b`.
    pub fn upper_bounds(&self) -> (b: &Vec<Scalar>)
        ensures
            b@ == self.spec_upper_bounds(),
            b@.len() == self.spec_a_transform().spec_nrows(),
    {
        proof {
            use_type_invariant(self);
        }
        &self.upper_bounds
    }

    /// The linear program whose optimum is the polytope's support in
    /// `direction`: maximise `direction . x` subject to `A x <= b`. The
    /// direction must have the polytope's dimension.
    pub fn support_problem(&self, direction: &Vec<Scalar>) -> (r: Result<LpProblem, Error>)
        ensures
            r is Ok <==> direction@.len() == self.dim(),
            r is Err ==> r == Err::<LpProblem, Error>(Error::DimensionMismatch),
            r is Ok ==> r->Ok_0@ == support_program(
                self.spec_a_transform().rows(),
                self.spec_upper_bounds(),
                direction@,
            ),
            r is Ok ==> r->Ok_0@.well_formed(),
    {
        proof {
            use_type_invariant(self);
        }
        if direction.len() != self.a_transform.ncols() {
            return Err(Error::DimensionMismatch);
        }
        let nrows = self.a_transform.nrows();
        let ghost rows = self.a_transform.rows();
        let mut p = LpProblem::new(copy_scalars(direction));
        let mut i: usize = 0;
        while i < nrows
            invariant
                i <= nrows,
                nrows == self.a_transform.spec_nrows(),
                nrows == self.upper_bounds@.len(),
                rows == self.a_transform.rows(),
                p@.objective == direction@,
                p@.constraints == plain_constraints(rows, self.upper_bounds@).take(i as int),
            decreases nrows - i,
        {
            let c = LpConstraint {
                coefficients: self.a_transform.row_vec(i),
                bound: self.upper_bounds[i],
                slack: None,
            };
            p.push_constraint(c);
            assert(p@.constraints =~= plain_constraints(rows, self.upper_bounds@).take(i + 1));
            i += 1;
        }
        assert(p@.constraints =~= plain_constraints(rows, self.upper_bounds@));
        Ok(p)
    }
}

impl Clone for DHalfspacePolytope {
    fn clone(&self) -> (p: DHalfspacePolytope)
        ensures
            p.spec_a_transform().spec_nrows() == self.spec_a_transform().spec_nrows(),
            p.spec_a_transform().spec_ncols() == self.spec_a_transform().spec_ncols(),
            p.spec_a_transform().spec_column_major() == self.spec_a_transform().spec_column_major(),
            p.spec_upper_bounds() == self.spec_upper_bounds(),
    {
        proof {
            use_type_invariant(self);
        }
        DHalfspacePolytope {
            a_transform: self.a_transform.clone(),
            upper_bounds: copy_scalars(&self.upper_bounds),
        }
    }
}

/// A halfspace polytope whose shape is part of its type: `R` constraints in
/// `C` dimensions. Row `i` of `a_transform` and entry `i` of `upper_bounds`
/// make up constraint `i`.
#[derive(Clone, Copy, Debug, PartialEq, Eq)]
pub struct SHalfspacePolytope<const R: usize, const C: usize> {
    pub a_transform: [[Scalar; C]; R],
    pub upper_bounds: [Scalar; R],
}

impl<const R: usize, const C: usize> SHalfspacePolytope<R, C> {
    /// The rows of `A`, from the first to the last.
    pub open spec fn rows(self) -> Seq<Seq<Scalar>> {
        Seq::new(R as nat, |i: int| self.a_transform@[i]@)
    }

    /// The polytope `{x : a_transform x <= h}`.
    pub fn new(a_transform: [[Scalar; C]; R], h: [Scalar; R]) -> (p: SHalfspacePolytope<R, C>)
        ensures
            p.a_transform == a_transform,
            p.upper_bounds == h,
    {
        SHalfspacePolytope { a_transform, upper_bounds: h }
    }

    /// The linear program whose optimum is the polytope's support in
    /// `direction`: maximise `direction . x` subject to `A x <= b`.
    pub fn support_problem(&self, direction: &[Scalar; C]) -> (p: LpProblem)
        ensures
            p@ == support_program(self.rows(), self.upper_bounds@, direction@),
            p@.well_formed(),
    {
        let mut objective: Vec<Scalar> = Vec::new();
        let mut j: usize = 0;
        while j < C
            invariant
                j <= C,
                objective@ == direction@.take(j as int),
            decreases C - j,
        {
            objective.push(direction[j]);
            assert(direction@.take(j as int).push(direction@[j as int]) =~= direction@.take(j + 1));
            j += 1;
        }
        assert(direction@.take(C as int) =~= direction@);
        let mut p = LpProblem::new(objective);
        let mut i: usize = 0;
        while i < R
            invariant
                i <= R,
                p@.objective == direction@,
                p@.constraints == plain_constraints(self.rows(), self.upper_bounds@).take(i as int),
            decreases R - i,
        {
            let mut row: Vec<Scalar> = Vec::new();
            let mut j: usize = 0;
            while j < C
                invariant
                    i < R,
                    j <= C,
                    row@ == self.a_transform@[i as int]@.take(j as int),
                decreases C - j,
            {
                row.push(self.a_transform[i][j]);
                assert(self.a_transform@[i as int]@.take(j as int).push(
                    self.a_transform@[i as int]@[j as int],
                ) =~= self.a_transform@[i as int]@.take(j + 1));
                j += 1;
            }
            assert(self.a_transform@[i as int]@.take(C as int) =~= self.a_transform@[i as int]@);
            let c = LpConstraint { coefficients: row, bound: self.upper_bounds[i], slack: None };
            p.push_constraint(c);
            assert(p@.constraints =~= plain_constraints(self.rows(), self.upper_bounds@).take(
                i + 1,
            ));
            i += 1;
        }
        assert(p@.constraints =~= plain_constraints(self.rows(), self.upper_bounds@));
        p
    }
}

} // verus!
