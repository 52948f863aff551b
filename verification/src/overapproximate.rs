//! Overapproximation of a convex set by a halfspace polytope.
//!
//! A run draws a number of directions, asks the set for its support in each,
//! and keeps the halfspace `direction . x <= bound` unless the halfspaces kept
//! so far already imply it. Drawing, querying and solving happen outside the
//! library; a run here is a state that takes what happened as an [`Event`]
//! and answers with the next [`Action`].
use vstd::prelude::*;

pub mod laws;

use crate::convex::halfspace::DHalfspacePolytope;
use crate::error::Error;
use crate::error::LpError;
use crate::linear_program::copy_scalars;
use crate::linear_program::plain_constraints;
use crate::linear_program::redundancy_program;
use crate::linear_program::rows_model;
use crate::linear_program::LpConstraint;
use crate::linear_program::LpOutcome;
use crate::linear_program::LpProblem;
use crate::linear_program::ProblemModel;
use crate::matrix::Matrix;
use crate::scalar::Scalar;
use crate::support::is_direction;
use crate::support::spec_is_direction;

verus! {

/// The number of directions that a run draws where the caller names none.
pub const DEFAULT_SAMPLES: usize = 600;

/// The shapes fit a redundancy test: one bound for each face, and every face
/// as long as the new one.
pub open spec fn shapes_agree(faces: Seq<Seq<Scalar>>, upper_bounds: Seq<Scalar>, dim: nat) -> bool {
    &&& faces.len() == upper_bounds.len()
    &&& forall|i: int| 0 <= i < faces.len() ==> (#[trigger] faces[i]).len() == dim
}

/// The linear program that tests whether `new_face . x <= new_upper_bound`
/// follows from `faces x <= upper_bounds`: maximise `new_face . x` subject to
/// the constraints kept so far and to `new_face . x <= new_upper_bound + 1`.
/// The relaxation by one keeps the program bounded in the new direction.
pub fn redundancy_problem(
    faces: &Vec<Vec<Scalar>>,
    upper_bounds: &Vec<Scalar>,
    new_face: &Vec<Scalar>,
    new_upper_bound: Scalar,
) -> (r: Result<LpProblem, Error>)
    ensures
        r is Ok <==> shapes_agree(rows_model(faces), upper_bounds@, new_face@.len()),
        r is Err ==> r == Err::<LpProblem, Error>(Error::DimensionMismatch),
        r is Ok ==> r->Ok_0@ == redundancy_program(
            rows_model(faces),
            upper_bounds@,
            new_face@,
            new_upper_bound,
        ),
        r is Ok ==> r->Ok_0@.well_formed(),
{
    if faces.len() != upper_bounds.len() {
        return Err(Error::DimensionMismatch);
    }
    let ghost rows = rows_model(faces);
    let mut p = LpProblem::new(copy_scalars(new_face));
    let mut i: usize = 0;
    while i < faces.len()
        invariant
            i <= faces@.len(),
            faces@.len() == upper_bounds@.len(),
            rows == rows_model(faces),
            p@.objective == new_face@,
            p@.constraints == plain_constraints(rows, upper_bounds@).take(i as int),
            forall|k: int| 0 <= k < i ==> (#[trigger] rows[k]).len() == new_face@.len(),
        decreases faces@.len() - i,
    {
        if faces[i].len() != new_face.len() {
            assert(rows[i as int].len() != new_face@.len());
            return Err(Error::DimensionMismatch);
        }
        let c = LpConstraint {
            coefficients: copy_scalars(&faces[i]),
            bound: upper_bounds[i],
            slack: None,
        };
        p.push_constraint(c);
        assert(p@.constraints =~= plain_constraints(rows, upper_bounds@).take(i + 1));
        i += 1;
    }
    assert(plain_constraints(rows, upper_bounds@).take(i as int) =~= plain_constraints(
        rows,
        upper_bounds@,
    ));
    let relaxed = LpConstraint {
        coefficients: copy_scalars(new_face),
        bound: new_upper_bound,
        slack: Some(Scalar::one()),
    };
    p.push_constraint(relaxed);
    Ok(p)
}

/// What the answer to a redundancy program says of the candidate halfspace
/// with bound `new_upper_bound`: it is redundant exactly when the optimum
/// does not exceed the bound. A program without an optimum gives its failure.
pub open spec fn spec_is_constraint_redundant(
    outcome: Result<Scalar, LpError>,
    new_upper_bound: Scalar,
) -> Result<bool, Error> {
    match outcome {
        Ok(objective) => Ok(objective.spec_le(new_upper_bound)),
        Err(e) => Err(Error::spec_from_lp(e)),
    }
}

/// The optimum of an answered program, or its failure.
pub open spec fn outcome_model(outcome: LpOutcome) -> Result<Scalar, LpError> {
    match outcome {
        Ok(solution) => Ok(solution.objective),
        Err(e) => Err(e),
    }
}

/// Decides from the answer to a redundancy program whether the candidate
/// halfspace follows from those kept so far.
pub fn is_constraint_redundant(outcome: &LpOutcome, new_upper_bound: Scalar) -> (r: Result<
    bool,
    Error,
>)
    ensures
        r == spec_is_constraint_redundant(outcome_model(*outcome), new_upper_bound),
{
    match outcome {
        Ok(solution) => Ok(solution.objective.le(&new_upper_bound)),
        Err(e) => Err(Error::from_lp(*e)),
    }
}

/// A sampled halfspace `direction . x <= bound`, where `bound` is the inner
/// product of the direction with the set's support point in that direction.
#[derive(Clone, Debug, PartialEq, Eq)]
pub struct Candidate {
    pub direction: Vec<Scalar>,
    pub bound: Scalar,
}

/// What happened outside the library since the last action.
#[derive(Debug, PartialEq, Eq)]
pub enum Event {
    /// A direction was drawn and the set was queried in it.
    Sampled(Candidate),
    /// The linear program handed out last was solved, or has no optimum.
    Solved(LpOutcome),
}

/// What the run asks for next.
#[derive(Debug, PartialEq, Eq)]
pub enum Action {
    /// Draw a direction, query the set, and report the candidate.
    Sample,
    /// Solve this program and report the outcome.
    Solve(LpProblem),
    /// The run is over; this is the polytope.
    Finish(DHalfspacePolytope),
    /// The event was refused, or the run has failed.
    Fail(Error),
}

/// The mathematical content of an [`Event`].
pub enum EventModel {
    Sampled { direction: Seq<Scalar>, bound: Scalar },
    Solved(Result<Scalar, LpError>),
}

/// The mathematical content of an [`Action`].
pub enum ActionModel {
    Sample,
    Solve(ProblemModel),
    Finish { dim: nat, faces: Seq<Seq<Scalar>>, bounds: Seq<Scalar> },
    Fail(Error),
}

impl View for Event {
    type V = EventModel;

    open spec fn view(&self) -> EventModel {
        match *self {
            Event::Sampled(c) => EventModel::Sampled { direction: c.direction@, bound: c.bound },
            Event::Solved(outcome) => EventModel::Solved(outcome_model(outcome)),
        }
    }
}

impl View for Action {
    type V = ActionModel;

    open spec fn view(&self) -> ActionModel {
        match *self {
            Action::Sample => ActionModel::Sample,
            Action::Solve(p) => ActionModel::Solve(p@),
            Action::Finish(polytope) => ActionModel::Finish {
                dim: polytope.dim(),
                faces: polytope.spec_a_transform().rows(),
                bounds: polytope.spec_upper_bounds(),
            },
            Action::Fail(e) => ActionModel::Fail(e),
        }
    }
}

/// Where a run stands.
pub enum PhaseModel {
    /// It waits for the next candidate.
    Sampling,
    /// It waits for the outcome of the redundancy test of this candidate.
    Solving { direction: Seq<Scalar>, bound: Scalar },
    /// Every sample is used up and the polytope was handed out.
    Finished,
    /// A linear program had no optimum.
    Failed,
}

/// The mathematical content of a run.
pub struct RunModel {
    /// The dimension of the set.
    pub dim: nat,
    /// The number of directions that the run draws in all.
    pub samples: nat,
    /// The number of directions still to be drawn.
    pub remaining: nat,
    /// The directions of the halfspaces kept so far, oldest first.
    pub faces: Seq<Seq<Scalar>>,
    /// Their bounds, in the same order.
    pub bounds: Seq<Scalar>,
    pub phase: PhaseModel,
}

impl RunModel {
    /// What holds of every run: the kept halfspaces have the set's dimension
    /// and one bound each, no more were kept than directions were used up,
    /// and the phase fits the number of directions left.
    pub open spec fn well_formed(self) -> bool {
        &&& shapes_agree(self.faces, self.bounds, self.dim)
        &&& self.faces.len() + self.remaining <= self.samples
        &&& match self.phase {
            PhaseModel::Sampling => self.remaining > 0,
            PhaseModel::Solving { direction, bound } => self.remaining > 0 && direction.len()
                == self.dim && spec_is_direction(direction),
            PhaseModel::Finished => self.remaining == 0,
            PhaseModel::Failed => true,
        }
    }

    /// The run and its action once a sample is used up, with `faces` and
    /// `bounds` as the halfspaces kept: finish where it was the last, else
    /// ask for the next.
    pub open spec fn settle(self, faces: Seq<Seq<Scalar>>, bounds: Seq<Scalar>) -> (
        RunModel,
        ActionModel,
    ) {
        if self.remaining <= 1 {
            (
                RunModel { remaining: 0, faces, bounds, phase: PhaseModel::Finished, ..self },
                ActionModel::Finish { dim: self.dim, faces, bounds },
            )
        } else {
            (
                RunModel {
                    remaining: (self.remaining - 1) as nat,
                    faces,
                    bounds,
                    phase: PhaseModel::Sampling,
                    ..self
                },
                ActionModel::Sample,
            )
        }
    }

    /// A fresh run over `samples` directions in dimension `dim`, and its
    /// first action.
    pub open spec fn start(dim: nat, samples: nat) -> (RunModel, ActionModel) {
        if samples == 0 {
            (
                RunModel {
                    dim,
                    samples,
                    remaining: 0,
                    faces: Seq::empty(),
                    bounds: Seq::empty(),
                    phase: PhaseModel::Finished,
                },
                ActionModel::Finish { dim, faces: Seq::empty(), bounds: Seq::empty() },
            )
        } else {
            (
                RunModel {
                    dim,
                    samples,
                    remaining: samples,
                    faces: Seq::empty(),
                    bounds: Seq::empty(),
                    phase: PhaseModel::Sampling,
                },
                ActionModel::Sample,
            )
        }
    }

    /// The run after `event`, and the action it answers with.
    ///
    /// While sampling, a candidate of the wrong dimension is refused and the
    /// run stays as it is. A candidate whose direction is the zero vector or
    /// holds a NaN is dropped and uses up its sample. Any other candidate
    /// is put to the redundancy test. When the test's program is solved, the
    /// candidate is dropped where the optimum does not exceed its bound and
    /// kept, behind those kept before, where it does; either way the sample is
    /// used up. A program without an optimum fails the run. An event that
    /// the phase does not expect is refused and the run stays as it is.
    pub open spec fn step(self, event: EventModel) -> (RunModel, ActionModel) {
        match (self.phase, event) {
            (PhaseModel::Sampling, EventModel::Sampled { direction, bound }) => {
                if direction.len() != self.dim {
                    (self, ActionModel::Fail(Error::DimensionMismatch))
                } else if !spec_is_direction(direction) {
                    self.settle(self.faces, self.bounds)
                } else {
                    (
                        RunModel { phase: PhaseModel::Solving { direction, bound }, ..self },
                        ActionModel::Solve(
                            redundancy_program(self.faces, self.bounds, direction, bound),
                        ),
                    )
                }
            },
            (PhaseModel::Solving { direction, bound }, EventModel::Solved(outcome)) => {
                match spec_is_constraint_redundant(outcome, bound) {
                    Ok(redundant) => if redundant {
                        self.settle(self.faces, self.bounds)
                    } else {
                        self.settle(self.faces.push(direction), self.bounds.push(bound))
                    },
                    Err(e) => (
                        RunModel { phase: PhaseModel::Failed, ..self },
                        ActionModel::Fail(e),
                    ),
                }
            },
            _ => (self, ActionModel::Fail(Error::UnexpectedEvent)),
        }
    }
}

enum Phase {
    Sampling,
    Solving(Candidate),
    Finished,
    Failed,
}

/// A run of the overapproximation: the halfspaces kept so far, the number of
/// directions still to be drawn, and what the run waits for.
pub struct Overapproximation {
    dim: usize,
    samples: usize,
    remaining: usize,
    faces: Vec<Vec<Scalar>>,
    bounds: Vec<Scalar>,
    phase: Phase,
}

impl View for Overapproximation {
    type V = RunModel;

    closed spec fn view(&self) -> RunModel {
        RunModel {
            dim: self.dim as nat,
            samples: self.samples as nat,
            remaining: self.remaining as nat,
            faces: rows_model(&self.faces),
            bounds: self.bounds@,
            phase: match self.phase {
                Phase::Sampling => PhaseModel::Sampling,
                Phase::Solving(c) => PhaseModel::Solving { direction: c.direction@, bound: c.bound },
                Phase::Finished => PhaseModel::Finished,
                Phase::Failed => PhaseModel::Failed,
            },
        }
    }
}

impl Overapproximation {
    #[verifier::type_invariant]
    spec fn well_formed(self) -> bool {
        self@.well_formed()
    }

    /// The polytope `{x : faces x <= bounds}` in dimension `dim`.
    fn assemble(faces: &Vec<Vec<Scalar>>, bounds: &Vec<Scalar>, dim: usize) -> (action: Action)
        requires
            shapes_agree(rows_model(faces), bounds@, dim as nat),
        ensures
            action@ == (ActionModel::Finish {
                dim: dim as nat,
                faces: rows_model(faces),
                bounds: bounds@,
            }),
    {
        assert forall|i: int| 0 <= i < faces@.len() implies (#[trigger] faces@[i])@.len() == dim by {
            assert(rows_model(faces)[i].len() == dim);
        }
        // neither construction can fail: every face has `dim` entries and its own bound
        match Matrix::from_rows(faces, dim) {
            Ok(a_transform) => match DHalfspacePolytope::new(a_transform, copy_scalars(bounds)) {
                Ok(polytope) => Action::Finish(polytope),
                Err(e) => Action::Fail(e),
            },
            Err(e) => Action::Fail(e),
        }
    }

    /// The run once a sample is used up, and its next action.
    fn settle(
        dim: usize,
        samples: usize,
        remaining: usize,
        faces: Vec<Vec<Scalar>>,
        bounds: Vec<Scalar>,
    ) -> (r: (Overapproximation, Action))
        requires
            shapes_agree(rows_model(&faces), bounds@, dim as nat),
            remaining > 0,
            faces@.len() + remaining - 1 <= samples,
        ensures
            (r.0@, r.1@) == (RunModel {
                dim: dim as nat,
                samples: samples as nat,
                remaining: remaining as nat,
                faces: rows_model(&faces),
                bounds: bounds@,
                phase: PhaseModel::Sampling,
            }).settle(rows_model(&faces), bounds@),
            r.0@.well_formed(),
    {
        if remaining <= 1 {
            let action = Self::assemble(&faces, &bounds, dim);
            (
                Overapproximation { dim, samples, remaining: 0, faces, bounds, phase: Phase::Finished },
                action,
            )
        } else {
            (
                Overapproximation {
                    dim,
                    samples,
                    remaining: remaining - 1,
                    faces,
                    bounds,
                    phase: Phase::Sampling,
                },
                Action::Sample,
            )
        }
    }

    /// The number of directions still to be drawn.
    pub fn remaining(&self) -> (n: usize)
        ensures
            n == self@.remaining,
    {
        self.remaining
    }

    /// The number of halfspaces kept so far.
    pub fn accepted(&self) -> (n: usize)
        ensures
            n == self@.faces.len(),
            n + self@.remaining <= self@.samples,
    {
        proof {
            use_type_invariant(self);
        }
        self.faces.len()
    }

    /// Begins a run that draws `samples` directions for a set of dimension
    /// `dim`, and says what to do first.
    pub fn start(dim: usize, samples: usize) -> (r: (Overapproximation, Action))
        ensures
            (r.0@, r.1@) == RunModel::start(dim as nat, samples as nat),
            r.0@.well_formed(),
    {
        let faces: Vec<Vec<Scalar>> = Vec::new();
        let bounds: Vec<Scalar> = Vec::new();
        assert(rows_model(&faces) =~= Seq::<Seq<Scalar>>::empty());
        if samples == 0 {
            let action = Self::assemble(&faces, &bounds, dim);
            (
                Overapproximation { dim, samples, remaining: 0, faces, bounds, phase: Phase::Finished },
                action,
            )
        } else {
            (
                Overapproximation {
                    dim,
                    samples,
                    remaining: samples,
                    faces,
                    bounds,
                    phase: Phase::Sampling,
                },
                Action::Sample,
            )
        }
    }

    /// Begins a run that draws [`DEFAULT_SAMPLES`] directions.
    pub fn start_default(dim: usize) -> (r: (Overapproximation, Action))
        ensures
            (r.0@, r.1@) == RunModel::start(dim as nat, DEFAULT_SAMPLES as nat),
            r.0@.well_formed(),
    {
        Self::start(dim, DEFAULT_SAMPLES)
    }

    /// Takes in what happened and answers with the next action, as
    /// [`RunModel::step`] lays down.
    pub fn step(self, event: Event) -> (r: (Overapproximation, Action))
        ensures
            (r.0@, r.1@) == self@.step(event@),
            r.0@.well_formed(),
    {
        proof {
            use_type_invariant(&self);
        }
        let Overapproximation { dim, samples, remaining, faces, bounds, phase } = self;
        match phase {
            Phase::Sampling => match event {
                Event::Sampled(candidate) => {
                    if candidate.direction.len() != dim {
                        (
                            Overapproximation { dim, samples, remaining, faces, bounds, phase: Phase::Sampling },
                            Action::Fail(Error::DimensionMismatch),
                        )
                    } else if !is_direction(&candidate.direction) {
                        Self::settle(dim, samples, remaining, faces, bounds)
                    } else {
                        // the shapes agree, so the program is always built
                        let action = match redundancy_problem(
                            &faces,
                            &bounds,
                            &candidate.direction,
                            candidate.bound,
                        ) {
                            Ok(problem) => Action::Solve(problem),
                            Err(e) => Action::Fail(e),
                        };
                        (
                            Overapproximation {
                                dim,
                                samples,
                                remaining,
                                faces,
                                bounds,
                                phase: Phase::Solving(candidate),
                            },
                            action,
                        )
                    }
                },
                Event::Solved(_) => (
                    Overapproximation { dim, samples, remaining, faces, bounds, phase: Phase::Sampling },
                    Action::Fail(Error::UnexpectedEvent),
                ),
            },
            Phase::Solving(candidate) => match event {
                Event::Solved(outcome) => {
                    match is_constraint_redundant(&outcome, candidate.bound) {
                        Ok(redundant) => {
                            if redundant {
                                Self::settle(dim, samples, remaining, faces, bounds)
                            } else {
                                let mut faces = faces;
                                let mut bounds = bounds;
                                let ghost old_faces = rows_model(&faces);
                                faces.push(candidate.direction);
                                bounds.push(candidate.bound);
                                assert(rows_model(&faces) =~= old_faces.push(candidate.direction@));
                                Self::settle(dim, samples, remaining, faces, bounds)
                            }
                        },
                        Err(e) => (
                            Overapproximation { dim, samples, remaining, faces, bounds, phase: Phase::Failed },
                            Action::Fail(e),
                        ),
                    }
                },
                Event::Sampled(_) => (
                    Overapproximation {
                        dim,
                        samples,
                        remaining,
                        faces,
                        bounds,
                        phase: Phase::Solving(candidate),
                    },
                    Action::Fail(Error::UnexpectedEvent),
                ),
            },
            Phase::Finished => (
                Overapproximation { dim, samples, remaining, faces, bounds, phase: Phase::Finished },
                Action::Fail(Error::UnexpectedEvent),
            ),
            Phase::Failed => (
                Overapproximation { dim, samples, remaining, faces, bounds, phase: Phase::Failed },
                Action::Fail(Error::UnexpectedEvent),
            ),
        }
    }
}

} // verus!
