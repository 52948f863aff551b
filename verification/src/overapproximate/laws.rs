//! What holds of every overapproximation run, whatever is sampled and
//! whatever the solver answers.
use vstd::prelude::*;
use crate::error::LpError;
use crate::overapproximate::ActionModel;
use crate::overapproximate::EventModel;
use crate::overapproximate::PhaseModel;
use crate::overapproximate::RunModel;
use crate::scalar::Scalar;

verus! {

/// The run that has taken in `events`, in order, since it began.
pub open spec fn run(dim: nat, samples: nat, events: Seq<EventModel>) -> RunModel
    decreases events.len(),
{
    if events.len() == 0 {
        RunModel::start(dim, samples).0
    } else {
        run(dim, samples, events.drop_last()).step(events.last()).0
    }
}

/// A fresh run is well formed.
pub proof fn lemma_start_well_formed(dim: nat, samples: nat)
    ensures
        RunModel::start(dim, samples).0.well_formed(),
{
}

/// A step keeps a run well formed, and changes neither its dimension nor
/// the number of directions it draws in all.
pub proof fn lemma_step_well_formed(s: RunModel, event: EventModel)
    requires
        s.well_formed(),
    ensures
        s.step(event).0.well_formed(),
        s.step(event).0.dim == s.dim,
        s.step(event).0.samples == s.samples,
{
}

/// Every run is well formed: the halfspaces it holds have the set's
/// dimension and one bound each, and they are no more than the directions
/// used up, so the polytope never has more constraints than samples.
pub proof fn lemma_run_well_formed(dim: nat, samples: nat, events: Seq<EventModel>)
    ensures
        run(dim, samples, events).well_formed(),
        run(dim, samples, events).dim == dim,
        run(dim, samples, events).samples == samples,
        run(dim, samples, events).faces.len() <= samples,
    decreases events.len(),
{
    if events.len() > 0 {
        lemma_run_well_formed(dim, samples, events.drop_last());
        lemma_step_well_formed(run(dim, samples, events.drop_last()), events.last());
    }
}

/// A candidate that the halfspaces kept so far already imply is dropped: where
/// the optimum of its redundancy test does not exceed its bound, the step
/// leaves the kept halfspaces as they were.
pub proof fn lemma_redundant_candidate_dropped(s: RunModel, objective: Scalar)
    requires
        s.phase is Solving,
        objective.spec_le(s.phase->Solving_bound),
    ensures
        s.step(EventModel::Solved(Ok(objective))).0.faces == s.faces,
        s.step(EventModel::Solved(Ok(objective))).0.bounds == s.bounds,
{
}

/// A candidate is kept exactly when the optimum of its redundancy test
/// exceeds its bound or one of the two is a NaN; it then stands last, with the
/// direction and the bound it was reported with.
pub proof fn lemma_exceeding_candidate_kept(s: RunModel, objective: Scalar)
    requires
        s.phase is Solving,
        !objective.spec_le(s.phase->Solving_bound),
    ensures
        s.step(EventModel::Solved(Ok(objective))).0.faces == s.faces.push(
            s.phase->Solving_direction,
        ),
        s.step(EventModel::Solved(Ok(objective))).0.bounds == s.bounds.push(
            s.phase->Solving_bound,
        ),
{
}

/// A step never removes, reorders or changes a halfspace that was kept: the
/// halfspaces before it are a prefix of those after.
pub proof fn lemma_step_extends(s: RunModel, event: EventModel)
    requires
        s.well_formed(),
    ensures
        s.faces.is_prefix_of(s.step(event).0.faces),
        s.bounds.is_prefix_of(s.step(event).0.bounds),
{
}

/// Every halfspace that a run holds was reported as a candidate, with the
/// very direction and bound it is held with: the polytope's bounds are those
/// computed at the sampled support points.
pub proof fn lemma_kept_were_sampled(dim: nat, samples: nat, events: Seq<EventModel>, i: int)
    requires
        0 <= i < run(dim, samples, events).faces.len(),
    ensures
        exists|k: int|
            0 <= k < events.len() && #[trigger] events[k] == (EventModel::Sampled {
                direction: run(dim, samples, events).faces[i],
                bound: run(dim, samples, events).bounds[i],
            }),
    decreases events.len(),
{
    if events.len() == 0 {
    } else {
        let before = run(dim, samples, events.drop_last());
        let after = run(dim, samples, events);
        lemma_run_well_formed(dim, samples, events.drop_last());
        lemma_run_well_formed(dim, samples, events);
        if i < before.faces.len() {
            lemma_step_extends(before, events.last());
            lemma_kept_were_sampled(dim, samples, events.drop_last(), i);
            let k = choose|k: int|
                0 <= k < events.drop_last().len() && #[trigger] events.drop_last()[k] == (
                EventModel::Sampled { direction: before.faces[i], bound: before.bounds[i] });
            assert(events[k] == events.drop_last()[k]);
        } else {
            assert(before.phase is Solving);
            lemma_pending_was_sampled(dim, samples, events.drop_last());
            let k = choose|k: int|
                0 <= k < events.drop_last().len() && #[trigger] events.drop_last()[k] == (
                EventModel::Sampled {
                    direction: before.phase->Solving_direction,
                    bound: before.phase->Solving_bound,
                });
            assert(events[k] == events.drop_last()[k]);
        }
    }
}

/// The candidate that a run is testing was reported as one.
proof fn lemma_pending_was_sampled(dim: nat, samples: nat, events: Seq<EventModel>)
    requires
        run(dim, samples, events).phase is Solving,
    ensures
        exists|k: int|
            0 <= k < events.len() && #[trigger] events[k] == (EventModel::Sampled {
                direction: run(dim, samples, events).phase->Solving_direction,
                bound: run(dim, samples, events).phase->Solving_bound,
            }),
    decreases events.len(),
{
    if events.len() > 0 {
        let before = run(dim, samples, events.drop_last());
        if before.phase is Solving && !(events.last() is Solved) {
            lemma_pending_was_sampled(dim, samples, events.drop_last());
            let k = choose|k: int|
                0 <= k < events.drop_last().len() && #[trigger] events.drop_last()[k] == (
                EventModel::Sampled {
                    direction: before.phase->Solving_direction,
                    bound: before.phase->Solving_bound,
                });
            assert(events[k] == events.drop_last()[k]);
        } else {
            assert(events[events.len() - 1] == events.last());
        }
    }
}

/// The polytope that a run hands out holds exactly the halfspaces that the
/// run has kept, in the order in which they were kept.
pub proof fn lemma_finish_hands_out_kept(s: RunModel, event: EventModel)
    requires
        s.well_formed(),
        s.step(event).1 is Finish,
    ensures
        s.step(event).1 == (ActionModel::Finish {
            dim: s.dim,
            faces: s.step(event).0.faces,
            bounds: s.step(event).0.bounds,
        }),
        s.step(event).0.phase == PhaseModel::Finished,
{
}

/// A failed or refused step keeps the halfspaces; only a program without an
/// optimum ends the run, with the failure that the solver gave.
pub proof fn lemma_failure_ends_run(s: RunModel, e: LpError)
    requires
        s.phase is Solving,
    ensures
        s.step(EventModel::Solved(Err(e))).0.phase == PhaseModel::Failed,
        s.step(EventModel::Solved(Err(e))).1 == ActionModel::Fail(crate::error::Error::spec_from_lp(e)),
        s.step(EventModel::Solved(Err(e))).0.faces == s.faces,
        s.step(EventModel::Solved(Err(e))).0.bounds == s.bounds,
{
}

/// The work that a run still has before it: two steps for each direction
/// still to be drawn, less one while a candidate is being tested.
pub open spec fn pending_work(s: RunModel) -> nat {
    match s.phase {
        PhaseModel::Sampling => 2 * s.remaining,
        PhaseModel::Solving { .. } => (2 * s.remaining - 1) as nat,
        PhaseModel::Finished => 0,
        PhaseModel::Failed => 0,
    }
}

/// Every step that is not answered with a failure brings the run closer to
/// its end, so a run over `samples` directions takes at most `2 * samples`
/// such steps; and a step that is refused leaves the run exactly as it was.
pub proof fn lemma_step_makes_progress(s: RunModel, event: EventModel)
    requires
        s.well_formed(),
    ensures
        !(s.step(event).1 is Fail) ==> pending_work(s.step(event).0) < pending_work(s),
        s.step(event).1 == ActionModel::Fail(crate::error::Error::UnexpectedEvent)
            || s.step(event).1 == ActionModel::Fail(crate::error::Error::DimensionMismatch)
            ==> s.step(event).0 == s,
        pending_work(RunModel::start(s.dim, s.samples).0) <= 2 * s.samples,
{
}

} // verus!
