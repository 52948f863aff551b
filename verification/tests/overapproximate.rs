use lazy_reach::convex::DHalfspacePolytope;
use lazy_reach::error::Error;
use lazy_reach::error::LpError;
use lazy_reach::linear_program::LpConstraint;
use lazy_reach::linear_program::LpOutcome;
use lazy_reach::linear_program::LpProblem;
use lazy_reach::linear_program::LpSolution;
use lazy_reach::matrix::Matrix;
use lazy_reach::overapproximate::is_constraint_redundant;
use lazy_reach::overapproximate::redundancy_problem;
use lazy_reach::overapproximate::Action;
use lazy_reach::overapproximate::Candidate;
use lazy_reach::overapproximate::Event;
use lazy_reach::overapproximate::Overapproximation;
use lazy_reach::overapproximate::DEFAULT_SAMPLES;
use lazy_reach::scalar::Scalar;
use lazy_reach::support::SupportResult;
use minilp::ComparisonOp;
use minilp::OptimizationDirection;
use minilp::Problem;
use minilp::Variable;
use nalgebra::DVector;
use rand::rngs::StdRng;
use rand::Rng;
use rand::SeedableRng;

const TOLERANCE: f64 = 1e-7;

fn s(x: f64) -> Scalar {
    Scalar::from_bits(x.to_bits())
}

fn f(x: Scalar) -> f64 {
    f64::from_bits(x.to_bits())
}

fn v(xs: &[f64]) -> Vec<Scalar> {
    xs.iter().map(|x| s(*x)).collect()
}

fn fv(xs: &[Scalar]) -> Vec<f64> {
    xs.iter().map(|x| f(*x)).collect()
}

fn dot(a: &[f64], b: &[f64]) -> f64 {
    DVector::from_column_slice(a).dot(&DVector::from_column_slice(b))
}

fn solve_lp(problem: &LpProblem) -> LpOutcome {
    let mut lp = Problem::new(OptimizationDirection::Maximize);
    let mut vars: Vec<Variable> = Vec::new();
    for c in &problem.objective {
        vars.push(lp.add_var(f(*c), (f64::NEG_INFINITY, f64::INFINITY)));
    }
    for constraint in &problem.constraints {
        let mut row: Vec<(Variable, f64)> = Vec::new();
        for (j, a) in constraint.coefficients.iter().enumerate() {
            row.push((vars[j], f(*a)));
        }
        let rhs = match constraint.slack {
            Some(slack) => f(constraint.bound) + f(slack),
            None => f(constraint.bound),
        };
        lp.add_constraint(row.as_slice(), ComparisonOp::Le, rhs);
    }
    match lp.solve() {
        Ok(solution) => Ok(LpSolution {
            objective: s(solution.objective()),
            values: vars.iter().map(|x| s(solution[*x])).collect(),
        }),
        Err(minilp::Error::Infeasible) => Err(LpError::Infeasible),
        Err(minilp::Error::Unbounded) => Err(LpError::Unbounded),
    }
}

fn draw_direction(rng: &mut StdRng, dim: usize) -> Vec<f64> {
    let mut d = DVector::<f64>::zeros(dim);
    for i in 0..dim {
        d[i] = rng.gen_range(-1.0..1.0);
    }
    d.normalize().iter().cloned().collect()
}

struct Outcome {
    polytope: DHalfspacePolytope,
    sampled: Vec<(Vec<f64>, Vec<f64>)>,
    steps: usize,
}

fn drive(support: &dyn Fn(&[f64]) -> Vec<f64>, dim: usize, samples: usize, seed: u64) -> Outcome {
    let mut rng = StdRng::seed_from_u64(seed);
    let mut sampled = Vec::new();
    let mut steps = 0;
    let (mut run, mut action) = Overapproximation::start(dim, samples);
    loop {
        let event = match action {
            Action::Sample => {
                let direction = draw_direction(&mut rng, dim);
                let witness = support(&direction);
                let bound = dot(&witness, &direction);
                sampled.push((direction.clone(), witness));
                Event::Sampled(Candidate { direction: v(&direction), bound: s(bound) })
            }
            Action::Solve(problem) => Event::Solved(solve_lp(&problem)),
            Action::Finish(polytope) => return Outcome { polytope, sampled, steps },
            Action::Fail(e) => panic!("the run failed: {:?}", e),
        };
        let next = run.step(event);
        steps += 1;
        run = next.0;
        action = next.1;
    }
}

fn rows_of(p: &DHalfspacePolytope) -> Vec<(Vec<f64>, f64)> {
    (0..p.a_transform().nrows())
        .map(|i| (fv(&p.a_transform().row_vec(i)), f(p.upper_bounds()[i])))
        .collect()
}

fn polytope_support(p: &DHalfspacePolytope, direction: &[f64]) -> SupportResult {
    let problem = p.support_problem(&v(direction)).unwrap();
    SupportResult::from_outcome(solve_lp(&problem), direction.len()).unwrap()
}

fn square() -> DHalfspacePolytope {
    let a = Matrix::from_row_major(4, 2, &v(&[1.0, 0.0, -1.0, 0.0, 0.0, 1.0, 0.0, -1.0])).unwrap();
    DHalfspacePolytope::new(a, v(&[1.0, 1.0, 1.0, 1.0])).unwrap()
}

fn disc_support(direction: &[f64]) -> Vec<f64> {
    let d = DVector::from_column_slice(direction).normalize();
    vec![5.0 + 2.0 * d[0], 5.0 + 2.0 * d[1]]
}

#[test]
fn default_sample_count() {
    assert_eq!(DEFAULT_SAMPLES, 600);
    let (run, action) = Overapproximation::start_default(3);
    assert_eq!(action, Action::Sample);
    assert_eq!(run.remaining(), 600);
    assert_eq!(run.accepted(), 0);
}

#[test]
fn no_samples_give_the_whole_space() {
    let (run, action) = Overapproximation::start(3, 0);
    assert_eq!(run.remaining(), 0);
    match action {
        Action::Finish(p) => {
            assert_eq!(p.a_transform().nrows(), 0);
            assert_eq!(p.a_transform().ncols(), 3);
            assert!(p.upper_bounds().is_empty());
        }
        other => panic!("unexpected action {:?}", other),
    }
}

#[test]
fn redundancy_problem_relaxes_only_the_candidate() {
    let faces = vec![v(&[1.0, 0.0]), v(&[0.0, 1.0])];
    let bounds = v(&[2.0, 3.0]);
    let problem = redundancy_problem(&faces, &bounds, &v(&[0.6, 0.8]), s(1.25)).unwrap();
    assert_eq!(
        problem,
        LpProblem {
            objective: v(&[0.6, 0.8]),
            constraints: vec![
                LpConstraint { coefficients: v(&[1.0, 0.0]), bound: s(2.0), slack: None },
                LpConstraint { coefficients: v(&[0.0, 1.0]), bound: s(3.0), slack: None },
                LpConstraint { coefficients: v(&[0.6, 0.8]), bound: s(1.25), slack: Some(s(1.0)) },
            ],
        }
    );
}

fn rotated_square_faces() -> Vec<Vec<Scalar>> {
    vec![v(&[0.6, 0.8]), v(&[-0.8, 0.6]), v(&[-0.6, -0.8]), v(&[0.8, -0.6])]
}

#[test]
fn redundancy_problem_of_the_first_candidate() {
    let problem = redundancy_problem(&vec![], &vec![], &v(&[0.6, 0.8]), s(4.0)).unwrap();
    assert_eq!(
        problem,
        LpProblem {
            objective: v(&[0.6, 0.8]),
            constraints: vec![LpConstraint {
                coefficients: v(&[0.6, 0.8]),
                bound: s(4.0),
                slack: Some(s(1.0)),
            }],
        }
    );
}

#[test]
fn redundancy_optimum_is_capped_one_above_the_bound() {
    let faces = rotated_square_faces();
    let bounds = v(&[1.0, 1.0, 1.0, 1.0]);
    let optimum = |bound: f64| -> f64 {
        let problem = redundancy_problem(&faces, &bounds, &v(&[0.6, 0.8]), s(bound)).unwrap();
        f(solve_lp(&problem).unwrap().objective)
    };
    assert!((optimum(0.5) - 1.0).abs() < TOLERANCE);
    assert!((optimum(1.25) - 1.0).abs() < TOLERANCE);
    assert!((optimum(-0.5) - 0.5).abs() < TOLERANCE);
}

#[test]
fn redundancy_problem_refuses_mismatched_shapes() {
    let faces = vec![v(&[1.0, 0.0]), v(&[0.0, 1.0])];
    assert_eq!(
        redundancy_problem(&faces, &v(&[2.0]), &v(&[0.6, 0.8]), s(1.0)),
        Err(Error::DimensionMismatch)
    );
    assert_eq!(
        redundancy_problem(&faces, &v(&[2.0, 3.0]), &v(&[0.6, 0.8, 0.0]), s(1.0)),
        Err(Error::DimensionMismatch)
    );
    let ragged = vec![v(&[1.0, 0.0]), v(&[1.0])];
    assert_eq!(
        redundancy_problem(&ragged, &v(&[2.0, 3.0]), &v(&[0.6, 0.8]), s(1.0)),
        Err(Error::DimensionMismatch)
    );
}

#[test]
fn redundant_means_optimum_not_above_bound() {
    let solved = |x: f64| -> LpOutcome { Ok(LpSolution { objective: s(x), values: vec![] }) };
    assert_eq!(is_constraint_redundant(&solved(1.0), s(1.0)), Ok(true));
    assert_eq!(is_constraint_redundant(&solved(0.5), s(1.0)), Ok(true));
    assert_eq!(is_constraint_redundant(&solved(1.0 + f64::EPSILON), s(1.0)), Ok(false));
    assert_eq!(is_constraint_redundant(&solved(-0.0), s(0.0)), Ok(true));
    assert_eq!(is_constraint_redundant(&solved(f64::NAN), s(1.0)), Ok(false));
    assert_eq!(is_constraint_redundant(&solved(1.0), s(f64::NAN)), Ok(false));
    assert_eq!(is_constraint_redundant(&Err(LpError::Infeasible), s(1.0)), Err(Error::Infeasible));
    assert_eq!(is_constraint_redundant(&Err(LpError::Unbounded), s(1.0)), Err(Error::Unbounded));
}

#[test]
fn implied_candidate_is_discarded() {
    let (mut run, _) = Overapproximation::start(2, 7);
    for face in rotated_square_faces() {
        let (next, action) = run.step(Event::Sampled(Candidate { direction: face, bound: s(1.0) }));
        let problem = match action {
            Action::Solve(p) => p,
            other => panic!("unexpected action {:?}", other),
        };
        let (next, action) = next.step(Event::Solved(solve_lp(&problem)));
        assert_eq!(action, Action::Sample);
        run = next;
    }
    assert_eq!(run.accepted(), 4);
    assert_eq!(run.remaining(), 3);
    // a halfspace that the square implies, in a direction already kept
    let weaker = Candidate { direction: v(&[0.6, 0.8]), bound: s(1.25) };
    let (run, action) = run.step(Event::Sampled(weaker));
    let problem = match action {
        Action::Solve(p) => p,
        other => panic!("unexpected action {:?}", other),
    };
    let (run, action) = run.step(Event::Solved(solve_lp(&problem)));
    assert_eq!(action, Action::Sample);
    assert_eq!(run.accepted(), 4);
    assert_eq!(run.remaining(), 2);
    // a halfspace that the square implies, in a new direction
    let diagonal = (0.5f64).sqrt();
    let implied = Candidate { direction: v(&[diagonal, diagonal]), bound: s(1.5) };
    let (run, action) = run.step(Event::Sampled(implied));
    let problem = match action {
        Action::Solve(p) => p,
        other => panic!("unexpected action {:?}", other),
    };
    let (run, action) = run.step(Event::Solved(solve_lp(&problem)));
    assert_eq!(action, Action::Sample);
    assert_eq!(run.accepted(), 4);
    assert_eq!(run.remaining(), 1);
    // a halfspace that cuts a corner off
    let cutting = Candidate { direction: v(&[diagonal, diagonal]), bound: s(1.0) };
    let (run, action) = run.step(Event::Sampled(cutting));
    let problem = match action {
        Action::Solve(p) => p,
        other => panic!("unexpected action {:?}", other),
    };
    let (run, action) = run.step(Event::Solved(solve_lp(&problem)));
    assert_eq!(run.accepted(), 5);
    assert_eq!(run.remaining(), 0);
    match action {
        Action::Finish(p) => {
            let rows = rows_of(&p);
            assert_eq!(rows.len(), 5);
            assert_eq!(rows[0], (vec![0.6, 0.8], 1.0));
            assert_eq!(rows[3], (vec![0.8, -0.6], 1.0));
            assert_eq!(rows[4], (vec![diagonal, diagonal], 1.0));
        }
        other => panic!("unexpected action {:?}", other),
    }
}

#[test]
fn tighter_candidate_is_kept_behind_the_others() {
    let (run, _) = Overapproximation::start(1, 2);
    let (run, _) = run.step(Event::Sampled(Candidate { direction: v(&[1.0]), bound: s(2.0) }));
    let (run, _) = run.step(Event::Solved(Ok(LpSolution { objective: s(3.0), values: v(&[3.0]) })));
    let (run, action) =
        run.step(Event::Sampled(Candidate { direction: v(&[1.0]), bound: s(1.0) }));
    let problem = match action {
        Action::Solve(p) => p,
        other => panic!("unexpected action {:?}", other),
    };
    let outcome = solve_lp(&problem);
    assert!((f(outcome.as_ref().unwrap().objective) - 2.0).abs() < TOLERANCE);
    let (_, action) = run.step(Event::Solved(outcome));
    match action {
        Action::Finish(p) => {
            assert_eq!(rows_of(&p), vec![(vec![1.0], 2.0), (vec![1.0], 1.0)]);
            assert_eq!(p.a_transform().column_major(), &v(&[1.0, 1.0]));
        }
        other => panic!("unexpected action {:?}", other),
    }
}

#[test]
fn polytope_is_laid_out_column_by_column() {
    let (run, _) = Overapproximation::start(3, 2);
    let above = || -> LpOutcome { Ok(LpSolution { objective: s(100.0), values: vec![] }) };
    let (run, _) =
        run.step(Event::Sampled(Candidate { direction: v(&[1.0, 2.0, 3.0]), bound: s(7.0) }));
    let (run, _) = run.step(Event::Solved(above()));
    let (run, _) =
        run.step(Event::Sampled(Candidate { direction: v(&[4.0, 5.0, 6.0]), bound: s(8.0) }));
    let (_, action) = run.step(Event::Solved(above()));
    match action {
        Action::Finish(p) => {
            assert_eq!(p.a_transform().nrows(), 2);
            assert_eq!(p.a_transform().ncols(), 3);
            assert_eq!(p.a_transform().column_major(), &v(&[1.0, 4.0, 2.0, 5.0, 3.0, 6.0]));
            assert_eq!(p.upper_bounds(), &v(&[7.0, 8.0]));
        }
        other => panic!("unexpected action {:?}", other),
    }
}

#[test]
fn zero_direction_uses_up_its_sample() {
    let (run, _) = Overapproximation::start(2, 2);
    let (run, action) =
        run.step(Event::Sampled(Candidate { direction: v(&[0.0, -0.0]), bound: s(0.0) }));
    assert_eq!(action, Action::Sample);
    assert_eq!(run.remaining(), 1);
    assert_eq!(run.accepted(), 0);
    let (run, action) = run
        .step(Event::Sampled(Candidate { direction: v(&[f64::NAN, f64::NAN]), bound: s(0.0) }));
    assert_eq!(run.remaining(), 0);
    match action {
        Action::Finish(p) => assert_eq!(p.a_transform().nrows(), 0),
        other => panic!("unexpected action {:?}", other),
    }
}

#[test]
fn candidate_of_another_dimension_is_refused() {
    let (run, _) = Overapproximation::start(2, 1);
    let (run, action) =
        run.step(Event::Sampled(Candidate { direction: v(&[1.0, 0.0, 0.0]), bound: s(0.0) }));
    assert_eq!(action, Action::Fail(Error::DimensionMismatch));
    assert_eq!(run.remaining(), 1);
    let (_, action) =
        run.step(Event::Sampled(Candidate { direction: v(&[1.0, 0.0]), bound: s(0.0) }));
    assert!(matches!(action, Action::Solve(_)));
}

#[test]
fn events_out_of_turn_are_refused() {
    let solved = || Event::Solved(Ok(LpSolution { objective: s(9.0), values: vec![] }));
    let sampled = || Event::Sampled(Candidate { direction: v(&[1.0]), bound: s(0.0) });
    let (run, _) = Overapproximation::start(1, 1);
    let (run, action) = run.step(solved());
    assert_eq!(action, Action::Fail(Error::UnexpectedEvent));
    let (run, action) = run.step(sampled());
    assert!(matches!(action, Action::Solve(_)));
    let (run, action) = run.step(sampled());
    assert_eq!(action, Action::Fail(Error::UnexpectedEvent));
    let (run, action) = run.step(solved());
    assert!(matches!(action, Action::Finish(_)));
    assert_eq!(run.accepted(), 1);
    let (run, action) = run.step(sampled());
    assert_eq!(action, Action::Fail(Error::UnexpectedEvent));
    let (_, action) = run.step(solved());
    assert_eq!(action, Action::Fail(Error::UnexpectedEvent));
}

#[test]
fn unsolvable_program_fails_the_run() {
    for (failure, error) in
        [(LpError::Infeasible, Error::Infeasible), (LpError::Unbounded, Error::Unbounded)]
    {
        let (run, _) = Overapproximation::start(1, 5);
        let (run, _) =
            run.step(Event::Sampled(Candidate { direction: v(&[1.0]), bound: s(0.0) }));
        let (run, action) = run.step(Event::Solved(Err(failure)));
        assert_eq!(action, Action::Fail(error));
        assert_eq!(run.accepted(), 0);
        let (_, action) =
            run.step(Event::Sampled(Candidate { direction: v(&[1.0]), bound: s(0.0) }));
        assert_eq!(action, Action::Fail(Error::UnexpectedEvent));
    }
}

#[test]
fn output_has_one_bound_per_row_and_no_more_rows_than_samples() {
    for samples in [1usize, 2, 7, 40] {
        let out = drive(&disc_support, 2, samples, 11);
        let p = &out.polytope;
        assert_eq!(out.sampled.len(), samples);
        assert_eq!(out.steps, 2 * samples);
        assert!(p.a_transform().nrows() <= samples);
        assert_eq!(p.a_transform().nrows(), p.upper_bounds().len());
        assert_eq!(p.a_transform().ncols(), 2);
    }
}

#[test]
fn every_witness_lies_in_the_polytope() {
    let out = drive(&disc_support, 2, 80, 3);
    let rows = rows_of(&out.polytope);
    assert!(!rows.is_empty());
    for (_, witness) in &out.sampled {
        for (face, bound) in &rows {
            assert!(dot(face, witness) <= bound + TOLERANCE);
        }
    }
}

#[test]
fn kept_halfspaces_were_sampled() {
    let out = drive(&disc_support, 2, 60, 5);
    for (face, bound) in rows_of(&out.polytope) {
        assert!(out
            .sampled
            .iter()
            .any(|(d, w)| *d == face && dot(w, d).to_bits() == bound.to_bits()));
    }
}

#[test]
fn singleton_at_the_origin_gives_tight_halfspaces() {
    for samples in [1usize, 5, 50] {
        let out = drive(&|_d: &[f64]| vec![0.0, 0.0], 2, samples, 17);
        let rows = rows_of(&out.polytope);
        assert!(!rows.is_empty());
        for (face, bound) in rows {
            assert_eq!(bound, dot(&face, &[0.0, 0.0]));
            assert_eq!(bound, 0.0);
        }
    }
}

#[test]
fn singleton_elsewhere_gives_tight_halfspaces() {
    let point = [1.5, -2.0, 0.25];
    let out = drive(&|_d: &[f64]| point.to_vec(), 3, 40, 23);
    for (face, bound) in rows_of(&out.polytope) {
        assert_eq!(bound, dot(&point, &face));
    }
}

#[test]
fn square_plus_square_is_contained_without_overshoot() {
    let sq = square();
    let sum_support = |d: &[f64]| -> Vec<f64> {
        let a = polytope_support(&sq, d);
        let b = polytope_support(&sq, d);
        fv(&a.point).iter().zip(fv(&b.point)).map(|(x, y)| x + y).collect()
    };
    let out = drive(&sum_support, 2, 60, 29);
    let rows = rows_of(&out.polytope);
    assert!(!rows.is_empty());
    for (face, bound) in &rows {
        for corner in [[2.0, 2.0], [2.0, -2.0], [-2.0, 2.0], [-2.0, -2.0]] {
            assert!(dot(face, &corner) <= bound + TOLERANCE);
        }
        let single = f(polytope_support(&sq, face).value);
        assert!(*bound <= 2.0 * single + TOLERANCE);
    }
}

#[test]
fn overapproximating_the_output_reproduces_it() {
    let first = drive(&|d: &[f64]| fv(&polytope_support(&square(), d).point), 2, 40, 31).polytope;
    let again = drive(&|d: &[f64]| fv(&polytope_support(&first, d).point), 2, 150, 37).polytope;
    let mut rng = StdRng::seed_from_u64(41);
    for _ in 0..40 {
        let d = draw_direction(&mut rng, 2);
        let h_first = f(polytope_support(&first, &d).value);
        let h_again = f(polytope_support(&again, &d).value);
        assert!(h_again >= h_first - TOLERANCE);
        assert!(h_again <= h_first + 0.05);
    }
}

#[test]
fn no_row_is_kept_twice() {
    let out = drive(&|d: &[f64]| fv(&polytope_support(&square(), d).point), 2, 60, 43);
    let rows = rows_of(&out.polytope);
    for i in 0..rows.len() {
        for j in 0..i {
            assert!(rows[i] != rows[j]);
        }
    }
}

