//! Each stage on its own, on its edge cases.

use just_emd::{
    check_emd_input_shapes, check_emd_inputs, check_iterations, classify, EmdError, EmdResult,
    EmdSolver, FastTransportError, SolverCall, SolverStatus, DEFAULT_ITERATIONS,
};

#[test]
fn iterations_must_be_positive() {
    assert_eq!(check_iterations(1), Ok(()));
    assert_eq!(check_iterations(100000), Ok(()));
    assert_eq!(check_iterations(i32::MAX), Ok(()));
    assert_eq!(check_iterations(0), Err(EmdError::InvalidIterations(0)));
    assert_eq!(check_iterations(-1), Err(EmdError::InvalidIterations(-1)));
    assert_eq!(check_iterations(i32::MIN), Err(EmdError::InvalidIterations(i32::MIN)));
}

#[test]
fn shapes_match_rows_to_source_and_columns_to_target() {
    assert_eq!(check_emd_input_shapes(2, 2, 2, 2), Ok(()));
    assert_eq!(check_emd_input_shapes(3, 2, 3, 2), Ok(()));
    assert_eq!(check_emd_input_shapes(0, 0, 0, 0), Ok(()));
    assert_eq!(
        check_emd_input_shapes(3, 2, 2, 3),
        Err(EmdError::WeightDimensionError(3, 2, 2, 3))
    );
}

#[test]
fn one_wrong_dimension_is_enough() {
    assert_eq!(
        check_emd_input_shapes(3, 2, 4, 2),
        Err(EmdError::WeightDimensionError(3, 2, 4, 2))
    );
    assert_eq!(
        check_emd_input_shapes(3, 2, 3, 1),
        Err(EmdError::WeightDimensionError(3, 2, 3, 1))
    );
    assert_eq!(
        check_emd_input_shapes(0, 1, 0, 0),
        Err(EmdError::WeightDimensionError(0, 1, 0, 0))
    );
}

#[test]
fn iteration_guard_comes_before_the_shape_check() {
    assert_eq!(check_emd_inputs(3, 1, 1, 3, 0), Err(EmdError::InvalidIterations(0)));
    assert_eq!(check_emd_inputs(3, 1, 1, 3, -5), Err(EmdError::InvalidIterations(-5)));
    assert_eq!(check_emd_inputs(2, 2, 2, 2, 0), Err(EmdError::InvalidIterations(0)));
    assert_eq!(check_emd_inputs(3, 1, 1, 3, 1), Err(EmdError::WeightDimensionError(3, 1, 1, 3)));
    assert_eq!(check_emd_inputs(2, 2, 2, 2, 1), Ok(()));
}

#[test]
fn status_codes_are_zero_to_three() {
    assert_eq!(SolverStatus::from_code(0), Some(SolverStatus::Infeasible));
    assert_eq!(SolverStatus::from_code(1), Some(SolverStatus::Optimal));
    assert_eq!(SolverStatus::from_code(2), Some(SolverStatus::Unbounded));
    assert_eq!(SolverStatus::from_code(3), Some(SolverStatus::MaxIterationsReached));
    assert_eq!(SolverStatus::from_code(4), None);
    assert_eq!(SolverStatus::from_code(-1), None);
    assert_eq!(SolverStatus::from_code(i32::MAX), None);
    assert_eq!(SolverStatus::from_code(i32::MIN), None);
}

#[test]
fn status_and_code_determine_each_other() {
    for code in 0..4 {
        let status = SolverStatus::from_code(code).unwrap();
        assert_eq!(status.code(), code);
    }
    assert_eq!(SolverStatus::Infeasible.code(), 0);
    assert_eq!(SolverStatus::Optimal.code(), 1);
    assert_eq!(SolverStatus::Unbounded.code(), 2);
    assert_eq!(SolverStatus::MaxIterationsReached.code(), 3);
}

#[test]
fn only_an_optimal_run_reports_no_failure() {
    assert_eq!(SolverStatus::Optimal.failure(), None);
    assert_eq!(SolverStatus::Infeasible.failure(), Some(FastTransportError::Infeasible));
    assert_eq!(SolverStatus::Unbounded.failure(), Some(FastTransportError::Unbounded));
    assert_eq!(
        SolverStatus::MaxIterationsReached.failure(),
        Some(FastTransportError::MaxIterReached)
    );
}

#[test]
fn failure_codes_give_their_errors() {
    assert_eq!(FastTransportError::from(0), FastTransportError::Infeasible);
    assert_eq!(FastTransportError::from(2), FastTransportError::Unbounded);
    assert_eq!(FastTransportError::from(3), FastTransportError::MaxIterReached);
}

#[test]
fn solver_failure_becomes_an_emd_error() {
    assert_eq!(
        EmdError::from(FastTransportError::Infeasible),
        EmdError::FastTransportError(FastTransportError::Infeasible)
    );
    let err: EmdError = FastTransportError::MaxIterReached.into();
    assert_eq!(err, EmdError::FastTransportError(FastTransportError::MaxIterReached));
}

#[test]
fn optimal_run_yields_flow_and_cost_unchanged() {
    let flow = vec![0.25, 0.0, 0.0, 0.75];
    let res = classify(SolverStatus::Optimal, flow.clone(), 1.5);
    assert_eq!(res, Ok(EmdResult { flow_matrix: flow, emd: 1.5 }));
}

#[test]
fn failed_run_yields_no_result() {
    let flow = vec![0.25, 0.0, 0.0, 0.75];
    assert_eq!(
        classify(SolverStatus::Infeasible, flow.clone(), 1.5),
        Err(EmdError::FastTransportError(FastTransportError::Infeasible))
    );
    assert_eq!(
        classify(SolverStatus::Unbounded, flow.clone(), 1.5),
        Err(EmdError::FastTransportError(FastTransportError::Unbounded))
    );
    assert_eq!(
        classify(SolverStatus::MaxIterationsReached, flow, 1.5),
        Err(EmdError::FastTransportError(FastTransportError::MaxIterReached))
    );
}

#[test]
fn test_c_wrapper() {
    let a = vec![0.5, 0.5];
    let b = vec![0.5, 0.5];

    let costs = vec![vec![0.0, 1.0], vec![1.0, 0.0]];

    let call = SolverCall::plan(a.len(), b.len(), costs.len(), costs[0].len(), 10000).unwrap();
    assert_eq!(
        call,
        SolverCall {
            n_1: 2,
            n_2: 2,
            flow_len: 4,
            uniform_source: false,
            uniform_target: false,
            max_iter: 10000,
        }
    );
}

#[test]
fn layout_has_the_dimensions_of_the_cost_matrix() {
    let call = SolverCall::plan(3, 2, 3, 2, 1).unwrap();
    assert_eq!(call.n_1, 3);
    assert_eq!(call.n_2, 2);
    assert_eq!(call.flow_len, 6);
    assert_eq!(call.max_iter, 1);
    assert!(!call.uniform_source);
    assert!(!call.uniform_target);
}

#[test]
fn empty_weights_stand_for_a_uniform_distribution() {
    let call = SolverCall::plan(0, 2, 3, 2, 10).unwrap();
    assert!(call.uniform_source);
    assert!(!call.uniform_target);
    assert_eq!((call.n_1, call.n_2, call.flow_len), (3, 2, 6));

    let call = SolverCall::plan(3, 0, 3, 2, 10).unwrap();
    assert!(!call.uniform_source);
    assert!(call.uniform_target);

    let call = SolverCall::plan(0, 0, 0, 0, 10).unwrap();
    assert!(call.uniform_source);
    assert!(call.uniform_target);
    assert_eq!((call.n_1, call.n_2, call.flow_len), (0, 0, 0));
}

#[test]
fn weights_of_another_length_cannot_be_handed_over() {
    assert_eq!(SolverCall::plan(2, 2, 3, 2, 10), None);
    assert_eq!(SolverCall::plan(3, 3, 3, 2, 10), None);
    assert_eq!(SolverCall::plan(3, 1, 1, 3, 10), None);
}

#[test]
fn dimensions_must_fit_the_solvers_integers() {
    let most = i32::MAX as usize;
    assert_eq!(
        SolverCall::plan(most, 1, most, 1, 5),
        Some(SolverCall {
            n_1: i32::MAX,
            n_2: 1,
            flow_len: most,
            uniform_source: false,
            uniform_target: false,
            max_iter: 5,
        })
    );
    assert_eq!(SolverCall::plan(most + 1, 0, most + 1, 0, 5), None);
    assert_eq!(SolverCall::plan(0, most + 1, 0, most + 1, 5), None);
    assert_eq!(SolverCall::plan(0, 0, usize::MAX, 2, 5), None);
}

#[test]
fn layout_passes_the_cap_through_unchecked() {
    assert_eq!(SolverCall::plan(1, 1, 1, 1, 0).map(|call| call.max_iter), Some(0));
    assert_eq!(SolverCall::plan(1, 1, 1, 1, -3).map(|call| call.max_iter), Some(-3));
}

#[test]
fn builder_starts_with_the_default_cap() {
    assert_eq!(DEFAULT_ITERATIONS, 100000);
    let (source, target, costs, iterations) = EmdSolver::new("a", "b", "c").into_parts();
    assert_eq!((source, target, costs), ("a", "b", "c"));
    assert_eq!(iterations, 100000);
}

#[test]
fn builder_keeps_the_last_cap_it_was_given() {
    let solver = EmdSolver::new(vec![1u8], vec![2u8], vec![vec![3u8]]);
    let (source, target, costs, iterations) = solver.iterations(5).iterations(-2).into_parts();
    assert_eq!(source, vec![1u8]);
    assert_eq!(target, vec![2u8]);
    assert_eq!(costs, vec![vec![3u8]]);
    assert_eq!(iterations, -2);
}

#[test]
fn builder_holds_exclusive_borrows() {
    let mut a = vec![0.5, 0.5];
    let mut b = vec![0.5, 0.5];
    let mut costs = vec![vec![0.0, 1.0], vec![1.0, 0.0]];

    let solver = EmdSolver::new(&mut a, &mut b, &mut costs).iterations(1000);
    let (source, target, costs, iterations) = solver.into_parts();
    target[0] = 0.75;
    assert_eq!((source.len(), target.len(), costs.len()), (2, 2, 2));
    assert_eq!(iterations, 1000);
    assert_eq!(b[0], 0.75);
}
