//! The checks that a problem has to pass before any numeric work is done on
//! it: the iteration cap must be positive, and the two distributions must fit
//! the cost matrix.

use crate::error::EmdError;
use vstd::prelude::*;

verus! {

/// The verdict of a check that failed with `err`.
pub open spec fn err_of(err: EmdError) -> Result<(), EmdError> {
    Err(err)
}

/// What the check of an iteration cap yields: a cap of zero or less is the
/// error that carries it, every positive cap passes.
pub open spec fn iterations_check(iterations: i32) -> Result<(), EmdError> {
    if iterations <= 0 {
        err_of(EmdError::InvalidIterations(iterations))
    } else {
        Ok(())
    }
}

/// What the check of the shapes yields. A source distribution of `a_dim`
/// items and a target distribution of `b_dim` items fit a cost matrix of
/// `costs_dim_1` rows and `costs_dim_2` columns when the rows match the
/// source and the columns match the target. Otherwise the error carries all
/// four numbers.
pub open spec fn shape_check(
    a_dim: usize,
    b_dim: usize,
    costs_dim_1: usize,
    costs_dim_2: usize,
) -> Result<(), EmdError> {
    if costs_dim_1 != a_dim || costs_dim_2 != b_dim {
        err_of(EmdError::WeightDimensionError(a_dim, b_dim, costs_dim_1, costs_dim_2))
    } else {
        Ok(())
    }
}

/// What the checks of a whole problem yield: the check of the iteration cap
/// comes first, and only a problem with a positive cap has its shapes
/// looked at.
pub open spec fn inputs_check(
    a_dim: usize,
    b_dim: usize,
    costs_dim_1: usize,
    costs_dim_2: usize,
    iterations: i32,
) -> Result<(), EmdError> {
    match iterations_check(iterations) {
        Err(err) => Err(err),
        Ok(()) => shape_check(a_dim, b_dim, costs_dim_1, costs_dim_2),
    }
}

/// Checks that the iteration cap is positive.
pub fn check_iterations(iterations: i32) -> (res: Result<(), EmdError>)
    ensures
        res == iterations_check(iterations),
        res is Ok <==> iterations > 0,
{
    if iterations <= 0 {
        Err(EmdError::InvalidIterations(iterations))
    } else {
        Ok(())
    }
}

/// Checks that the dimensions of both distributions match the dimensions of
/// the cost matrix: `a_dim`, the length of the source distribution, against
/// the number of rows `costs_dim_1`, and `b_dim`, the length of the target
/// distribution, against the number of columns `costs_dim_2`.
pub fn check_emd_input_shapes(
    a_dim: usize,
    b_dim: usize,
    costs_dim_1: usize,
    costs_dim_2: usize,
) -> (res: Result<(), EmdError>)
    ensures
        res == shape_check(a_dim, b_dim, costs_dim_1, costs_dim_2),
        res is Ok <==> costs_dim_1 == a_dim && costs_dim_2 == b_dim,
{
    if costs_dim_1 != a_dim || costs_dim_2 != b_dim {
        Err(EmdError::WeightDimensionError(a_dim, b_dim, costs_dim_1, costs_dim_2))
    } else {
        Ok(())
    }
}

/// Runs every check that comes before the solver: first the iteration cap,
/// then the shapes. A problem that fails here is never handed to the solver.
pub fn check_emd_inputs(
    a_dim: usize,
    b_dim: usize,
    costs_dim_1: usize,
    costs_dim_2: usize,
    iterations: i32,
) -> (res: Result<(), EmdError>)
    ensures
        res == inputs_check(a_dim, b_dim, costs_dim_1, costs_dim_2, iterations),
        iterations <= 0 ==> res == err_of(EmdError::InvalidIterations(iterations)),
        iterations > 0 && (costs_dim_1 != a_dim || costs_dim_2 != b_dim) ==> res == err_of(
            EmdError::WeightDimensionError(a_dim, b_dim, costs_dim_1, costs_dim_2),
        ),
        res is Ok <==> iterations > 0 && costs_dim_1 == a_dim && costs_dim_2 == b_dim,
{
    match check_iterations(iterations) {
        Err(err) => Err(err),
        Ok(()) => check_emd_input_shapes(a_dim, b_dim, costs_dim_1, costs_dim_2),
    }
}

/// The checks are deterministic: two runs on the same shapes and the same
/// cap end in the same verdict.
pub proof fn lemma_checks_deterministic(
    a_dim: usize,
    b_dim: usize,
    costs_dim_1: usize,
    costs_dim_2: usize,
    iterations: i32,
    first: Result<(), EmdError>,
    second: Result<(), EmdError>,
)
    requires
        call_ensures(
            check_emd_inputs,
            (a_dim, b_dim, costs_dim_1, costs_dim_2, iterations),
            first,
        ),
        call_ensures(
            check_emd_inputs,
            (a_dim, b_dim, costs_dim_1, costs_dim_2, iterations),
            second,
        ),
    ensures
        first == second,
{
}

} // verus!
