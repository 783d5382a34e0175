//! The result of a computation, the classification of the solver's outcome,
//! and the builder that a computation is configured with.
//!
//! The numeric data of a problem is never looked into here, so the types are
//! generic in it: a builder carries whatever handles to the source weights,
//! the target weights and the cost matrix its user has, and a result carries
//! the flow matrix and the total cost as the solver produced them.

use crate::error::EmdError;
use crate::status::SolverStatus;
use vstd::prelude::*;

verus! {

/// The iteration cap of a builder that was given none.
pub const DEFAULT_ITERATIONS: i32 = 100000;

/// The result of a successful computation.
#[derive(Debug, Clone, PartialEq)]
pub struct EmdResult<M, T> {
    /// The optimal transport plan: entry `(i, j)` is the mass moved from
    /// source item `i` to target item `j`.
    pub flow_matrix: M,
    /// The Earth Mover's Distance: the total cost of the optimal plan.
    pub emd: T,
}

/// What a run of the solver that ended with `status` means for the caller.
/// An optimal run yields the result, made of the flow matrix and the total
/// cost that the solver produced. Every other status yields the error of the
/// failure it reports, and nothing of the solver's output.
pub open spec fn outcome<M, T>(status: SolverStatus, flow_matrix: M, emd: T) -> Result<
    EmdResult<M, T>,
    EmdError,
> {
    match status.spec_failure() {
        None => Ok(EmdResult { flow_matrix, emd }),
        Some(failure) => Err(EmdError::FastTransportError(failure)),
    }
}

/// Classifies the outcome of one run of the solver, which ended with
/// `status` and left `flow_matrix` and the total cost `emd` in its output
/// buffers.
pub fn classify<M, T>(status: SolverStatus, flow_matrix: M, emd: T) -> (res: Result<
    EmdResult<M, T>,
    EmdError,
>)
    ensures
        res == outcome(status, flow_matrix, emd),
        res is Ok <==> status == SolverStatus::Optimal,
{
    match status.failure() {
        None => Ok(EmdResult { flow_matrix, emd }),
        Some(failure) => Err(EmdError::from(failure)),
    }
}

/// The classification is deterministic: for the same status, the same flow
/// matrix and the same total cost, two runs give the same result, down to
/// every entry of the flow matrix and to the cost itself.
pub proof fn lemma_classify_deterministic<M, T>(
    status: SolverStatus,
    flow_matrix: M,
    emd: T,
    first: Result<EmdResult<M, T>, EmdError>,
    second: Result<EmdResult<M, T>, EmdError>,
)
    requires
        call_ensures(classify::<M, T>, (status, flow_matrix, emd), first),
        call_ensures(classify::<M, T>, (status, flow_matrix, emd), second),
    ensures
        first == second,
        first matches Ok(result) ==> result.flow_matrix == flow_matrix && result.emd == emd,
{
}

/// A builder for one computation: exclusive handles to the source weights,
/// the target weights and the cost matrix, and the iteration cap.
pub struct EmdSolver<S, T, C> {
    source: S,
    target: T,
    costs: C,
    iterations: i32,
}

impl<S, T, C> EmdSolver<S, T, C> {
    /// What the builder holds: the source weights, the target weights, the
    /// cost matrix and the iteration cap.
    pub closed spec fn parts(self) -> (S, T, C, i32) {
        (self.source, self.target, self.costs, self.iterations)
    }

    /// Creates a builder over the three inputs, with the default cap of
    /// 100000 iterations.
    pub fn new(source: S, target: T, costs: C) -> (solver: Self)
        ensures
            solver.parts() == (source, target, costs, DEFAULT_ITERATIONS),
    {
        EmdSolver { source, target, costs, iterations: DEFAULT_ITERATIONS }
    }

    /// Sets the iteration cap. The cap is not checked here: a cap of zero or
    /// less is rejected when the computation starts.
    pub fn iterations(self, iterations: i32) -> (solver: Self)
        ensures
            solver.parts() == (self.parts().0, self.parts().1, self.parts().2, iterations),
    {
        let mut solver = self;
        solver.iterations = iterations;
        solver
    }

    /// Gives up the builder for what it holds, so that nothing else can
    /// reach the inputs while they are computed on.
    pub fn into_parts(self) -> (parts: (S, T, C, i32))
        ensures
            parts == self.parts(),
    {
        (self.source, self.target, self.costs, self.iterations)
    }
}

} // verus!
