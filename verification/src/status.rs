//! The status that the transport solver ends a run with.

use crate::error::FastTransportError;
use vstd::prelude::*;

verus! {

/// How a run of the transport solver ended.
#[derive(Debug, Clone, Copy, PartialEq, Eq, Structural)]
pub enum SolverStatus {
    /// No feasible flow exists.
    Infeasible,
    /// An optimal flow was found.
    Optimal,
    /// The optimal cost is unbounded.
    Unbounded,
    /// The iteration cap was exhausted before optimality was proved.
    MaxIterationsReached,
}

impl SolverStatus {
    /// The status that a code of the solver stands for. The solver's codes
    /// are `0` to `3`; no other integer is a status.
    pub open spec fn of_code(code: int) -> Option<SolverStatus> {
        if code == 0 {
            Some(SolverStatus::Infeasible)
        } else if code == 1 {
            Some(SolverStatus::Optimal)
        } else if code == 2 {
            Some(SolverStatus::Unbounded)
        } else if code == 3 {
            Some(SolverStatus::MaxIterationsReached)
        } else {
            None
        }
    }

    /// The code that the solver returns for this status.
    pub open spec fn spec_code(self) -> int {
        match self {
            SolverStatus::Infeasible => 0,
            SolverStatus::Optimal => 1,
            SolverStatus::Unbounded => 2,
            SolverStatus::MaxIterationsReached => 3,
        }
    }

    /// The failure that this status reports, or `None` for an optimal run.
    pub open spec fn spec_failure(self) -> Option<FastTransportError> {
        match self {
            SolverStatus::Infeasible => Some(FastTransportError::Infeasible),
            SolverStatus::Optimal => None,
            SolverStatus::Unbounded => Some(FastTransportError::Unbounded),
            SolverStatus::MaxIterationsReached => Some(FastTransportError::MaxIterReached),
        }
    }

    /// Reads a status code of the solver. Returns `None` for an integer that
    /// is none of the solver's codes: such a value breaks the solver's
    /// contract and is not an outcome that a caller can recover from.
    pub fn from_code(code: i32) -> (status: Option<SolverStatus>)
        ensures
            status == SolverStatus::of_code(code as int),
    {
        if code == 0 {
            Some(SolverStatus::Infeasible)
        } else if code == 1 {
            Some(SolverStatus::Optimal)
        } else if code == 2 {
            Some(SolverStatus::Unbounded)
        } else if code == 3 {
            Some(SolverStatus::MaxIterationsReached)
        } else {
            None
        }
    }

    /// The code that the solver returns for this status.
    pub fn code(self) -> (code: i32)
        ensures
            code == self.spec_code(),
    {
        match self {
            SolverStatus::Infeasible => 0,
            SolverStatus::Optimal => 1,
            SolverStatus::Unbounded => 2,
            SolverStatus::MaxIterationsReached => 3,
        }
    }

    /// The failure that this status reports, or `None` for an optimal run.
    pub fn failure(self) -> (failure: Option<FastTransportError>)
        ensures
            failure == self.spec_failure(),
    {
        if self.code() == 1 {
            None
        } else {
            Some(FastTransportError::from(self.code()))
        }
    }

    /// A status and its code determine each other, and the failure that a
    /// status reports is the one that its code stands for.
    pub proof fn lemma_code_agrees(self)
        ensures
            SolverStatus::of_code(self.spec_code()) == Some(self),
            self.spec_failure() == FastTransportError::of_code(self.spec_code()),
            self.spec_failure() is None <==> self == SolverStatus::Optimal,
    {
    }

    /// Every integer that is a status code is the code of the status it
    /// stands for, and lies between `0` and `3`.
    pub proof fn lemma_codes_closed(code: int)
        ensures
            SolverStatus::of_code(code) is Some <==> 0 <= code <= 3,
            SolverStatus::of_code(code) matches Some(status) ==> status.spec_code() == code,
    {
    }
}

} // verus!
