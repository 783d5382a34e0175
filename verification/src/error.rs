//! The errors that a computation of the Earth Mover's Distance can end in.

use vstd::prelude::*;

verus! {

/// A failure that the transport solver reports through its status code.
#[derive(Debug, PartialEq, Eq, Structural)]
pub enum FastTransportError {
    /// The transport instance has no feasible flow.
    Infeasible,
    /// The transport instance has unbounded optimal cost.
    Unbounded,
    /// The iteration cap was exhausted before optimality was proved.
    MaxIterReached,
}

impl FastTransportError {
    /// The failure that a status code stands for: `0` is infeasible, `2` is
    /// unbounded, `3` is an exhausted iteration cap. Every other code,
    /// the code `1` of an optimal solution among them, stands for no failure.
    pub open spec fn of_code(code: int) -> Option<FastTransportError> {
        if code == 0 {
            Some(FastTransportError::Infeasible)
        } else if code == 2 {
            Some(FastTransportError::Unbounded)
        } else if code == 3 {
            Some(FastTransportError::MaxIterReached)
        } else {
            None
        }
    }

    /// Turns the status code of a failed solver run into the failure it
    /// stands for. The code of an optimal solution and codes that the solver
    /// never returns are not failures and may not be passed.
    pub fn from(value: i32) -> (err: FastTransportError)
        requires
            FastTransportError::of_code(value as int) is Some,
        ensures
            Some(err) == FastTransportError::of_code(value as int),
    {
        if value == 0 {
            FastTransportError::Infeasible
        } else if value == 2 {
            FastTransportError::Unbounded
        } else {
            FastTransportError::MaxIterReached
        }
    }
}

/// An error that ends a computation of the Earth Mover's Distance.
#[derive(Debug, PartialEq, Eq, Structural)]
pub enum EmdError {
    /// The distributions do not fit the cost matrix. Carries the length of
    /// the source distribution, the length of the target distribution, and
    /// the row and column count of the cost matrix, in this order.
    WeightDimensionError(usize, usize, usize, usize),
    /// The solver ran and reported a failure.
    FastTransportError(FastTransportError),
    /// The iteration cap was zero or negative. Carries the cap.
    InvalidIterations(i32),
}

impl From<FastTransportError> for EmdError {
    fn from(err: FastTransportError) -> (res: EmdError) {
        EmdError::FastTransportError(err)
    }
}

impl vstd::std_specs::convert::FromSpecImpl<FastTransportError> for EmdError {
    open spec fn obeys_from_spec() -> bool {
        true
    }

    open spec fn from_spec(err: FastTransportError) -> EmdError {
        EmdError::FastTransportError(err)
    }
}

} // verus!
