//! Validation, call layout and result classification for computing the Earth
//! Mover's Distance with a network-simplex transport solver.
//!
//! The solver itself is a native numerical routine that lives outside this
//! crate. What is verified here is everything that is decided around it:
//! whether a problem may be handed to the solver at all, which buffer sizes
//! and dimensions the call is made with, and what the solver's status code
//! means for the caller.

pub mod adapter;
pub mod error;
pub mod solver;
pub mod status;
pub mod validate;

pub use adapter::SolverCall;
pub use error::{EmdError, FastTransportError};
pub use solver::{classify, EmdResult, EmdSolver, DEFAULT_ITERATIONS};
pub use status::SolverStatus;
pub use validate::{check_emd_input_shapes, check_emd_inputs, check_iterations};
