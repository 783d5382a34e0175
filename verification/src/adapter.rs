//! The layout of one call of the transport solver.
//!
//! The solver is a native routine. It takes the number of source and target
//! items as 32-bit integers, reads the two weight buffers and the row-major
//! cost buffer at exactly the sizes those two numbers give, and writes a
//! row-major flow buffer and one buffer of dual potentials per side at the
//! same sizes. Whoever makes the call owes it buffers of these sizes. This
//! module decides, from the lengths alone, whether a call can be made and
//! with which numbers.

use crate::validate::inputs_check;
use vstd::prelude::*;

verus! {

/// The numbers that one call of the solver is made with.
#[derive(Debug, Clone, Copy, PartialEq, Eq, Structural)]
pub struct SolverCall {
    /// Number of source items: the rows of the cost and flow matrices, and
    /// the length of the source weights and of their dual potentials.
    pub n_1: i32,
    /// Number of target items: the columns of the cost and flow matrices, and
    /// the length of the target weights and of their dual potentials.
    pub n_2: i32,
    /// Number of entries of the cost buffer and of the flow buffer.
    pub flow_len: usize,
    /// The source weights were given empty and are to be filled with `n_1`
    /// equal entries before the call.
    pub uniform_source: bool,
    /// The target weights were given empty and are to be filled with `n_2`
    /// equal entries before the call.
    pub uniform_target: bool,
    /// The iteration cap that the solver runs under.
    pub max_iter: i32,
}

/// Whether weights of the lengths `a_len` and `b_len` and a cost matrix of
/// `n_1` rows and `n_2` columns can be handed to the solver. Each weight
/// buffer is either empty, and then stands for a uniform distribution, or as
/// long as its side of the matrix. Both dimensions fit a 32-bit signed
/// integer, and the number of matrix entries fits a `usize`.
pub open spec fn fits_solver(a_len: usize, b_len: usize, n_1: usize, n_2: usize) -> bool {
    &&& (a_len == 0 || a_len == n_1)
    &&& (b_len == 0 || b_len == n_2)
    &&& n_1 <= i32::MAX
    &&& n_2 <= i32::MAX
    &&& n_1 * n_2 <= usize::MAX
}

/// The call that is made for weights of the lengths `a_len` and `b_len`, a
/// cost matrix of `n_1` rows and `n_2` columns and the cap `max_iter`, or
/// `None` where no call can be made.
pub open spec fn call_layout(
    a_len: usize,
    b_len: usize,
    n_1: usize,
    n_2: usize,
    max_iter: i32,
) -> Option<SolverCall> {
    if fits_solver(a_len, b_len, n_1, n_2) {
        Some(
            SolverCall {
                n_1: n_1 as i32,
                n_2: n_2 as i32,
                flow_len: (n_1 * n_2) as usize,
                uniform_source: a_len == 0,
                uniform_target: b_len == 0,
                max_iter,
            },
        )
    } else {
        None
    }
}

impl SolverCall {
    /// Lays out the call for weights of the lengths `a_len` and `b_len`, a
    /// cost matrix of `n_1` rows and `n_2` columns and the cap `max_iter`.
    /// The dimensions of the call are those of the cost matrix. Returns
    /// `None` where a weight buffer is neither empty nor as long as its side
    /// of the matrix, or where a size does not fit the solver's integers:
    /// then no call may be made.
    pub fn plan(a_len: usize, b_len: usize, n_1: usize, n_2: usize, max_iter: i32) -> (call:
        Option<SolverCall>)
        ensures
            call == call_layout(a_len, b_len, n_1, n_2, max_iter),
            call is Some <==> fits_solver(a_len, b_len, n_1, n_2),
            call matches Some(layout) ==> {
                &&& layout.n_1 == n_1
                &&& layout.n_2 == n_2
                &&& layout.flow_len == n_1 * n_2
                &&& layout.uniform_source == (a_len == 0)
                &&& layout.uniform_target == (b_len == 0)
                &&& layout.max_iter == max_iter
            },
    {
        if a_len != 0 && a_len != n_1 {
            return None;
        }
        if b_len != 0 && b_len != n_2 {
            return None;
        }
        if n_1 > 0x7fff_ffff || n_2 > 0x7fff_ffff {
            return None;
        }
        match n_1.checked_mul(n_2) {
            None => None,
            Some(flow_len) => Some(
                SolverCall {
                    n_1: n_1 as i32,
                    n_2: n_2 as i32,
                    flow_len,
                    uniform_source: a_len == 0,
                    uniform_target: b_len == 0,
                    max_iter,
                },
            ),
        }
    }
}

/// A problem that passed every check before the solver, and whose sizes fit
/// the solver's integers, can be handed over as it stands: the call has the
/// lengths of the two distributions as its dimensions, one flow entry per
/// pair of a source and a target item, and a positive iteration cap. A
/// distribution is filled uniformly only where it is empty, and then its
/// side of the matrix is empty too.
pub proof fn lemma_checked_inputs_fit(
    a_dim: usize,
    b_dim: usize,
    costs_dim_1: usize,
    costs_dim_2: usize,
    iterations: i32,
)
    requires
        inputs_check(a_dim, b_dim, costs_dim_1, costs_dim_2, iterations) is Ok,
        costs_dim_1 <= i32::MAX,
        costs_dim_2 <= i32::MAX,
        costs_dim_1 * costs_dim_2 <= usize::MAX,
    ensures
        call_layout(a_dim, b_dim, costs_dim_1, costs_dim_2, iterations) == Some(
            SolverCall {
                n_1: a_dim as i32,
                n_2: b_dim as i32,
                flow_len: (a_dim * b_dim) as usize,
                uniform_source: a_dim == 0,
                uniform_target: b_dim == 0,
                max_iter: iterations,
            },
        ),
        a_dim as i32 == a_dim,
        b_dim as i32 == b_dim,
        (a_dim * b_dim) as usize == a_dim * b_dim,
        iterations > 0,
{
}

/// The layout is deterministic: the same lengths and the same cap always
/// give the same call, or none both times.
pub proof fn lemma_layout_deterministic(
    a_len: usize,
    b_len: usize,
    n_1: usize,
    n_2: usize,
    max_iter: i32,
    first: Option<SolverCall>,
    second: Option<SolverCall>,
)
    requires
        call_ensures(SolverCall::plan, (a_len, b_len, n_1, n_2, max_iter), first),
        call_ensures(SolverCall::plan, (a_len, b_len, n_1, n_2, max_iter), second),
    ensures
        first == second,
{
}

} // verus!
