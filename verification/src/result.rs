//! The answers of a satisfiability check.

use vstd::prelude::*;

verus! {

/// The answer of a satisfiability check.
#[derive(PartialEq, Eq, Structural, Clone, Copy, Debug)]
pub enum SolverResult {
    Sat,
    Unsat,
    Unknown,
}

} // verus!
