//! Verified plain-value core of a binding layer for the Bitwuzla SMT solver:
//! model solutions and their decoding, the search for several distinct
//! solutions, solver option settings, floating-point formats, captured
//! output, term operand layouts and error types.

pub mod capture;
pub mod fp;
pub mod fp_literal;
pub mod lambda;
pub mod option;
pub mod options;
pub mod result;
pub mod rounding_mode;
pub mod search;
pub mod slice;
pub mod solution;
pub mod sort;

use vstd::prelude::*;

verus! {

/// Enumerates the errors that may occur when using these bindings.
///
/// These do not include internal solver errors.
#[derive(Clone, Copy, Debug, PartialEq, Eq, Structural)]
pub enum BitWuzlaError {
    FPError(fp::FPError),
}

} // verus!
