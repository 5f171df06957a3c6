//! Rounding modes of floating-point operations.

use vstd::prelude::*;

verus! {

/// The IEEE 754 rounding modes (and the solver's count of them, `Max`).
#[derive(Debug, Clone, Copy, PartialEq, Eq, Structural)]
pub enum RoundingMode {
    Max,
    RNA,
    RNE,
    RTN,
    RTP,
    RTZ,
}

} // verus!
