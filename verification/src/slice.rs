//! The range check of bitvector slicing.

use vstd::prelude::*;

verus! {

/// Why bits `high` through `low` cannot be sliced out of a bitvector.
#[derive(PartialEq, Eq, Structural, Clone, Copy, Debug)]
pub enum SliceError {
    /// `low` is above `high`.
    LowAboveHigh,
    /// `high` is not below the bitvector's width.
    HighNotBelowWidth,
}

/// Check that bits `high` through `low` (inclusive) lie in a bitvector of
/// `width` bits: `low <= high < width`. `low` is checked first.
pub fn check_slice(high: u64, low: u64, width: u64) -> (r: Result<(), SliceError>)
    ensures
        r is Ok <==> (low <= high && high < width),
        r == Err::<(), SliceError>(SliceError::LowAboveHigh) <==> low > high,
        r == Err::<(), SliceError>(SliceError::HighNotBelowWidth) <==> (low <= high && high >= width),
{
    if low > high {
        Err(SliceError::LowAboveHigh)
    } else if high >= width {
        Err(SliceError::HighNotBelowWidth)
    } else {
        Ok(())
    }
}

} // verus!
