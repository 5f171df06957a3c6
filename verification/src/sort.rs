//! The width checks of sort creation.

use vstd::prelude::*;

verus! {

/// Why a sort of the given widths cannot be made.
#[derive(PartialEq, Eq, Structural, Clone, Copy, Debug)]
pub enum SortError {
    /// A bitvector sort of width `0`.
    ZeroWidth,
    /// A floating-point sort with exponent width `0`.
    ZeroExpWidth,
    /// A floating-point sort with significand width `0`.
    ZeroSigWidth,
}

/// Check that a bitvector sort of `width` bits can be made: `width > 0`.
pub fn check_bv_width(width: u64) -> (r: Result<(), SortError>)
    ensures
        r == (if width > 0 { Ok::<(), SortError>(()) } else { Err(SortError::ZeroWidth) }),
{
    if width > 0 {
        Ok(())
    } else {
        Err(SortError::ZeroWidth)
    }
}

/// Check that a floating-point sort of the given widths can be made: both
/// are positive. The exponent width is checked first.
pub fn check_fp_widths(exp_width: u64, sig_width: u64) -> (r: Result<(), SortError>)
    ensures
        r == (if exp_width == 0 {
            Err::<(), SortError>(SortError::ZeroExpWidth)
        } else if sig_width == 0 {
            Err(SortError::ZeroSigWidth)
        } else {
            Ok(())
        }),
{
    if exp_width == 0 {
        Err(SortError::ZeroExpWidth)
    } else if sig_width == 0 {
        Err(SortError::ZeroSigWidth)
    } else {
        Ok(())
    }
}

} // verus!
