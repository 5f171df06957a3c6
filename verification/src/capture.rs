//! What to make of solver output captured in a temporary file.

use vstd::prelude::*;

verus! {

/// Captured output longer than this many bytes is replaced by a placeholder
/// where the length is limited.
pub const MAX_DISPLAY_LENGTH: i64 = 2000;

/// The text shown in place of output that is too long.
pub open spec fn placeholder_view() -> Seq<char> {
    "<output too large to display>"@
}

/// What to do with captured output of a given length.
#[derive(PartialEq, Eq, Structural, Clone, Copy, Debug)]
pub enum CapturePlan {
    /// Discard the output and show the placeholder text.
    Placeholder,
    /// Read this many bytes of output.
    ReadAll(usize),
}

/// Decide what to do with `length` bytes of captured output; with
/// `limit_length`, output over `MAX_DISPLAY_LENGTH` bytes is not read.
pub fn capture_plan(length: i64, limit_length: bool) -> (r: CapturePlan)
    requires
        length >= 0,
    ensures
        r == (if length > MAX_DISPLAY_LENGTH && limit_length {
            CapturePlan::Placeholder
        } else {
            CapturePlan::ReadAll(length as usize)
        }),
{
    if length > MAX_DISPLAY_LENGTH && limit_length {
        CapturePlan::Placeholder
    } else {
        CapturePlan::ReadAll(length as usize)
    }
}

/// The placeholder text for output that is too long.
pub fn placeholder_text() -> (r: String)
    ensures
        r@ == placeholder_view(),
{
    "<output too large to display>".to_owned()
}

} // verus!
