//! Floating-point formats and the errors of floating-point term creation.

use vstd::prelude::*;

verus! {

/// Enumerates the errors that may occur when using these bindings.
///
/// These do not cover internal solver errors.
#[derive(Clone, Copy, Debug, PartialEq, Eq, Structural)]
pub enum FPError {
    /// A symbol that cannot be handed to the solver (it holds a NUL character).
    InvalidIdentifier,
}

/// Enumerates the supported FP formats.
#[derive(Clone, Copy, Debug, PartialEq, Eq, Structural)]
pub enum Formats {
    F16,
    F32,
    F64,
    F128,
}

/// The total bit width of a format.
pub open spec fn format_bits(f: Formats) -> u64 {
    match f {
        Formats::F16 => 16,
        Formats::F32 => 32,
        Formats::F64 => 64,
        Formats::F128 => 128,
    }
}

/// The significand width (hidden bit included) of a format: the IEEE 754
/// widths of binary16, binary32 and binary64, and 114 bits for `F128`.
pub open spec fn format_fraction(f: Formats) -> u64 {
    match f {
        Formats::F16 => 11,
        Formats::F32 => 24,
        Formats::F64 => 53,
        Formats::F128 => 114,
    }
}

/// The exponent width of a format: the bits the significand leaves
/// (5, 8, 11 and 14).
pub open spec fn format_exponent(f: Formats) -> u64 {
    (format_bits(f) - format_fraction(f)) as u64
}

impl Formats {
    /// The significand width of the format.
    pub fn fraction(&self) -> (r: u64)
        ensures
            r == format_fraction(*self),
    {
        match self {
            Formats::F16 => 10 + 1,
            Formats::F32 => 23 + 1,
            Formats::F64 => 52 + 1,
            Formats::F128 => 113 + 1,
        }
    }

    /// The exponent width of the format.
    pub fn exponent(&self) -> (r: u64)
        ensures
            r == format_exponent(*self),
    {
        match self {
            Formats::F128 => 128 - self.fraction(),
            Formats::F64 => 64 - self.fraction(),
            Formats::F32 => 32 - self.fraction(),
            Formats::F16 => 16 - self.fraction(),
        }
    }
}

/// The exponent and significand widths of every format are positive (so a
/// floating-point sort can be made for it) and together fill its bit width;
/// `F32` and `F64` have the widths of `f32` and `f64`.
pub proof fn law_format_widths(f: Formats)
    ensures
        format_exponent(f) > 0,
        format_fraction(f) > 0,
        format_exponent(f) + format_fraction(f) == format_bits(f),
        format_exponent(Formats::F32) == 8 && format_fraction(Formats::F32) == 24,
        format_exponent(Formats::F64) == 11 && format_fraction(Formats::F64) == 53,
{
}

/// The symbol holds a NUL character.
pub open spec fn symbol_has_nul(symbol: Option<&str>) -> bool {
    match symbol {
        Some(s) => s@.contains('\0'),
        None => false,
    }
}

/// A symbol is refused exactly when one of its characters is NUL; every
/// other symbol, and no symbol at all, is accepted.
pub proof fn law_symbol_refused_on_nul(symbol: Option<&str>)
    ensures
        symbol_has_nul(symbol) <==> (symbol is Some && exists|i: int|
            0 <= i < symbol->0@.len() && #[trigger] symbol->0@[i] == '\0'),
{
    if let Some(s) = symbol {
        if exists|i: int| 0 <= i < s@.len() && #[trigger] s@[i] == '\0' {
            let i = choose|i: int| 0 <= i < s@.len() && #[trigger] s@[i] == '\0';
            assert(s@.contains('\0'));
        }
    }
}

/// Whether a symbol can be handed to the solver: it must not hold a NUL
/// character. `None` (no symbol) is always accepted.
pub fn check_symbol(symbol: Option<&str>) -> (r: Result<(), FPError>)
    ensures
        r is Err <==> symbol_has_nul(symbol),
        symbol is None ==> r is Ok,
        forall|s: &str|
            symbol == Some(s) ==> (r is Err <==> exists|i: int| 0 <= i < s@.len() && #[trigger] s@[i] == '\0'),
        r matches Err(e) ==> e == FPError::InvalidIdentifier,
{
    proof {
        law_symbol_refused_on_nul(symbol);
    }
    match symbol {
        None => Ok(()),
        Some(s) => {
            for c in it: s.chars()
                invariant
                    it.seq() == s@,
                    symbol == Some(s),
                    forall|j: int| 0 <= j < it.index() ==> s@[j] != '\0',
            {
                if c == '\0' {
                    assert(s@[it.index()] == '\0');
                    return Err(FPError::InvalidIdentifier);
                }
            }
            Ok(())
        },
    }
}

} // verus!
