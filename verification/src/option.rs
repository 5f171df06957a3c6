//! The values that solver options can be set to.

use vstd::prelude::*;

verus! {

/// How much the solver logs.
#[derive(PartialEq, Eq, Structural, Clone, Copy, Debug)]
pub enum LogLevel {
    Off,
    Error,
    Warn,
    Debug,
    Trace,
}

/// How much the solver reports on its progress.
#[derive(PartialEq, Eq, Structural, Clone, Copy, Debug)]
pub enum Verbosity {
    Quiet,
    Level1,
    Level2,
    Level3,
    Level4,
}

/// For which terms the solver produces model values.
#[derive(PartialEq, Eq, Structural, Clone, Copy, Debug)]
pub enum ModelGen {
    Disabled,
    Asserted,
    All,
}

/// The bitvector solver engine.
#[derive(PartialEq, Eq, Structural, Clone, Copy, Debug)]
pub enum SolverEngine {
    Fun,
    SLS,
    Prop,
    AIGProp,
    Quant,
}

/// The SAT solver backing the bitvector engine.
#[derive(PartialEq, Eq, Structural, Clone, Copy, Debug)]
pub enum SatEngine {
    CaDiCaL,
    CMS,
    Gimsatul,
    Kissat,
    Lingeling,
    MiniSAT,
    PicoSAT,
}

/// How much the solver rewrites terms.
#[derive(PartialEq, Eq, Structural, Clone, Copy, Debug)]
pub enum RewriteLevel {
    Off,
    TermLevel,
    More,
    Full,
}

} // verus!
