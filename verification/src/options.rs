//! A solver configuration held as plain values: the ordered list of option
//! settings that building a solver applies.

use vstd::prelude::*;

use crate::option::{LogLevel, ModelGen, RewriteLevel, SatEngine, SolverEngine, Verbosity};

verus! {

/// The numeric solver options that a configuration can set.
#[derive(PartialEq, Eq, Structural, Clone, Copy, Debug)]
pub enum OptionKey {
    LogLevel,
    Verbosity,
    ProduceModels,
    TimeLimitPer,
    Seed,
    RewriteLevel,
    NThreads,
    ProduceUnsatAssumptions,
    Abstraction,
    AbstractionIncBitblast,
}

/// One setting of a solver option.
#[derive(PartialEq, Eq, Structural, Clone, Copy, Debug)]
pub enum OptionSetting {
    /// A numeric option and its value.
    Value(OptionKey, u64),
    /// The bitvector solver engine (a mode option).
    BvSolver(SolverEngine),
    /// The SAT solver (a mode option).
    SatSolver(SatEngine),
}

/// The numeric value of a log level.
pub open spec fn log_level_value(lvl: LogLevel) -> u64 {
    match lvl {
        LogLevel::Off => 0,
        LogLevel::Error => 1,
        LogLevel::Warn => 2,
        LogLevel::Debug => 3,
        LogLevel::Trace => 4,
    }
}

/// The numeric value of a verbosity level.
pub open spec fn verbosity_value(lvl: Verbosity) -> u64 {
    match lvl {
        Verbosity::Quiet => 0,
        Verbosity::Level1 => 1,
        Verbosity::Level2 => 2,
        Verbosity::Level3 => 3,
        Verbosity::Level4 => 4,
    }
}

/// The numeric value of a model generation mode.
pub open spec fn model_gen_value(mg: ModelGen) -> u64 {
    match mg {
        ModelGen::Disabled => 0,
        ModelGen::Asserted => 1,
        ModelGen::All => 2,
    }
}

/// The numeric value of a rewrite level.
pub open spec fn rewrite_level_value(rl: RewriteLevel) -> u64 {
    match rl {
        RewriteLevel::Off => 0,
        RewriteLevel::TermLevel => 1,
        RewriteLevel::More => 2,
        RewriteLevel::Full => 3,
    }
}

/// The numeric value of a flag.
pub open spec fn flag_value(v: bool) -> u64 {
    if v { 1 } else { 0 }
}

/// The time limit, in milliseconds, that a timeout sets: `0` (no limit) for
/// `None`, else the milliseconds truncated to 64 bits.
pub open spec fn timeout_value(millis: Option<u128>) -> u64 {
    match millis {
        Some(m) => m as u64,
        None => 0,
    }
}

/// The mode string of a bitvector solver engine.
pub open spec fn solver_engine_mode(se: SolverEngine) -> Seq<char> {
    match se {
        SolverEngine::Fun => "fun"@,
        SolverEngine::SLS => "sls"@,
        SolverEngine::Prop => "prop"@,
        SolverEngine::AIGProp => "aigprop"@,
        SolverEngine::Quant => "quant"@,
    }
}

/// The mode string of a SAT solver.
pub open spec fn sat_engine_mode(se: SatEngine) -> Seq<char> {
    match se {
        SatEngine::CaDiCaL => "cadical"@,
        SatEngine::CMS => "cms"@,
        SatEngine::Gimsatul => "gimsatul"@,
        SatEngine::Kissat => "kissat"@,
        SatEngine::Lingeling => "lingeling"@,
        SatEngine::MiniSAT => "minisat"@,
        SatEngine::PicoSAT => "picosat"@,
    }
}

/// The mode string of a bitvector solver engine.
pub fn solver_engine_mode_name(se: SolverEngine) -> (r: &'static str)
    ensures
        r@ == solver_engine_mode(se),
{
    match se {
        SolverEngine::Fun => "fun",
        SolverEngine::SLS => "sls",
        SolverEngine::Prop => "prop",
        SolverEngine::AIGProp => "aigprop",
        SolverEngine::Quant => "quant",
    }
}

/// The mode string of a SAT solver.
pub fn sat_engine_mode_name(se: SatEngine) -> (r: &'static str)
    ensures
        r@ == sat_engine_mode(se),
{
    match se {
        SatEngine::CaDiCaL => "cadical",
        SatEngine::CMS => "cms",
        SatEngine::Gimsatul => "gimsatul",
        SatEngine::Kissat => "kissat",
        SatEngine::Lingeling => "lingeling",
        SatEngine::MiniSAT => "minisat",
        SatEngine::PicoSAT => "picosat",
    }
}

/// The value a list of settings leaves a numeric option at: the value of
/// the last setting of that option, or `None` where it is never set.
pub open spec fn effective_value(settings: Seq<OptionSetting>, key: OptionKey) -> Option<u64>
    decreases settings.len(),
{
    if settings.len() == 0 {
        None
    } else {
        match settings.last() {
            OptionSetting::Value(k, v) if k == key => Some(v),
            _ => effective_value(settings.drop_last(), key),
        }
    }
}

/// The bitvector solver engine a list of settings leaves selected, if any.
pub open spec fn effective_bv_solver(settings: Seq<OptionSetting>) -> Option<SolverEngine>
    decreases settings.len(),
{
    if settings.len() == 0 {
        None
    } else {
        match settings.last() {
            OptionSetting::BvSolver(se) => Some(se),
            _ => effective_bv_solver(settings.drop_last()),
        }
    }
}

/// The SAT solver a list of settings leaves selected, if any.
pub open spec fn effective_sat_solver(settings: Seq<OptionSetting>) -> Option<SatEngine>
    decreases settings.len(),
{
    if settings.len() == 0 {
        None
    } else {
        match settings.last() {
            OptionSetting::SatSolver(se) => Some(se),
            _ => effective_sat_solver(settings.drop_last()),
        }
    }
}

/// A solver configuration: the option settings that building a solver
/// applies, in the order they were made.
pub struct BitwuzlaOptions {
    settings: Vec<OptionSetting>,
}

impl View for BitwuzlaOptions {
    type V = Seq<OptionSetting>;

    closed spec fn view(&self) -> Seq<OptionSetting> {
        self.settings@
    }
}

impl Default for BitwuzlaOptions {
    fn default() -> (r: Self)
        ensures
            r@ == Seq::<OptionSetting>::empty(),
    {
        Self::new()
    }
}

impl BitwuzlaOptions {
    /// A configuration that sets nothing (the solver's defaults apply).
    pub fn new() -> (r: Self)
        ensures
            r@ == Seq::<OptionSetting>::empty(),
    {
        BitwuzlaOptions { settings: Vec::new() }
    }

    /// The settings, in the order they were made.
    pub fn settings(&self) -> (r: &Vec<OptionSetting>)
        ensures
            r@ == self@,
    {
        &self.settings
    }

    fn with_setting(self, setting: OptionSetting) -> (r: Self)
        ensures
            r@ == self@.push(setting),
    {
        let mut settings = self.settings;
        settings.push(setting);
        BitwuzlaOptions { settings }
    }

    /// Produce model values for all terms: the same as `model_gen(ModelGen::All)`.
    pub fn with_model_gen(self) -> (r: Self)
        ensures
            r@ == self@.push(OptionSetting::Value(OptionKey::ProduceModels, model_gen_value(ModelGen::All))),
    {
        self.model_gen(ModelGen::All)
    }

    /// The same as `log_level(lvl)`.
    pub fn logging(self, lvl: LogLevel) -> (r: Self)
        ensures
            r@ == self@.push(OptionSetting::Value(OptionKey::LogLevel, log_level_value(lvl))),
    {
        self.log_level(lvl)
    }

    /// The same as `verbosity_level(lvl)`.
    pub fn verbosity(self, lvl: Verbosity) -> (r: Self)
        ensures
            r@ == self@.push(OptionSetting::Value(OptionKey::Verbosity, verbosity_value(lvl))),
    {
        self.verbosity_level(lvl)
    }

    /// Set the log level.
    pub fn log_level(self, lvl: LogLevel) -> (r: Self)
        ensures
            r@ == self@.push(OptionSetting::Value(OptionKey::LogLevel, log_level_value(lvl))),
    {
        let val: u64 = match lvl {
            LogLevel::Off => 0,
            LogLevel::Error => 1,
            LogLevel::Warn => 2,
            LogLevel::Debug => 3,
            LogLevel::Trace => 4,
        };
        self.with_setting(OptionSetting::Value(OptionKey::LogLevel, val))
    }

    /// Set the verbosity level.
    pub fn verbosity_level(self, lvl: Verbosity) -> (r: Self)
        ensures
            r@ == self@.push(OptionSetting::Value(OptionKey::Verbosity, verbosity_value(lvl))),
    {
        let val: u64 = match lvl {
            Verbosity::Quiet => 0,
            Verbosity::Level1 => 1,
            Verbosity::Level2 => 2,
            Verbosity::Level3 => 3,
            Verbosity::Level4 => 4,
        };
        self.with_setting(OptionSetting::Value(OptionKey::Verbosity, val))
    }

    /// Whether to generate a model (set of concrete solution values) for
    /// satisfiable instances.
    pub fn model_gen(self, mg: ModelGen) -> (r: Self)
        ensures
            r@ == self@.push(OptionSetting::Value(OptionKey::ProduceModels, model_gen_value(mg))),
    {
        let val: u64 = match mg {
            ModelGen::Disabled => 0,
            ModelGen::Asserted => 1,
            ModelGen::All => 2,
        };
        self.with_setting(OptionSetting::Value(OptionKey::ProduceModels, val))
    }

    /// Solver timeout, in milliseconds. If `Some`, operations lasting longer
    /// are aborted and answer `SolverResult::Unknown`; `None` removes any limit.
    pub fn solver_timeout(self, millis: Option<u128>) -> (r: Self)
        ensures
            r@ == self@.push(OptionSetting::Value(OptionKey::TimeLimitPer, timeout_value(millis))),
    {
        let val: u64 = match millis {
            Some(m) => m as u64,
            None => 0,
        };
        self.with_setting(OptionSetting::Value(OptionKey::TimeLimitPer, val))
    }

    /// Select the bitvector solver engine.
    pub fn solver_engine(self, se: SolverEngine) -> (r: Self)
        ensures
            r@ == self@.push(OptionSetting::BvSolver(se)),
    {
        self.with_setting(OptionSetting::BvSolver(se))
    }

    /// Select the SAT solver. Each choice needs a solver build that includes it.
    pub fn sat_engine(self, se: SatEngine) -> (r: Self)
        ensures
            r@ == self@.push(OptionSetting::SatSolver(se)),
    {
        self.with_setting(OptionSetting::SatSolver(se))
    }

    /// Seed for the solver's internal random number generator.
    pub fn seed(self, seed: u64) -> (r: Self)
        ensures
            r@ == self@.push(OptionSetting::Value(OptionKey::Seed, seed)),
    {
        self.with_setting(OptionSetting::Value(OptionKey::Seed, seed))
    }

    /// Rewrite level. Not to be changed after creating expressions.
    pub fn rewrite_level(self, rl: RewriteLevel) -> (r: Self)
        ensures
            r@ == self@.push(OptionSetting::Value(OptionKey::RewriteLevel, rewrite_level_value(rl))),
    {
        let val: u64 = match rl {
            RewriteLevel::Off => 0,
            RewriteLevel::TermLevel => 1,
            RewriteLevel::More => 2,
            RewriteLevel::Full => 3,
        };
        self.with_setting(OptionSetting::Value(OptionKey::RewriteLevel, val))
    }

    /// Number of solver threads.
    pub fn n_threads(self, threads: usize) -> (r: Self)
        ensures
            r@ == self@.push(OptionSetting::Value(OptionKey::NThreads, threads as u64)),
    {
        self.with_setting(OptionSetting::Value(OptionKey::NThreads, threads as u64))
    }

    /// Whether the solver records which assumptions made an instance unsatisfiable.
    pub fn produce_unsat_assumptions(self, v: bool) -> (r: Self)
        ensures
            r@ == self@.push(OptionSetting::Value(OptionKey::ProduceUnsatAssumptions, flag_value(v))),
    {
        let val: u64 = if v { 1 } else { 0 };
        self.with_setting(OptionSetting::Value(OptionKey::ProduceUnsatAssumptions, val))
    }

    /// Whether the solver abstracts bitvector terms.
    pub fn bv_abstractions(self, v: bool) -> (r: Self)
        ensures
            r@ == self@.push(OptionSetting::Value(OptionKey::Abstraction, flag_value(v))),
    {
        let val: u64 = if v { 1 } else { 0 };
        self.with_setting(OptionSetting::Value(OptionKey::Abstraction, val))
    }

    /// Whether abstractions are bit-blasted incrementally.
    pub fn incremental(self, v: bool) -> (r: Self)
        ensures
            r@ == self@.push(OptionSetting::Value(OptionKey::AbstractionIncBitblast, flag_value(v))),
    {
        let val: u64 = if v { 1 } else { 0 };
        self.with_setting(OptionSetting::Value(OptionKey::AbstractionIncBitblast, val))
    }
}

/// Setting a numeric option makes its value the one set and leaves every
/// other option as it was; the mode options are untouched.
pub proof fn law_last_setting_wins(settings: Seq<OptionSetting>, key: OptionKey, value: u64, other: OptionKey)
    requires
        other != key,
    ensures
        effective_value(settings.push(OptionSetting::Value(key, value)), key) == Some(value),
        effective_value(settings.push(OptionSetting::Value(key, value)), other)
            == effective_value(settings, other),
        effective_bv_solver(settings.push(OptionSetting::Value(key, value))) == effective_bv_solver(settings),
        effective_sat_solver(settings.push(OptionSetting::Value(key, value))) == effective_sat_solver(settings),
{
    assert(settings.push(OptionSetting::Value(key, value)).drop_last() =~= settings);
}

/// Selecting an engine makes it the selected one and leaves every numeric
/// option as it was.
pub proof fn law_engine_selection(settings: Seq<OptionSetting>, bv: SolverEngine, sat: SatEngine, key: OptionKey)
    ensures
        effective_bv_solver(settings.push(OptionSetting::BvSolver(bv))) == Some(bv),
        effective_value(settings.push(OptionSetting::BvSolver(bv)), key) == effective_value(settings, key),
        effective_sat_solver(settings.push(OptionSetting::BvSolver(bv))) == effective_sat_solver(settings),
        effective_sat_solver(settings.push(OptionSetting::SatSolver(sat))) == Some(sat),
        effective_value(settings.push(OptionSetting::SatSolver(sat)), key) == effective_value(settings, key),
        effective_bv_solver(settings.push(OptionSetting::SatSolver(sat))) == effective_bv_solver(settings),
{
    assert(settings.push(OptionSetting::BvSolver(bv)).drop_last() =~= settings);
    assert(settings.push(OptionSetting::SatSolver(sat)).drop_last() =~= settings);
}

} // verus!
