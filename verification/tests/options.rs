use bitwuzla::option::{LogLevel, ModelGen, RewriteLevel, SatEngine, SolverEngine, Verbosity};
use bitwuzla::options::{sat_engine_mode_name, solver_engine_mode_name, BitwuzlaOptions, OptionKey, OptionSetting};

#[test]
fn new_options_set_nothing() {
    assert!(BitwuzlaOptions::new().settings().is_empty());
    assert!(BitwuzlaOptions::default().settings().is_empty());
}

#[test]
fn solver_defaults_generate_models_with_ten_threads() {
    let opts = BitwuzlaOptions::new().with_model_gen().n_threads(10);
    assert_eq!(
        opts.settings(),
        &vec![
            OptionSetting::Value(OptionKey::ProduceModels, 2),
            OptionSetting::Value(OptionKey::NThreads, 10),
        ]
    );
}

#[test]
fn with_model_gen_is_model_gen_all() {
    let a = BitwuzlaOptions::new().with_model_gen();
    let b = BitwuzlaOptions::new().model_gen(ModelGen::All);
    assert_eq!(a.settings(), b.settings());
}

#[test]
fn model_gen_values() {
    let opts = BitwuzlaOptions::new().model_gen(ModelGen::Disabled).model_gen(ModelGen::Asserted);
    assert_eq!(
        opts.settings(),
        &vec![
            OptionSetting::Value(OptionKey::ProduceModels, 0),
            OptionSetting::Value(OptionKey::ProduceModels, 1),
        ]
    );
}

#[test]
fn log_levels_map_to_numbers() {
    let opts = BitwuzlaOptions::new()
        .log_level(LogLevel::Off)
        .log_level(LogLevel::Error)
        .logging(LogLevel::Warn)
        .log_level(LogLevel::Debug)
        .log_level(LogLevel::Trace);
    let values: Vec<OptionSetting> = (0..5).map(|v| OptionSetting::Value(OptionKey::LogLevel, v)).collect();
    assert_eq!(opts.settings(), &values);
}

#[test]
fn verbosity_levels_map_to_numbers() {
    let opts = BitwuzlaOptions::new()
        .verbosity_level(Verbosity::Quiet)
        .verbosity(Verbosity::Level1)
        .verbosity_level(Verbosity::Level2)
        .verbosity_level(Verbosity::Level3)
        .verbosity_level(Verbosity::Level4);
    let values: Vec<OptionSetting> = (0..5).map(|v| OptionSetting::Value(OptionKey::Verbosity, v)).collect();
    assert_eq!(opts.settings(), &values);
}

#[test]
fn rewrite_levels_map_to_numbers() {
    let opts = BitwuzlaOptions::new()
        .rewrite_level(RewriteLevel::Off)
        .rewrite_level(RewriteLevel::TermLevel)
        .rewrite_level(RewriteLevel::More)
        .rewrite_level(RewriteLevel::Full);
    let values: Vec<OptionSetting> = (0..4).map(|v| OptionSetting::Value(OptionKey::RewriteLevel, v)).collect();
    assert_eq!(opts.settings(), &values);
}

#[test]
fn timeout_in_milliseconds() {
    let opts = BitwuzlaOptions::new().solver_timeout(Some(200_000)).solver_timeout(None);
    assert_eq!(
        opts.settings(),
        &vec![
            OptionSetting::Value(OptionKey::TimeLimitPer, 200_000),
            OptionSetting::Value(OptionKey::TimeLimitPer, 0),
        ]
    );
}

#[test]
fn timeout_is_truncated_to_64_bits() {
    let opts = BitwuzlaOptions::new().solver_timeout(Some((1u128 << 64) + 7));
    assert_eq!(opts.settings(), &vec![OptionSetting::Value(OptionKey::TimeLimitPer, 7)]);
}

#[test]
fn flags_and_numbers() {
    let opts = BitwuzlaOptions::new()
        .seed(42)
        .produce_unsat_assumptions(true)
        .bv_abstractions(false)
        .incremental(true);
    assert_eq!(
        opts.settings(),
        &vec![
            OptionSetting::Value(OptionKey::Seed, 42),
            OptionSetting::Value(OptionKey::ProduceUnsatAssumptions, 1),
            OptionSetting::Value(OptionKey::Abstraction, 0),
            OptionSetting::Value(OptionKey::AbstractionIncBitblast, 1),
        ]
    );
}

#[test]
fn engines_are_recorded_in_order() {
    let opts = BitwuzlaOptions::new().solver_engine(SolverEngine::Prop).sat_engine(SatEngine::Kissat);
    assert_eq!(
        opts.settings(),
        &vec![OptionSetting::BvSolver(SolverEngine::Prop), OptionSetting::SatSolver(SatEngine::Kissat)]
    );
}

#[test]
fn engine_mode_names() {
    assert_eq!(solver_engine_mode_name(SolverEngine::Fun), "fun");
    assert_eq!(solver_engine_mode_name(SolverEngine::SLS), "sls");
    assert_eq!(solver_engine_mode_name(SolverEngine::Prop), "prop");
    assert_eq!(solver_engine_mode_name(SolverEngine::AIGProp), "aigprop");
    assert_eq!(solver_engine_mode_name(SolverEngine::Quant), "quant");
    assert_eq!(sat_engine_mode_name(SatEngine::CaDiCaL), "cadical");
    assert_eq!(sat_engine_mode_name(SatEngine::CMS), "cms");
    assert_eq!(sat_engine_mode_name(SatEngine::Gimsatul), "gimsatul");
    assert_eq!(sat_engine_mode_name(SatEngine::Kissat), "kissat");
    assert_eq!(sat_engine_mode_name(SatEngine::Lingeling), "lingeling");
    assert_eq!(sat_engine_mode_name(SatEngine::MiniSAT), "minisat");
    assert_eq!(sat_engine_mode_name(SatEngine::PicoSAT), "picosat");
}

#[test]
fn last_setting_of_an_option_is_last_in_order() {
    let opts = BitwuzlaOptions::new().seed(1).n_threads(4).seed(9);
    let last_seed = opts
        .settings()
        .iter()
        .rev()
        .find_map(|s| match s {
            OptionSetting::Value(OptionKey::Seed, v) => Some(*v),
            _ => None,
        });
    assert_eq!(last_seed, Some(9));
}
