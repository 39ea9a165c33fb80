use bip300301_enforcer::logging::{
    default_directives, filter_directives, saturating_pred_level, targets_directive_str, Level,
};

const LEVELS: [Level; 5] = [Level::Trace, Level::Debug, Level::Info, Level::Warn, Level::Error];

fn tracing_level(level: Level) -> tracing::Level {
    match level {
        Level::Trace => tracing::Level::TRACE,
        Level::Debug => tracing::Level::DEBUG,
        Level::Info => tracing::Level::INFO,
        Level::Warn => tracing::Level::WARN,
        Level::Error => tracing::Level::ERROR,
    }
}

#[test]
fn pred_level_steps_towards_error() {
    assert_eq!(saturating_pred_level(Level::Trace), Level::Debug);
    assert_eq!(saturating_pred_level(Level::Debug), Level::Info);
    assert_eq!(saturating_pred_level(Level::Info), Level::Warn);
    assert_eq!(saturating_pred_level(Level::Warn), Level::Error);
}

#[test]
fn pred_level_saturates_at_error() {
    assert_eq!(saturating_pred_level(Level::Error), Level::Error);
}

#[test]
fn pred_level_is_never_more_verbose() {
    for level in LEVELS {
        assert!(tracing_level(saturating_pred_level(level)) <= tracing_level(level));
    }
}

#[test]
fn level_names_are_those_of_tracing_in_lower_case() {
    for level in LEVELS {
        assert_eq!(level.name(), tracing_level(level).as_str().to_ascii_lowercase());
    }
}

#[test]
fn directive_str_joins_targets_with_commas() {
    let targets = [("", Level::Warn), ("bip300301", Level::Info), ("a::b", Level::Trace)];
    assert_eq!(targets_directive_str(&targets), "warn,bip300301=info,a::b=trace");
}

#[test]
fn directive_str_of_one_target() {
    assert_eq!(targets_directive_str(&[("jsonrpsee", Level::Error)]), "jsonrpsee=error");
    assert_eq!(targets_directive_str(&[("", Level::Debug)]), "debug");
}

#[test]
fn directive_str_of_nothing_is_empty() {
    assert_eq!(targets_directive_str(&[]), "");
}

#[test]
fn default_directives_lower_the_level_of_other_targets() {
    assert_eq!(
        default_directives(Level::Debug),
        "info,bip300301=debug,cusf_enforcer_mempool=debug,jsonrpsee_core::tracing=debug,bip300301_enforcer=debug"
    );
    assert_eq!(
        default_directives(Level::Error),
        "error,bip300301=error,cusf_enforcer_mempool=error,jsonrpsee_core::tracing=error,bip300301_enforcer=error"
    );
}

#[test]
fn filter_directives_put_the_environment_last() {
    assert_eq!(
        filter_directives(Level::Trace, Some("hyper=off")),
        format!("{},hyper=off", default_directives(Level::Trace))
    );
    assert_eq!(filter_directives(Level::Trace, None), default_directives(Level::Trace));
}
