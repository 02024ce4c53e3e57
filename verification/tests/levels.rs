use relog::level::{parse_verbosity, verbosity_name, LogLevel, Verbosity};

#[test]
fn parse_level_names() {
    assert_eq!(parse_verbosity("off"), Some(Verbosity::Off));
    assert_eq!(parse_verbosity("error"), Some(Verbosity::Error));
    assert_eq!(parse_verbosity("warn"), Some(Verbosity::Warn));
    assert_eq!(parse_verbosity("info"), Some(Verbosity::Info));
    assert_eq!(parse_verbosity("debug"), Some(Verbosity::Debug));
    assert_eq!(parse_verbosity("trace"), Some(Verbosity::Trace));
}

#[test]
fn parse_is_case_insensitive() {
    assert_eq!(parse_verbosity("OFF"), Some(Verbosity::Off));
    assert_eq!(parse_verbosity("Error"), Some(Verbosity::Error));
    assert_eq!(parse_verbosity("WaRn"), Some(Verbosity::Warn));
    assert_eq!(parse_verbosity("INFO"), Some(Verbosity::Info));
    assert_eq!(parse_verbosity("DeBuG"), Some(Verbosity::Debug));
    assert_eq!(parse_verbosity("TrAcE"), Some(Verbosity::Trace));
}

#[test]
fn parse_digits() {
    assert_eq!(parse_verbosity("0"), Some(Verbosity::Off));
    assert_eq!(parse_verbosity("1"), Some(Verbosity::Error));
    assert_eq!(parse_verbosity("2"), Some(Verbosity::Warn));
    assert_eq!(parse_verbosity("3"), Some(Verbosity::Info));
    assert_eq!(parse_verbosity("4"), Some(Verbosity::Debug));
    assert_eq!(parse_verbosity("5"), Some(Verbosity::Trace));
}

#[test]
fn parse_rejects_other_text() {
    assert_eq!(parse_verbosity(""), None);
    assert_eq!(parse_verbosity("verbose"), None);
    assert_eq!(parse_verbosity("infoo"), None);
    assert_eq!(parse_verbosity("6"), None);
    assert_eq!(parse_verbosity("tracee"), None);
    assert_eq!(parse_verbosity("warn "), None);
    assert_eq!(parse_verbosity("d"), None);
    assert_eq!(parse_verbosity("tracé"), None);
    assert_eq!(parse_verbosity("öff"), None);
}

#[test]
fn canonical_names_parse_back() {
    for v in [
        Verbosity::Off,
        Verbosity::Error,
        Verbosity::Warn,
        Verbosity::Info,
        Verbosity::Debug,
        Verbosity::Trace,
    ] {
        assert_eq!(parse_verbosity(verbosity_name(v)), Some(v));
    }
}

#[test]
fn off_enables_nothing() {
    for l in [
        LogLevel::Error,
        LogLevel::Warn,
        LogLevel::Info,
        LogLevel::Debug,
        LogLevel::Trace,
    ] {
        assert!(!Verbosity::Off.enables(l));
    }
}

#[test]
fn trace_enables_everything() {
    for l in [
        LogLevel::Error,
        LogLevel::Warn,
        LogLevel::Info,
        LogLevel::Debug,
        LogLevel::Trace,
    ] {
        assert!(Verbosity::Trace.enables(l));
    }
}

#[test]
fn info_threshold_cuts_between_info_and_debug() {
    assert!(Verbosity::Info.enables(LogLevel::Error));
    assert!(Verbosity::Info.enables(LogLevel::Warn));
    assert!(Verbosity::Info.enables(LogLevel::Info));
    assert!(!Verbosity::Info.enables(LogLevel::Debug));
    assert!(!Verbosity::Info.enables(LogLevel::Trace));
}
