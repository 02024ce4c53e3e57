use relog::config::{
    join_path, AppenderLogConfig, ConfigError, ConsoleLogConfig, ConsoleTarget, FileLogConfig,
    FileWritingMode, GlobalLogConfig, Log, LogConfig, LogConfigs, LogFormat, MAX_APPENDERS,
};
use relog::level::Verbosity;
use relog::snapshot::{build_appender, default_log, SinkTarget, Snapshot};

fn console(level: Option<&str>, format: Option<LogFormat>, target: ConsoleTarget) -> AppenderLogConfig {
    AppenderLogConfig::Console(ConsoleLogConfig {
        color: true,
        level: level.map(|s| s.to_owned()),
        format,
        target,
    })
}

fn file(level: Option<&str>, path: &str, mode: FileWritingMode) -> AppenderLogConfig {
    AppenderLogConfig::File(FileLogConfig {
        color: false,
        level: level.map(|s| s.to_owned()),
        format: None,
        path: path.to_owned(),
        mode,
    })
}

fn plain_log(appenders: Vec<(String, AppenderLogConfig)>) -> Log {
    Log {
        global: GlobalLogConfig::default(),
        configs: LogConfigs { appenders },
    }
}

#[test]
fn stock_defaults() {
    let c = ConsoleLogConfig::default();
    assert!(c.color);
    assert_eq!(c.level, None);
    assert_eq!(c.format, None);
    assert_eq!(c.target, ConsoleTarget::Stdout);

    let f = FileLogConfig::default();
    assert!(!f.color);
    assert_eq!(f.level, None);
    assert_eq!(f.format, None);
    assert_eq!(f.path, "app.log");
    assert_eq!(f.mode, FileWritingMode::Append);

    let g = GlobalLogConfig::default();
    assert_eq!(g.level_from_env, None);
    assert_eq!(g.level, "info");
    assert_eq!(g.format, LogFormat::Full);
}

#[test]
fn config_trait_reads_the_fields() {
    let c = ConsoleLogConfig {
        color: false,
        level: Some("warn".to_owned()),
        format: Some(LogFormat::Pretty),
        target: ConsoleTarget::Stderr,
    };
    assert!(!c.color());
    assert_eq!(c.level(), &Some("warn".to_owned()));
    assert_eq!(c.format(), Some(LogFormat::Pretty));

    let f = FileLogConfig {
        color: true,
        level: None,
        format: Some(LogFormat::Compact),
        path: "x.log".to_owned(),
        mode: FileWritingMode::Overwrite,
    };
    assert!(f.color());
    assert_eq!(f.level(), &None);
    assert_eq!(f.format(), Some(LogFormat::Compact));
}

#[test]
fn join_path_cases() {
    assert_eq!(join_path("data", "log1.log"), "data/log1.log");
    assert_eq!(join_path("", "log1.log"), "log1.log");
    assert_eq!(join_path("data", "/var/log/app.log"), "/var/log/app.log");
}

#[test]
fn empty_mapping_normalizes_to_one_console() {
    let log = plain_log(vec![]);
    let out = log.finalize("data", None).expect("empty mapping is valid");
    assert_eq!(out.configs.appenders.len(), 1);
    assert_eq!(out.configs.appenders[0].0, "stdout");
    match &out.configs.appenders[0].1 {
        AppenderLogConfig::Console(c) => {
            assert!(c.color);
            assert_eq!(c.level, None);
            assert_eq!(c.target, ConsoleTarget::Stdout);
        }
        AppenderLogConfig::File(_) => panic!("default appender must be a console"),
    }
}

#[test]
fn ceiling_overflow_is_rejected() {
    let mut appenders = Vec::new();
    for i in 0..(MAX_APPENDERS + 1) {
        appenders.push((format!("c{i}"), console(None, None, ConsoleTarget::Stdout)));
    }
    let log = plain_log(appenders);
    assert!(matches!(log.finalize("data", None), Err(ConfigError::TooManyAppenders)));
}

#[test]
fn ceiling_itself_is_accepted() {
    let mut appenders = Vec::new();
    for i in 0..MAX_APPENDERS {
        appenders.push((format!("c{i}"), console(None, None, ConsoleTarget::Stdout)));
    }
    let log = plain_log(appenders);
    let out = log.finalize("data", None).expect("the ceiling itself is fine");
    assert_eq!(out.configs.appenders.len(), MAX_APPENDERS);
}

#[test]
fn duplicate_names_are_rejected() {
    let log = plain_log(vec![
        ("a".to_owned(), console(None, None, ConsoleTarget::Stdout)),
        ("a".to_owned(), file(None, "x.log", FileWritingMode::Append)),
    ]);
    assert!(matches!(log.finalize("data", None), Err(ConfigError::DuplicateName)));
}

#[test]
fn invalid_level_is_rejected() {
    let log = plain_log(vec![(
        "a".to_owned(),
        console(Some("loud"), None, ConsoleTarget::Stdout),
    )]);
    assert!(matches!(log.finalize("data", None), Err(ConfigError::InvalidLevel)));
}

#[test]
fn invalid_env_override_is_rejected() {
    let log = plain_log(vec![(
        "a".to_owned(),
        console(Some("info"), None, ConsoleTarget::Stdout),
    )]);
    assert!(matches!(
        log.finalize("data", Some("shout".to_owned())),
        Err(ConfigError::InvalidLevel)
    ));
}

#[test]
fn unused_invalid_global_level_is_not_reached() {
    // Every appender carries its own level, so the (invalid) global level is
    // never the chosen one — mirroring that resolution, not the raw text,
    // is what is validated.
    let log = Log {
        global: GlobalLogConfig {
            level_from_env: None,
            level: "nonsense".to_owned(),
            format: LogFormat::Full,
        },
        configs: LogConfigs {
            appenders: vec![("a".to_owned(), console(Some("warn"), None, ConsoleTarget::Stdout))],
        },
    };
    assert!(log.finalize("data", None).is_ok());
}

#[test]
fn file_paths_are_resolved_against_the_data_dir() {
    let log = plain_log(vec![(
        "f".to_owned(),
        file(None, "log1.log", FileWritingMode::Append),
    )]);
    let out = log.finalize("data", None).expect("valid");
    match &out.configs.appenders[0].1 {
        AppenderLogConfig::File(f) => assert_eq!(f.path, "data/log1.log"),
        AppenderLogConfig::Console(_) => panic!("expected the file appender"),
    }
}

#[test]
fn resolution_order_env_beats_appender_beats_global() {
    let g_env = GlobalLogConfig {
        level_from_env: Some("debug".to_owned()),
        level: "info".to_owned(),
        format: LogFormat::Full,
    };
    let a = console(Some("trace"), None, ConsoleTarget::Stdout);
    let built = build_appender(&g_env, &a).expect("valid");
    assert_eq!(built.filter, Verbosity::Debug);

    let g_plain = GlobalLogConfig::default();
    let built = build_appender(&g_plain, &a).expect("valid");
    assert_eq!(built.filter, Verbosity::Trace);

    let b = console(None, None, ConsoleTarget::Stdout);
    let built = build_appender(&g_plain, &b).expect("valid");
    assert_eq!(built.filter, Verbosity::Info);
}

#[test]
fn format_resolution_appender_beats_global() {
    let g = GlobalLogConfig {
        level_from_env: None,
        level: "info".to_owned(),
        format: LogFormat::Pretty,
    };
    let with_own = console(None, Some(LogFormat::Compact), ConsoleTarget::Stdout);
    assert_eq!(build_appender(&g, &with_own).unwrap().format, LogFormat::Compact);
    let without = console(None, None, ConsoleTarget::Stdout);
    assert_eq!(build_appender(&g, &without).unwrap().format, LogFormat::Pretty);
}

#[test]
fn assembly_keeps_count_and_insertion_order() {
    let log = plain_log(vec![
        ("out".to_owned(), console(None, None, ConsoleTarget::Stdout)),
        ("err".to_owned(), console(None, None, ConsoleTarget::Stderr)),
        ("f".to_owned(), file(None, "a.log", FileWritingMode::Append)),
    ]);
    let log = log.finalize("data", None).expect("valid");
    let snap = Snapshot::assemble(&log).expect("assembles");
    assert_eq!(snap.appenders.len(), 3);
    assert!(matches!(snap.appenders[0].sink, SinkTarget::Stdout));
    assert!(matches!(snap.appenders[1].sink, SinkTarget::Stderr));
    match &snap.appenders[2].sink {
        SinkTarget::File { path, mode } => {
            assert_eq!(path, "data/a.log");
            assert_eq!(*mode, FileWritingMode::Append);
        }
        _ => panic!("expected the file sink last"),
    }
}

#[test]
fn assembly_is_all_or_nothing() {
    let log = plain_log(vec![
        ("ok".to_owned(), console(Some("info"), None, ConsoleTarget::Stdout)),
        ("bad".to_owned(), console(Some("loud"), None, ConsoleTarget::Stdout)),
    ]);
    match Snapshot::assemble(&log) {
        Err(e) => assert_eq!(e, ConfigError::InvalidLevel),
        Ok(_) => panic!("a snapshot must not come out of a bad configuration"),
    }
}

#[test]
fn overwrite_mode_survives_reassembly() {
    // Each reload assembles afresh from the same specification, so a
    // truncate-mode appender is described as truncate-mode in both
    // snapshots; the runtime re-opens (and re-truncates) the file each time.
    let make = || {
        plain_log(vec![(
            "f".to_owned(),
            file(None, "o.log", FileWritingMode::Overwrite),
        )])
        .finalize("data", None)
        .expect("valid")
    };
    for _ in 0..2 {
        let snap = Snapshot::assemble(&make()).expect("assembles");
        match &snap.appenders[0].sink {
            SinkTarget::File { mode, .. } => assert_eq!(*mode, FileWritingMode::Overwrite),
            _ => panic!("expected the file sink"),
        }
    }
}

#[test]
fn default_log_is_one_console_at_info() {
    let l = default_log(None);
    assert_eq!(l.global.level, "info");
    assert_eq!(l.configs.appenders.len(), 1);
    assert_eq!(l.configs.appenders[0].0, "stdout");
    assert!(matches!(l.configs.appenders[0].1, AppenderLogConfig::Console(_)));
}
