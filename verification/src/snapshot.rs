//! The appender factory and the snapshot assembler.
//!
//! The factory resolves one appender specification against the global
//! defaults into an [`ActiveAppender`]: a compiled verbosity filter, a
//! resolved format, a color flag and a sink description. The assembler
//! builds the whole ordered snapshot, all-or-nothing. The load rule of the
//! initial-load and reload entry points — fall back to one default console
//! appender when the configuration is bad, keep the original error as a
//! diagnostic — is [`snapshot_or_fallback`].
//!
//! Opening the actual writers is I/O and happens outside this crate; the
//! all-or-nothing rule over those open results is [`first_open_failure`].

use vstd::prelude::*;

use crate::config::{
    appender_color, appender_format, chosen_level, spec_console_default, spec_global_default,
    AppenderLogConfig, AppenderLogConfigV, ConfigError, ConsoleLogConfig, ConsoleTarget,
    FileWritingMode, GlobalLogConfig, GlobalLogConfigV, Log, LogConfigs, LogFormat, LogV,
    DEFAULT_LOG_LEVEL,
};
use crate::level::{parse_verbosity, verbosity_of, Verbosity};

verus! {

/// Where an active appender writes: one of the two standard streams, or a
/// file under an already resolved path.
pub enum SinkTarget {
    Stdout,
    Stderr,
    File { path: String, mode: FileWritingMode },
}

/// Abstract value of a [`SinkTarget`].
#[verifier::ext_equal]
pub ghost enum SinkTargetV {
    Stdout,
    Stderr,
    File { path: Seq<char>, mode: FileWritingMode },
}

impl View for SinkTarget {
    type V = SinkTargetV;

    open spec fn view(&self) -> SinkTargetV {
        match self {
            SinkTarget::Stdout => SinkTargetV::Stdout,
            SinkTarget::Stderr => SinkTargetV::Stderr,
            SinkTarget::File { path, mode } => SinkTargetV::File { path: path@, mode: *mode },
        }
    }
}

/// One live output lane of a snapshot: a sink, its compiled verbosity
/// filter, its resolved format and its color flag. Built once per reload
/// and never mutated afterwards.
pub struct ActiveAppender {
    pub sink: SinkTarget,
    pub color: bool,
    pub filter: Verbosity,
    pub format: LogFormat,
}

/// Abstract value of an [`ActiveAppender`].
#[verifier::ext_equal]
pub ghost struct ActiveAppenderV {
    pub sink: SinkTargetV,
    pub color: bool,
    pub filter: Verbosity,
    pub format: LogFormat,
}

impl View for ActiveAppender {
    type V = ActiveAppenderV;

    open spec fn view(&self) -> ActiveAppenderV {
        ActiveAppenderV {
            sink: self.sink@,
            color: self.color,
            filter: self.filter,
            format: self.format,
        }
    }
}

/// The sink an appender specification describes.
pub open spec fn spec_sink_of(a: AppenderLogConfigV) -> SinkTargetV {
    match a {
        AppenderLogConfigV::Console(c) => if c.target == ConsoleTarget::Stdout {
            SinkTargetV::Stdout
        } else {
            SinkTargetV::Stderr
        },
        AppenderLogConfigV::File(f) => SinkTargetV::File { path: f.path, mode: f.mode },
    }
}

/// The factory rule: the verbosity filter is compiled from the chosen level
/// (environment override, then the appender's own level, then the global
/// level); the format is the appender's own override or the global format;
/// color and sink come from the specification itself. A chosen level that
/// is not a level rejects the appender.
pub open spec fn spec_build_appender(g: GlobalLogConfigV, a: AppenderLogConfigV) -> Result<
    ActiveAppenderV,
    ConfigError,
> {
    match verbosity_of(chosen_level(g, a)) {
        Some(v) => Ok(
            ActiveAppenderV {
                sink: spec_sink_of(a),
                color: appender_color(a),
                filter: v,
                format: match appender_format(a) {
                    Some(f) => f,
                    None => g.format,
                },
            },
        ),
        None => Err(ConfigError::InvalidLevel),
    }
}

/// Build one active appender from its specification and the global
/// defaults, exactly as [`spec_build_appender`] says.
pub fn build_appender(global: &GlobalLogConfig, appender: &AppenderLogConfig) -> (r: Result<
    ActiveAppender,
    ConfigError,
>)
    ensures
        match r {
            Ok(a) => spec_build_appender(global@, appender@) == Ok::<ActiveAppenderV, ConfigError>(
                a@,
            ),
            Err(e) => spec_build_appender(global@, appender@) == Err::<ActiveAppenderV, ConfigError>(
                e,
            ),
        },
{
    let chosen: &String = if let Some(e) = &global.level_from_env {
        e
    } else {
        let own: &Option<String> = match appender {
            AppenderLogConfig::Console(c) => &c.level,
            AppenderLogConfig::File(f) => &f.level,
        };
        if let Some(l) = own {
            l
        } else {
            &global.level
        }
    };
    let filter = match parse_verbosity(chosen.as_str()) {
        Some(v) => v,
        None => {
            return Err(ConfigError::InvalidLevel);
        },
    };
    let (sink, color, own_format) = match appender {
        AppenderLogConfig::Console(c) => {
            let sink = match c.target {
                ConsoleTarget::Stdout => SinkTarget::Stdout,
                ConsoleTarget::Stderr => SinkTarget::Stderr,
            };
            (sink, c.color, c.format)
        },
        AppenderLogConfig::File(f) => {
            (SinkTarget::File { path: f.path.clone(), mode: f.mode }, f.color, f.format)
        },
    };
    let format = match own_format {
        Some(f) => f,
        None => global.format,
    };
    Ok(ActiveAppender { sink, color, filter, format })
}

/// The complete, immutable set of active appenders at one point in time,
/// in the configuration's insertion order.
pub struct Snapshot {
    pub appenders: Vec<ActiveAppender>,
}

impl View for Snapshot {
    type V = Seq<ActiveAppenderV>;

    open spec fn view(&self) -> Seq<ActiveAppenderV> {
        self.appenders@.map_values(|a: ActiveAppender| a@)
    }
}

/// The assembler rule: one active appender per configuration entry, in
/// insertion order — or, all-or-nothing, the rejection of the first entry
/// that does not build.
pub open spec fn spec_assemble(l: LogV) -> Result<Seq<ActiveAppenderV>, ConfigError> {
    if forall|i: int|
        0 <= i < l.appenders.len() ==> spec_build_appender(
            l.global,
            #[trigger] l.appenders[i].1,
        ) is Ok {
        Ok(
            Seq::new(
                l.appenders.len(),
                |i: int| spec_build_appender(l.global, l.appenders[i].1)->Ok_0,
            ),
        )
    } else {
        Err(ConfigError::InvalidLevel)
    }
}

impl Snapshot {
    /// Assemble the snapshot of a configuration, all-or-nothing, exactly as
    /// [`spec_assemble`] says. No partial snapshot is ever produced: the
    /// first entry that fails to build fails the whole call.
    #[verifier::loop_isolation(false)]
    pub fn assemble(log: &Log) -> (r: Result<Snapshot, ConfigError>)
        ensures
            match r {
                Ok(s) => spec_assemble(log@) == Ok::<Seq<ActiveAppenderV>, ConfigError>(s@),
                Err(e) => spec_assemble(log@) == Err::<Seq<ActiveAppenderV>, ConfigError>(e),
            },
    {
        let n = log.configs.appenders.len();
        let mut built: Vec<ActiveAppender> = Vec::new();
        let mut idx: usize = 0;
        while idx < n
            invariant
                idx <= n,
                n == log.configs.appenders@.len(),
                built@.len() == idx,
                forall|i: int|
                    0 <= i < idx ==> (spec_build_appender(
                        log@.global,
                        #[trigger] log@.appenders[i].1,
                    ) matches Ok(a) && a == built@[i]@),
            decreases n - idx,
        {
            proof {
                assert(log@.appenders[idx as int] == (
                    log.configs.appenders@[idx as int].0@,
                    log.configs.appenders@[idx as int].1@,
                ));
            }
            match build_appender(&log.global, &log.configs.appenders[idx].1) {
                Ok(a) => {
                    built.push(a);
                },
                Err(e) => {
                    proof {
                        assert(spec_build_appender(log@.global, log@.appenders[idx as int].1)
                            is Err);
                    }
                    return Err(e);
                },
            }
            idx += 1;
        }
        let s = Snapshot { appenders: built };
        proof {
            assert(spec_assemble(log@) matches Ok(v) && v =~= s@);
        }
        Ok(s)
    }
}

/// The fallback configuration substituted when a document cannot be used:
/// stock global defaults (level `info`, full format) under the same
/// environment override, and one stock console appender named `stdout`.
pub open spec fn spec_default_log(env: Option<Seq<char>>) -> LogV {
    LogV {
        global: GlobalLogConfigV { level_from_env: env, ..spec_global_default() },
        appenders: seq![("stdout"@, AppenderLogConfigV::Console(spec_console_default()))],
    }
}

/// Build the fallback configuration, exactly as [`spec_default_log`] says.
pub fn default_log(env_level: Option<String>) -> (l: Log)
    ensures
        l@ == spec_default_log(crate::config::view_opt_string(env_level)),
{
    let mut appenders: Vec<(String, AppenderLogConfig)> = Vec::new();
    appenders.push(("stdout".to_owned(), AppenderLogConfig::Console(ConsoleLogConfig::default())));
    let l = Log {
        global: GlobalLogConfig {
            level_from_env: env_level,
            level: DEFAULT_LOG_LEVEL.to_owned(),
            format: LogFormat::Full,
        },
        configs: LogConfigs { appenders },
    };
    proof {
        assert(l@.appenders =~= spec_default_log(
            crate::config::view_opt_string(env_level),
        ).appenders);
    }
    l
}

/// The recovery rule after a bad document: assemble the fallback
/// configuration and keep the original rejection as a diagnostic; only a
/// failure of the fallback itself — an invalid environment override — is
/// an error.
pub open spec fn spec_fallback(e: ConfigError, env: Option<Seq<char>>) -> Result<
    (Seq<ActiveAppenderV>, Option<ConfigError>),
    ConfigError,
> {
    match spec_assemble(spec_default_log(env)) {
        Ok(s) => Ok((s, Some(e))),
        Err(e2) => Err(e2),
    }
}

/// The load rule of the initial-load and reload entry points: a usable
/// configuration yields its own snapshot and no diagnostic; a rejected one
/// yields the fallback snapshot and the rejection as a diagnostic; and only
/// a fallback that itself cannot assemble is a failure.
pub open spec fn spec_load(cfg: Result<LogV, ConfigError>, env: Option<Seq<char>>) -> Result<
    (Seq<ActiveAppenderV>, Option<ConfigError>),
    ConfigError,
> {
    match cfg {
        Ok(l) => match spec_assemble(l) {
            Ok(s) => Ok((s, None)),
            Err(e) => spec_fallback(e, env),
        },
        Err(e) => spec_fallback(e, env),
    }
}

/// Assemble the fallback snapshot for a rejected configuration, exactly as
/// [`spec_fallback`] says.
fn fallback_snapshot(e: ConfigError, env_level: Option<String>) -> (r: Result<
    (Snapshot, Option<ConfigError>),
    ConfigError,
>)
    ensures
        match r {
            Ok((s, w)) => spec_fallback(e, crate::config::view_opt_string(env_level)) == Ok::<
                (Seq<ActiveAppenderV>, Option<ConfigError>),
                ConfigError,
            >((s@, w)),
            Err(e2) => spec_fallback(e, crate::config::view_opt_string(env_level)) == Err::<
                (Seq<ActiveAppenderV>, Option<ConfigError>),
                ConfigError,
            >(e2),
        },
{
    let l = default_log(env_level);
    match Snapshot::assemble(&l) {
        Ok(s) => Ok((s, Some(e))),
        Err(e2) => Err(e2),
    }
}

/// Turn the outcome of reading and validating a configuration document into
/// the snapshot to publish, exactly as [`spec_load`] says: the document's
/// own snapshot, or the default console fallback with the original
/// rejection kept as a diagnostic.
pub fn snapshot_or_fallback(cfg: Result<Log, ConfigError>, env_level: Option<String>) -> (r: Result<
    (Snapshot, Option<ConfigError>),
    ConfigError,
>)
    ensures
        match r {
            Ok((s, w)) => spec_load(
                match cfg {
                    Ok(l) => Ok(l@),
                    Err(e) => Err(e),
                },
                crate::config::view_opt_string(env_level),
            ) == Ok::<(Seq<ActiveAppenderV>, Option<ConfigError>), ConfigError>((s@, w)),
            Err(e2) => spec_load(
                match cfg {
                    Ok(l) => Ok(l@),
                    Err(e) => Err(e),
                },
                crate::config::view_opt_string(env_level),
            ) == Err::<(Seq<ActiveAppenderV>, Option<ConfigError>), ConfigError>(e2),
        },
{
    match cfg {
        Ok(l) => match Snapshot::assemble(&l) {
            Ok(s) => Ok((s, None)),
            Err(e) => fallback_snapshot(e, env_level),
        },
        Err(e) => fallback_snapshot(e, env_level),
    }
}

/// The all-or-nothing rule over the writer-open results that the unverified
/// runtime reports back, one per appender in snapshot order: the snapshot
/// may be published only if every writer opened; otherwise the index of the
/// first failure is reported and the whole snapshot must be discarded, so
/// the previously active snapshot stays in force.
#[verifier::loop_isolation(false)]
pub fn first_open_failure(opened: &Vec<bool>) -> (r: Option<usize>)
    ensures
        match r {
            Some(i) => {
                &&& 0 <= i < opened@.len()
                &&& !opened@[i as int]
                &&& forall|j: int| 0 <= j < i ==> opened@[j]
            },
            None => forall|j: int| 0 <= j < opened@.len() ==> opened@[j],
        },
{
    let n = opened.len();
    let mut idx: usize = 0;
    while idx < n
        invariant
            idx <= n,
            forall|j: int| 0 <= j < idx ==> opened@[j],
        decreases n - idx,
    {
        if !opened[idx] {
            return Some(idx);
        }
        idx += 1;
    }
    None
}

} // verus!
