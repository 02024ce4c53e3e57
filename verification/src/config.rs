//! The declarative configuration model.
//!
//! A configuration is one set of global defaults plus an ordered, named
//! collection of appender specifications. [`Log::finalize`] turns a freshly
//! parsed document into a validated configuration: it records the
//! environment override, normalizes an empty mapping to one console
//! appender, checks name uniqueness and the appender ceiling, validates
//! every chosen verbosity string, and resolves file paths against the
//! caller's data directory.

use vstd::prelude::*;
use vstd::string::StrSliceExecFns;

use crate::level::{parse_verbosity, verbosity_of};

verus! {

/// Level used when neither the environment, an appender, nor the document
/// names one.
pub const DEFAULT_LOG_LEVEL: &'static str = "info";

/// File name used when a file appender names no path.
pub const DEFAULT_LOG_FILENAME: &'static str = "app.log";

/// The dispatch engine distinguishes at most this many per-appender filters
/// at once; a configuration with more appenders is rejected outright.
pub const MAX_APPENDERS: usize = 64;

/// Rendering style of one formatted record.
#[derive(Clone, Copy, Debug, PartialEq, Eq, Structural)]
pub enum LogFormat {
    Full,
    Pretty,
    Compact,
    System,
}

/// Which standard stream a console appender writes to.
#[derive(Clone, Copy, Debug, PartialEq, Eq, Structural)]
pub enum ConsoleTarget {
    Stdout,
    Stderr,
}

/// Whether a file appender appends to or truncates its file at open time.
#[derive(Clone, Copy, Debug, PartialEq, Eq, Structural)]
pub enum FileWritingMode {
    Append,
    Overwrite,
}

/// Everything the configuration pipeline can reject.
#[derive(Clone, Copy, Debug, PartialEq, Eq, Structural)]
pub enum ConfigError {
    /// The configuration document could not be read at all.
    Parse,
    /// Two appender entries carry the same name.
    DuplicateName,
    /// A verbosity string chosen for some appender is not a level.
    InvalidLevel,
    /// More appenders than the dispatch engine can tell apart.
    TooManyAppenders,
}

/// The abstract value of an `Option<String>`.
pub open spec fn view_opt_string(o: Option<String>) -> Option<Seq<char>> {
    match o {
        Some(s) => Some(s@),
        None => None,
    }
}

/// A console appender specification.
pub struct ConsoleLogConfig {
    pub color: bool,
    pub level: Option<String>,
    pub format: Option<LogFormat>,
    pub target: ConsoleTarget,
}

/// Abstract value of a [`ConsoleLogConfig`].
#[verifier::ext_equal]
pub ghost struct ConsoleLogConfigV {
    pub color: bool,
    pub level: Option<Seq<char>>,
    pub format: Option<LogFormat>,
    pub target: ConsoleTarget,
}

impl View for ConsoleLogConfig {
    type V = ConsoleLogConfigV;

    open spec fn view(&self) -> ConsoleLogConfigV {
        ConsoleLogConfigV {
            color: self.color,
            level: view_opt_string(self.level),
            format: self.format,
            target: self.target,
        }
    }
}

/// The stock console appender: colored output on standard out, no overrides.
pub open spec fn spec_console_default() -> ConsoleLogConfigV {
    ConsoleLogConfigV { color: true, level: None, format: None, target: ConsoleTarget::Stdout }
}

impl Default for ConsoleLogConfig {
    fn default() -> (r: Self)
        ensures
            r@ == spec_console_default(),
    {
        ConsoleLogConfig { color: true, level: None, format: None, target: ConsoleTarget::Stdout }
    }
}

/// A file appender specification. The path is kept as text; it is resolved
/// against the caller's data directory during [`Log::finalize`].
pub struct FileLogConfig {
    pub color: bool,
    pub level: Option<String>,
    pub format: Option<LogFormat>,
    pub path: String,
    pub mode: FileWritingMode,
}

/// Abstract value of a [`FileLogConfig`].
#[verifier::ext_equal]
pub ghost struct FileLogConfigV {
    pub color: bool,
    pub level: Option<Seq<char>>,
    pub format: Option<LogFormat>,
    pub path: Seq<char>,
    pub mode: FileWritingMode,
}

impl View for FileLogConfig {
    type V = FileLogConfigV;

    open spec fn view(&self) -> FileLogConfigV {
        FileLogConfigV {
            color: self.color,
            level: view_opt_string(self.level),
            format: self.format,
            path: self.path@,
            mode: self.mode,
        }
    }
}

/// The stock file appender: plain output appended to `app.log`.
pub open spec fn spec_file_default() -> FileLogConfigV {
    FileLogConfigV {
        color: false,
        level: None,
        format: None,
        path: DEFAULT_LOG_FILENAME@,
        mode: FileWritingMode::Append,
    }
}

impl Default for FileLogConfig {
    fn default() -> (r: Self)
        ensures
            r@ == spec_file_default(),
    {
        FileLogConfig {
            color: false,
            level: None,
            format: None,
            path: DEFAULT_LOG_FILENAME.to_owned(),
            mode: FileWritingMode::Append,
        }
    }
}

/// One named output destination: console or file.
pub enum AppenderLogConfig {
    Console(ConsoleLogConfig),
    File(FileLogConfig),
}

/// Abstract value of an [`AppenderLogConfig`].
#[verifier::ext_equal]
pub ghost enum AppenderLogConfigV {
    Console(ConsoleLogConfigV),
    File(FileLogConfigV),
}

impl View for AppenderLogConfig {
    type V = AppenderLogConfigV;

    open spec fn view(&self) -> AppenderLogConfigV {
        match self {
            AppenderLogConfig::Console(c) => AppenderLogConfigV::Console(c@),
            AppenderLogConfig::File(f) => AppenderLogConfigV::File(f@),
        }
    }
}

/// The ordered, named collection of appender specifications. Entries keep
/// their insertion order, and names are unique once a configuration has
/// passed [`Log::finalize`].
pub struct LogConfigs {
    pub appenders: Vec<(String, AppenderLogConfig)>,
}

impl View for LogConfigs {
    type V = Seq<(Seq<char>, AppenderLogConfigV)>;

    open spec fn view(&self) -> Seq<(Seq<char>, AppenderLogConfigV)> {
        self.appenders@.map_values(|e: (String, AppenderLogConfig)| (e.0@, e.1@))
    }
}

/// No two entries share a name.
pub open spec fn spec_names_unique(s: Seq<(Seq<char>, AppenderLogConfigV)>) -> bool {
    forall|i: int, j: int| 0 <= i < j < s.len() ==> s[i].0 != s[j].0
}

/// The global defaults: one verbosity level, one format, and the optional
/// process-environment override that outranks every appender's own level.
pub struct GlobalLogConfig {
    pub level_from_env: Option<String>,
    pub level: String,
    pub format: LogFormat,
}

/// Abstract value of a [`GlobalLogConfig`].
#[verifier::ext_equal]
pub ghost struct GlobalLogConfigV {
    pub level_from_env: Option<Seq<char>>,
    pub level: Seq<char>,
    pub format: LogFormat,
}

impl View for GlobalLogConfig {
    type V = GlobalLogConfigV;

    open spec fn view(&self) -> GlobalLogConfigV {
        GlobalLogConfigV {
            level_from_env: view_opt_string(self.level_from_env),
            level: self.level@,
            format: self.format,
        }
    }
}

/// The stock global defaults: level `info`, full format, no override.
pub open spec fn spec_global_default() -> GlobalLogConfigV {
    GlobalLogConfigV { level_from_env: None, level: DEFAULT_LOG_LEVEL@, format: LogFormat::Full }
}

impl Default for GlobalLogConfig {
    fn default() -> (r: Self)
        ensures
            r@ == spec_global_default(),
    {
        GlobalLogConfig {
            level_from_env: None,
            level: DEFAULT_LOG_LEVEL.to_owned(),
            format: LogFormat::Full,
        }
    }
}

/// A whole configuration: global defaults plus the appender collection.
pub struct Log {
    pub global: GlobalLogConfig,
    pub configs: LogConfigs,
}

/// Abstract value of a [`Log`].
#[verifier::ext_equal]
pub ghost struct LogV {
    pub global: GlobalLogConfigV,
    pub appenders: Seq<(Seq<char>, AppenderLogConfigV)>,
}

impl View for Log {
    type V = LogV;

    open spec fn view(&self) -> LogV {
        LogV { global: self.global@, appenders: self.configs@ }
    }
}

/// Common read access to the per-appender overrides.
pub trait LogConfig {
    /// Abstract color flag.
    spec fn spec_color(&self) -> bool;

    /// Abstract verbosity override.
    spec fn spec_level(&self) -> Option<Seq<char>>;

    /// Abstract format override.
    spec fn spec_format(&self) -> Option<LogFormat>;

    /// Whether output through this appender is colored.
    fn color(&self) -> (r: bool)
        ensures
            r == self.spec_color(),
    ;

    /// This appender's own verbosity override, if any.
    fn level(&self) -> (r: &Option<String>)
        ensures
            view_opt_string(*r) == self.spec_level(),
    ;

    /// This appender's own format override, if any.
    fn format(&self) -> (r: Option<LogFormat>)
        ensures
            r == self.spec_format(),
    ;
}

impl LogConfig for ConsoleLogConfig {
    open spec fn spec_color(&self) -> bool {
        self.color
    }

    open spec fn spec_level(&self) -> Option<Seq<char>> {
        view_opt_string(self.level)
    }

    open spec fn spec_format(&self) -> Option<LogFormat> {
        self.format
    }

    fn color(&self) -> (r: bool) {
        self.color
    }

    fn level(&self) -> (r: &Option<String>) {
        &self.level
    }

    fn format(&self) -> (r: Option<LogFormat>) {
        self.format
    }
}

impl LogConfig for FileLogConfig {
    open spec fn spec_color(&self) -> bool {
        self.color
    }

    open spec fn spec_level(&self) -> Option<Seq<char>> {
        view_opt_string(self.level)
    }

    open spec fn spec_format(&self) -> Option<LogFormat> {
        self.format
    }

    fn color(&self) -> (r: bool) {
        self.color
    }

    fn level(&self) -> (r: &Option<String>) {
        &self.level
    }

    fn format(&self) -> (r: Option<LogFormat>) {
        self.format
    }
}

/// The verbosity override of one appender specification.
pub open spec fn appender_level(a: AppenderLogConfigV) -> Option<Seq<char>> {
    match a {
        AppenderLogConfigV::Console(c) => c.level,
        AppenderLogConfigV::File(f) => f.level,
    }
}

/// The format override of one appender specification.
pub open spec fn appender_format(a: AppenderLogConfigV) -> Option<LogFormat> {
    match a {
        AppenderLogConfigV::Console(c) => c.format,
        AppenderLogConfigV::File(f) => f.format,
    }
}

/// The color flag of one appender specification.
pub open spec fn appender_color(a: AppenderLogConfigV) -> bool {
    match a {
        AppenderLogConfigV::Console(c) => c.color,
        AppenderLogConfigV::File(f) => f.color,
    }
}

/// The verbosity string one appender actually uses: the environment
/// override outranks the appender's own level, which outranks the global
/// default.
pub open spec fn chosen_level(g: GlobalLogConfigV, a: AppenderLogConfigV) -> Seq<char> {
    if g.level_from_env is Some {
        g.level_from_env->0
    } else if appender_level(a) is Some {
        appender_level(a)->0
    } else {
        g.level
    }
}

/// The chosen verbosity string of this entry is a level.
pub open spec fn entry_level_valid(g: GlobalLogConfigV, a: AppenderLogConfigV) -> bool {
    verbosity_of(chosen_level(g, a)) is Some
}

/// A file path as resolved against the data directory: an absolute path and
/// a path under an empty base stay as they are; anything else is the base,
/// a separator, and the path.
pub open spec fn spec_join_path(base: Seq<char>, rel: Seq<char>) -> Seq<char> {
    if rel.len() > 0 && rel[0] == '/' {
        rel
    } else if base.len() == 0 {
        rel
    } else {
        base + seq!['/'] + rel
    }
}

/// One entry after path resolution: console entries are untouched; a file
/// entry's path is joined onto the data directory.
pub open spec fn resolve_entry(dir: Seq<char>, e: (Seq<char>, AppenderLogConfigV)) -> (
    Seq<char>,
    AppenderLogConfigV,
) {
    match e.1 {
        AppenderLogConfigV::Console(_) => e,
        AppenderLogConfigV::File(f) => (
            e.0,
            AppenderLogConfigV::File(
                FileLogConfigV { path: spec_join_path(dir, f.path), ..f },
            ),
        ),
    }
}

/// The appender collection after normalization: an empty mapping denotes
/// one console appender named `stdout` with the stock console settings.
pub open spec fn spec_normalized(s: Seq<(Seq<char>, AppenderLogConfigV)>) -> Seq<
    (Seq<char>, AppenderLogConfigV),
> {
    if s.len() == 0 {
        seq![("stdout"@, AppenderLogConfigV::Console(spec_console_default()))]
    } else {
        s
    }
}

/// What [`Log::finalize`] produces: the environment override recorded, the
/// mapping normalized, names unique, the count under the ceiling, every
/// chosen verbosity string valid, and file paths resolved — or the first
/// applicable rejection.
pub open spec fn spec_finalize(l: LogV, dir: Seq<char>, env: Option<Seq<char>>) -> Result<
    LogV,
    ConfigError,
> {
    let g = GlobalLogConfigV { level_from_env: env, ..l.global };
    let apps = spec_normalized(l.appenders);
    if !spec_names_unique(apps) {
        Err(ConfigError::DuplicateName)
    } else if apps.len() > MAX_APPENDERS {
        Err(ConfigError::TooManyAppenders)
    } else if exists|i: int| 0 <= i < apps.len() && !entry_level_valid(g, apps[i].1) {
        Err(ConfigError::InvalidLevel)
    } else {
        Ok(LogV { global: g, appenders: apps.map_values(|e| resolve_entry(dir, e)) })
    }
}

impl LogV {
    /// The invariant of a validated configuration: it has between one and
    /// [`MAX_APPENDERS`] uniquely named appenders, and every chosen
    /// verbosity string is a level.
    pub open spec fn wf(self) -> bool {
        &&& 1 <= self.appenders.len() <= MAX_APPENDERS
        &&& spec_names_unique(self.appenders)
        &&& forall|i: int|
            0 <= i < self.appenders.len() ==> entry_level_valid(
                self.global,
                #[trigger] self.appenders[i].1,
            )
    }
}

/// Relies on `String::push_str` of std: it appends the given slice onto the
/// end of the string.
#[verifier::external_body]
fn push_str(s: &mut String, t: &str)
    ensures
        final(s)@ == old(s)@ + t@,
{
    s.push_str(t)
}

/// Resolve one path against a base directory, as [`spec_join_path`] says.
pub fn join_path(base: &str, rel: &str) -> (r: String)
    ensures
        r@ == spec_join_path(base@, rel@),
{
    if rel.unicode_len() > 0 && rel.get_char(0) == '/' {
        rel.to_owned()
    } else if base.unicode_len() == 0 {
        rel.to_owned()
    } else {
        let mut s = base.to_owned();
        push_str(&mut s, "/");
        push_str(&mut s, rel);
        proof {
            reveal_strlit("/");
            assert(s@ =~= base@ + seq!['/'] + rel@);
        }
        s
    }
}

/// A verified copy of an optional string.
fn clone_opt_string(o: &Option<String>) -> (r: Option<String>)
    ensures
        view_opt_string(r) == view_opt_string(*o),
{
    match o {
        Some(s) => Some(s.clone()),
        None => None,
    }
}

impl LogConfigs {
    /// Whether all entry names are pairwise distinct.
    pub fn names_unique(&self) -> (r: bool)
        ensures
            r == spec_names_unique(self@),
    {
        let n = self.appenders.len();
        let mut j: usize = 0;
        while j < n
            invariant
                j <= n,
                n == self.appenders@.len(),
                forall|a: int, b: int| 0 <= a < b < j ==> self@[a].0 != self@[b].0,
            decreases n - j,
        {
            let mut i: usize = 0;
            while i < j
                invariant
                    i <= j < n,
                    n == self.appenders@.len(),
                    forall|a: int, b: int| 0 <= a < b < j ==> self@[a].0 != self@[b].0,
                    forall|a: int| 0 <= a < i ==> self@[a].0 != self@[j as int].0,
                decreases j - i,
            {
                if self.appenders[i].0 == self.appenders[j].0 {
                    proof {
                        assert(self@[i as int].0 == self@[j as int].0);
                        assert(!spec_names_unique(self@));
                    }
                    return false;
                }
                i += 1;
            }
            j += 1;
        }
        true
    }
}

impl Log {
    /// Turn a freshly parsed document into a validated configuration, or
    /// reject it as [`spec_finalize`] says. `env_level` is the level
    /// override read from the process environment; `data_dir` is the base
    /// directory that relative file paths are resolved against.
    #[verifier::loop_isolation(false)]
    pub fn finalize(self, data_dir: &str, env_level: Option<String>) -> (r: Result<
        Log,
        ConfigError,
    >)
        ensures
            match r {
                Ok(l) => {
                    &&& spec_finalize(self@, data_dir@, view_opt_string(env_level)) == Ok::<
                        LogV,
                        ConfigError,
                    >(l@)
                    &&& l@.wf()
                },
                Err(e) => spec_finalize(self@, data_dir@, view_opt_string(env_level)) == Err::<
                    LogV,
                    ConfigError,
                >(e),
            },
    {
        let ghost pre = self@;
        let mut log = self;
        log.global.level_from_env = env_level;
        if log.configs.appenders.len() == 0 {
            log.configs.appenders.push(
                ("stdout".to_owned(), AppenderLogConfig::Console(ConsoleLogConfig::default())),
            );
        }
        proof {
            assert(log.configs@ =~= spec_normalized(pre.appenders));
            assert(log.global@ == (GlobalLogConfigV {
                level_from_env: view_opt_string(env_level),
                ..pre.global
            }));
        }
        if !log.configs.names_unique() {
            return Err(ConfigError::DuplicateName);
        }
        if log.configs.appenders.len() > MAX_APPENDERS {
            return Err(ConfigError::TooManyAppenders);
        }
        let ghost g = log.global@;
        let ghost apps = log.configs@;
        let n = log.configs.appenders.len();
        let mut resolved: Vec<(String, AppenderLogConfig)> = Vec::new();
        let mut idx: usize = 0;
        while idx < n
            invariant
                idx <= n,
                n == log.configs.appenders@.len(),
                apps == log.configs@,
                g == log.global@,
                resolved@.len() == idx,
                forall|i: int|
                    0 <= i < idx ==> entry_level_valid(g, #[trigger] apps[i].1),
                forall|i: int|
                    0 <= i < idx ==> (#[trigger] resolved@[i].0@, resolved@[i].1@)
                        == resolve_entry(data_dir@, apps[i]),
            decreases n - idx,
        {
            let name = log.configs.appenders[idx].0.clone();
            let chosen: &String = if let Some(e) = &log.global.level_from_env {
                e
            } else {
                let own: &Option<String> = match &log.configs.appenders[idx].1 {
                    AppenderLogConfig::Console(c) => &c.level,
                    AppenderLogConfig::File(f) => &f.level,
                };
                if let Some(l) = own {
                    l
                } else {
                    &log.global.level
                }
            };
            if parse_verbosity(chosen.as_str()).is_none() {
                proof {
                    assert(apps[idx as int] == (
                        log.configs.appenders@[idx as int].0@,
                        log.configs.appenders@[idx as int].1@,
                    ));
                    assert(chosen@ == chosen_level(g, apps[idx as int].1));
                    assert(!entry_level_valid(g, apps[idx as int].1));
                    assert(exists|i: int|
                        0 <= i < apps.len() && !entry_level_valid(g, apps[i].1));
                }
                return Err(ConfigError::InvalidLevel);
            }
            let entry: AppenderLogConfig = match &log.configs.appenders[idx].1 {
                AppenderLogConfig::Console(c) => AppenderLogConfig::Console(
                    ConsoleLogConfig {
                        color: c.color,
                        level: clone_opt_string(&c.level),
                        format: c.format,
                        target: c.target,
                    },
                ),
                AppenderLogConfig::File(f) => AppenderLogConfig::File(
                    FileLogConfig {
                        color: f.color,
                        level: clone_opt_string(&f.level),
                        format: f.format,
                        path: join_path(data_dir, f.path.as_str()),
                        mode: f.mode,
                    },
                ),
            };
            resolved.push((name, entry));
            idx += 1;
        }
        let out = Log { global: log.global, configs: LogConfigs { appenders: resolved } };
        proof {
            assert(out@.appenders =~= apps.map_values(|e| resolve_entry(data_dir@, e)));
            assert(spec_finalize(pre, data_dir@, view_opt_string(env_level)) == Ok::<
                LogV,
                ConfigError,
            >(out@));
            assert(out@.wf());
        }
        Ok(out)
    }
}

} // verus!
