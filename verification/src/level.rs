//! Record severities and verbosity thresholds.
//!
//! A verbosity filter is "compiled" from its textual form into a
//! [`Verbosity`] threshold once, when a configuration is assembled; at
//! emission time the filter decision is a plain rank comparison.

use vstd::prelude::*;
use vstd::string::StrSliceExecFns;

verus! {

/// Severity of one log record, from most urgent (`Error`) to least (`Trace`).
#[derive(Clone, Copy, Debug, PartialEq, Eq, Structural)]
pub enum LogLevel {
    Error,
    Warn,
    Info,
    Debug,
    Trace,
}

/// Threshold of a compiled verbosity filter. `Off` rejects every record;
/// `Trace` accepts every record.
#[derive(Clone, Copy, Debug, PartialEq, Eq, Structural)]
pub enum Verbosity {
    Off,
    Error,
    Warn,
    Info,
    Debug,
    Trace,
}

/// Numeric urgency of a record severity; smaller is more urgent.
pub open spec fn level_rank(l: LogLevel) -> int {
    match l {
        LogLevel::Error => 1,
        LogLevel::Warn => 2,
        LogLevel::Info => 3,
        LogLevel::Debug => 4,
        LogLevel::Trace => 5,
    }
}

/// Height of a filter threshold; the filter passes exactly the records whose
/// rank does not exceed it.
pub open spec fn verbosity_rank(v: Verbosity) -> int {
    match v {
        Verbosity::Off => 0,
        Verbosity::Error => 1,
        Verbosity::Warn => 2,
        Verbosity::Info => 3,
        Verbosity::Debug => 4,
        Verbosity::Trace => 5,
    }
}

/// The filter decision: a threshold `v` accepts a record of severity `l`
/// exactly when the record is at least as urgent as the threshold.
pub open spec fn spec_enables(v: Verbosity, l: LogLevel) -> bool {
    level_rank(l) <= verbosity_rank(v)
}

impl Verbosity {
    /// Evaluate the compiled verbosity predicate on one record severity.
    pub fn enables(self, l: LogLevel) -> (r: bool)
        ensures
            r == spec_enables(self, l),
    {
        let vr: u8 = match self {
            Verbosity::Off => 0,
            Verbosity::Error => 1,
            Verbosity::Warn => 2,
            Verbosity::Info => 3,
            Verbosity::Debug => 4,
            Verbosity::Trace => 5,
        };
        let lr: u8 = match l {
            LogLevel::Error => 1,
            LogLevel::Warn => 2,
            LogLevel::Info => 3,
            LogLevel::Debug => 4,
            LogLevel::Trace => 5,
        };
        lr <= vr
    }
}

/// Case-insensitive match of one character against a letter given in both
/// cases.
pub open spec fn ci(c: char, lo: char, up: char) -> bool {
    c == lo || c == up
}

/// The word `off`, in any letter case, or the digit `0`.
pub open spec fn is_off_text(s: Seq<char>) -> bool {
    ||| (s.len() == 3 && ci(s[0], 'o', 'O') && ci(s[1], 'f', 'F') && ci(s[2], 'f', 'F'))
    ||| (s.len() == 1 && s[0] == '0')
}

/// The word `error`, in any letter case, or the digit `1`.
pub open spec fn is_error_text(s: Seq<char>) -> bool {
    ||| (s.len() == 5 && ci(s[0], 'e', 'E') && ci(s[1], 'r', 'R') && ci(s[2], 'r', 'R')
        && ci(s[3], 'o', 'O') && ci(s[4], 'r', 'R'))
    ||| (s.len() == 1 && s[0] == '1')
}

/// The word `warn`, in any letter case, or the digit `2`.
pub open spec fn is_warn_text(s: Seq<char>) -> bool {
    ||| (s.len() == 4 && ci(s[0], 'w', 'W') && ci(s[1], 'a', 'A') && ci(s[2], 'r', 'R')
        && ci(s[3], 'n', 'N'))
    ||| (s.len() == 1 && s[0] == '2')
}

/// The word `info`, in any letter case, or the digit `3`.
pub open spec fn is_info_text(s: Seq<char>) -> bool {
    ||| (s.len() == 4 && ci(s[0], 'i', 'I') && ci(s[1], 'n', 'N') && ci(s[2], 'f', 'F')
        && ci(s[3], 'o', 'O'))
    ||| (s.len() == 1 && s[0] == '3')
}

/// The word `debug`, in any letter case, or the digit `4`.
pub open spec fn is_debug_text(s: Seq<char>) -> bool {
    ||| (s.len() == 5 && ci(s[0], 'd', 'D') && ci(s[1], 'e', 'E') && ci(s[2], 'b', 'B')
        && ci(s[3], 'u', 'U') && ci(s[4], 'g', 'G'))
    ||| (s.len() == 1 && s[0] == '4')
}

/// The word `trace`, in any letter case, or the digit `5`.
pub open spec fn is_trace_text(s: Seq<char>) -> bool {
    ||| (s.len() == 5 && ci(s[0], 't', 'T') && ci(s[1], 'r', 'R') && ci(s[2], 'a', 'A')
        && ci(s[3], 'c', 'C') && ci(s[4], 'e', 'E'))
    ||| (s.len() == 1 && s[0] == '5')
}

/// The verbosity grammar: a level name in any letter case, or a digit from
/// `0` to `5`. Any other text is invalid.
pub open spec fn verbosity_of(s: Seq<char>) -> Option<Verbosity> {
    if is_off_text(s) {
        Some(Verbosity::Off)
    } else if is_error_text(s) {
        Some(Verbosity::Error)
    } else if is_warn_text(s) {
        Some(Verbosity::Warn)
    } else if is_info_text(s) {
        Some(Verbosity::Info)
    } else if is_debug_text(s) {
        Some(Verbosity::Debug)
    } else if is_trace_text(s) {
        Some(Verbosity::Trace)
    } else {
        None
    }
}

/// Compile one verbosity string into its threshold, or report that the text
/// is not a level.
pub fn parse_verbosity(s: &str) -> (r: Option<Verbosity>)
    ensures
        r == verbosity_of(s@),
{
    let n = s.unicode_len();
    if n == 1 {
        let c = s.get_char(0);
        if c == '0' {
            Some(Verbosity::Off)
        } else if c == '1' {
            Some(Verbosity::Error)
        } else if c == '2' {
            Some(Verbosity::Warn)
        } else if c == '3' {
            Some(Verbosity::Info)
        } else if c == '4' {
            Some(Verbosity::Debug)
        } else if c == '5' {
            Some(Verbosity::Trace)
        } else {
            None
        }
    } else if n == 3 {
        let c0 = s.get_char(0);
        let c1 = s.get_char(1);
        let c2 = s.get_char(2);
        if (c0 == 'o' || c0 == 'O') && (c1 == 'f' || c1 == 'F') && (c2 == 'f' || c2 == 'F') {
            Some(Verbosity::Off)
        } else {
            None
        }
    } else if n == 4 {
        let c0 = s.get_char(0);
        let c1 = s.get_char(1);
        let c2 = s.get_char(2);
        let c3 = s.get_char(3);
        if (c0 == 'w' || c0 == 'W') && (c1 == 'a' || c1 == 'A') && (c2 == 'r' || c2 == 'R')
            && (c3 == 'n' || c3 == 'N') {
            Some(Verbosity::Warn)
        } else if (c0 == 'i' || c0 == 'I') && (c1 == 'n' || c1 == 'N')
            && (c2 == 'f' || c2 == 'F') && (c3 == 'o' || c3 == 'O') {
            Some(Verbosity::Info)
        } else {
            None
        }
    } else if n == 5 {
        let c0 = s.get_char(0);
        let c1 = s.get_char(1);
        let c2 = s.get_char(2);
        let c3 = s.get_char(3);
        let c4 = s.get_char(4);
        if (c0 == 'e' || c0 == 'E') && (c1 == 'r' || c1 == 'R') && (c2 == 'r' || c2 == 'R')
            && (c3 == 'o' || c3 == 'O') && (c4 == 'r' || c4 == 'R') {
            Some(Verbosity::Error)
        } else if (c0 == 'd' || c0 == 'D') && (c1 == 'e' || c1 == 'E')
            && (c2 == 'b' || c2 == 'B') && (c3 == 'u' || c3 == 'U') && (c4 == 'g' || c4 == 'G') {
            Some(Verbosity::Debug)
        } else if (c0 == 't' || c0 == 'T') && (c1 == 'r' || c1 == 'R')
            && (c2 == 'a' || c2 == 'A') && (c3 == 'c' || c3 == 'C') && (c4 == 'e' || c4 == 'E') {
            Some(Verbosity::Trace)
        } else {
            None
        }
    } else {
        None
    }
}

/// The canonical lowercase spelling of each threshold.
pub open spec fn spec_verbosity_name(v: Verbosity) -> Seq<char> {
    match v {
        Verbosity::Off => "off"@,
        Verbosity::Error => "error"@,
        Verbosity::Warn => "warn"@,
        Verbosity::Info => "info"@,
        Verbosity::Debug => "debug"@,
        Verbosity::Trace => "trace"@,
    }
}

/// The canonical lowercase name of a threshold, as the underlying tracing
/// engine spells it; used by the unverified runtime to hand an already
/// validated level to the engine's own filter parser.
pub fn verbosity_name(v: Verbosity) -> (r: &'static str)
    ensures
        r@ == spec_verbosity_name(v),
        verbosity_of(r@) == Some(v),
{
    proof {
        reveal_strlit("off");
        reveal_strlit("error");
        reveal_strlit("warn");
        reveal_strlit("info");
        reveal_strlit("debug");
        reveal_strlit("trace");
    }
    match v {
        Verbosity::Off => "off",
        Verbosity::Error => "error",
        Verbosity::Warn => "warn",
        Verbosity::Info => "info",
        Verbosity::Debug => "debug",
        Verbosity::Trace => "trace",
    }
}

} // verus!
