//! The general laws of the pipeline, stated and proved once for all
//! inputs: completeness and order preservation of assembly, the default
//! for an empty appender mapping, rejection of an oversized configuration,
//! per-snapshot consistency of emission decisions, and idempotence of
//! reload.

use vstd::prelude::*;

use crate::config::{
    chosen_level, entry_level_valid, resolve_entry, spec_console_default, spec_finalize,
    spec_names_unique, spec_normalized, AppenderLogConfigV, ConfigError, LogV, MAX_APPENDERS,
};
use crate::level::{spec_enables, LogLevel};
use crate::snapshot::{spec_assemble, spec_build_appender, ActiveAppenderV};
use crate::dispatch::{spec_decisions, spec_interested, spec_reload};

verus! {

/// For every validated configuration, assembly succeeds and produces
/// exactly one active appender per entry, in the configuration's insertion
/// order: entry `i` of the snapshot is built from entry `i` of the mapping
/// and the global defaults.
pub proof fn lemma_assembly_complete(l: LogV)
    requires
        l.wf(),
    ensures
        spec_assemble(l) is Ok,
        spec_assemble(l)->Ok_0.len() == l.appenders.len(),
        forall|i: int|
            0 <= i < l.appenders.len() ==> Ok::<ActiveAppenderV, ConfigError>(
                #[trigger] spec_assemble(l)->Ok_0[i],
            ) == spec_build_appender(l.global, l.appenders[i].1),
{
    assert forall|i: int|
        0 <= i < l.appenders.len() implies spec_build_appender(
        l.global,
        #[trigger] l.appenders[i].1,
    ) is Ok by {
        assert(entry_level_valid(l.global, l.appenders[i].1));
    }
}

/// Every configuration that validation accepts is well-formed, and its
/// assembly succeeds with exactly one active appender per normalized
/// entry: for any accepted configuration — which has between one and
/// [`MAX_APPENDERS`] appenders — the snapshot holds exactly that many.
pub proof fn lemma_accepted_configurations_assemble(
    l: LogV,
    dir: Seq<char>,
    env: Option<Seq<char>>,
)
    requires
        spec_finalize(l, dir, env) is Ok,
    ensures
        spec_finalize(l, dir, env)->Ok_0.wf(),
        spec_assemble(spec_finalize(l, dir, env)->Ok_0) is Ok,
        spec_assemble(spec_finalize(l, dir, env)->Ok_0)->Ok_0.len() == spec_normalized(
            l.appenders,
        ).len(),
        1 <= spec_normalized(l.appenders).len() <= MAX_APPENDERS,
{
    let f = spec_finalize(l, dir, env)->Ok_0;
    let apps = spec_normalized(l.appenders);
    assert(f.appenders == apps.map_values(|e| resolve_entry(dir, e)));
    assert forall|i: int| 0 <= i < apps.len() implies (#[trigger] f.appenders[i]).0 == apps[i].0
        && chosen_level(f.global, f.appenders[i].1) == chosen_level(f.global, apps[i].1) by {
        assert(f.appenders[i] == resolve_entry(dir, apps[i]));
        match apps[i].1 {
            AppenderLogConfigV::Console(_) => {},
            AppenderLogConfigV::File(_) => {},
        }
    }
    assert(f.wf());
    lemma_assembly_complete(f);
}

/// An empty appender mapping always normalizes to exactly one console
/// appender: the stock console appender named `stdout`. It carries no
/// override of its own, so it filters at the environment override when one
/// is set and at the global default level otherwise.
pub proof fn lemma_empty_mapping_defaults_to_console(
    l: LogV,
    dir: Seq<char>,
    env: Option<Seq<char>>,
)
    requires
        l.appenders.len() == 0,
    ensures
        spec_normalized(l.appenders) =~= seq![
            ("stdout"@, AppenderLogConfigV::Console(spec_console_default())),
        ],
        spec_finalize(l, dir, env) matches Ok(f) ==> {
            &&& f.appenders.len() == 1
            &&& f.appenders[0] == ("stdout"@, AppenderLogConfigV::Console(spec_console_default()))
            &&& chosen_level(f.global, f.appenders[0].1) == (match env {
                Some(e) => e,
                None => l.global.level,
            })
        },
{
}

/// A configuration with more appenders than the platform ceiling is always
/// rejected by validation: no validated configuration — hence no snapshot,
/// and no opened writer — ever comes out of it. When its names are unique,
/// the rejection is precisely the count overflow.
pub proof fn lemma_overflow_always_rejected(l: LogV, dir: Seq<char>, env: Option<Seq<char>>)
    requires
        l.appenders.len() > MAX_APPENDERS,
    ensures
        spec_finalize(l, dir, env) is Err,
        spec_names_unique(l.appenders) ==> spec_finalize(l, dir, env) == Err::<LogV, ConfigError>(
            ConfigError::TooManyAppenders,
        ),
{
    assert(spec_normalized(l.appenders) == l.appenders);
}

/// Every record is judged against exactly one snapshot: entry `i` of a
/// decision vector is the verdict of appender `i`'s own compiled filter in
/// that one snapshot, and the call-site interest verdict is the
/// disjunction of precisely those entries — never a mix of two snapshots'
/// decisions.
pub proof fn lemma_decisions_pointwise(s: Seq<ActiveAppenderV>, l: LogLevel)
    ensures
        spec_decisions(s, l).len() == s.len(),
        forall|i: int|
            0 <= i < s.len() ==> spec_decisions(s, l)[i] == spec_enables(
                #[trigger] s[i].filter,
                l,
            ),
        spec_interested(s, l) <==> exists|i: int|
            0 <= i < s.len() && spec_decisions(s, l)[i],
{
    assert forall|i: int| 0 <= i < s.len() implies spec_decisions(s, l)[i] == spec_enables(
        #[trigger] s[i].filter,
        l,
    ) by {}
    if spec_interested(s, l) {
        let i = choose|i: int| 0 <= i < s.len() && spec_enables(s[i].filter, l);
        assert(spec_decisions(s, l)[i]);
    }
    if exists|i: int| 0 <= i < s.len() && spec_decisions(s, l)[i] {
        let i = choose|i: int| 0 <= i < s.len() && spec_decisions(s, l)[i];
        assert(spec_enables(s[i].filter, l));
    }
}

/// Reload is idempotent: reloading twice in a row with one snapshot leaves
/// the dispatch stage in exactly the state a single reload produces,
/// whatever state it started from — the published snapshot and the verdict
/// cache, and with them all observable filtering, are identical.
pub proof fn lemma_reload_idempotent(
    pre: (Seq<ActiveAppenderV>, Seq<Option<bool>>),
    s: Seq<ActiveAppenderV>,
)
    ensures
        spec_reload(spec_reload(pre, s), s) == spec_reload(pre, s),
{
}

} // verus!
