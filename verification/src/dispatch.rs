//! The reloadable dispatch stage.
//!
//! The stage holds the currently active snapshot and serves every record
//! against it: the decision vector of one record is computed from exactly
//! one snapshot value, never from a mix of two. A reload publishes the new
//! snapshot whole and drops every cached call-site verdict, so no stale
//! verdict can ever be served against a snapshot it was not computed from
//! — the coherence invariant [`DispatchStage::wf`] says precisely that.
//!
//! The process-wide one-time installation of the stage as the global sink
//! is modeled by [`Registration`].

use vstd::prelude::*;

use crate::level::{spec_enables, LogLevel};
use crate::snapshot::{ActiveAppenderV, Snapshot};

verus! {

/// The decision vector of one snapshot for one record severity: entry `i`
/// says whether appender `i` accepts the record.
pub open spec fn spec_decisions(s: Seq<ActiveAppenderV>, l: LogLevel) -> Seq<bool> {
    Seq::new(s.len(), |i: int| spec_enables(s[i].filter, l))
}

/// The call-site interest verdict of one snapshot for one severity: some
/// appender accepts records of that severity.
pub open spec fn spec_interested(s: Seq<ActiveAppenderV>, l: LogLevel) -> bool {
    exists|i: int| 0 <= i < s.len() && spec_enables(s[i].filter, l)
}

/// The severity a cache slot stands for; slots are indexed by urgency.
pub open spec fn level_of_slot(i: int) -> LogLevel {
    if i == 0 {
        LogLevel::Error
    } else if i == 1 {
        LogLevel::Warn
    } else if i == 2 {
        LogLevel::Info
    } else if i == 3 {
        LogLevel::Debug
    } else {
        LogLevel::Trace
    }
}

/// The cache slot of a severity.
pub open spec fn slot_of_level(l: LogLevel) -> int {
    match l {
        LogLevel::Error => 0,
        LogLevel::Warn => 1,
        LogLevel::Info => 2,
        LogLevel::Debug => 3,
        LogLevel::Trace => 4,
    }
}

/// An empty verdict cache: one vacant slot per severity.
pub open spec fn spec_empty_cache() -> Seq<Option<bool>> {
    seq![None, None, None, None, None]
}

/// The abstract effect of a reload on the stage: the new snapshot is
/// published in its entirety and every cached verdict is dropped. The
/// prior state does not enter into it at all.
pub open spec fn spec_reload(
    pre: (Seq<ActiveAppenderV>, Seq<Option<bool>>),
    s: Seq<ActiveAppenderV>,
) -> (Seq<ActiveAppenderV>, Seq<Option<bool>>) {
    (s, spec_empty_cache())
}

/// The reloadable dispatch stage: the active snapshot, plus the per-call-
/// site interest cache — a memo of prior enabled/disabled verdicts, keyed
/// by record severity, that must never outlive the snapshot it was
/// computed from.
pub struct DispatchStage {
    pub snapshot: Snapshot,
    pub cache: Vec<Option<bool>>,
}

impl DispatchStage {
    /// Cache coherence: every filled slot holds the verdict the active
    /// snapshot itself would give. A stage that satisfies this can serve
    /// cached verdicts without ever serving a stale one.
    pub open spec fn wf(&self) -> bool {
        &&& self.cache@.len() == 5
        &&& forall|i: int|
            0 <= i < 5 ==> ((#[trigger] self.cache@[i]) matches Some(v) ==> v == spec_interested(
                self.snapshot@,
                level_of_slot(i),
            ))
    }

    /// Install the first snapshot; no verdict is cached yet.
    pub fn new(snapshot: Snapshot) -> (d: DispatchStage)
        ensures
            d.wf(),
            d.snapshot@ == snapshot@,
            d.cache@ == spec_empty_cache(),
    {
        let mut cache: Vec<Option<bool>> = Vec::new();
        cache.push(None);
        cache.push(None);
        cache.push(None);
        cache.push(None);
        cache.push(None);
        proof {
            assert(cache@ =~= spec_empty_cache());
        }
        DispatchStage { snapshot, cache }
    }

    /// Publish a new snapshot atomically and invalidate the whole verdict
    /// cache, exactly as [`spec_reload`] says. Without the invalidation, a
    /// call site whose verdict was cached under the old snapshot would
    /// silently keep that verdict; afterwards no slot is filled, so every
    /// later check is recomputed against the new snapshot.
    pub fn reload(&mut self, new_snapshot: Snapshot)
        ensures
            final (self).wf(),
            (final (self).snapshot@, final (self).cache@) == spec_reload(
                (old(self).snapshot@, old(self).cache@),
                new_snapshot@,
            ),
    {
        self.snapshot = new_snapshot;
        let mut cache: Vec<Option<bool>> = Vec::new();
        cache.push(None);
        cache.push(None);
        cache.push(None);
        cache.push(None);
        cache.push(None);
        self.cache = cache;
        proof {
            assert(self.cache@ =~= spec_empty_cache());
        }
    }

    /// Serve one record: evaluate every appender's compiled filter against
    /// the record's severity, in snapshot order. The whole decision vector
    /// comes from the one snapshot value this stage holds — one record is
    /// never judged by a mix of two snapshots.
    #[verifier::loop_isolation(false)]
    pub fn emit_decisions(&self, l: LogLevel) -> (d: Vec<bool>)
        ensures
            d@ == spec_decisions(self.snapshot@, l),
    {
        let n = self.snapshot.appenders.len();
        let mut d: Vec<bool> = Vec::new();
        let mut idx: usize = 0;
        while idx < n
            invariant
                idx <= n,
                n == self.snapshot.appenders@.len(),
                d@.len() == idx,
                forall|i: int|
                    0 <= i < idx ==> #[trigger] d@[i] == spec_enables(self@.snapshot[i].filter, l),
            decreases n - idx,
        {
            let accept = self.snapshot.appenders[idx].filter.enables(l);
            d.push(accept);
            idx += 1;
        }
        proof {
            assert(d@ =~= spec_decisions(self.snapshot@, l));
        }
        d
    }

    /// The cached call-site interest check: answer from the cache when a
    /// verdict is on file — the coherence invariant guarantees it equals
    /// the active snapshot's own verdict — and otherwise compute it
    /// against the active snapshot and file it.
    #[verifier::loop_isolation(false)]
    pub fn callsite_interested(&mut self, l: LogLevel) -> (r: bool)
        requires
            old(self).wf(),
        ensures
            final (self).wf(),
            r == spec_interested(old(self).snapshot@, l),
            final (self).snapshot@ == old(self).snapshot@,
    {
        let slot: usize = match l {
            LogLevel::Error => 0,
            LogLevel::Warn => 1,
            LogLevel::Info => 2,
            LogLevel::Debug => 3,
            LogLevel::Trace => 4,
        };
        if let Some(v) = self.cache[slot] {
            return v;
        }
        let n = self.snapshot.appenders.len();
        let mut found = false;
        let mut idx: usize = 0;
        while idx < n
            invariant
                idx <= n,
                n == self.snapshot.appenders@.len(),
                found == exists|i: int|
                    0 <= i < idx && spec_enables(#[trigger] self@.snapshot[i].filter, l),
            decreases n - idx,
        {
            proof {
                assert(self@.snapshot[idx as int] == self.snapshot.appenders@[idx as int]@);
            }
            if self.snapshot.appenders[idx].filter.enables(l) {
                found = true;
                proof {
                    assert(spec_enables(self@.snapshot[idx as int].filter, l));
                }
            } else {
                proof {
                    assert(!spec_enables(self@.snapshot[idx as int].filter, l));
                }
            }
            idx += 1;
        }
        self.cache[slot] = Some(found);
        found
    }
}

impl View for DispatchStage {
    type V = DispatchStageV;

    open spec fn view(&self) -> DispatchStageV {
        DispatchStageV { snapshot: self.snapshot@, cache: self.cache@ }
    }
}

/// Abstract value of a [`DispatchStage`].
#[verifier::ext_equal]
pub ghost struct DispatchStageV {
    pub snapshot: Seq<ActiveAppenderV>,
    pub cache: Seq<Option<bool>>,
}

/// One-time installation of the dispatch stage as the process's single
/// global sink: the first attempt succeeds, every later one is rejected.
pub struct Registration {
    pub installed: bool,
}

impl Registration {
    /// Nothing is installed yet.
    pub fn new() -> (r: Registration)
        ensures
            !r.installed,
    {
        Registration { installed: false }
    }

    /// Attempt the installation: succeeds exactly when nothing was
    /// installed before, and something is installed afterwards either way.
    pub fn install(&mut self) -> (fresh: bool)
        ensures
            fresh == !old(self).installed,
            final (self).installed,
    {
        let was = self.installed;
        self.installed = true;
        !was
    }
}

} // verus!
