//! Per-component lifecycle tracking: which phase each supervised software
//! component is in, with its last message and last update time.

use crate::clock::current_timestamp_ms;
use vstd::prelude::*;

verus! {

/// Identity of a supervised software component. Closed set.
#[derive(Debug, Clone, Copy, PartialEq, Eq, Structural, Hash)]
pub enum SoftwareKind {
    Emulator,
    Maa,
}

/// Lifecycle state of a component. No phase is terminal; any phase can be
/// re-entered.
#[derive(Debug, Clone, Copy, PartialEq, Eq, Structural)]
pub enum SoftwarePhase {
    Unknown,
    Idle,
    Starting,
    Running,
    Stopping,
    Stopped,
    Error,
}

/// Snapshot of one component's state at some moment.
#[derive(Debug)]
pub struct SoftwareStatus {
    pub kind: SoftwareKind,
    pub phase: SoftwarePhase,
    pub last_message: Option<String>,
    pub last_updated_ms: u64,
}

impl SoftwareStatus {
    /// A fresh status with the given phase, no message, stamped with the
    /// current wall-clock time.
    pub fn with_phase(kind: SoftwareKind, phase: SoftwarePhase) -> (s: SoftwareStatus)
        ensures
            s.kind == kind,
            s.phase == phase,
            s.last_message is None,
    {
        SoftwareStatus { kind, phase, last_message: None, last_updated_ms: current_timestamp_ms() }
    }

    /// A field-for-field copy of this status.
    pub fn duplicate(&self) -> (r: SoftwareStatus)
        ensures
            r == *self,
    {
        SoftwareStatus {
            kind: self.kind,
            phase: self.phase,
            last_message: match &self.last_message {
                Some(m) => Some(m.clone()),
                None => None,
            },
            last_updated_ms: self.last_updated_ms,
        }
    }
}

/// One entry per known component; mutated in place, never removed.
#[derive(Debug)]
pub struct StatusTable {
    pub emulator: SoftwareStatus,
    pub maa: SoftwareStatus,
}

/// The entry of `t` after an update of `kind` with `phase` and `message`,
/// stamped `now`: the phase and timestamp are overwritten, the message only
/// when a new one is supplied.
pub open spec fn updated_entry(
    e: SoftwareStatus,
    kind: SoftwareKind,
    phase: SoftwarePhase,
    message: Option<String>,
    now: u64,
) -> SoftwareStatus {
    SoftwareStatus {
        kind,
        phase,
        last_message: if message is Some {
            message
        } else {
            e.last_message
        },
        last_updated_ms: now,
    }
}

/// The whole table after an update of `kind`: that entry is rewritten, the
/// other entry is untouched.
pub open spec fn spec_updated(
    t: StatusTable,
    kind: SoftwareKind,
    phase: SoftwarePhase,
    message: Option<String>,
    now: u64,
) -> StatusTable {
    match kind {
        SoftwareKind::Emulator => StatusTable {
            emulator: updated_entry(t.emulator, kind, phase, message, now),
            maa: t.maa,
        },
        SoftwareKind::Maa => StatusTable {
            emulator: t.emulator,
            maa: updated_entry(t.maa, kind, phase, message, now),
        },
    }
}

/// What a snapshot of the table returns: every entry, one per kind.
pub open spec fn spec_snapshot(t: StatusTable) -> Seq<SoftwareStatus> {
    seq![t.emulator, t.maa]
}

impl StatusTable {
    /// The entry tracked for `kind`.
    pub open spec fn spec_get(&self, kind: SoftwareKind) -> SoftwareStatus {
        match kind {
            SoftwareKind::Emulator => self.emulator,
            SoftwareKind::Maa => self.maa,
        }
    }

    /// Each entry carries the kind it is filed under.
    pub open spec fn wf(&self) -> bool {
        self.emulator.kind == SoftwareKind::Emulator && self.maa.kind == SoftwareKind::Maa
    }

    /// The initial table: the emulator is stopped, the task runner is idle.
    pub fn new() -> (t: StatusTable)
        ensures
            t.wf(),
            t.spec_get(SoftwareKind::Emulator).phase == SoftwarePhase::Stopped,
            t.spec_get(SoftwareKind::Maa).phase == SoftwarePhase::Idle,
            t.spec_get(SoftwareKind::Emulator).last_message is None,
            t.spec_get(SoftwareKind::Maa).last_message is None,
    {
        StatusTable {
            emulator: SoftwareStatus::with_phase(SoftwareKind::Emulator, SoftwarePhase::Stopped),
            maa: SoftwareStatus::with_phase(SoftwareKind::Maa, SoftwarePhase::Idle),
        }
    }

    /// Overwrite the phase and timestamp of the entry for `kind`, and its
    /// message when one is supplied; the other entry is untouched. Returns
    /// a copy of the post-update entry for downstream publishing.
    pub fn update(
        &mut self,
        kind: SoftwareKind,
        phase: SoftwarePhase,
        message: Option<String>,
    ) -> (r: SoftwareStatus)
        requires
            old(self).wf(),
        ensures
            final(self).wf(),
            r == final(self).spec_get(kind),
            *final(self) == spec_updated(*old(self), kind, phase, message, r.last_updated_ms),
    {
        let now = current_timestamp_ms();
        match kind {
            SoftwareKind::Emulator => {
                self.emulator.kind = kind;
                self.emulator.phase = phase;
                self.emulator.last_updated_ms = now;
                if let Some(m) = message {
                    self.emulator.last_message = Some(m);
                }
                self.emulator.duplicate()
            },
            SoftwareKind::Maa => {
                self.maa.kind = kind;
                self.maa.phase = phase;
                self.maa.last_updated_ms = now;
                if let Some(m) = message {
                    self.maa.last_message = Some(m);
                }
                self.maa.duplicate()
            },
        }
    }

    /// A copy of every entry. Takes `&self`: the table itself is left
    /// untouched, so two consecutive snapshots with no intervening update
    /// are equal.
    pub fn snapshot_all(&self) -> (r: Vec<SoftwareStatus>)
        ensures
            r@ == spec_snapshot(*self),
    {
        let mut out: Vec<SoftwareStatus> = Vec::new();
        out.push(self.emulator.duplicate());
        out.push(self.maa.duplicate());
        proof {
            assert(out@ =~= spec_snapshot(*self));
        }
        out
    }
}

/// After an update for `kind`, a snapshot of the table contains an entry
/// for `kind` whose phase is exactly the new phase, and whose message is
/// the supplied one when present and the previous one otherwise.
pub proof fn lemma_update_visible_in_snapshot(
    t: StatusTable,
    kind: SoftwareKind,
    phase: SoftwarePhase,
    message: Option<String>,
    now: u64,
)
    requires
        t.wf(),
    ensures
        ({
            let snap = spec_snapshot(spec_updated(t, kind, phase, message, now));
            exists|i: int|
                0 <= i < snap.len() && (#[trigger] snap[i]).kind == kind && snap[i].phase == phase
                    && (message is Some ==> snap[i].last_message == message) && (message is None
                    ==> snap[i].last_message == t.spec_get(kind).last_message)
        }),
{
    let snap = spec_snapshot(spec_updated(t, kind, phase, message, now));
    match kind {
        SoftwareKind::Emulator => {
            assert(snap[0].kind == kind && snap[0].phase == phase);
        },
        SoftwareKind::Maa => {
            assert(snap[1].kind == kind && snap[1].phase == phase);
        },
    }
}

} // verus!
