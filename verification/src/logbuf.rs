//! Bounded, insertion-ordered log store: a ring buffer of timestamped
//! entries that evicts the oldest entry once the capacity is reached.

use crate::clock::current_timestamp_ms;
use vstd::prelude::*;

verus! {

/// Number of log entries kept in memory; pushing beyond it evicts the oldest.
pub const MAX_MEMORY_LOGS: usize = 200;

/// Severity of a log entry.
#[derive(Debug, Clone, Copy, PartialEq, Eq, Structural)]
pub enum LogLevel {
    Info,
    Warn,
    Error,
}

/// One timestamped log record.
#[derive(Debug)]
pub struct LogEntry {
    pub timestamp_ms: u64,
    pub level: LogLevel,
    pub message: String,
}

impl LogEntry {
    /// Create an entry stamped with the current wall-clock time.
    pub fn new(level: LogLevel, message: String) -> (e: LogEntry)
        ensures
            e.level == level,
            e.message == message,
    {
        LogEntry { timestamp_ms: current_timestamp_ms(), level, message }
    }

    /// A field-for-field copy of this entry.
    pub fn duplicate(&self) -> (e: LogEntry)
        ensures
            e == *self,
    {
        LogEntry {
            timestamp_ms: self.timestamp_ms,
            level: self.level,
            message: self.message.clone(),
        }
    }
}

/// One step of the ring discipline: append, evicting the oldest entry when
/// the buffer is already full.
pub open spec fn ring_push(s: Seq<LogEntry>, e: LogEntry) -> Seq<LogEntry> {
    if s.len() < MAX_MEMORY_LOGS {
        s.push(e)
    } else {
        s.push(e).drop_first()
    }
}

/// The ring discipline applied to a whole sequence of pushes, oldest first.
pub open spec fn ring_push_seq(s: Seq<LogEntry>, es: Seq<LogEntry>) -> Seq<LogEntry>
    decreases es.len(),
{
    if es.len() == 0 {
        s
    } else {
        ring_push_seq(ring_push(s, es[0]), es.drop_first())
    }
}

/// Pushing one more entry after a batch is the same as pushing the
/// extended batch.
pub proof fn lemma_ring_push_seq_push(s: Seq<LogEntry>, es: Seq<LogEntry>, e: LogEntry)
    ensures
        ring_push_seq(s, es.push(e)) == ring_push(ring_push_seq(s, es), e),
    decreases es.len(),
{
    if es.len() == 0 {
        assert(es.push(e).drop_first() =~= Seq::<LogEntry>::empty());
        assert(es.push(e)[0] == e);
        assert(ring_push_seq(ring_push(s, e), Seq::<LogEntry>::empty()) == ring_push(s, e));
        assert(ring_push_seq(s, es.push(e)) == ring_push_seq(ring_push(s, e), es.push(
            e,
        ).drop_first()));
    } else {
        assert(es.push(e).drop_first() =~= es.drop_first().push(e));
        assert(es.push(e)[0] == es[0]);
        lemma_ring_push_seq_push(ring_push(s, es[0]), es.drop_first(), e);
        assert(ring_push_seq(s, es.push(e)) == ring_push_seq(ring_push(s, es[0]), es.drop_first(
        ).push(e)));
        assert(ring_push_seq(s, es) == ring_push_seq(ring_push(s, es[0]), es.drop_first()));
    }
}

/// The suffix of `h` holding its last `cap` elements (all of `h` when it is
/// shorter than that).
pub open spec fn last_up_to(h: Seq<LogEntry>, cap: int) -> Seq<LogEntry> {
    if h.len() <= cap {
        h
    } else {
        h.subrange(h.len() - cap, h.len() as int)
    }
}

/// Eviction is strictly FIFO: starting from any buffer within capacity,
/// after any sequence of pushes the buffer never exceeds the capacity and
/// holds exactly the most recent entries of the full history `s + es`, in
/// original order.
pub proof fn lemma_ring_fifo(s: Seq<LogEntry>, es: Seq<LogEntry>)
    requires
        s.len() <= MAX_MEMORY_LOGS,
    ensures
        ring_push_seq(s, es).len() <= MAX_MEMORY_LOGS,
        ring_push_seq(s, es) == last_up_to(s + es, MAX_MEMORY_LOGS as int),
    decreases es.len(),
{
    if es.len() == 0 {
        assert(s + es =~= s);
    } else {
        let s1 = ring_push(s, es[0]);
        lemma_ring_fifo(s1, es.drop_first());
        if s.len() < MAX_MEMORY_LOGS {
            assert(s1 + es.drop_first() =~= s + es);
        } else {
            assert(s1 + es.drop_first() =~= (s + es).drop_first());
            assert(last_up_to((s + es).drop_first(), MAX_MEMORY_LOGS as int) =~= last_up_to(
                s + es,
                MAX_MEMORY_LOGS as int,
            ));
        }
    }
}

/// Fixed-capacity, insertion-ordered log buffer.
#[derive(Debug)]
pub struct LogBuffer {
    entries: Vec<LogEntry>,
}

impl View for LogBuffer {
    type V = Seq<LogEntry>;

    closed spec fn view(&self) -> Seq<LogEntry> {
        self.entries@
    }
}

impl LogBuffer {
    /// The buffer never holds more than the capacity.
    pub open spec fn wf(&self) -> bool {
        self@.len() <= MAX_MEMORY_LOGS
    }

    /// An empty buffer.
    pub fn new() -> (b: LogBuffer)
        ensures
            b.wf(),
            b@ == Seq::<LogEntry>::empty(),
    {
        LogBuffer { entries: Vec::new() }
    }

    /// Stamp the current time on a new entry, append it, evict the oldest
    /// entry if the capacity would be exceeded, and return a copy of the
    /// stored entry for downstream publishing.
    pub fn push(&mut self, level: LogLevel, message: String) -> (e: LogEntry)
        requires
            old(self).wf(),
        ensures
            final(self).wf(),
            final(self)@ == ring_push(old(self)@, e),
            e.level == level,
            e.message == message,
    {
        let entry = LogEntry::new(level, message);
        let out = entry.duplicate();
        self.entries.push(entry);
        if self.entries.len() > MAX_MEMORY_LOGS {
            self.entries.remove(0);
            proof {
                assert(final(self)@ =~= ring_push(old(self)@, out));
            }
        }
        out
    }

    /// A copy of the buffer, oldest entry first. Takes `&self`: the buffer
    /// itself is left untouched, so two consecutive snapshots with no
    /// intervening push are equal.
    pub fn snapshot(&self) -> (r: Vec<LogEntry>)
        ensures
            r@ == self@,
    {
        let mut out: Vec<LogEntry> = Vec::new();
        let mut i: usize = 0;
        while i < self.entries.len()
            invariant
                0 <= i <= self.entries@.len(),
                out@ == self.entries@.take(i as int),
            decreases self.entries@.len() - i,
        {
            out.push(self.entries[i].duplicate());
            proof {
                assert(out@ =~= self.entries@.take(i as int + 1));
            }
            i += 1;
        }
        proof {
            assert(self.entries@.take(self.entries@.len() as int) =~= self.entries@);
        }
        out
    }

    /// Number of stored entries.
    pub fn len(&self) -> (n: usize)
        ensures
            n == self@.len(),
    {
        self.entries.len()
    }
}

} // verus!
