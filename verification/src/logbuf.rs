//! Capped, sequence-numbered in-memory log tail.
//!
//! Every probe tick and every alert line is mirrored into this buffer for
//! live display.  The buffer keeps at most the 100 most recent entries,
//! evicting the oldest first, and assigns each entry the next sequence
//! number, starting at 1 and restarting at 1 whenever a monitoring run
//! starts.

use std::collections::VecDeque;
use vstd::prelude::*;

verus! {

/// Capacity of the in-memory tail: entries beyond the 100 most recent are
/// evicted, oldest first.
pub const LOG_CAPACITY: usize = 100;

/// One emitted log line with its sequence number.  Immutable once created.
pub struct LogEntry {
    pub seq: u64,
    pub line: String,
}

/// Mathematical model of a [`LogEntry`].
pub struct LogEntryModel {
    pub seq: u64,
    pub line: Seq<char>,
}

impl View for LogEntry {
    type V = LogEntryModel;

    open spec fn view(&self) -> LogEntryModel {
        LogEntryModel { seq: self.seq, line: self.line@ }
    }
}

/// The ring buffer: the next sequence number to hand out, and the entries in
/// insertion order (oldest first).
pub struct LogBuffer {
    pub next_seq: u64,
    pub entries: VecDeque<LogEntry>,
}

/// Model of the buffer's entries in insertion order.
pub open spec fn entries_model(b: &LogBuffer) -> Seq<LogEntryModel> {
    b.entries@.map_values(|e: LogEntry| e@)
}

impl LogBuffer {
    /// Well-formedness: the buffer never exceeds the capacity, every held
    /// sequence number is at least 1 and below the next one to hand out, and
    /// sequence numbers strictly increase in insertion order.  The counter
    /// saturates at `u64::MAX`; the clauses that order entries are therefore
    /// stated up to that ceiling.
    pub open spec fn wf(&self) -> bool {
        &&& self.entries@.len() <= LOG_CAPACITY
        &&& self.next_seq >= 1
        &&& forall|i: int|
            0 <= i < self.entries@.len() ==> 1 <= #[trigger] self.entries@[i]@.seq
        &&& forall|i: int|
            0 <= i < self.entries@.len() ==> (#[trigger] self.entries@[i]@.seq < self.next_seq
                || self.next_seq == u64::MAX)
        &&& forall|i: int, j: int|
            0 <= i < j < self.entries@.len() ==> (#[trigger] self.entries@[i]@.seq
                < #[trigger] self.entries@[j]@.seq || self.entries@[j]@.seq == u64::MAX)
    }

    /// A fresh, empty buffer whose first entry will get sequence number 1.
    pub fn new() -> (r: LogBuffer)
        ensures
            r.wf(),
            r.next_seq == 1,
            entries_model(&r) == Seq::<LogEntryModel>::empty(),
    {
        let r = LogBuffer { next_seq: 1, entries: VecDeque::new() };
        proof {
            assert(entries_model(&r) =~= Seq::<LogEntryModel>::empty());
        }
        r
    }

    /// Empty the buffer and restart the sequence at 1, as a fresh monitoring
    /// run demands.
    pub fn reset(&mut self)
        ensures
            final(self).wf(),
            final(self).next_seq == 1,
            entries_model(final(self)) == Seq::<LogEntryModel>::empty(),
    {
        self.entries.clear();
        self.next_seq = 1;
        proof {
            assert(entries_model(self) =~= Seq::<LogEntryModel>::empty());
        }
    }

    /// A copy of the held entries in insertion order.
    pub fn snapshot(&self) -> (r: Vec<LogEntry>)
        ensures
            r@.map_values(|e: LogEntry| e@) == entries_model(self),
    {
        let mut r: Vec<LogEntry> = Vec::new();
        let mut i: usize = 0;
        while i < self.entries.len()
            invariant
                i <= self.entries@.len(),
                r@.len() == i,
                forall|k: int| 0 <= k < i ==> #[trigger] r@[k]@ == entries_model(self)[k],
            decreases self.entries@.len() - i,
        {
            let e = &self.entries[i];
            r.push(LogEntry { seq: e.seq, line: e.line.clone() });
            i = i + 1;
        }
        proof {
            assert(r@.map_values(|e: LogEntry| e@) =~= entries_model(self));
        }
        r
    }
}

/// Append `line` to the buffer under the next sequence number and return that
/// number.  The oldest entry is evicted once the capacity is exceeded, so the
/// buffer never grows beyond [`LOG_CAPACITY`] entries; the counter advances
/// saturating at `u64::MAX`.
pub fn push_log(logs: &mut LogBuffer, line: String) -> (seq: u64)
    requires
        old(logs).wf(),
    ensures
        final(logs).wf(),
        seq == old(logs).next_seq,
        final(logs).next_seq == old(logs).next_seq.saturating_add(1),
        entries_model(final(logs)) == ({
            let grown = entries_model(old(logs)).push(LogEntryModel { seq, line: line@ });
            if grown.len() > LOG_CAPACITY {
                grown.subrange(1, grown.len() as int)
            } else {
                grown
            }
        }),
{
    let seq = logs.next_seq;
    logs.next_seq = logs.next_seq.saturating_add(1);
    logs.entries.push_back(LogEntry { seq, line });
    if logs.entries.len() > LOG_CAPACITY {
        let _ = logs.entries.pop_front();
    }
    proof {
        let grown = entries_model(old(logs)).push(LogEntryModel { seq, line: line@ });
        if grown.len() > LOG_CAPACITY {
            assert(entries_model(logs) =~= grown.subrange(1, grown.len() as int));
        } else {
            assert(entries_model(logs) =~= grown);
        }
    }
    seq
}

/// Law: while the sequence counter has not reached its ceiling, the held
/// sequence numbers are strictly increasing in insertion order, with no
/// side condition.
pub proof fn lemma_seqs_strictly_increasing(b: &LogBuffer)
    requires
        b.wf(),
        b.next_seq < u64::MAX,
    ensures
        forall|i: int, j: int|
            0 <= i < j < entries_model(b).len() ==> #[trigger] entries_model(b)[i].seq
                < #[trigger] entries_model(b)[j].seq,
{
}

} // verus!
