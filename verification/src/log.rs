//! The durable log: an append-only, per-recipient ordered record of
//! delivered messages, addressed by a monotonic index starting at zero.
//! Well-formedness pins the chain: the entry at position `i` of the record
//! carries `next_idx == i + 1`, so per-actor indices are strictly increasing
//! and gapless. Compaction (`trim`) may drop held entries from the front;
//! the record a log denotes never changes, only how far back it can be read.

use vstd::prelude::*;

use crate::database::DbError;
use crate::kinds::AnyActorId;
use crate::kvmap::KvMap;
use crate::message::{AnyMessage, AnyMessageV};

verus! {

/// Mathematical shape of a log entry.
pub ghost struct LogEntryV {
    pub sender_id: AnyActorId,
    pub message: AnyMessageV,
    pub next_idx: u64,
}

/// One durably recorded delivery: who sent it, what was sent, and the index
/// the recipient advances to after dispatching it.
pub struct LogEntry {
    pub sender_id: AnyActorId,
    pub message: AnyMessage,
    pub next_idx: u64,
}

impl View for LogEntry {
    type V = LogEntryV;

    open spec fn view(&self) -> LogEntryV {
        LogEntryV { sender_id: self.sender_id, message: self.message@, next_idx: self.next_idx }
    }
}

pub open spec fn entries_view(s: Seq<LogEntry>) -> Seq<LogEntryV> {
    Seq::new(s.len(), |i: int| s[i]@)
}

/// One recipient's record: the entries still held, the index of the first of
/// them, and — as history carried only in specification — what compaction
/// dropped.
pub struct LogRecord {
    pub base: u64,
    pub entries: Vec<LogEntry>,
    pub trimmed: Ghost<Seq<LogEntryV>>,
}

impl LogRecord {
    /// The whole record from index zero, dropped entries included.
    pub open spec fn full(self) -> Seq<LogEntryV> {
        self.trimmed@ + entries_view(self.entries@)
    }

    pub open spec fn wf(self) -> bool {
        self.base == self.trimmed@.len() && self.full().len() <= u64::MAX
    }
}

/// The append-only log, one ordered record per recipient.
pub struct Log {
    pub logs: KvMap<AnyActorId, LogRecord>,
}

impl Log {
    /// The recipient's record from index zero; an actor never appended to
    /// has an empty one.
    pub open spec fn entries(self, id: AnyActorId) -> Seq<LogEntryV> {
        if self.logs@.contains_key(id) {
            self.logs@[id].full()
        } else {
            Seq::<LogEntryV>::empty()
        }
    }

    /// The first index still readable for the recipient; zero until
    /// compaction drops something.
    pub open spec fn base(self, id: AnyActorId) -> u64 {
        if self.logs@.contains_key(id) {
            self.logs@[id].base
        } else {
            0
        }
    }

    pub open spec fn wf(self) -> bool {
        self.logs.wf() && (forall|id: AnyActorId|
            self.logs@.contains_key(id) ==> (#[trigger] self.logs@[id]).wf()) && (forall|
            id: AnyActorId,
            i: int,
        |
            0 <= i < self.entries(id).len() ==> (#[trigger] self.entries(id)[i]).next_idx == i + 1)
    }

    pub fn new() -> (r: Log)
        ensures
            r.wf(),
            forall|id: AnyActorId| r.entries(id) == Seq::<LogEntryV>::empty(),
            forall|id: AnyActorId| r.base(id) == 0,
    {
        let r = Log { logs: KvMap::new() };
        proof {
            assert(forall|id: AnyActorId| r.entries(id) =~= Seq::<LogEntryV>::empty());
        }
        r
    }

    /// The entry a recipient should dispatch next, by its current index;
    /// absence means caught up — or, below the base, compacted away.
    pub fn read(&self, actor: AnyActorId, idx: u64) -> (r: Option<&LogEntry>)
        requires
            self.wf(),
        ensures
            match r {
                Some(e) => self.base(actor) <= idx < self.entries(actor).len() && e@
                    == self.entries(actor)[idx as int],
                None => idx >= self.entries(actor).len() || idx < self.base(actor),
            },
    {
        match self.logs.get(&actor) {
            Some(rec) => {
                if idx >= rec.base && idx - rec.base < rec.entries.len() as u64 {
                    let i = (idx - rec.base) as usize;
                    let e = &rec.entries[i];
                    proof {
                        assert(self.entries(actor)[idx as int] == rec.full()[idx as int]);
                        assert(rec.full()[idx as int] == entries_view(rec.entries@)[i as int]);
                    }
                    Some(e)
                } else {
                    None
                }
            },
            None => None,
        }
    }

    /// Durably records one delivery. The returned index is the recipient's
    /// record length so far: successive appends return strictly increasing,
    /// gapless indices from zero. Fails only when the recipient's record has
    /// exhausted the index space; no other record is touched.
    pub fn append(&mut self, from: AnyActorId, to: AnyActorId, message: AnyMessage) -> (r: Result<
        u64,
        DbError,
    >)
        requires
            old(self).wf(),
        ensures
            final(self).wf(),
            forall|id: AnyActorId| final(self).base(id) == old(self).base(id),
            match r {
                Ok(idx) => old(self).entries(to).len() < u64::MAX && idx == old(self).entries(
                    to,
                ).len() && final(self).entries(to) == old(self).entries(to).push(
                    LogEntryV { sender_id: from, message: message@, next_idx: (idx + 1) as u64 },
                ) && forall|other: AnyActorId|
                    other != to ==> final(self).entries(other) == old(self).entries(other),
                Err(e) => *final(self) == *old(self) && old(self).entries(to).len() >= u64::MAX,
            },
    {
        let total: u64 = match self.logs.get(&to) {
            Some(rec) => rec.base + rec.entries.len() as u64,
            None => 0,
        };
        if total == u64::MAX {
            return Err(DbError);
        }
        let mut rec: LogRecord = match self.logs.take(&to) {
            Some(rec) => rec,
            None => LogRecord { base: 0, entries: Vec::new(), trimmed: Ghost(Seq::empty()) },
        };
        let idx: u64 = total;
        rec.entries.push(LogEntry { sender_id: from, message, next_idx: idx + 1 });
        let ghost newrec = rec;
        self.logs.insert(to, rec);
        proof {
            assert(newrec.full() =~= old(self).entries(to).push(
                LogEntryV { sender_id: from, message: message@, next_idx: (idx + 1) as u64 },
            ));
            assert(forall|other: AnyActorId|
                other != to ==> self.entries(other) =~= old(self).entries(other));
            assert forall|id: AnyActorId, i: int|
                0 <= i < self.entries(id).len() implies (#[trigger] self.entries(id)[i]).next_idx
                == i + 1 by {
                if id == to {
                    if i < old(self).entries(to).len() {
                        assert(old(self).entries(to)[i].next_idx == i + 1);
                    }
                } else {
                    assert(self.entries(id) == old(self).entries(id));
                }
            }
        }
        Ok(idx)
    }

    /// Compaction hook: drops the recipient's held entries strictly below
    /// `idx` (never more than are held). The denoted record is unchanged —
    /// only the base below which reads answer absent moves up. Not required
    /// for correctness, only for bounding growth; the engine itself never
    /// compacts, so replay from zero stays possible.
    pub fn trim(&mut self, actor: AnyActorId, idx: u64)
        requires
            old(self).wf(),
        ensures
            final(self).wf(),
            forall|id: AnyActorId| final(self).entries(id) == old(self).entries(id),
            forall|id: AnyActorId|
                id != actor ==> final(self).base(id) == old(self).base(id),
            final(self).base(actor) == if !old(self).logs@.contains_key(actor) {
                0u64
            } else if idx <= old(self).base(actor) {
                old(self).base(actor)
            } else if idx >= old(self).entries(actor).len() {
                old(self).entries(actor).len() as u64
            } else {
                idx
            },
    {
        match self.logs.take(&actor) {
            None => {
                proof {
                    assert(self.logs@ =~= old(self).logs@);
                    lemma_log_wf_unchanged(*old(self), *self);
                }
            },
            Some(rec) => {
                let ghost recg = rec;
                if idx > rec.base {
                    let avail: u64 = rec.entries.len() as u64;
                    let want: u64 = idx - rec.base;
                    let cut: u64 = if want < avail {
                        want
                    } else {
                        avail
                    };
                    let mut held = rec.entries;
                    let kept = held.split_off(cut as usize);
                    let newrec = LogRecord {
                        base: rec.base + cut,
                        entries: kept,
                        trimmed: Ghost(recg.trimmed@ + entries_view(held@)),
                    };
                    let ghost newrecg = newrec;
                    self.logs.insert(actor, newrec);
                    proof {
                        assert(entries_view(held@) =~= entries_view(recg.entries@).subrange(
                            0,
                            cut as int,
                        ));
                        assert(entries_view(kept@) =~= entries_view(recg.entries@).subrange(
                            cut as int,
                            recg.entries@.len() as int,
                        ));
                        assert(entries_view(recg.entries@) =~= entries_view(held@) + entries_view(
                            kept@,
                        ));
                        assert(newrecg.full() =~= recg.full());
                        assert(newrecg.wf());
                        assert(forall|id: AnyActorId|
                            self.entries(id) =~= old(self).entries(id));
                        assert forall|id: AnyActorId| self.logs@.contains_key(
                            id,
                        ) implies (#[trigger] self.logs@[id]).wf() by {
                            if id != actor {
                                assert(self.logs@[id] == old(self).logs@[id]);
                            }
                        }
                        assert forall|id: AnyActorId, i: int|
                            0 <= i < self.entries(id).len() implies (#[trigger] self.entries(
                            id,
                        )[i]).next_idx == i + 1 by {
                            assert(self.entries(id) == old(self).entries(id));
                            assert(old(self).entries(id)[i].next_idx == i + 1);
                        }
                    }
                } else {
                    self.logs.insert(actor, rec);
                    proof {
                        assert(self.logs@ =~= old(self).logs@);
                        lemma_log_wf_unchanged(*old(self), *self);
                    }
                }
            },
        }
    }
}

proof fn lemma_log_wf_unchanged(pre: Log, post: Log)
    requires
        pre.wf(),
        post.logs.wf(),
        post.logs@ == pre.logs@,
    ensures
        post.wf(),
{
    assert forall|id: AnyActorId| post.logs@.contains_key(id) implies (#[trigger] post.logs@[id]).wf() by {
        assert(post.logs@[id] == pre.logs@[id]);
    }
    assert forall|id: AnyActorId, i: int|
        0 <= i < post.entries(id).len() implies (#[trigger] post.entries(id)[i]).next_idx == i
        + 1 by {
        assert(post.entries(id) == pre.entries(id));
        assert(pre.entries(id)[i].next_idx == i + 1);
    }
}

/// In a well-formed log, the index chain is strictly increasing and gapless:
/// the entry at position `i` hands the recipient index `i + 1`.
pub proof fn lemma_log_indices(log: Log, id: AnyActorId, i: int, j: int)
    requires
        log.wf(),
        0 <= i < j < log.entries(id).len(),
    ensures
        log.entries(id)[i].next_idx < log.entries(id)[j].next_idx,
        log.entries(id)[j].next_idx == log.entries(id)[i].next_idx + (j - i),
{
    assert(log.entries(id)[i].next_idx == i + 1);
    assert(log.entries(id)[j].next_idx == j + 1);
}

} // verus!
