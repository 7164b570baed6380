//! The runtime: it owns the live actors, the dispatch table, the store and
//! the log; it sequences registration, initialization and replay, applies a
//! dispatch's effects only when the dispatch succeeds, and isolates faults —
//! one actor's failure never touches another actor's cache or log position.

use vstd::prelude::*;
use vstd::pervasive::VecAdditionalExecFns;

use crate::actor::{actor_downcast, actor_erase, AnyActor, AnyActorV, PersistentActor, PersistentActorId};
use crate::context::Effects;
use crate::database::Database;
use crate::dyn_table::{
    entry_handles, entry_inits, spec_dispatch_handler, spec_dispatch_init, DynTable, HandlerId,
    Invoke,
};
use crate::errors::RuntimeError;
use crate::global_storage::{GlobalEffect, GlobalStorageCache};
use crate::handler::Handler;
use crate::kinds::{ActorName, AnyActorId};
use crate::kvmap::{pairs_map, KvMap, MapKey};
use crate::log::{Log, LogEntryV};
use crate::message::{AnyMessage, AnyMessageV, Message};
use crate::value::AnyValueV;

verus! {

/// The runtime-owned container of one live actor: its identity, its erased
/// value, its storage cache and its position in its log. It is mutated only
/// during that actor's own dispatch.
pub struct ActorData {
    pub id: AnyActorId,
    pub actor: AnyActor,
    pub cache: GlobalStorageCache,
    pub curr_log_index: u64,
}

impl ActorData {
    pub open spec fn wf(self) -> bool {
        self.cache.wf()
    }
}

/// What applying a storage effect set to the store yields: per key, the last
/// staged action wins — a `Modified` key takes the cached value, a `Deleted`
/// key leaves the store, an untouched key keeps its stored value. A
/// `Modified` key that is not cached is left alone (the context never stages
/// one).
pub open spec fn apply_storage(
    db: Map<Seq<char>, AnyValueV>,
    cache: Map<Seq<char>, AnyValueV>,
    eff: Map<Seq<char>, GlobalEffect>,
) -> Map<Seq<char>, AnyValueV> {
    Map::new(
        |k: Seq<char>|
            if eff.contains_key(k) {
                match eff[k] {
                    GlobalEffect::Modified => cache.contains_key(k) || db.contains_key(k),
                    GlobalEffect::Deleted => false,
                }
            } else {
                db.contains_key(k)
            },
        |k: Seq<char>|
            if eff.contains_key(k) && eff[k] == GlobalEffect::Modified && cache.contains_key(k) {
                cache[k]
            } else {
                db[k]
            },
    )
}

/// What delivering an invocation's outgoing messages does to one recipient's
/// record: the message addressed to it is appended, with the next gapless
/// index; a recipient that has exhausted the index space keeps its record.
pub open spec fn apply_messages_at(
    pre: Seq<LogEntryV>,
    from: AnyActorId,
    msgs: Map<AnyActorId, AnyMessageV>,
    dest: AnyActorId,
) -> Seq<LogEntryV> {
    if msgs.contains_key(dest) && pre.len() < u64::MAX {
        pre.push(
            LogEntryV { sender_id: from, message: msgs[dest], next_idx: (pre.len() + 1) as u64 },
        )
    } else {
        pre
    }
}

/// The whole log as one total map from recipient to record.
pub open spec fn log_map(log: Log) -> Map<AnyActorId, Seq<LogEntryV>> {
    Map::new(|id: AnyActorId| true, |id: AnyActorId| log.entries(id))
}

/// The deep view of a queued-message map.
pub open spec fn messages_view(m: Map<AnyActorId, AnyMessage>) -> Map<AnyActorId, AnyMessageV> {
    Map::new(|id: AnyActorId| m.contains_key(id), |id: AnyActorId| m[id]@)
}

/// Commits a successful invocation's storage effects to the store.
fn apply_storage_effects(
    db: &mut Database,
    cache: &GlobalStorageCache,
    eff: &KvMap<String, GlobalEffect>,
)
    requires
        old(db).wf(),
        cache.wf(),
        eff.wf(),
    ensures
        final(db).wf(),
        final(db)@ == apply_storage(old(db)@, cache@, eff@),
{
    let n = eff.len();
    let mut i: usize = 0;
    proof {
        assert(db@ =~= apply_storage(old(db)@, cache@, pairs_map(eff.seq().subrange(0, 0))));
    }
    while i < n
        invariant
            db.wf(),
            cache.wf(),
            eff.wf(),
            n == eff.seq().len(),
            i <= n,
            db@ == apply_storage(old(db)@, cache@, pairs_map(eff.seq().subrange(0, i as int))),
        decreases n - i,
    {
        let ghost s = eff.seq();
        let ghost prefix = pairs_map(s.subrange(0, i as int));
        let ghost k = s[i as int].0.keyv();
        proof {
            assert(forall|j: int|
                0 <= j < s.subrange(0, i as int).len() ==> s.subrange(0, i as int)[j].0.keyv()
                    != k);
            crate::kvmap::lemma_pairs_map_absent(s.subrange(0, i as int), k);
            assert(s.subrange(0, i as int + 1).drop_last() =~= s.subrange(0, i as int));
            assert(s.subrange(0, i as int + 1).last() == s[i as int]);
            assert(pairs_map(s.subrange(0, i as int + 1)) == prefix.insert(k, s[i as int].1));
        }
        let p = eff.pair_at(i);
        let action = p.1;
        match action {
            GlobalEffect::Modified => {
                match cache.get_raw(&p.0) {
                    Some(av) => {
                        let owned = p.0.clone();
                        db.put_raw(owned, av.duplicate());
                    },
                    None => {},
                }
            },
            GlobalEffect::Deleted => {
                db.remove_raw(&p.0);
            },
        }
        i += 1;
        proof {
            assert(db@ =~= apply_storage(old(db)@, cache@, pairs_map(s.subrange(0, i as int))));
        }
    }
    proof {
        assert(eff.seq().subrange(0, n as int) =~= eff.seq());
        assert(db@ =~= apply_storage(old(db)@, cache@, eff@));
    }
}

/// Appends a successful invocation's outgoing messages to the destination
/// records.
fn apply_message_effects(log: &mut Log, from: AnyActorId, msgs: &KvMap<AnyActorId, AnyMessage>)
    requires
        old(log).wf(),
        msgs.wf(),
    ensures
        final(log).wf(),
        forall|dest: AnyActorId| #[trigger] final(log).base(dest) == old(log).base(dest),
        forall|dest: AnyActorId| #[trigger]
            final(log).entries(dest) == apply_messages_at(
                old(log).entries(dest),
                from,
                messages_view(msgs@),
                dest,
            ),
{
    let n = msgs.len();
    let mut i: usize = 0;
    while i < n
        invariant
            log.wf(),
            msgs.wf(),
            n == msgs.seq().len(),
            i <= n,
            forall|dest: AnyActorId| #[trigger] log.base(dest) == old(log).base(dest),
            forall|dest: AnyActorId| #[trigger]
                log.entries(dest) == apply_messages_at(
                    old(log).entries(dest),
                    from,
                    messages_view(pairs_map(msgs.seq().subrange(0, i as int))),
                    dest,
                ),
        decreases n - i,
    {
        let ghost s = msgs.seq();
        let ghost prefix = pairs_map(s.subrange(0, i as int));
        let ghost k = s[i as int].0.keyv();
        proof {
            assert(forall|j: int|
                0 <= j < s.subrange(0, i as int).len() ==> s.subrange(0, i as int)[j].0.keyv()
                    != k);
            crate::kvmap::lemma_pairs_map_absent(s.subrange(0, i as int), k);
            assert(s.subrange(0, i as int + 1).drop_last() =~= s.subrange(0, i as int));
            assert(s.subrange(0, i as int + 1).last() == s[i as int]);
            assert(pairs_map(s.subrange(0, i as int + 1)) == prefix.insert(k, s[i as int].1));
        }
        let p = msgs.pair_at(i);
        let dest = p.0;
        let message = p.1.duplicate();
        let ghost pre_entries = log.entries(dest);
        let r = log.append(from, dest, message);
        proof {
            assert forall|d: AnyActorId| #[trigger]
                log.entries(d) == apply_messages_at(
                    old(log).entries(d),
                    from,
                    messages_view(pairs_map(s.subrange(0, i as int + 1))),
                    d,
                ) by {
                if d == dest {
                    assert(!prefix.contains_key(dest));
                    assert(apply_messages_at(
                        old(log).entries(dest),
                        from,
                        messages_view(prefix),
                        dest,
                    ) == old(log).entries(dest));
                    assert(pre_entries == old(log).entries(dest));
                } else {
                    assert(messages_view(pairs_map(s.subrange(0, i as int + 1))).contains_key(d)
                        == messages_view(prefix).contains_key(d));
                    if messages_view(prefix).contains_key(d) {
                        assert(messages_view(pairs_map(s.subrange(0, i as int + 1)))[d]
                            == messages_view(prefix)[d]);
                    }
                }
            }
        }
        i += 1;
    }
    proof {
        assert(msgs.seq().subrange(0, n as int) =~= msgs.seq());
        assert(messages_view(pairs_map(msgs.seq())) =~= messages_view(msgs@));
    }
}

/// The outcome of one runtime step, as a function of the pre-state.
pub ghost struct StepResult {
    pub cache: Map<Seq<char>, AnyValueV>,
    pub curr_log_index: u64,
    pub db: Map<Seq<char>, AnyValueV>,
    pub log: Map<AnyActorId, Seq<LogEntryV>>,
    pub outcome: Result<bool, RuntimeError>,
}

/// One replay step of one actor: read the entry at its current index — if
/// none, it idles — dispatch the entry's message, and on success apply the
/// effects and advance the index to the entry's own successor. On a fault
/// nothing is applied and the index stays, so the dispatch can be retried or
/// reported without corrupting anything.
pub open spec fn spec_step<E: Invoke>(
    handlers: Map<HandlerId, E>,
    db: Map<Seq<char>, AnyValueV>,
    logm: Map<AnyActorId, Seq<LogEntryV>>,
    id: AnyActorId,
    actor: AnyActorV,
    cache: Map<Seq<char>, AnyValueV>,
    idx: u64,
) -> StepResult {
    let entries = logm[id];
    if idx >= entries.len() {
        StepResult { cache, curr_log_index: idx, db, log: logm, outcome: Ok(false) }
    } else {
        let e = entries[idx as int];
        let d = spec_dispatch_handler(handlers, id, actor, db, cache, e.message);
        match d.1 {
            Ok(ef) => StepResult {
                cache: d.0,
                curr_log_index: e.next_idx,
                db: apply_storage(db, d.0, ef.global),
                log: Map::new(
                    |dest: AnyActorId| true,
                    |dest: AnyActorId| apply_messages_at(logm[dest], id, ef.messages, dest),
                ),
                outcome: Ok(true),
            },
            Err(err) => StepResult {
                cache: d.0,
                curr_log_index: idx,
                db,
                log: logm,
                outcome: Err(err),
            },
        }
    }
}

/// One initialization step of one actor: dispatch `init` through the table
/// and, on success, apply its effects. The log position is untouched —
/// initialization is not a delivery.
pub open spec fn spec_init_step<E: Invoke>(
    inits: Map<ActorName, E>,
    db: Map<Seq<char>, AnyValueV>,
    logm: Map<AnyActorId, Seq<LogEntryV>>,
    id: AnyActorId,
    actor: AnyActorV,
    cache: Map<Seq<char>, AnyValueV>,
    idx: u64,
) -> StepResult {
    let d = spec_dispatch_init(inits, id, actor, db, cache);
    match d.1 {
        Ok(ef) => StepResult {
            cache: d.0,
            curr_log_index: idx,
            db: apply_storage(db, d.0, ef.global),
            log: Map::new(
                |dest: AnyActorId| true,
                |dest: AnyActorId| apply_messages_at(logm[dest], id, ef.messages, dest),
            ),
            outcome: Ok(true),
        },
        Err(err) => StepResult { cache: d.0, curr_log_index: idx, db, log: logm, outcome: Err(err) },
    }
}

/// Mathematical shape of one live actor's container.
pub ghost struct ActorDataV {
    pub id: AnyActorId,
    pub actor: AnyActorV,
    pub cache: Map<Seq<char>, AnyValueV>,
    pub curr_log_index: u64,
}

impl View for ActorData {
    type V = ActorDataV;

    open spec fn view(&self) -> ActorDataV {
        ActorDataV {
            id: self.id,
            actor: self.actor@,
            cache: self.cache@,
            curr_log_index: self.curr_log_index,
        }
    }
}

/// Mathematical shape of the whole runtime: the registry, the live actors in
/// admission order, the store and the log.
pub ghost struct RuntimeV<E> {
    pub inits: Map<ActorName, E>,
    pub handlers: Map<HandlerId, E>,
    pub actors: Seq<ActorDataV>,
    pub db: Map<Seq<char>, AnyValueV>,
    pub log: Map<AnyActorId, Seq<LogEntryV>>,
}

/// One initialization step of the actor at position `i`, on the model.
pub open spec fn spec_run_init_at<E: Invoke>(s: RuntimeV<E>, i: int) -> (RuntimeV<E>, Result<
    bool,
    RuntimeError,
>) {
    let a = s.actors[i];
    let sr = spec_init_step(s.inits, s.db, s.log, a.id, a.actor, a.cache, a.curr_log_index);
    (
        RuntimeV {
            actors: s.actors.update(
                i,
                ActorDataV { cache: sr.cache, curr_log_index: sr.curr_log_index, ..a },
            ),
            db: sr.db,
            log: sr.log,
            ..s
        },
        sr.outcome,
    )
}

/// One replay step of the actor at position `i`, on the model.
pub open spec fn spec_step_at<E: Invoke>(s: RuntimeV<E>, i: int) -> (RuntimeV<E>, Result<
    bool,
    RuntimeError,
>) {
    let a = s.actors[i];
    let sr = spec_step(s.handlers, s.db, s.log, a.id, a.actor, a.cache, a.curr_log_index);
    (
        RuntimeV {
            actors: s.actors.update(
                i,
                ActorDataV { cache: sr.cache, curr_log_index: sr.curr_log_index, ..a },
            ),
            db: sr.db,
            log: sr.log,
            ..s
        },
        sr.outcome,
    )
}

/// The initialization phase over the first `k` actors: init is dispatched
/// exactly once per live actor, in admission order, each success applying its
/// effects; a faulting actor is reported with its exact fault and halted.
pub open spec fn spec_init_phase<E: Invoke>(s: RuntimeV<E>, k: nat) -> (
    RuntimeV<E>,
    Seq<bool>,
    Seq<(AnyActorId, RuntimeError)>,
)
    decreases k,
{
    if k == 0 {
        (s, Seq::<bool>::empty(), Seq::<(AnyActorId, RuntimeError)>::empty())
    } else {
        let pr = spec_init_phase(s, (k - 1) as nat);
        let st = spec_run_init_at(pr.0, k - 1);
        match st.1 {
            Ok(b) => (st.0, pr.1.push(false), pr.2),
            Err(err) => (st.0, pr.1.push(true), pr.2.push((pr.0.actors[k - 1].id, err))),
        }
    }
}

/// One replay round over the first `k` actors: each one not yet halted takes
/// one step, in position order; a faulting actor is reported with its exact
/// fault and halted, taking no further step; `progress` records whether any
/// step dispatched an entry.
pub open spec fn spec_round<E: Invoke>(
    s: RuntimeV<E>,
    halted: Seq<bool>,
    errors: Seq<(AnyActorId, RuntimeError)>,
    progress: bool,
    k: nat,
) -> (RuntimeV<E>, Seq<bool>, Seq<(AnyActorId, RuntimeError)>, bool)
    decreases k,
{
    if k == 0 {
        (s, halted, errors, progress)
    } else {
        let pr = spec_round(s, halted, errors, progress, (k - 1) as nat);
        let i = k - 1;
        if pr.1[i as int] {
            pr
        } else {
            let st = spec_step_at(pr.0, i as int);
            match st.1 {
                Ok(b) => (st.0, pr.1, pr.2, pr.3 || b),
                Err(err) => (
                    st.0,
                    pr.1.update(i as int, true),
                    pr.2.push((pr.0.actors[i as int].id, err)),
                    pr.3,
                ),
            }
        }
    }
}

/// The replay phase: rounds repeat while the last round made progress and
/// the step budget lasts.
pub open spec fn spec_replay<E: Invoke>(
    s: RuntimeV<E>,
    halted: Seq<bool>,
    errors: Seq<(AnyActorId, RuntimeError)>,
    fuel: u64,
) -> (RuntimeV<E>, Seq<bool>, Seq<(AnyActorId, RuntimeError)>)
    decreases fuel,
{
    if fuel == 0 {
        (s, halted, errors)
    } else {
        let r = spec_round(s, halted, errors, false, s.actors.len());
        if !r.3 {
            (r.0, r.1, r.2)
        } else {
            spec_replay(r.0, r.1, r.2, (fuel - 1) as u64)
        }
    }
}

/// What `run` does to the model: the initialization phase over every live
/// actor, then the replay rounds until quiescence or the budget's end, with
/// one report per failed actor.
pub open spec fn spec_run<E: Invoke>(s: RuntimeV<E>, fuel: u64) -> (
    RuntimeV<E>,
    Seq<(AnyActorId, RuntimeError)>,
) {
    let ip = spec_init_phase(s, s.actors.len());
    let rp = spec_replay(ip.0, ip.1, ip.2, fuel);
    (rp.0, rp.2)
}

/// The runtime.
pub struct Runtime<E> {
    pub table: DynTable<E>,
    pub actors: Vec<ActorData>,
    pub next_id: u32,
    pub db: Database,
    pub log: Log,
}

impl<E: Invoke> Runtime<E> {
    pub open spec fn wf(self) -> bool {
        self.table.wf() && self.db.wf() && self.log.wf() && (forall|id: AnyActorId| #[trigger]
            self.log.base(id) == 0) && (forall|j: int|
            0 <= j < self.actors@.len() ==> (#[trigger] self.actors@[j]).wf()) && (forall|j: int|
            0 <= j < self.actors@.len() ==> (#[trigger] self.actors@[j]).id.value <= self.next_id)
            && (forall|j: int, k: int|
            0 <= j < k < self.actors@.len() ==> self.actors@[j].id != self.actors@[k].id)
    }

    /// The runtime's mathematical state.
    pub open spec fn model(self) -> RuntimeV<E> {
        RuntimeV {
            inits: self.table.inits@,
            handlers: self.table.handlers@,
            actors: Seq::new(self.actors@.len(), |i: int| self.actors@[i]@),
            db: self.db@,
            log: log_map(self.log),
        }
    }

    pub fn new(db: Database) -> (r: Runtime<E>)
        requires
            db.wf(),
        ensures
            r.wf(),
            r.db == db,
            r.actors@.len() == 0,
            r.next_id == 0,
            r.table.inits@ == Map::<ActorName, E>::empty(),
            r.table.handlers@ == Map::<HandlerId, E>::empty(),
            forall|id: AnyActorId| r.log.entries(id) == Seq::<LogEntryV>::empty(),
    {
        Runtime { table: DynTable::new(), actors: Vec::new(), next_id: 0, db, log: Log::new() }
    }

    /// Records the initialization entry for kind `A`; must precede adding any
    /// actor of that kind, and happens exactly once per kind — the contract
    /// excludes a duplicate registration.
    pub fn register_actor<A: PersistentActor>(&mut self, entry: E) -> (r: bool)
        requires
            old(self).wf(),
            entry_inits::<E, A>(entry),
            !old(self).table.inits@.contains_key(A::spec_kind()),
        ensures
            final(self).wf(),
            final(self).actors == old(self).actors,
            final(self).next_id == old(self).next_id,
            final(self).db == old(self).db,
            final(self).log == old(self).log,
            final(self).table.handlers == old(self).table.handlers,
            r == true,
            final(self).table.inits@ == old(self).table.inits@.insert(A::spec_kind(), entry),
    {
        self.table.register_actor::<A>(entry)
    }

    /// Records the handler entry for (kind `A`, kind `M`), exactly once per
    /// pair — the contract excludes a duplicate registration.
    pub fn register_handler<A: Handler<M>, M: Message>(&mut self, entry: E) -> (r: bool)
        requires
            old(self).wf(),
            entry_handles::<E, A, M>(entry),
            !old(self).table.handlers@.contains_key(
                HandlerId { actor: A::spec_kind(), message: M::spec_kind() },
            ),
        ensures
            final(self).wf(),
            final(self).actors == old(self).actors,
            final(self).next_id == old(self).next_id,
            final(self).db == old(self).db,
            final(self).log == old(self).log,
            final(self).table.inits == old(self).table.inits,
            r == true,
            final(self).table.handlers@ == old(self).table.handlers@.insert(
                HandlerId { actor: A::spec_kind(), message: M::spec_kind() },
                entry,
            ),
    {
        self.table.register_handler::<A, M>(entry)
    }

    /// Admits a live actor of a registered kind: allocates a fresh instance
    /// id and creates its container with an empty cache and index zero.
    /// Adding an actor of an unregistered kind is a wiring bug, not a runtime
    /// condition: the contract requires the registration. The one runtime
    /// refusal left is an exhausted id space.
    pub fn add_actor<A: PersistentActor>(&mut self, actor: A) -> (r: Option<PersistentActorId<A>>)
        requires
            old(self).wf(),
            old(self).table.inits@.contains_key(A::spec_kind()),
        ensures
            final(self).wf(),
            final(self).table == old(self).table,
            final(self).db == old(self).db,
            final(self).log == old(self).log,
            match r {
                Some(id) => {
                    &&& old(self).next_id < u32::MAX
                    &&& id.value == old(self).next_id + 1
                    &&& final(self).next_id == old(self).next_id + 1
                    &&& final(self).actors@.len() == old(self).actors@.len() + 1
                    &&& forall|j: int|
                        0 <= j < old(self).actors@.len() ==> final(self).actors@[j] == old(self).actors@[j]
                    &&& final(self).actors@.last().id == id.spec_any()
                    &&& final(self).actors@.last().actor@ == actor_erase(actor)
                    &&& final(self).actors@.last().cache@ == Map::<Seq<char>, AnyValueV>::empty()
                    &&& final(self).actors@.last().curr_log_index == 0
                    &&& actor_downcast::<A>(actor_erase(actor)) == Some(actor)
                },
                None => {
                    &&& *final(self) == *old(self)
                    &&& old(self).next_id == u32::MAX
                },
            },
    {
        if !self.table.is_registered::<A>() {
            return None;
        }
        if self.next_id == u32::MAX {
            return None;
        }
        self.next_id = self.next_id + 1;
        let id = PersistentActorId::<A>::new(self.next_id);
        let data = ActorData {
            id: id.into_any(),
            actor: AnyActor::from_actor(&actor),
            cache: GlobalStorageCache::new(),
            curr_log_index: 0,
        };
        self.actors.push(data);
        Some(id)
    }

    /// The identity of the actor at a position.
    pub fn actor_id_at(&self, i: usize) -> (r: AnyActorId)
        requires
            i < self.actors@.len(),
        ensures
            r == self.actors@[i as int].id,
    {
        self.actors[i].id
    }

    pub fn actor_count(&self) -> (r: usize)
        ensures
            r == self.actors@.len(),
    {
        self.actors.len()
    }

    /// One replay step for the actor at position `i`; the new runtime state
    /// is exactly `spec_step` of the old one, and no other actor's container
    /// is touched.
    pub fn do_step(&mut self, i: usize) -> (r: Result<bool, RuntimeError>)
        requires
            old(self).wf(),
            i < old(self).actors@.len(),
        ensures
            final(self).wf(),
            final(self).table == old(self).table,
            final(self).next_id == old(self).next_id,
            final(self).actors@.len() == old(self).actors@.len(),
            forall|j: int|
                0 <= j < old(self).actors@.len() && j != i ==> final(self).actors@[j] == old(self).actors@[j],
            final(self).actors@[i as int].id == old(self).actors@[i as int].id,
            final(self).actors@[i as int].actor@ == old(self).actors@[i as int].actor@,
            ({
                let a = old(self).actors@[i as int];
                let sr = spec_step(
                    old(self).table.handlers@,
                    old(self).db@,
                    log_map(old(self).log),
                    a.id,
                    a.actor@,
                    a.cache@,
                    a.curr_log_index,
                );
                final(self).actors@[i as int].cache@ == sr.cache && final(self).actors@[i as int].curr_log_index == sr.curr_log_index && final(self).db@ == sr.db
                    && log_map(final(self).log) == sr.log && r == sr.outcome
            }),
    {
        let ghost pre = *self;
        let a = self.actors.remove(i);
        let (msg, next) = match self.log.read(a.id, a.curr_log_index) {
            None => {
                self.actors.insert(i, a);
                proof {
                    assert(self.actors@ =~= pre.actors@);
                }
                return Ok(false);
            },
            Some(e) => (e.message.duplicate(), e.next_idx),
        };
        let ActorData { id, actor, cache, curr_log_index } = a;
        let (cache2, res) = self.table.dispatch_handler(id, &actor, &self.db, cache, &msg);
        match res {
            Ok(effects) => {
                let Effects { messages, global_effects } = effects;
                apply_storage_effects(&mut self.db, &cache2, &global_effects);
                apply_message_effects(&mut self.log, id, &messages);
                let a2 = ActorData { id, actor, cache: cache2, curr_log_index: next };
                self.actors.insert(i, a2);
                proof {
                    assert(self.actors@ =~= pre.actors@.update(i as int, self.actors@[i as int]));
                    let sr = spec_step(
                        pre.table.handlers@,
                        pre.db@,
                        log_map(pre.log),
                        pre.actors@[i as int].id,
                        pre.actors@[i as int].actor@,
                        pre.actors@[i as int].cache@,
                        pre.actors@[i as int].curr_log_index,
                    );
                    assert(log_map(self.log) =~= sr.log);
                }
                Ok(true)
            },
            Err(err) => {
                let a2 = ActorData { id, actor, cache: cache2, curr_log_index };
                self.actors.insert(i, a2);
                proof {
                    assert(self.actors@ =~= pre.actors@.update(i as int, self.actors@[i as int]));
                }
                Err(err)
            },
        }
    }

    /// One initialization step for the actor at position `i`; the new state
    /// is exactly `spec_init_step` of the old one.
    pub fn run_init(&mut self, i: usize) -> (r: Result<bool, RuntimeError>)
        requires
            old(self).wf(),
            i < old(self).actors@.len(),
        ensures
            final(self).wf(),
            final(self).table == old(self).table,
            final(self).next_id == old(self).next_id,
            final(self).actors@.len() == old(self).actors@.len(),
            forall|j: int|
                0 <= j < old(self).actors@.len() && j != i ==> final(self).actors@[j] == old(self).actors@[j],
            final(self).actors@[i as int].id == old(self).actors@[i as int].id,
            final(self).actors@[i as int].actor@ == old(self).actors@[i as int].actor@,
            ({
                let a = old(self).actors@[i as int];
                let sr = spec_init_step(
                    old(self).table.inits@,
                    old(self).db@,
                    log_map(old(self).log),
                    a.id,
                    a.actor@,
                    a.cache@,
                    a.curr_log_index,
                );
                final(self).actors@[i as int].cache@ == sr.cache && final(self).actors@[i as int].curr_log_index == sr.curr_log_index && final(self).db@ == sr.db
                    && log_map(final(self).log) == sr.log && r == sr.outcome
            }),
    {
        let ghost pre = *self;
        let a = self.actors.remove(i);
        let ActorData { id, actor, cache, curr_log_index } = a;
        let (cache2, res) = self.table.dispatch_init(id, &actor, &self.db, cache);
        match res {
            Ok(effects) => {
                let Effects { messages, global_effects } = effects;
                apply_storage_effects(&mut self.db, &cache2, &global_effects);
                apply_message_effects(&mut self.log, id, &messages);
                let a2 = ActorData { id, actor, cache: cache2, curr_log_index };
                self.actors.insert(i, a2);
                proof {
                    assert(self.actors@ =~= pre.actors@.update(i as int, self.actors@[i as int]));
                    let sr = spec_init_step(
                        pre.table.inits@,
                        pre.db@,
                        log_map(pre.log),
                        pre.actors@[i as int].id,
                        pre.actors@[i as int].actor@,
                        pre.actors@[i as int].cache@,
                        pre.actors@[i as int].curr_log_index,
                    );
                    assert(log_map(self.log) =~= sr.log);
                }
                Ok(true)
            },
            Err(err) => {
                let a2 = ActorData { id, actor, cache: cache2, curr_log_index };
                self.actors.insert(i, a2);
                proof {
                    assert(self.actors@ =~= pre.actors@.update(i as int, self.actors@[i as int]));
                }
                Err(err)
            },
        }
    }

    /// Brings every live actor up and replays the logs until every actor
    /// idles or the step budget runs out: init is dispatched exactly once per
    /// actor first, then each round steps every non-halted actor once, in
    /// admission order, each actor consuming its own log in index order. The
    /// final registry, store, log, caches and indices — and the returned
    /// `(actor, fault)` reports — are exactly `spec_run` of the initial
    /// state: one report per failed actor, which then takes no further step,
    /// while the others keep running.
    pub fn run(&mut self, fuel: u64) -> (errors: Vec<(AnyActorId, RuntimeError)>)
        requires
            old(self).wf(),
        ensures
            final(self).wf(),
            final(self).table == old(self).table,
            final(self).next_id == old(self).next_id,
            final(self).actors@.len() == old(self).actors@.len(),
            forall|j: int|
                0 <= j < old(self).actors@.len() ==> final(self).actors@[j].id == old(
                    self,
                ).actors@[j].id && final(self).actors@[j].actor@ == old(self).actors@[j].actor@,
            final(self).model() == spec_run(old(self).model(), fuel).0,
            errors@ == spec_run(old(self).model(), fuel).1,
    {
        let ghost m0 = old(self).model();
        let mut errors: Vec<(AnyActorId, RuntimeError)> = Vec::new();
        let n = self.actors.len();
        let mut halted: Vec<bool> = Vec::new();
        let mut i: usize = 0;
        while i < n
            invariant
                old(self).wf(),
                self.wf(),
                n == self.actors@.len(),
                n == old(self).actors@.len(),
                i <= n,
                halted@.len() == i,
                self.table == old(self).table,
                self.next_id == old(self).next_id,
                forall|j: int|
                    0 <= j < n ==> self.actors@[j].id == old(self).actors@[j].id
                        && self.actors@[j].actor@ == old(self).actors@[j].actor@,
                m0 == old(self).model(),
                self.model() == spec_init_phase(m0, i as nat).0,
                halted@ == spec_init_phase(m0, i as nat).1,
                errors@ == spec_init_phase(m0, i as nat).2,
            decreases n - i,
        {
            let ghost m_pre = self.model();
            let r = self.run_init(i);
            proof {
                let st = spec_run_init_at(m_pre, i as int);
                assert(self.model().actors =~= st.0.actors);
                assert(self.model() == st.0);
                assert(r == st.1);
                assert(spec_init_phase(m0, (i + 1) as nat).0 == st.0);
            }
            match r {
                Ok(u) => {
                    halted.push(false);
                },
                Err(err) => {
                    let id = self.actor_id_at(i);
                    errors.push((id, err));
                    halted.push(true);
                },
            }
            i += 1;
        }
        let ghost mi = spec_init_phase(m0, n as nat);
        let mut fuel_left: u64 = fuel;
        let mut progress = true;
        while progress && fuel_left > 0
            invariant
                old(self).wf(),
                self.wf(),
                n == self.actors@.len(),
                n == old(self).actors@.len(),
                halted@.len() == n,
                self.table == old(self).table,
                self.next_id == old(self).next_id,
                forall|j: int|
                    0 <= j < n ==> self.actors@[j].id == old(self).actors@[j].id
                        && self.actors@[j].actor@ == old(self).actors@[j].actor@,
                m0 == old(self).model(),
                mi == spec_init_phase(m0, n as nat),
                progress ==> spec_replay(mi.0, mi.1, mi.2, fuel) == spec_replay(
                    self.model(),
                    halted@,
                    errors@,
                    fuel_left,
                ),
                !progress ==> spec_replay(mi.0, mi.1, mi.2, fuel) == (
                    self.model(),
                    halted@,
                    errors@,
                ),
            decreases fuel_left,
        {
            let ghost s_r = self.model();
            let ghost h_r = halted@;
            let ghost e_r = errors@;
            let ghost fuel0 = fuel_left;
            progress = false;
            let mut i: usize = 0;
            while i < n
                invariant
                    old(self).wf(),
                    self.wf(),
                    n == self.actors@.len(),
                    n == old(self).actors@.len(),
                    halted@.len() == n,
                    i <= n,
                    self.table == old(self).table,
                    self.next_id == old(self).next_id,
                    forall|j: int|
                        0 <= j < n ==> self.actors@[j].id == old(self).actors@[j].id
                            && self.actors@[j].actor@ == old(self).actors@[j].actor@,
                    self.model() == spec_round(s_r, h_r, e_r, false, i as nat).0,
                    halted@ == spec_round(s_r, h_r, e_r, false, i as nat).1,
                    errors@ == spec_round(s_r, h_r, e_r, false, i as nat).2,
                    progress == spec_round(s_r, h_r, e_r, false, i as nat).3,
                decreases n - i,
            {
                let ghost m_pre = self.model();
                if !halted[i] {
                    let r = self.do_step(i);
                    proof {
                        let st = spec_step_at(m_pre, i as int);
                        assert(self.model().actors =~= st.0.actors);
                        assert(self.model() == st.0);
                        assert(r == st.1);
                    }
                    match r {
                        Ok(stepped) => {
                            if stepped {
                                progress = true;
                            }
                        },
                        Err(err) => {
                            let id = self.actor_id_at(i);
                            errors.push((id, err));
                            halted.set(i, true);
                        },
                    }
                }
                i += 1;
                proof {
                    assert(spec_round(s_r, h_r, e_r, false, i as nat).0 == self.model());
                }
            }
            fuel_left = fuel_left - 1;
            proof {
                assert(s_r.actors.len() == n);
                let r = spec_round(s_r, h_r, e_r, false, s_r.actors.len());
                assert(r == spec_round(s_r, h_r, e_r, false, n as nat));
                if progress {
                    assert(spec_replay(s_r, h_r, e_r, fuel0) == spec_replay(
                        self.model(),
                        halted@,
                        errors@,
                        fuel_left as u64,
                    ));
                } else {
                    assert(spec_replay(s_r, h_r, e_r, fuel0) == (
                        self.model(),
                        halted@,
                        errors@,
                    ));
                }
            }
        }
        proof {
            assert(m0.actors.len() == n);
            if !progress {
            } else {
                assert(fuel_left == 0);
                assert(spec_replay(self.model(), halted@, errors@, 0) == (
                    self.model(),
                    halted@,
                    errors@,
                ));
            }
            assert(self.model() == spec_run(m0, fuel).0);
            assert(errors@ == spec_run(m0, fuel).1);
        }
        errors
    }
}

} // verus!
