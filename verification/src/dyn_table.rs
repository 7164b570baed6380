//! The dynamic dispatch table: a registry binding (actor kind, message kind)
//! to a type-erased invocation entry, and (actor kind) to an initialization
//! entry. Dispatch looks the entry up — `MethodNotFound` when nothing is
//! registered — and the entry recovers the static types, answering
//! `TypeMismatch` when the erased value does not decode as the type bound at
//! registration. The table never applies effects itself.

use vstd::prelude::*;

use crate::actor::{actor_downcast, AnyActor, AnyActorV, PersistentActor};
use crate::context::{fresh_ctx, Context, Effects, EffectsV};
use crate::database::Database;
use crate::errors::RuntimeError;
use crate::global_storage::GlobalStorageCache;
use crate::handler::Handler;
use crate::kinds::{ActorName, AnyActorId, MessageName};
use crate::kvmap::{KvMap, MapKey};
use crate::message::{message_downcast, AnyMessage, AnyMessageV, Message};
use crate::value::AnyValueV;

verus! {

/// A wiring defect found at dispatch time.
#[derive(PartialEq, Eq, Structural, Clone, Copy, Debug)]
pub enum DispatchError {
    /// The erased value failed to recover as the statically expected type.
    TypeMismatch,
    /// No entry is registered for the kind, or the (kind, message kind) pair.
    MethodNotFound,
}

pub type DispatchResult<T> = Result<T, DispatchError>;

/// Registry key of a handler: the actor kind and the message kind it was
/// registered for.
#[derive(PartialEq, Eq, Structural, Clone, Copy, Debug)]
pub struct HandlerId {
    pub actor: ActorName,
    pub message: MessageName,
}

impl MapKey for HandlerId {
    type Vw = HandlerId;

    open spec fn keyv(&self) -> HandlerId {
        *self
    }

    fn key_eq(&self, other: &Self) -> (r: bool) {
        self == other
    }
}

impl MapKey for ActorName {
    type Vw = ActorName;

    open spec fn keyv(&self) -> ActorName {
        *self
    }

    fn key_eq(&self, other: &Self) -> (r: bool) {
        self == other
    }
}

/// Whether an executable dispatch outcome denotes a spec-level one.
pub open spec fn result_matches(
    r: Result<Effects, RuntimeError>,
    s: Result<EffectsV, RuntimeError>,
) -> bool {
    match r {
        Ok(e) => e.wf() && s == Ok::<EffectsV, RuntimeError>(e@),
        Err(err) => s == Err::<EffectsV, RuntimeError>(err),
    }
}

pub open spec fn opt_msg_view(message: Option<&AnyMessage>) -> Option<AnyMessageV> {
    match message {
        Some(m) => Some(m@),
        None => None,
    }
}

/// A type-erased invocation entry, bound at registration to concrete types.
/// Its whole behavior is a function of the pre-state — the erased actor, the
/// store, the cache and the message — so dispatching the same pre-state
/// twice produces identical effects.
pub trait Invoke: Sized {
    /// The entry's behavior: the cache afterwards, and either the effect
    /// record or the fault.
    spec fn spec_call(
        self,
        id: AnyActorId,
        actor: AnyActorV,
        db: Map<Seq<char>, AnyValueV>,
        cache: Map<Seq<char>, AnyValueV>,
        message: Option<AnyMessageV>,
    ) -> (Map<Seq<char>, AnyValueV>, Result<EffectsV, RuntimeError>);

    fn call(
        &self,
        id: AnyActorId,
        actor: &AnyActor,
        db: &Database,
        cache: GlobalStorageCache,
        message: Option<&AnyMessage>,
    ) -> (r: (GlobalStorageCache, Result<Effects, RuntimeError>))
        requires
            db.wf(),
            cache.wf(),
        ensures
            r.0.wf(),
            r.0@ == self.spec_call(id, actor@, db@, cache@, opt_msg_view(message)).0,
            result_matches(r.1, self.spec_call(id, actor@, db@, cache@, opt_msg_view(message)).1),
    ;
}

/// What initializing actor kind `A` on an erased pre-state yields:
/// `TypeMismatch` unless the identity and the erased value recover at `A`,
/// else exactly what the typed `init` does from a fresh context.
pub open spec fn spec_run_init<A: PersistentActor>(
    id: AnyActorId,
    actor: AnyActorV,
    db: Map<Seq<char>, AnyValueV>,
    cache: Map<Seq<char>, AnyValueV>,
) -> (Map<Seq<char>, AnyValueV>, Result<EffectsV, RuntimeError>) {
    if id.name != A::spec_kind() {
        (cache, Err(RuntimeError::Dispatch(DispatchError::TypeMismatch)))
    } else {
        match actor_downcast::<A>(actor) {
            None => (cache, Err(RuntimeError::Dispatch(DispatchError::TypeMismatch))),
            Some(a) => {
                let pr = a.spec_init(db, fresh_ctx(id, cache));
                match pr.1 {
                    Ok(u) => (
                        pr.0.cache,
                        Ok(EffectsV { messages: pr.0.messages, global: pr.0.effects }),
                    ),
                    Err(e) => (pr.0.cache, Err(RuntimeError::Storage(e))),
                }
            },
        }
    }
}

/// What dispatching a message to handler (`A`, `M`) on an erased pre-state
/// yields: `TypeMismatch` unless identity, value and message all recover,
/// else exactly what the typed handler does from a fresh context.
pub open spec fn spec_run_handler<A: Handler<M>, M: Message>(
    id: AnyActorId,
    actor: AnyActorV,
    db: Map<Seq<char>, AnyValueV>,
    cache: Map<Seq<char>, AnyValueV>,
    message: AnyMessageV,
) -> (Map<Seq<char>, AnyValueV>, Result<EffectsV, RuntimeError>) {
    if id.name != A::spec_kind() {
        (cache, Err(RuntimeError::Dispatch(DispatchError::TypeMismatch)))
    } else {
        match actor_downcast::<A>(actor) {
            None => (cache, Err(RuntimeError::Dispatch(DispatchError::TypeMismatch))),
            Some(a) => match message_downcast::<M>(message) {
                None => (cache, Err(RuntimeError::Dispatch(DispatchError::TypeMismatch))),
                Some(m) => {
                    let pr = a.spec_handle(db, fresh_ctx(id, cache), m);
                    match pr.1 {
                        Ok(u) => (
                            pr.0.cache,
                            Ok(EffectsV { messages: pr.0.messages, global: pr.0.effects }),
                        ),
                        Err(e) => (pr.0.cache, Err(RuntimeError::Storage(e))),
                    }
                },
            },
        }
    }
}

/// Recovers the static actor type from the erased pre-state and runs its
/// `init`. An entry registered with `register_actor::<A>` calls this.
pub fn run_init_typed<A: PersistentActor>(
    id: AnyActorId,
    actor: &AnyActor,
    db: &Database,
    cache: GlobalStorageCache,
) -> (r: (GlobalStorageCache, Result<Effects, RuntimeError>))
    requires
        db.wf(),
        cache.wf(),
    ensures
        r.0.wf(),
        r.0@ == spec_run_init::<A>(id, actor@, db@, cache@).0,
        result_matches(r.1, spec_run_init::<A>(id, actor@, db@, cache@).1),
{
    let typed_id = match id.downcast::<A>() {
        Some(t) => t,
        None => {
            return (cache, Err(RuntimeError::Dispatch(DispatchError::TypeMismatch)));
        },
    };
    let a = match actor.downcast::<A>() {
        Some(a) => a,
        None => {
            return (cache, Err(RuntimeError::Dispatch(DispatchError::TypeMismatch)));
        },
    };
    let mut cx = Context::new(typed_id, db, cache);
    let res = a.init(&mut cx);
    let (effects, cache2) = cx.into_effects();
    match res {
        Ok(u) => (cache2, Ok(effects)),
        Err(e) => (cache2, Err(RuntimeError::Storage(e))),
    }
}

/// Recovers the static actor and message types from the erased pre-state and
/// runs the typed handler. An entry registered with
/// `register_handler::<A, M>` calls this.
pub fn run_handler_typed<A: Handler<M>, M: Message>(
    id: AnyActorId,
    actor: &AnyActor,
    db: &Database,
    cache: GlobalStorageCache,
    message: &AnyMessage,
) -> (r: (GlobalStorageCache, Result<Effects, RuntimeError>))
    requires
        db.wf(),
        cache.wf(),
    ensures
        r.0.wf(),
        r.0@ == spec_run_handler::<A, M>(id, actor@, db@, cache@, message@).0,
        result_matches(r.1, spec_run_handler::<A, M>(id, actor@, db@, cache@, message@).1),
{
    let typed_id = match id.downcast::<A>() {
        Some(t) => t,
        None => {
            return (cache, Err(RuntimeError::Dispatch(DispatchError::TypeMismatch)));
        },
    };
    let a = match actor.downcast::<A>() {
        Some(a) => a,
        None => {
            return (cache, Err(RuntimeError::Dispatch(DispatchError::TypeMismatch)));
        },
    };
    let m = match message.downcast::<M>() {
        Some(m) => m,
        None => {
            return (cache, Err(RuntimeError::Dispatch(DispatchError::TypeMismatch)));
        },
    };
    let mut cx = Context::new(typed_id, db, cache);
    let res = a.handle(&mut cx, m);
    let (effects, cache2) = cx.into_effects();
    match res {
        Ok(u) => (cache2, Ok(effects)),
        Err(e) => (cache2, Err(RuntimeError::Storage(e))),
    }
}

/// The entry behaves as kind `A`'s typed initializer on every pre-state:
/// what `register_actor::<A>` demands of what it records.
pub open spec fn entry_inits<E: Invoke, A: PersistentActor>(entry: E) -> bool {
    forall|id: AnyActorId, actor: AnyActorV, db: Map<Seq<char>, AnyValueV>, cache: Map<
        Seq<char>,
        AnyValueV,
    >|
        #[trigger] entry.spec_call(id, actor, db, cache, None) == spec_run_init::<A>(
            id,
            actor,
            db,
            cache,
        )
}

/// The entry behaves as the typed handler (`A`, `M`) on every pre-state:
/// what `register_handler::<A, M>` demands of what it records.
pub open spec fn entry_handles<E: Invoke, A: Handler<M>, M: Message>(entry: E) -> bool {
    forall|
        id: AnyActorId,
        actor: AnyActorV,
        db: Map<Seq<char>, AnyValueV>,
        cache: Map<Seq<char>, AnyValueV>,
        m: AnyMessageV,
    |
        #[trigger] entry.spec_call(id, actor, db, cache, Some(m)) == spec_run_handler::<A, M>(
            id,
            actor,
            db,
            cache,
            m,
        )
}

/// What looking up and running an initialization entry yields.
pub open spec fn spec_dispatch_init<E: Invoke>(
    inits: Map<ActorName, E>,
    id: AnyActorId,
    actor: AnyActorV,
    db: Map<Seq<char>, AnyValueV>,
    cache: Map<Seq<char>, AnyValueV>,
) -> (Map<Seq<char>, AnyValueV>, Result<EffectsV, RuntimeError>) {
    if inits.contains_key(id.name) {
        inits[id.name].spec_call(id, actor, db, cache, None)
    } else {
        (cache, Err(RuntimeError::Dispatch(DispatchError::MethodNotFound)))
    }
}

/// What looking up and running a handler entry yields: `MethodNotFound`
/// exactly when no entry is registered for the (actor kind, message kind)
/// pair — in particular for a message of the wrong kind.
pub open spec fn spec_dispatch_handler<E: Invoke>(
    handlers: Map<HandlerId, E>,
    id: AnyActorId,
    actor: AnyActorV,
    db: Map<Seq<char>, AnyValueV>,
    cache: Map<Seq<char>, AnyValueV>,
    message: AnyMessageV,
) -> (Map<Seq<char>, AnyValueV>, Result<EffectsV, RuntimeError>) {
    let key = HandlerId { actor: id.name, message: message.name };
    if handlers.contains_key(key) {
        handlers[key].spec_call(id, actor, db, cache, Some(message))
    } else {
        (cache, Err(RuntimeError::Dispatch(DispatchError::MethodNotFound)))
    }
}

/// The registry. It is owned by the runtime, built once before any actor is
/// admitted, and passed explicitly to every lookup.
pub struct DynTable<E> {
    pub handlers: KvMap<HandlerId, E>,
    pub inits: KvMap<ActorName, E>,
}

impl<E: Invoke> DynTable<E> {
    pub open spec fn wf(self) -> bool {
        self.handlers.wf() && self.inits.wf()
    }

    pub fn new() -> (r: DynTable<E>)
        ensures
            r.wf(),
            r.inits@ == Map::<ActorName, E>::empty(),
            r.handlers@ == Map::<HandlerId, E>::empty(),
    {
        DynTable { handlers: KvMap::new(), inits: KvMap::new() }
    }

    pub fn is_registered<A: PersistentActor>(&self) -> (r: bool)
        requires
            self.wf(),
        ensures
            r == self.inits@.contains_key(A::spec_kind()),
    {
        let name = ActorName::name_for::<A>();
        self.inits.contains_key(&name)
    }

    /// Records the initialization entry for kind `A`. An actor kind registers
    /// its initializer exactly once: the contract excludes a duplicate, so a
    /// verified caller cannot register twice; an unverified caller that does
    /// is refused and told so.
    pub fn register_actor<A: PersistentActor>(&mut self, entry: E) -> (r: bool)
        requires
            old(self).wf(),
            entry_inits::<E, A>(entry),
            !old(self).inits@.contains_key(A::spec_kind()),
        ensures
            final(self).wf(),
            r == true,
            final(self).inits@ == old(self).inits@.insert(A::spec_kind(), entry),
            final(self).handlers == old(self).handlers,
    {
        let name = ActorName::name_for::<A>();
        if self.inits.contains_key(&name) {
            false
        } else {
            self.inits.insert(name, entry);
            true
        }
    }

    /// Records the handler entry for (kind `A`, kind `M`); registered exactly
    /// once, as with initializers — the contract excludes a duplicate, and an
    /// unverified caller that slips one in is refused and told so.
    pub fn register_handler<A: Handler<M>, M: Message>(&mut self, entry: E) -> (r: bool)
        requires
            old(self).wf(),
            entry_handles::<E, A, M>(entry),
            !old(self).handlers@.contains_key(
                HandlerId { actor: A::spec_kind(), message: M::spec_kind() },
            ),
        ensures
            final(self).wf(),
            r == true,
            final(self).handlers@ == old(self).handlers@.insert(
                HandlerId { actor: A::spec_kind(), message: M::spec_kind() },
                entry,
            ),
            final(self).inits == old(self).inits,
    {
        let key = HandlerId { actor: ActorName::name_for::<A>(), message: MessageName::name_for::<M>() };
        if self.handlers.contains_key(&key) {
            false
        } else {
            self.handlers.insert(key, entry);
            true
        }
    }

    /// Looks up the initialization entry for the actor's kind and runs it.
    pub fn dispatch_init(
        &self,
        id: AnyActorId,
        actor: &AnyActor,
        db: &Database,
        cache: GlobalStorageCache,
    ) -> (r: (GlobalStorageCache, Result<Effects, RuntimeError>))
        requires
            self.wf(),
            db.wf(),
            cache.wf(),
        ensures
            r.0.wf(),
            r.0@ == spec_dispatch_init(self.inits@, id, actor@, db@, cache@).0,
            result_matches(r.1, spec_dispatch_init(self.inits@, id, actor@, db@, cache@).1),
    {
        match self.inits.get(&id.name) {
            Some(entry) => entry.call(id, actor, db, cache, None),
            None => (cache, Err(RuntimeError::Dispatch(DispatchError::MethodNotFound))),
        }
    }

    /// Looks up the handler entry for (actor kind, message kind) and runs it.
    pub fn dispatch_handler(
        &self,
        id: AnyActorId,
        actor: &AnyActor,
        db: &Database,
        cache: GlobalStorageCache,
        message: &AnyMessage,
    ) -> (r: (GlobalStorageCache, Result<Effects, RuntimeError>))
        requires
            self.wf(),
            db.wf(),
            cache.wf(),
        ensures
            r.0.wf(),
            r.0@ == spec_dispatch_handler(self.handlers@, id, actor@, db@, cache@, message@).0,
            result_matches(
                r.1,
                spec_dispatch_handler(self.handlers@, id, actor@, db@, cache@, message@).1,
            ),
    {
        let key = HandlerId { actor: id.name, message: message.name };
        match self.handlers.get(&key) {
            Some(entry) => entry.call(id, actor, db, cache, Some(message)),
            None => (cache, Err(RuntimeError::Dispatch(DispatchError::MethodNotFound))),
        }
    }
}

} // verus!
