//! The execution context of one invocation: the handler's coherent view of
//! its storage and its outgoing messages, and the conversion of both into an
//! immutable effect record once the handler returns.

use vstd::prelude::*;

use crate::actor::{PersistentActor, PersistentActorId};
use crate::database::Database;
use crate::dispatcher::{CallbackId, Dispatcher};
use crate::global_storage::{
    spec_borrow, GlobalEffect, GlobalStorage, GlobalStorageCache, StorageError,
};
use crate::kinds::AnyActorId;
use crate::kvmap::KvMap;
use crate::message::{message_downcast, message_erase, AnyMessage, AnyMessageV, Message};
use crate::value::{value_downcast, value_erase, AnyValueV, PersistentValue};

verus! {

/// Mathematical shape of a context: everything an invocation may read or
/// change, apart from the store itself, which it only reads.
pub ghost struct CtxView {
    pub owner: AnyActorId,
    pub cache: Map<Seq<char>, AnyValueV>,
    pub effects: Map<Seq<char>, GlobalEffect>,
    pub messages: Map<AnyActorId, AnyMessageV>,
    pub next_callback: u32,
}

/// Mathematical shape of an effect record.
pub ghost struct EffectsV {
    pub messages: Map<AnyActorId, AnyMessageV>,
    pub global: Map<Seq<char>, GlobalEffect>,
}

/// The immutable result of one invocation: outgoing messages keyed by
/// destination, and the storage effect set. Produced once by
/// `into_effects`, consumed once by the runtime's apply step.
pub struct Effects {
    pub messages: KvMap<AnyActorId, AnyMessage>,
    pub global_effects: KvMap<String, GlobalEffect>,
}

impl View for Effects {
    type V = EffectsV;

    open spec fn view(&self) -> EffectsV {
        EffectsV {
            messages: Map::new(
                |id: AnyActorId| self.messages@.contains_key(id),
                |id: AnyActorId| self.messages@[id]@,
            ),
            global: self.global_effects@,
        }
    }
}

impl Effects {
    pub open spec fn wf(self) -> bool {
        self.messages.wf() && self.global_effects.wf()
    }
}

/// One invocation's context, typed for the actor it runs on.
pub struct Context<'a, A> {
    pub actor_id: PersistentActorId<A>,
    pub storage: GlobalStorage<'a>,
    pub dispatcher: Dispatcher,
}

impl<'a, A> View for Context<'a, A> {
    type V = CtxView;

    open spec fn view(&self) -> CtxView {
        CtxView {
            owner: self.dispatcher.owner,
            cache: self.storage.cache@,
            effects: self.storage.effects@,
            messages: self.dispatcher.msgs(),
            next_callback: self.dispatcher.next_callback,
        }
    }
}

/// The context a fresh invocation starts from.
pub open spec fn fresh_ctx(owner: AnyActorId, cache: Map<Seq<char>, AnyValueV>) -> CtxView {
    CtxView {
        owner,
        cache,
        effects: Map::<Seq<char>, GlobalEffect>::empty(),
        messages: Map::<AnyActorId, AnyMessageV>::empty(),
        next_callback: 0,
    }
}

impl<'a, A> Context<'a, A> {
    pub open spec fn wf(self) -> bool {
        self.storage.wf() && self.dispatcher.wf()
    }

    /// The store's contents, which the invocation reads but never writes.
    pub open spec fn dbv(self) -> Map<Seq<char>, AnyValueV> {
        self.storage.dbv()
    }

    /// Queues a message back to this very actor; as with `send`, a second
    /// message to the same destination overwrites the first.
    pub fn send_self<M: Message>(&mut self, message: M)
        requires
            old(self).wf(),
        ensures
            final(self).wf(),
            final(self).storage.db == old(self).storage.db,
            final(self).actor_id == old(self).actor_id,
            final(self)@ == (CtxView {
                messages: old(self)@.messages.insert(old(self)@.owner, message_erase(message)),
                ..old(self)@
            }),
            message_downcast::<M>(message_erase(message)) == Some(message),
    {
        let owner = self.dispatcher.owner;
        self.dispatcher.send_any(owner, &message);
    }
}

impl<'a, A: PersistentActor> Context<'a, A> {
    pub fn new(actor_id: PersistentActorId<A>, db: &'a Database, cache: GlobalStorageCache) -> (r:
        Context<'a, A>)
        requires
            db.wf(),
            cache.wf(),
        ensures
            r.wf(),
            r.actor_id == actor_id,
            r.storage.db == db,
            r@ == fresh_ctx(actor_id.spec_any(), cache@),
    {
        let owner = actor_id.into_any();
        Context {
            actor_id,
            storage: GlobalStorage::new(db, cache),
            dispatcher: Dispatcher::new(owner),
        }
    }

}

impl<'a, A> Context<'a, A> {
    /// Converts the invocation's record into an effect record, and hands the
    /// cache back to its owner.
    pub fn into_effects(self) -> (r: (Effects, GlobalStorageCache))
        requires
            self.wf(),
        ensures
            r.0.wf(),
            r.0@ == (EffectsV { messages: self@.messages, global: self@.effects }),
            r.1.wf(),
            r.1@ == self@.cache,
    {
        (
            Effects {
                messages: self.dispatcher.messages,
                global_effects: self.storage.effects,
            },
            self.storage.cache,
        )
    }

    /// Stages a write and updates the cache: later reads in this invocation
    /// observe the new value.
    pub fn put<V: PersistentValue>(&mut self, key: &str, value: V)
        requires
            old(self).wf(),
        ensures
            final(self).wf(),
            final(self).storage.db == old(self).storage.db,
            final(self).actor_id == old(self).actor_id,
            final(self)@ == (CtxView {
                cache: old(self)@.cache.insert(key@, value_erase(value)),
                effects: old(self)@.effects.insert(key@, GlobalEffect::Modified),
                ..old(self)@
            }),
            value_downcast::<V>(value_erase(value)) == Some(value),
    {
        self.storage.put(key, value);
    }

    /// Reads a key for modification; see `GlobalStorage::borrow_mut`.
    pub fn borrow_mut<V: PersistentValue>(&mut self, key: &str) -> (r: Result<V, StorageError>)
        requires
            old(self).wf(),
        ensures
            final(self).wf(),
            final(self).storage.db == old(self).storage.db,
            final(self).actor_id == old(self).actor_id,
            final(self)@ == (CtxView {
                cache: spec_borrow::<V>(
                    old(self).dbv(),
                    old(self)@.cache,
                    old(self)@.effects,
                    key@,
                ).0,
                effects: spec_borrow::<V>(
                    old(self).dbv(),
                    old(self)@.cache,
                    old(self)@.effects,
                    key@,
                ).1,
                ..old(self)@
            }),
            r == spec_borrow::<V>(old(self).dbv(), old(self)@.cache, old(self)@.effects, key@).2,
    {
        self.storage.borrow_mut::<V>(key)
    }

    /// Stages a delete; the value need not be cached.
    pub fn remove(&mut self, key: &str)
        requires
            old(self).wf(),
        ensures
            final(self).wf(),
            final(self).storage.db == old(self).storage.db,
            final(self).actor_id == old(self).actor_id,
            final(self)@ == (CtxView {
                effects: old(self)@.effects.insert(key@, GlobalEffect::Deleted),
                ..old(self)@
            }),
    {
        self.storage.remove(key);
    }

    /// Queues a message for a typed destination; a second send to the same
    /// destination in this invocation overwrites the first.
    pub fn send<B: PersistentActor, M: Message>(&mut self, target: PersistentActorId<B>, message: M)
        requires
            old(self).wf(),
        ensures
            final(self).wf(),
            final(self).storage.db == old(self).storage.db,
            final(self).actor_id == old(self).actor_id,
            final(self)@ == (CtxView {
                messages: old(self)@.messages.insert(target.spec_any(), message_erase(message)),
                ..old(self)@
            }),
            message_downcast::<M>(message_erase(message)) == Some(message),
    {
        self.dispatcher.send(target, message);
    }

    /// Allocates a continuation token routed back to this actor; the token
    /// is this invocation's running counter value (see
    /// `Dispatcher::create_callback` for its scope).
    pub fn create_callback<M: Message>(&mut self) -> (r: CallbackId<M>)
        requires
            old(self).wf(),
        ensures
            final(self).wf(),
            final(self).storage.db == old(self).storage.db,
            final(self).actor_id == old(self).actor_id,
            final(self)@ == (CtxView {
                next_callback: old(self)@.next_callback.wrapping_add(1),
                ..old(self)@
            }),
            r.target == old(self)@.owner,
            r.token == old(self)@.next_callback,
    {
        self.dispatcher.create_callback::<M>()
    }

    /// Invokes a continuation token: the message is routed to the token's
    /// creator.
    pub fn call_callback<M: Message>(&mut self, callback: &CallbackId<M>, args: M)
        requires
            old(self).wf(),
        ensures
            final(self).wf(),
            final(self).storage.db == old(self).storage.db,
            final(self).actor_id == old(self).actor_id,
            final(self)@ == (CtxView {
                messages: old(self)@.messages.insert(callback.target, message_erase(args)),
                ..old(self)@
            }),
            message_downcast::<M>(message_erase(args)) == Some(args),
    {
        callback.call(&mut self.dispatcher, args);
    }
}

/// One invocation's context in erased form, before the actor type is
/// recovered.
pub struct AnyContext<'a> {
    pub id: AnyActorId,
    pub storage: GlobalStorage<'a>,
    pub dispatcher: Dispatcher,
}

impl<'a> AnyContext<'a> {
    pub open spec fn wf(self) -> bool {
        self.storage.wf() && self.dispatcher.wf() && self.dispatcher.owner == self.id
    }

    pub fn new(id: AnyActorId, db: &'a Database, cache: GlobalStorageCache) -> (r: AnyContext<'a>)
        requires
            db.wf(),
            cache.wf(),
        ensures
            r.wf(),
            r.id == id,
            r.storage.db == db,
            r.storage.cache == cache,
            r.storage.effects@ == Map::<Seq<char>, GlobalEffect>::empty(),
            r.dispatcher.msgs() == Map::<AnyActorId, AnyMessageV>::empty(),
            r.dispatcher.next_callback == 0,
    {
        AnyContext { id, storage: GlobalStorage::new(db, cache), dispatcher: Dispatcher::new(id) }
    }

    /// Recovery of the typed context succeeds exactly when the kinds match.
    pub fn downcast<A: PersistentActor>(self) -> (r: Option<Context<'a, A>>)
        requires
            self.wf(),
        ensures
            match r {
                Some(cx) => self.id.name == A::spec_kind() && cx.wf() && cx.storage == self.storage
                    && cx.dispatcher == self.dispatcher && cx.actor_id.spec_any() == self.id,
                None => self.id.name != A::spec_kind(),
            },
    {
        match self.id.downcast::<A>() {
            Some(actor_id) => Some(
                Context { actor_id, storage: self.storage, dispatcher: self.dispatcher },
            ),
            None => None,
        }
    }
}

} // verus!
