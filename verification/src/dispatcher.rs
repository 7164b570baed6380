//! Outgoing messages and continuation tokens recorded during one invocation.
//! A second send to the same destination overwrites the first: per
//! destination, the last send of an invocation wins.

use vstd::prelude::*;

use core::marker::PhantomData;

use crate::actor::{PersistentActor, PersistentActorId};
use crate::kinds::AnyActorId;
use crate::kvmap::KvMap;
use crate::message::{message_downcast, message_erase, AnyMessage, AnyMessageV, Message};

verus! {

/// Records where one invocation wants messages sent, and hands out
/// continuation tokens.
pub struct Dispatcher {
    /// The actor this invocation runs for; callbacks route back to it.
    pub owner: AnyActorId,
    /// One pending outgoing message per destination.
    pub messages: KvMap<AnyActorId, AnyMessage>,
    /// The next continuation token, fresh within this invocation.
    pub next_callback: u32,
}

impl Dispatcher {
    pub open spec fn wf(self) -> bool {
        self.messages.wf()
    }

    /// The queued messages, in wire form.
    pub open spec fn msgs(self) -> Map<AnyActorId, AnyMessageV> {
        Map::new(
            |id: AnyActorId| self.messages@.contains_key(id),
            |id: AnyActorId| self.messages@[id]@,
        )
    }

    pub fn new(owner: AnyActorId) -> (r: Dispatcher)
        ensures
            r.wf(),
            r.owner == owner,
            r.msgs() == Map::<AnyActorId, AnyMessageV>::empty(),
            r.next_callback == 0,
    {
        let r = Dispatcher { owner, messages: KvMap::new(), next_callback: 0 };
        proof {
            assert(r.msgs() =~= Map::<AnyActorId, AnyMessageV>::empty());
        }
        r
    }

    /// Queues a message in wire form; a message already queued for the same
    /// destination is overwritten.
    pub fn send_any<M: Message>(&mut self, target: AnyActorId, message: &M)
        requires
            old(self).wf(),
        ensures
            final(self).wf(),
            final(self).owner == old(self).owner,
            final(self).next_callback == old(self).next_callback,
            final(self).msgs() == old(self).msgs().insert(target, message_erase(*message)),
            message_downcast::<M>(message_erase(*message)) == Some(*message),
    {
        let ghost t = target;
        self.messages.insert(target, AnyMessage::from_message(message));
        proof {
            assert(self.msgs() =~= old(self).msgs().insert(t, message_erase(*message)));
        }
    }

    /// Queues a message for a typed destination that handles it.
    pub fn send<A: PersistentActor, M: Message>(
        &mut self,
        actor_id: PersistentActorId<A>,
        message: M,
    )
        requires
            old(self).wf(),
        ensures
            final(self).wf(),
            final(self).owner == old(self).owner,
            final(self).next_callback == old(self).next_callback,
            final(self).msgs() == old(self).msgs().insert(
                actor_id.spec_any(),
                message_erase(message),
            ),
            message_downcast::<M>(message_erase(message)) == Some(message),
    {
        self.send_any(actor_id.into_any(), &message);
    }

    /// Allocates a continuation token addressed back to the owning actor.
    /// The token is the invocation's running counter value: distinct across
    /// the first 2^32 allocations of one invocation, wrapping after that, and
    /// the counter restarts with every invocation. Routing never consults the
    /// token — an answer goes to the carried identity; the token is
    /// correlation data for the creating actor's own use.
    pub fn create_callback<M: Message>(&mut self) -> (r: CallbackId<M>)
        ensures
            final(self).owner == old(self).owner,
            final(self).messages == old(self).messages,
            final(self).next_callback == old(self).next_callback.wrapping_add(1),
            r.target == old(self).owner,
            r.token == old(self).next_callback,
    {
        let token = self.next_callback;
        self.next_callback = self.next_callback.wrapping_add(1);
        CallbackId { target: self.owner, token, _marker: PhantomData }
    }
}

/// A continuation token: it carries only the identity of the actor that made
/// it and a number, so it survives the log boundary inside a message. The
/// number is scoped to the invocation that allocated it (see
/// `Dispatcher::create_callback`); delivery routes by the identity alone.
pub struct CallbackId<M: Message> {
    pub target: AnyActorId,
    pub token: u32,
    pub _marker: PhantomData<M>,
}

impl<M: Message> Clone for CallbackId<M> {
    fn clone(&self) -> (r: Self)
        ensures
            r == *self,
    {
        CallbackId { target: self.target, token: self.token, _marker: PhantomData }
    }
}

impl<M: Message> Copy for CallbackId<M> {

}

impl<M: Message> CallbackId<M> {
    /// Invokes the continuation: routes the message back to the actor that
    /// created the token.
    pub fn call(&self, dispatcher: &mut Dispatcher, args: M)
        requires
            old(dispatcher).wf(),
        ensures
            final(dispatcher).wf(),
            final(dispatcher).owner == old(dispatcher).owner,
            final(dispatcher).next_callback == old(dispatcher).next_callback,
            final(dispatcher).msgs() == old(dispatcher).msgs().insert(
                self.target,
                message_erase(args),
            ),
            message_downcast::<M>(message_erase(args)) == Some(args),
    {
        dispatcher.send_any(self.target, &args);
    }
}

} // verus!
