//! The typed handler trait. As with initialization, the executable handler
//! is pinned to a spec-level transition function of the pre-state, so
//! identical pre-state and message always yield identical effects.

use vstd::prelude::*;

use crate::actor::PersistentActor;
use crate::context::{Context, CtxView};
use crate::global_storage::StorageError;
use crate::message::Message;
use crate::value::AnyValueV;

verus! {

/// An actor type that handles messages of type `M`.
pub trait Handler<M: Message>: PersistentActor {
    /// What `handle` does to the invocation context, given the store's
    /// contents and the message, and whether it fails.
    spec fn spec_handle(self, db: Map<Seq<char>, AnyValueV>, pre: CtxView, message: M) -> (
        CtxView,
        Result<(), StorageError>,
    );

    /// Handles one delivered message; it acts only through the context, and
    /// what it does is exactly `spec_handle` of the pre-state.
    fn handle(&self, cx: &mut Context<Self>, message: M) -> (r: Result<(), StorageError>)
        requires
            old(cx).wf(),
            old(cx)@.owner == (crate::kinds::AnyActorId {
                name: Self::spec_kind(),
                value: old(cx).actor_id.value,
            }),
        ensures
            final(cx).wf(),
            final(cx).storage.db == old(cx).storage.db,
            final(cx).actor_id == old(cx).actor_id,
            final(cx)@ == self.spec_handle(old(cx).dbv(), old(cx)@, message).0,
            r == self.spec_handle(old(cx).dbv(), old(cx)@, message).1,
    ;
}

} // verus!
