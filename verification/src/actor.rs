//! Actors: the behavior trait, typed and erased actor identities, and the
//! erased actor value the runtime keeps between dispatches.

use vstd::prelude::*;

use core::marker::PhantomData;

use crate::codec::clone_bytes;
use crate::context::{Context, CtxView};
use crate::global_storage::StorageError;
use crate::kinds::{ActorName, AnyActorId};
use crate::value::AnyValueV;

verus! {

/// A persistent actor type: it has a stable kind tag, a lossless encoding of
/// its in-memory value, and an initialization step. `spec_init` is the
/// mathematical meaning of `init`: the contract pins the executable step to
/// it, so initialization is a function of the pre-state alone.
pub trait PersistentActor: Sized {
    spec fn spec_kind() -> ActorName;

    spec fn spec_encode(self) -> Seq<u8>;

    spec fn spec_decode(b: Seq<u8>) -> Option<Self>;

    /// What `init` does to the invocation context, given the store's
    /// contents, and whether it fails.
    spec fn spec_init(self, db: Map<Seq<char>, AnyValueV>, pre: CtxView) -> (CtxView, Result<
        (),
        StorageError,
    >);

    fn kind() -> (k: ActorName)
        ensures
            k == Self::spec_kind(),
    ;

    fn encode(&self) -> (b: Vec<u8>)
        ensures
            b@ == self.spec_encode(),
            Self::spec_decode(b@) == Some(*self),
    ;

    fn decode(b: &Vec<u8>) -> (r: Option<Self>)
        ensures
            r == Self::spec_decode(b@),
    ;

    /// Runs once when the actor is brought up; it acts only through the
    /// context, and what it does is exactly `spec_init` of the pre-state.
    fn init(&self, cx: &mut Context<Self>) -> (r: Result<(), StorageError>)
        requires
            old(cx).wf(),
            old(cx)@.owner == (AnyActorId {
                name: Self::spec_kind(),
                value: old(cx).actor_id.value,
            }),
        ensures
            final(cx).wf(),
            final(cx).storage.db == old(cx).storage.db,
            final(cx).actor_id == old(cx).actor_id,
            final(cx)@ == self.spec_init(old(cx).dbv(), old(cx)@).0,
            r == self.spec_init(old(cx).dbv(), old(cx)@).1,
    ;
}

impl ActorName {
    pub fn name_for<A: PersistentActor>() -> (r: ActorName)
        ensures
            r == A::spec_kind(),
    {
        A::kind()
    }
}

/// A typed actor identity: the instance id, statically pinned to the actor
/// type; its kind tag is the type's own.
pub struct PersistentActorId<A> {
    pub value: u32,
    pub _marker: PhantomData<A>,
}

impl<A: PersistentActor> PersistentActorId<A> {
    /// The erased identity this typed identity stands for.
    pub open spec fn spec_any(self) -> AnyActorId {
        AnyActorId { name: A::spec_kind(), value: self.value }
    }

    pub fn new(value: u32) -> (r: PersistentActorId<A>)
        ensures
            r.value == value,
    {
        PersistentActorId { value, _marker: PhantomData }
    }

    pub fn into_any(&self) -> (r: AnyActorId)
        ensures
            r == self.spec_any(),
    {
        AnyActorId { name: A::kind(), value: self.value }
    }
}

impl<A> Clone for PersistentActorId<A> {
    fn clone(&self) -> (r: Self)
        ensures
            r == *self,
    {
        PersistentActorId { value: self.value, _marker: PhantomData }
    }
}

impl<A> Copy for PersistentActorId<A> {

}

impl AnyActorId {
    /// Recovery of the typed identity succeeds exactly when the kinds match.
    pub fn downcast<A: PersistentActor>(&self) -> (r: Option<PersistentActorId<A>>)
        ensures
            match r {
                Some(t) => self.name == A::spec_kind() && t.value == self.value && t.spec_any()
                    == *self,
                None => self.name != A::spec_kind(),
            },
    {
        if self.name == ActorName::name_for::<A>() {
            Some(PersistentActorId { value: self.value, _marker: PhantomData })
        } else {
            None
        }
    }
}

/// Mathematical shape of an erased actor value.
pub ghost struct AnyActorV {
    pub name: ActorName,
    pub bytes: Seq<u8>,
}

/// An actor value in erased form: its kind tag plus its encoded state.
pub struct AnyActor {
    pub name: ActorName,
    pub bytes: Vec<u8>,
}

impl View for AnyActor {
    type V = AnyActorV;

    open spec fn view(&self) -> AnyActorV {
        AnyActorV { name: self.name, bytes: self.bytes@ }
    }
}

/// The erased form a typed actor value erases to.
pub open spec fn actor_erase<A: PersistentActor>(a: A) -> AnyActorV {
    AnyActorV { name: A::spec_kind(), bytes: a.spec_encode() }
}

/// What recovering a typed actor from an erased one yields: absence unless
/// the tags agree and the bytes decode.
pub open spec fn actor_downcast<A: PersistentActor>(av: AnyActorV) -> Option<A> {
    if av.name == A::spec_kind() {
        A::spec_decode(av.bytes)
    } else {
        None
    }
}

impl AnyActor {
    pub fn from_actor<A: PersistentActor>(actor: &A) -> (r: AnyActor)
        ensures
            r@ == actor_erase(*actor),
            actor_downcast::<A>(r@) == Some(*actor),
    {
        AnyActor { name: A::kind(), bytes: actor.encode() }
    }

    pub fn downcast<A: PersistentActor>(&self) -> (r: Option<A>)
        ensures
            r == actor_downcast::<A>(self@),
            self@.name != A::spec_kind() ==> r is None,
    {
        if self.name == A::kind() {
            A::decode(&self.bytes)
        } else {
            None
        }
    }

    /// A copy denoting the same erased value.
    pub fn duplicate(&self) -> (r: AnyActor)
        ensures
            r@ == self@,
    {
        AnyActor { name: self.name, bytes: clone_bytes(&self.bytes) }
    }

    /// Round trip: erasing an actor value and recovering it at its own type
    /// gives the value back.
    pub fn round_trip<A: PersistentActor>(actor: &A) -> (r: Option<A>)
        ensures
            r == Some(*actor),
    {
        AnyActor::from_actor(actor).downcast::<A>()
    }
}

} // verus!
