//! Stable, opaque tags identifying actor, message and stored-value types at
//! runtime, and the erased actor identity built from them.

use vstd::prelude::*;

verus! {

/// Tag identifying an actor type.
#[derive(PartialEq, Eq, Structural, Clone, Copy, Debug)]
pub struct ActorName(pub u64);

/// Tag identifying a message type.
#[derive(PartialEq, Eq, Structural, Clone, Copy, Debug)]
pub struct MessageName(pub u64);

/// Tag identifying a stored-value type.
#[derive(PartialEq, Eq, Structural, Clone, Copy, Debug)]
pub struct ValueName(pub u64);

/// Erased actor identity: the actor-type tag plus the instance id the
/// runtime allocated for it.
#[derive(PartialEq, Eq, Structural, Clone, Copy, Debug)]
pub struct AnyActorId {
    pub name: ActorName,
    pub value: u32,
}

} // verus!
