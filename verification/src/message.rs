//! Messages. A typed message is a plain value; its wire form is its kind tag
//! plus its encoded bytes. Recovery checks the tag before decoding, so a
//! message of a different kind comes back absent, never reinterpreted.

use vstd::prelude::*;

use crate::codec::clone_bytes;
use crate::kinds::MessageName;

verus! {

/// A type that can be sent between actors: it has a stable tag and a
/// lossless encoding, exactly as stored values do.
pub trait Message: Sized {
    spec fn spec_kind() -> MessageName;

    spec fn spec_encode(self) -> Seq<u8>;

    spec fn spec_decode(b: Seq<u8>) -> Option<Self>;

    fn kind() -> (k: MessageName)
        ensures
            k == Self::spec_kind(),
    ;

    fn encode(&self) -> (b: Vec<u8>)
        ensures
            b@ == self.spec_encode(),
            Self::spec_decode(b@) == Some(*self),
    ;

    fn decode(b: &Vec<u8>) -> (r: Option<Self>)
        ensures
            r == Self::spec_decode(b@),
    ;
}

impl MessageName {
    pub fn name_for<M: Message>() -> (r: MessageName)
        ensures
            r == M::spec_kind(),
    {
        M::kind()
    }
}

/// Mathematical shape of a message in wire form.
pub ghost struct AnyMessageV {
    pub name: MessageName,
    pub bytes: Seq<u8>,
}

/// A message in wire form: its kind tag plus its encoded bytes.
pub struct AnyMessage {
    pub name: MessageName,
    pub bytes: Vec<u8>,
}

impl View for AnyMessage {
    type V = AnyMessageV;

    open spec fn view(&self) -> AnyMessageV {
        AnyMessageV { name: self.name, bytes: self.bytes@ }
    }
}

/// The wire form a typed message erases to.
pub open spec fn message_erase<M: Message>(m: M) -> AnyMessageV {
    AnyMessageV { name: M::spec_kind(), bytes: m.spec_encode() }
}

/// What recovering a typed message from a wire form yields: absence unless
/// the tags agree and the bytes decode.
pub open spec fn message_downcast<M: Message>(mv: AnyMessageV) -> Option<M> {
    if mv.name == M::spec_kind() {
        M::spec_decode(mv.bytes)
    } else {
        None
    }
}

impl AnyMessage {
    pub fn from_message<M: Message>(message: &M) -> (r: AnyMessage)
        ensures
            r@ == message_erase(*message),
            message_downcast::<M>(r@) == Some(*message),
    {
        AnyMessage { name: M::kind(), bytes: message.encode() }
    }

    pub fn downcast<M: Message>(&self) -> (r: Option<M>)
        ensures
            r == message_downcast::<M>(self@),
            self@.name != M::spec_kind() ==> r is None,
    {
        if self.name == M::kind() {
            M::decode(&self.bytes)
        } else {
            None
        }
    }

    /// A copy denoting the same wire form.
    pub fn duplicate(&self) -> (r: AnyMessage)
        ensures
            r@ == self@,
    {
        AnyMessage { name: self.name, bytes: clone_bytes(&self.bytes) }
    }

    /// Round trip: erasing a message and recovering it at its own type gives
    /// the message back, for every admitted type and every value.
    pub fn round_trip<M: Message>(message: &M) -> (r: Option<M>)
        ensures
            r == Some(*message),
    {
        AnyMessage::from_message(message).downcast::<M>()
    }
}

} // verus!
