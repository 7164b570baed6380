//! Stored values. A value type admitted to the store carries a stable tag and
//! a lossless encoding; its erased form is the tag plus the encoded bytes.
//! Recovering a typed value from the erased form checks the tag first, so
//! bytes of a different kind are reported absent, never reinterpreted.

use vstd::prelude::*;

use crate::codec::{clone_bytes, decode_words, encode_words, mp_read_words, mp_words};
use crate::kinds::ValueName;

verus! {

/// Mathematical shape of an erased stored value.
pub ghost struct AnyValueV {
    pub name: ValueName,
    pub bytes: Seq<u8>,
}

/// An erased stored value: its type tag plus its encoded bytes.
pub struct AnyValue {
    pub name: ValueName,
    pub bytes: Vec<u8>,
}

impl View for AnyValue {
    type V = AnyValueV;

    open spec fn view(&self) -> AnyValueV {
        AnyValueV { name: self.name, bytes: self.bytes@ }
    }
}

/// A type that can live in the durable store: it has a stable tag and a
/// lossless encoding. `encode` must produce exactly `spec_encode`, and
/// decoding what was encoded must give the value back.
pub trait PersistentValue: Sized {
    spec fn spec_kind() -> ValueName;

    spec fn spec_encode(self) -> Seq<u8>;

    spec fn spec_decode(b: Seq<u8>) -> Option<Self>;

    fn kind() -> (k: ValueName)
        ensures
            k == Self::spec_kind(),
    ;

    fn encode(&self) -> (b: Vec<u8>)
        ensures
            b@ == self.spec_encode(),
            Self::spec_decode(b@) == Some(*self),
    ;

    fn decode(b: &Vec<u8>) -> (r: Option<Self>)
        ensures
            r == Self::spec_decode(b@),
    ;
}

/// The erased form a typed value erases to.
pub open spec fn value_erase<V: PersistentValue>(v: V) -> AnyValueV {
    AnyValueV { name: V::spec_kind(), bytes: v.spec_encode() }
}

/// What recovering a typed value from an erased one yields: absence unless
/// the tags agree and the bytes decode.
pub open spec fn value_downcast<V: PersistentValue>(av: AnyValueV) -> Option<V> {
    if av.name == V::spec_kind() {
        V::spec_decode(av.bytes)
    } else {
        None
    }
}

impl AnyValue {
    pub fn from_value<V: PersistentValue>(value: &V) -> (r: AnyValue)
        ensures
            r@ == value_erase(*value),
            value_downcast::<V>(r@) == Some(*value),
    {
        AnyValue { name: V::kind(), bytes: value.encode() }
    }

    pub fn downcast<V: PersistentValue>(&self) -> (r: Option<V>)
        ensures
            r == value_downcast::<V>(self@),
            self@.name != V::spec_kind() ==> r is None,
    {
        if self.name == V::kind() {
            V::decode(&self.bytes)
        } else {
            None
        }
    }

    /// A copy denoting the same erased value.
    pub fn duplicate(&self) -> (r: AnyValue)
        ensures
            r@ == self@,
    {
        AnyValue { name: self.name, bytes: clone_bytes(&self.bytes) }
    }

    /// Round trip: erasing a value and recovering it at its own type gives
    /// the value back, for every admitted type and every value.
    pub fn round_trip<V: PersistentValue>(value: &V) -> (r: Option<V>)
        ensures
            r == Some(*value),
    {
        AnyValue::from_value(value).downcast::<V>()
    }
}

impl PersistentValue for u32 {
    open spec fn spec_kind() -> ValueName {
        ValueName(1)
    }

    open spec fn spec_encode(self) -> Seq<u8> {
        mp_words(seq![self as u64])
    }

    open spec fn spec_decode(b: Seq<u8>) -> Option<u32> {
        match mp_read_words(b) {
            Some(s) => if s.len() == 1 && s[0] <= u32::MAX as u64 {
                Some(s[0] as u32)
            } else {
                None
            },
            None => None,
        }
    }

    fn kind() -> (k: ValueName) {
        ValueName(1)
    }

    fn encode(&self) -> (b: Vec<u8>) {
        let mut words: Vec<u64> = Vec::new();
        words.push(*self as u64);
        proof {
            assert(words@ =~= seq![*self as u64]);
        }
        encode_words(&words)
    }

    fn decode(b: &Vec<u8>) -> (r: Option<u32>) {
        match decode_words(b) {
            Some(words) => {
                if words.len() == 1 {
                    let w = words[0];
                    proof {
                        assert(words@[0] == w);
                    }
                    if w <= u32::MAX as u64 {
                        Some(w as u32)
                    } else {
                        None
                    }
                } else {
                    None
                }
            },
            None => None,
        }
    }
}

impl PersistentValue for bool {
    open spec fn spec_kind() -> ValueName {
        ValueName(2)
    }

    open spec fn spec_encode(self) -> Seq<u8> {
        mp_words(seq![if self { 1u64 } else { 0u64 }])
    }

    open spec fn spec_decode(b: Seq<u8>) -> Option<bool> {
        match mp_read_words(b) {
            Some(s) => if s.len() == 1 && (s[0] == 0u64 || s[0] == 1u64) {
                Some(s[0] == 1u64)
            } else {
                None
            },
            None => None,
        }
    }

    fn kind() -> (k: ValueName) {
        ValueName(2)
    }

    fn encode(&self) -> (b: Vec<u8>) {
        let mut words: Vec<u64> = Vec::new();
        words.push(if *self { 1u64 } else { 0u64 });
        proof {
            assert(words@ =~= seq![if *self { 1u64 } else { 0u64 }]);
        }
        encode_words(&words)
    }

    fn decode(b: &Vec<u8>) -> (r: Option<bool>) {
        match decode_words(b) {
            Some(words) => {
                if words.len() == 1 {
                    let w = words[0];
                    proof {
                        assert(words@[0] == w);
                    }
                    if w == 0u64 {
                        Some(false)
                    } else if w == 1u64 {
                        Some(true)
                    } else {
                        None
                    }
                } else {
                    None
                }
            },
            None => None,
        }
    }
}

} // verus!
