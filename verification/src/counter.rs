//! A small self-contained actor: a counter that stores its value under one
//! key and keeps telling itself to count down. Its behavior models
//! (`spec_init`, `spec_handle`) are what its executable steps are proved
//! against, so the engine's dispatch contracts reach all the way into it.

use vstd::prelude::*;

use crate::actor::PersistentActor;
use crate::codec::{decode_words, encode_words, mp_read_words, mp_words};
use crate::context::{Context, CtxView};
use crate::global_storage::{spec_borrow, GlobalEffect, StorageError};
use crate::handler::Handler;
use crate::kinds::{ActorName, MessageName};
use crate::message::{message_erase, Message};
use crate::value::{value_erase, AnyValueV};

verus! {

/// A persistent counter; its durable value lives under the key `"i"`.
pub struct Counter {
    pub i: u32,
}

/// Tells the counter to decrement its stored value and, while it stays
/// positive, to keep telling itself.
pub struct Dec;

/// Tells the counter to lower its stored value by an amount (stopping at
/// zero), then nudge itself by one.
pub struct Inc {
    pub value: u32,
}

impl Message for Dec {
    open spec fn spec_kind() -> MessageName {
        MessageName(21)
    }

    open spec fn spec_encode(self) -> Seq<u8> {
        mp_words(Seq::<u64>::empty())
    }

    open spec fn spec_decode(b: Seq<u8>) -> Option<Dec> {
        match mp_read_words(b) {
            Some(s) => if s.len() == 0 {
                Some(Dec)
            } else {
                None
            },
            None => None,
        }
    }

    fn kind() -> (k: MessageName) {
        MessageName(21)
    }

    fn encode(&self) -> (b: Vec<u8>) {
        let words: Vec<u64> = Vec::new();
        proof {
            assert(words@ =~= Seq::<u64>::empty());
        }
        encode_words(&words)
    }

    fn decode(b: &Vec<u8>) -> (r: Option<Dec>) {
        match decode_words(b) {
            Some(words) => {
                if words.len() == 0 {
                    Some(Dec)
                } else {
                    None
                }
            },
            None => None,
        }
    }
}

impl Message for Inc {
    open spec fn spec_kind() -> MessageName {
        MessageName(22)
    }

    open spec fn spec_encode(self) -> Seq<u8> {
        mp_words(seq![self.value as u64])
    }

    open spec fn spec_decode(b: Seq<u8>) -> Option<Inc> {
        match mp_read_words(b) {
            Some(s) => if s.len() == 1 && s[0] <= u32::MAX as u64 {
                Some(Inc { value: s[0] as u32 })
            } else {
                None
            },
            None => None,
        }
    }

    fn kind() -> (k: MessageName) {
        MessageName(22)
    }

    fn encode(&self) -> (b: Vec<u8>) {
        let mut words: Vec<u64> = Vec::new();
        words.push(self.value as u64);
        proof {
            assert(words@ =~= seq![self.value as u64]);
        }
        encode_words(&words)
    }

    fn decode(b: &Vec<u8>) -> (r: Option<Inc>) {
        match decode_words(b) {
            Some(words) => {
                if words.len() == 1 {
                    let w = words[0];
                    proof {
                        assert(words@[0] == w);
                    }
                    if w <= u32::MAX as u64 {
                        Some(Inc { value: w as u32 })
                    } else {
                        None
                    }
                } else {
                    None
                }
            },
            None => None,
        }
    }
}

impl PersistentActor for Counter {
    open spec fn spec_kind() -> ActorName {
        ActorName(20)
    }

    open spec fn spec_encode(self) -> Seq<u8> {
        mp_words(seq![self.i as u64])
    }

    open spec fn spec_decode(b: Seq<u8>) -> Option<Counter> {
        match mp_read_words(b) {
            Some(s) => if s.len() == 1 && s[0] <= u32::MAX as u64 {
                Some(Counter { i: s[0] as u32 })
            } else {
                None
            },
            None => None,
        }
    }

    /// Stores the starting value when there is one, then tells itself to
    /// start counting down.
    open spec fn spec_init(self, db: Map<Seq<char>, AnyValueV>, pre: CtxView) -> (CtxView, Result<
        (),
        StorageError,
    >) {
        let mid = if self.i > 0 {
            CtxView {
                cache: pre.cache.insert("i"@, value_erase(self.i)),
                effects: pre.effects.insert("i"@, GlobalEffect::Modified),
                ..pre
            }
        } else {
            pre
        };
        (CtxView { messages: mid.messages.insert(pre.owner, message_erase(Dec)), ..mid }, Ok(()))
    }

    fn kind() -> (k: ActorName) {
        ActorName(20)
    }

    fn encode(&self) -> (b: Vec<u8>) {
        let mut words: Vec<u64> = Vec::new();
        words.push(self.i as u64);
        proof {
            assert(words@ =~= seq![self.i as u64]);
        }
        encode_words(&words)
    }

    fn decode(b: &Vec<u8>) -> (r: Option<Counter>) {
        match decode_words(b) {
            Some(words) => {
                if words.len() == 1 {
                    let w = words[0];
                    proof {
                        assert(words@[0] == w);
                    }
                    if w <= u32::MAX as u64 {
                        Some(Counter { i: w as u32 })
                    } else {
                        None
                    }
                } else {
                    None
                }
            },
            None => None,
        }
    }

    fn init(&self, cx: &mut Context<Self>) -> (r: Result<(), StorageError>) {
        if self.i > 0 {
            cx.put("i", self.i);
        }
        cx.send_self(Dec);
        Ok(())
    }
}

impl Handler<Dec> for Counter {
    /// Reads the stored value for modification; while it is positive,
    /// decrements it and keeps going. A counter whose value was never stored
    /// fails with `KeyNotFound`, and the fault stays its own.
    open spec fn spec_handle(self, db: Map<Seq<char>, AnyValueV>, pre: CtxView, message: Dec) -> (
        CtxView,
        Result<(), StorageError>,
    ) {
        let b = spec_borrow::<u32>(db, pre.cache, pre.effects, "i"@);
        let mid = CtxView { cache: b.0, effects: b.1, ..pre };
        match b.2 {
            Err(e) => (mid, Err(e)),
            Ok(c) => if c > 0 {
                (
                    CtxView {
                        cache: mid.cache.insert("i"@, value_erase((c - 1) as u32)),
                        effects: mid.effects.insert("i"@, GlobalEffect::Modified),
                        messages: mid.messages.insert(pre.owner, message_erase(Dec)),
                        ..mid
                    },
                    Ok(()),
                )
            } else {
                (mid, Ok(()))
            },
        }
    }

    fn handle(&self, cx: &mut Context<Self>, message: Dec) -> (r: Result<(), StorageError>) {
        let c: u32 = match cx.borrow_mut::<u32>("i") {
            Ok(c) => c,
            Err(e) => {
                return Err(e);
            },
        };
        if c > 0 {
            cx.put("i", c - 1);
            cx.send_self(Dec);
        }
        Ok(())
    }
}

impl Handler<Inc> for Counter {
    /// Lowers the stored value by the given amount, stopping at zero, then
    /// nudges itself by one.
    open spec fn spec_handle(self, db: Map<Seq<char>, AnyValueV>, pre: CtxView, message: Inc) -> (
        CtxView,
        Result<(), StorageError>,
    ) {
        let b = spec_borrow::<u32>(db, pre.cache, pre.effects, "i"@);
        let mid = CtxView { cache: b.0, effects: b.1, ..pre };
        match b.2 {
            Err(e) => (mid, Err(e)),
            Ok(c) => {
                let c2: u32 = if c >= message.value {
                    (c - message.value) as u32
                } else {
                    0
                };
                (
                    CtxView {
                        cache: mid.cache.insert("i"@, value_erase(c2)),
                        effects: mid.effects.insert("i"@, GlobalEffect::Modified),
                        messages: mid.messages.insert(pre.owner, message_erase(Inc { value: 1 })),
                        ..mid
                    },
                    Ok(()),
                )
            },
        }
    }

    fn handle(&self, cx: &mut Context<Self>, message: Inc) -> (r: Result<(), StorageError>) {
        let c: u32 = match cx.borrow_mut::<u32>("i") {
            Ok(c) => c,
            Err(e) => {
                return Err(e);
            },
        };
        let c2: u32 = if c >= message.value {
            c - message.value
        } else {
            0
        };
        cx.put("i", c2);
        cx.send_self(Inc { value: 1 });
        Ok(())
    }
}

} // verus!
