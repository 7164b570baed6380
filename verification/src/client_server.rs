//! A client/server pair exercising callbacks across the log boundary. The
//! client stores a countdown under `"counter"` and asks the stateless server
//! to double a number, embedding a continuation token; the server answers
//! through the token; the client's answer handler decrements its stored value
//! and, while it stays above one, asks again.

use vstd::prelude::*;

use core::marker::PhantomData;

use crate::actor::{PersistentActor, PersistentActorId};
use crate::codec::{decode_words, encode_words, mp_read_words, mp_words};
use crate::context::{Context, CtxView};
use crate::dispatcher::CallbackId;
use crate::global_storage::{spec_borrow, GlobalEffect, StorageError};
use crate::handler::Handler;
use crate::kinds::{ActorName, AnyActorId, MessageName};
use crate::message::{message_erase, Message};
use crate::value::{value_erase, AnyValueV};

verus! {

/// The asking actor: holds the server's identity, a starting countdown `i`
/// and the first number `n` to double.
pub struct Client {
    pub server_id: PersistentActorId<Server>,
    pub i: u32,
    pub n: u32,
}

/// The answering actor; it keeps no stored state.
pub struct Server;

/// Asks the server to double `n` and answer through the embedded token.
pub struct Double {
    pub n: u32,
    pub callback: CallbackId<ServerResponse>,
}

/// The server's answer.
pub struct ServerResponse {
    pub n: u32,
}

impl Message for ServerResponse {
    open spec fn spec_kind() -> MessageName {
        MessageName(31)
    }

    open spec fn spec_encode(self) -> Seq<u8> {
        mp_words(seq![self.n as u64])
    }

    open spec fn spec_decode(b: Seq<u8>) -> Option<ServerResponse> {
        match mp_read_words(b) {
            Some(s) => if s.len() == 1 && s[0] <= u32::MAX as u64 {
                Some(ServerResponse { n: s[0] as u32 })
            } else {
                None
            },
            None => None,
        }
    }

    fn kind() -> (k: MessageName) {
        MessageName(31)
    }

    fn encode(&self) -> (b: Vec<u8>) {
        let mut words: Vec<u64> = Vec::new();
        words.push(self.n as u64);
        proof {
            assert(words@ =~= seq![self.n as u64]);
        }
        encode_words(&words)
    }

    fn decode(b: &Vec<u8>) -> (r: Option<ServerResponse>) {
        match decode_words(b) {
            Some(words) => {
                if words.len() == 1 {
                    let w = words[0];
                    proof {
                        assert(words@[0] == w);
                    }
                    if w <= u32::MAX as u64 {
                        Some(ServerResponse { n: w as u32 })
                    } else {
                        None
                    }
                } else {
                    None
                }
            },
            None => None,
        }
    }
}

impl Message for Double {
    open spec fn spec_kind() -> MessageName {
        MessageName(32)
    }

    open spec fn spec_encode(self) -> Seq<u8> {
        mp_words(
            seq![
                self.n as u64,
                self.callback.target.name.0,
                self.callback.target.value as u64,
                self.callback.token as u64,
            ],
        )
    }

    open spec fn spec_decode(b: Seq<u8>) -> Option<Double> {
        match mp_read_words(b) {
            Some(s) => if s.len() == 4 && s[0] <= u32::MAX as u64 && s[2] <= u32::MAX as u64 && s[3]
                <= u32::MAX as u64 {
                Some(
                    Double {
                        n: s[0] as u32,
                        callback: CallbackId {
                            target: AnyActorId {
                                name: crate::kinds::ActorName(s[1]),
                                value: s[2] as u32,
                            },
                            token: s[3] as u32,
                            _marker: PhantomData,
                        },
                    },
                )
            } else {
                None
            },
            None => None,
        }
    }

    fn kind() -> (k: MessageName) {
        MessageName(32)
    }

    fn encode(&self) -> (b: Vec<u8>) {
        let mut words: Vec<u64> = Vec::new();
        words.push(self.n as u64);
        words.push(self.callback.target.name.0);
        words.push(self.callback.target.value as u64);
        words.push(self.callback.token as u64);
        proof {
            assert(words@ =~= seq![
                self.n as u64,
                self.callback.target.name.0,
                self.callback.target.value as u64,
                self.callback.token as u64,
            ]);
        }
        encode_words(&words)
    }

    fn decode(b: &Vec<u8>) -> (r: Option<Double>) {
        match decode_words(b) {
            Some(words) => {
                if words.len() == 4 {
                    let w0 = words[0];
                    let w1 = words[1];
                    let w2 = words[2];
                    let w3 = words[3];
                    if w0 <= u32::MAX as u64 && w2 <= u32::MAX as u64 && w3 <= u32::MAX as u64 {
                        Some(
                            Double {
                                n: w0 as u32,
                                callback: CallbackId {
                                    target: AnyActorId {
                                        name: crate::kinds::ActorName(w1),
                                        value: w2 as u32,
                                    },
                                    token: w3 as u32,
                                    _marker: PhantomData,
                                },
                            },
                        )
                    } else {
                        None
                    }
                } else {
                    None
                }
            },
            None => None,
        }
    }
}

impl PersistentActor for Server {
    open spec fn spec_kind() -> ActorName {
        ActorName(30)
    }

    open spec fn spec_encode(self) -> Seq<u8> {
        mp_words(Seq::<u64>::empty())
    }

    open spec fn spec_decode(b: Seq<u8>) -> Option<Server> {
        match mp_read_words(b) {
            Some(s) => if s.len() == 0 {
                Some(Server)
            } else {
                None
            },
            None => None,
        }
    }

    /// The server keeps no stored state and does nothing at startup.
    open spec fn spec_init(self, db: Map<Seq<char>, AnyValueV>, pre: CtxView) -> (CtxView, Result<
        (),
        StorageError,
    >) {
        (pre, Ok(()))
    }

    fn kind() -> (k: ActorName) {
        ActorName(30)
    }

    fn encode(&self) -> (b: Vec<u8>) {
        let words: Vec<u64> = Vec::new();
        proof {
            assert(words@ =~= Seq::<u64>::empty());
        }
        encode_words(&words)
    }

    fn decode(b: &Vec<u8>) -> (r: Option<Server>) {
        match decode_words(b) {
            Some(words) => {
                if words.len() == 0 {
                    Some(Server)
                } else {
                    None
                }
            },
            None => None,
        }
    }

    fn init(&self, cx: &mut Context<Self>) -> (r: Result<(), StorageError>) {
        Ok(())
    }
}

impl Handler<Double> for Server {
    /// Doubles the number and answers through the embedded token; no storage
    /// is read or written.
    open spec fn spec_handle(self, db: Map<Seq<char>, AnyValueV>, pre: CtxView, message: Double) -> (
        CtxView,
        Result<(), StorageError>,
    ) {
        (
            CtxView {
                messages: pre.messages.insert(
                    message.callback.target,
                    message_erase(ServerResponse { n: message.n.wrapping_mul(2) }),
                ),
                ..pre
            },
            Ok(()),
        )
    }

    fn handle(&self, cx: &mut Context<Self>, message: Double) -> (r: Result<(), StorageError>) {
        let answer = ServerResponse { n: message.n.wrapping_mul(2) };
        cx.call_callback(&message.callback, answer);
        Ok(())
    }
}

impl PersistentActor for Client {
    open spec fn spec_kind() -> ActorName {
        ActorName(33)
    }

    open spec fn spec_encode(self) -> Seq<u8> {
        mp_words(seq![self.server_id.value as u64, self.i as u64, self.n as u64])
    }

    open spec fn spec_decode(b: Seq<u8>) -> Option<Client> {
        match mp_read_words(b) {
            Some(s) => if s.len() == 3 && s[0] <= u32::MAX as u64 && s[1] <= u32::MAX as u64 && s[2]
                <= u32::MAX as u64 {
                Some(
                    Client {
                        server_id: PersistentActorId {
                            value: s[0] as u32,
                            _marker: PhantomData,
                        },
                        i: s[1] as u32,
                        n: s[2] as u32,
                    },
                )
            } else {
                None
            },
            None => None,
        }
    }

    /// With a countdown above one, stores `i - 1` under `"counter"`, makes a
    /// continuation token and asks the server to double `n`.
    open spec fn spec_init(self, db: Map<Seq<char>, AnyValueV>, pre: CtxView) -> (CtxView, Result<
        (),
        StorageError,
    >) {
        if self.i > 1 {
            let callback = CallbackId::<ServerResponse> {
                target: pre.owner,
                token: pre.next_callback,
                _marker: PhantomData,
            };
            (
                CtxView {
                    cache: pre.cache.insert("counter"@, value_erase((self.i - 1) as u32)),
                    effects: pre.effects.insert("counter"@, GlobalEffect::Modified),
                    messages: pre.messages.insert(
                        self.server_id.spec_any(),
                        message_erase(Double { n: self.n, callback }),
                    ),
                    next_callback: pre.next_callback.wrapping_add(1),
                    ..pre
                },
                Ok(()),
            )
        } else {
            (pre, Ok(()))
        }
    }

    fn kind() -> (k: ActorName) {
        ActorName(33)
    }

    fn encode(&self) -> (b: Vec<u8>) {
        let mut words: Vec<u64> = Vec::new();
        words.push(self.server_id.value as u64);
        words.push(self.i as u64);
        words.push(self.n as u64);
        proof {
            assert(words@ =~= seq![
                self.server_id.value as u64,
                self.i as u64,
                self.n as u64,
            ]);
        }
        encode_words(&words)
    }

    fn decode(b: &Vec<u8>) -> (r: Option<Client>) {
        match decode_words(b) {
            Some(words) => {
                if words.len() == 3 {
                    let w0 = words[0];
                    let w1 = words[1];
                    let w2 = words[2];
                    if w0 <= u32::MAX as u64 && w1 <= u32::MAX as u64 && w2 <= u32::MAX as u64 {
                        Some(
                            Client {
                                server_id: PersistentActorId {
                                    value: w0 as u32,
                                    _marker: PhantomData,
                                },
                                i: w1 as u32,
                                n: w2 as u32,
                            },
                        )
                    } else {
                        None
                    }
                } else {
                    None
                }
            },
            None => None,
        }
    }

    fn init(&self, cx: &mut Context<Self>) -> (r: Result<(), StorageError>) {
        if self.i > 1 {
            cx.put("counter", self.i - 1);
            let callback = cx.create_callback::<ServerResponse>();
            cx.send(self.server_id, Double { n: self.n, callback });
        }
        Ok(())
    }
}

impl Handler<ServerResponse> for Client {
    /// Reads the countdown for modification; while it is above one,
    /// decrements it and asks the server to double the new value through a
    /// fresh token.
    open spec fn spec_handle(
        self,
        db: Map<Seq<char>, AnyValueV>,
        pre: CtxView,
        message: ServerResponse,
    ) -> (CtxView, Result<(), StorageError>) {
        let b = spec_borrow::<u32>(db, pre.cache, pre.effects, "counter"@);
        let mid = CtxView { cache: b.0, effects: b.1, ..pre };
        match b.2 {
            Err(e) => (mid, Err(e)),
            Ok(c) => if c > 1 {
                let c2 = (c - 1) as u32;
                let callback = CallbackId::<ServerResponse> {
                    target: pre.owner,
                    token: pre.next_callback,
                    _marker: PhantomData,
                };
                (
                    CtxView {
                        cache: mid.cache.insert("counter"@, value_erase(c2)),
                        effects: mid.effects.insert("counter"@, GlobalEffect::Modified),
                        messages: mid.messages.insert(
                            self.server_id.spec_any(),
                            message_erase(Double { n: c2, callback }),
                        ),
                        next_callback: pre.next_callback.wrapping_add(1),
                        ..mid
                    },
                    Ok(()),
                )
            } else {
                (mid, Ok(()))
            },
        }
    }

    fn handle(&self, cx: &mut Context<Self>, message: ServerResponse) -> (r: Result<
        (),
        StorageError,
    >) {
        let c: u32 = match cx.borrow_mut::<u32>("counter") {
            Ok(c) => c,
            Err(e) => {
                return Err(e);
            },
        };
        if c > 1 {
            let c2 = c - 1;
            cx.put("counter", c2);
            let callback = cx.create_callback::<ServerResponse>();
            cx.send(self.server_id, Double { n: c2, callback });
        }
        Ok(())
    }
}

} // verus!
