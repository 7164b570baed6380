use actor_engine::actor::AnyActor;
use actor_engine::client_server::{Client, Double, Server, ServerResponse};
use actor_engine::codec::{decode_words, encode_words};
use actor_engine::counter::{Counter, Dec, Inc};
use actor_engine::database::Database;
use actor_engine::dispatcher::CallbackId;
use actor_engine::kinds::{ActorName, AnyActorId, MessageName, ValueName};
use actor_engine::message::AnyMessage;
use actor_engine::value::AnyValue;
use core::marker::PhantomData;

#[test]
fn words_wrapper_produces_real_messagepack() {
    // The encoder must produce rmp_serde's encoding, not echo its input.
    let words: Vec<u64> = vec![5, 0, 4294967295];
    let ours = encode_words(&words);
    let theirs = rmp_serde::to_vec(&words).unwrap();
    assert_eq!(ours, theirs);
    assert_ne!(ours, vec![5u8, 0u8, 255u8]);
}

#[test]
fn words_wrapper_round_trips() {
    let words: Vec<u64> = vec![1, 2, 3, 4];
    let bytes = encode_words(&words);
    assert_eq!(decode_words(&bytes), Some(words));
}

#[test]
fn words_wrapper_rejects_garbage() {
    let garbage: Vec<u8> = vec![0xc3, 0xc3, 0xc3];
    assert_eq!(decode_words(&garbage), None);
}

#[test]
fn value_round_trip_u32() {
    assert_eq!(AnyValue::round_trip::<u32>(&0), Some(0));
    assert_eq!(AnyValue::round_trip::<u32>(&4), Some(4));
    assert_eq!(AnyValue::round_trip::<u32>(&u32::MAX), Some(u32::MAX));
}

#[test]
fn value_round_trip_bool() {
    assert_eq!(AnyValue::round_trip::<bool>(&true), Some(true));
    assert_eq!(AnyValue::round_trip::<bool>(&false), Some(false));
}

#[test]
fn value_wrong_kind_is_absent() {
    let erased = AnyValue::from_value(&7u32);
    assert_eq!(erased.downcast::<bool>(), None);
    let erased = AnyValue::from_value(&true);
    assert_eq!(erased.downcast::<u32>(), None);
}

#[test]
fn message_round_trips() {
    assert!(AnyMessage::round_trip::<Dec>(&Dec).is_some());
    let inc = AnyMessage::round_trip::<Inc>(&Inc { value: 9 }).unwrap();
    assert_eq!(inc.value, 9);
    let resp = AnyMessage::round_trip::<ServerResponse>(&ServerResponse { n: 8 }).unwrap();
    assert_eq!(resp.n, 8);
    let callback: CallbackId<ServerResponse> = CallbackId {
        target: AnyActorId { name: ActorName(33), value: 2 },
        token: 5,
        _marker: PhantomData,
    };
    let back = AnyMessage::round_trip::<Double>(&Double { n: 4, callback }).unwrap();
    assert_eq!(back.n, 4);
    assert_eq!(back.callback.target, AnyActorId { name: ActorName(33), value: 2 });
    assert_eq!(back.callback.token, 5);
}

#[test]
fn message_wrong_kind_is_absent() {
    let wire = AnyMessage::from_message(&Inc { value: 1 });
    assert!(wire.downcast::<Dec>().is_none());
    assert!(wire.downcast::<ServerResponse>().is_none());
    assert_eq!(wire.name, MessageName(22));
}

#[test]
fn message_bad_bytes_fail_cleanly() {
    // Right kind tag, bytes of another shape: absence, not a wrong value.
    let wire = AnyMessage { name: MessageName(22), bytes: rmp_serde::to_vec(&vec![1u64, 2u64]).unwrap() };
    assert!(wire.downcast::<Inc>().is_none());
}

#[test]
fn actor_round_trips() {
    let c = AnyActor::round_trip::<Counter>(&Counter { i: 12 }).unwrap();
    assert_eq!(c.i, 12);
    assert!(AnyActor::round_trip::<Server>(&Server).is_some());
    let client = Client {
        server_id: actor_engine::actor::PersistentActorId::new(3),
        i: 4,
        n: 4,
    };
    let back = AnyActor::round_trip::<Client>(&client).unwrap();
    assert_eq!(back.server_id.value, 3);
    assert_eq!(back.i, 4);
    assert_eq!(back.n, 4);
}

#[test]
fn actor_wrong_kind_is_absent() {
    let erased = AnyActor::from_actor(&Counter { i: 1 });
    assert!(erased.downcast::<Server>().is_none());
}

#[test]
fn database_stores_what_the_codec_produced() {
    let mut db = Database::new();
    assert_eq!(db.update_resource("k".to_string(), 41u32), Ok(false));
    assert_eq!(db.update_resource("k".to_string(), 42u32), Ok(true));
    assert_eq!(db.get_resource::<u32>(&"k".to_string()), Ok(Some(42)));
    assert_eq!(db.get_resource::<u32>(&"absent".to_string()), Ok(None));
    // A stored bool read back as u32 is a store-level failure, not a value.
    assert_eq!(db.update_resource("b".to_string(), true), Ok(false));
    assert!(db.get_resource::<u32>(&"b".to_string()).is_err());
    let raw = db.get_raw(&"k".to_string()).unwrap();
    assert_eq!(raw.name, ValueName(1));
}
