use actor_engine::actor::{AnyActor, PersistentActorId};
use actor_engine::context::Context;
use actor_engine::counter::{Counter, Dec, Inc};
use actor_engine::database::Database;
use actor_engine::dyn_table::{run_handler_typed, DispatchError, DynTable};
use actor_engine::errors::RuntimeError;
use actor_engine::global_storage::{GlobalEffect, GlobalStorageCache, StorageError};
use actor_engine::message::AnyMessage;
use actor_engine::program::ExampleProgram;

fn counter_db(value: u32) -> Database {
    let mut db = Database::new();
    db.update_resource("i".to_string(), value).unwrap();
    db
}

fn table() -> DynTable<ExampleProgram> {
    let mut t = DynTable::new();
    assert!(t.register_actor::<Counter>(ExampleProgram::InitCounter));
    assert!(t.register_handler::<Counter, Dec>(ExampleProgram::CounterDec));
    assert!(t.register_handler::<Counter, Inc>(ExampleProgram::CounterInc));
    t
}

#[test]
fn duplicate_registration_is_refused() {
    let mut t = table();
    assert!(!t.register_actor::<Counter>(ExampleProgram::InitCounter));
    assert!(!t.register_handler::<Counter, Dec>(ExampleProgram::CounterDec));
}

#[test]
fn dispatch_on_correct_types_matches_typed_handler() {
    // Dispatching through the table produces exactly what the typed handler
    // stages: a write of i - 1 and a Dec back to the actor itself.
    let t = table();
    let db = counter_db(2);
    let actor = Counter { i: 2 };
    let erased = AnyActor::from_actor(&actor);
    let id = erased_id(7);
    let wire = AnyMessage::from_message(&Dec);
    let (cache, outcome) = t.dispatch_handler(id, &erased, &db, GlobalStorageCache::new(), &wire);
    let effects = outcome.unwrap();
    assert_eq!(
        effects.global_effects.get(&"i".to_string()),
        Some(&GlobalEffect::Modified)
    );
    let sent = effects.messages.get(&id).unwrap();
    assert_eq!(sent.name, AnyMessage::from_message(&Dec).name);
    let cached = cache.get_raw(&"i".to_string()).unwrap();
    assert_eq!(cached.downcast::<u32>(), Some(1));
}

fn erased_id(value: u32) -> actor_engine::kinds::AnyActorId {
    PersistentActorId::<Counter>::new(value).into_any()
}

#[test]
fn wrong_message_kind_is_method_not_found() {
    let t = table();
    let db = counter_db(2);
    let erased = AnyActor::from_actor(&Counter { i: 2 });
    let id = erased_id(7);
    // No handler is registered for (Counter, ServerResponse).
    let stray = AnyMessage::from_message(&actor_engine::client_server::ServerResponse { n: 1 });
    let (_, outcome) = t.dispatch_handler(id, &erased, &db, GlobalStorageCache::new(), &stray);
    let err = match outcome {
        Err(e) => e,
        Ok(_) => panic!("expected a wiring fault"),
    };
    assert_eq!(err, RuntimeError::Dispatch(DispatchError::MethodNotFound));
}

#[test]
fn desynced_actor_value_is_type_mismatch() {
    let db = counter_db(2);
    // An erased value carrying the counter's kind tag over a stranger's bytes.
    let mut desynced = AnyActor::from_actor(&Counter { i: 2 });
    desynced.bytes = rmp_serde::to_vec(&vec![1u64, 2u64, 3u64]).unwrap();
    let id = erased_id(7);
    let wire = AnyMessage::from_message(&Dec);
    let (_, outcome) =
        run_handler_typed::<Counter, Dec>(id, &desynced, &db, GlobalStorageCache::new(), &wire);
    let err = match outcome {
        Err(e) => e,
        Ok(_) => panic!("expected a typing fault"),
    };
    assert_eq!(err, RuntimeError::Dispatch(DispatchError::TypeMismatch));
}

#[test]
fn identical_pre_state_gives_identical_effects() {
    // The same pre-state dispatched twice: the effect records agree exactly.
    let t = table();
    let db = counter_db(5);
    let id = erased_id(7);
    let run = || {
        let erased = AnyActor::from_actor(&Counter { i: 5 });
        let wire = AnyMessage::from_message(&Dec);
        t.dispatch_handler(id, &erased, &db, GlobalStorageCache::new(), &wire)
    };
    let (cache_a, out_a) = run();
    let (cache_b, out_b) = run();
    let ef_a = out_a.unwrap();
    let ef_b = out_b.unwrap();
    assert_eq!(
        ef_a.global_effects.get(&"i".to_string()),
        ef_b.global_effects.get(&"i".to_string())
    );
    let m_a = ef_a.messages.get(&id).unwrap();
    let m_b = ef_b.messages.get(&id).unwrap();
    assert_eq!(m_a.name, m_b.name);
    assert_eq!(m_a.bytes, m_b.bytes);
    let v_a = cache_a.get_raw(&"i".to_string()).unwrap().downcast::<u32>();
    let v_b = cache_b.get_raw(&"i".to_string()).unwrap().downcast::<u32>();
    assert_eq!(v_a, v_b);
    assert_eq!(v_a, Some(4));
}

#[test]
fn put_then_remove_records_only_deleted() {
    let db = Database::new();
    let mut cx: Context<Counter> =
        Context::new(PersistentActorId::new(1), &db, GlobalStorageCache::new());
    cx.put("k", 3u32);
    cx.remove("k");
    let (effects, _) = cx.into_effects();
    assert_eq!(
        effects.global_effects.get(&"k".to_string()),
        Some(&GlobalEffect::Deleted)
    );
}

#[test]
fn borrow_mut_missing_key_is_key_not_found() {
    let db = Database::new();
    let mut cx: Context<Counter> =
        Context::new(PersistentActorId::new(1), &db, GlobalStorageCache::new());
    assert_eq!(cx.borrow_mut::<u32>("nothing"), Err(StorageError::KeyNotFound));
}

#[test]
fn borrow_mut_wrong_type_is_value_error() {
    let mut db = Database::new();
    db.update_resource("flag".to_string(), true).unwrap();
    let mut cx: Context<Counter> =
        Context::new(PersistentActorId::new(1), &db, GlobalStorageCache::new());
    assert_eq!(cx.borrow_mut::<u32>("flag"), Err(StorageError::Value));
}

#[test]
fn borrow_mut_reads_through_cache_after_put() {
    let db = counter_db(9);
    let mut cx: Context<Counter> =
        Context::new(PersistentActorId::new(1), &db, GlobalStorageCache::new());
    assert_eq!(cx.borrow_mut::<u32>("i"), Ok(9));
    cx.put("i", 2u32);
    // The same invocation observes its own write, not the store.
    assert_eq!(cx.borrow_mut::<u32>("i"), Ok(2));
}

#[test]
fn second_send_to_same_destination_wins() {
    let db = Database::new();
    let mut cx: Context<Counter> =
        Context::new(PersistentActorId::new(1), &db, GlobalStorageCache::new());
    cx.send_self(Inc { value: 1 });
    cx.send_self(Inc { value: 2 });
    let id = erased_id(1);
    let (effects, _) = cx.into_effects();
    let sent = effects.messages.get(&id).unwrap();
    assert_eq!(sent.downcast::<Inc>().unwrap().value, 2);
}

#[test]
fn callbacks_are_distinct_within_one_invocation() {
    let db = Database::new();
    let mut cx: Context<Counter> =
        Context::new(PersistentActorId::new(1), &db, GlobalStorageCache::new());
    let a = cx.create_callback::<Dec>();
    let b = cx.create_callback::<Dec>();
    assert_eq!(a.target, erased_id(1));
    assert_eq!(b.target, erased_id(1));
    assert_ne!(a.token, b.token);
}
