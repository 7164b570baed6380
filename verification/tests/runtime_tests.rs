use actor_engine::client_server::{Client, Double, Server, ServerResponse};
use actor_engine::counter::{Counter, Dec, Inc};
use actor_engine::database::Database;
use actor_engine::errors::RuntimeError;
use actor_engine::global_storage::StorageError;
use actor_engine::kinds::AnyActorId;
use actor_engine::log::Log;
use actor_engine::message::AnyMessage;
use actor_engine::program::{do_thing, ExampleProgram};
use actor_engine::runtime::Runtime;

#[test]
fn append_indices_are_increasing_and_gapless() {
    let mut log = Log::new();
    let a = AnyActorId { name: actor_engine::kinds::ActorName(1), value: 1 };
    let b = AnyActorId { name: actor_engine::kinds::ActorName(1), value: 2 };
    assert_eq!(log.append(b, a, AnyMessage::from_message(&Dec)), Ok(0));
    assert_eq!(log.append(b, a, AnyMessage::from_message(&Dec)), Ok(1));
    assert_eq!(log.append(b, a, AnyMessage::from_message(&Dec)), Ok(2));
    // Another recipient's record starts at zero of its own.
    assert_eq!(log.append(a, b, AnyMessage::from_message(&Dec)), Ok(0));
    let entry = log.read(a, 1).unwrap();
    assert_eq!(entry.next_idx, 2);
    assert_eq!(entry.sender_id, b);
    // Absence past the end is the normal caught-up answer.
    assert!(log.read(a, 3).is_none());
}

#[test]
fn trim_compacts_the_front_and_indices_keep_counting() {
    let mut log = Log::new();
    let a = AnyActorId { name: actor_engine::kinds::ActorName(1), value: 1 };
    let b = AnyActorId { name: actor_engine::kinds::ActorName(1), value: 2 };
    for _ in 0..3 {
        log.append(b, a, AnyMessage::from_message(&Dec)).unwrap();
    }
    log.trim(a, 2);
    assert!(log.read(a, 0).is_none());
    assert!(log.read(a, 1).is_none());
    assert_eq!(log.read(a, 2).unwrap().next_idx, 3);
    // The index space is the whole record's, compacted or not.
    assert_eq!(log.append(b, a, AnyMessage::from_message(&Dec)), Ok(3));
    assert_eq!(log.read(a, 3).unwrap().next_idx, 4);
}

fn counter_runtime(start: u32) -> Runtime<ExampleProgram> {
    let mut rt = Runtime::new(Database::new());
    assert!(rt.register_actor::<Counter>(ExampleProgram::InitCounter));
    assert!(rt.register_handler::<Counter, Dec>(ExampleProgram::CounterDec));
    assert!(rt.register_handler::<Counter, Inc>(ExampleProgram::CounterInc));
    assert!(rt.add_actor(Counter { i: start }).is_some());
    rt
}

#[test]
fn counter_counts_down_to_zero() {
    let mut rt = counter_runtime(3);
    let errors = rt.run(64);
    assert!(errors.is_empty());
    assert_eq!(rt.db.get_resource::<u32>(&"i".to_string()), Ok(Some(0)));
}

#[test]
fn replay_from_zero_is_deterministic() {
    // Two runtimes built from the same initial state reach the same terminal
    // storage state, entry by entry.
    let mut rt_a = counter_runtime(5);
    let mut rt_b = counter_runtime(5);
    rt_a.run(64);
    rt_b.run(64);
    let key = "i".to_string();
    assert_eq!(
        rt_a.db.get_resource::<u32>(&key),
        rt_b.db.get_resource::<u32>(&key)
    );
    assert_eq!(rt_a.db.map.len(), rt_b.db.map.len());
}

#[test]
fn add_actor_requires_registration() {
    let mut rt: Runtime<ExampleProgram> = Runtime::new(Database::new());
    assert!(rt.add_actor(Counter { i: 1 }).is_none());
}

#[test]
fn do_thing_drives_a_counter_to_zero() {
    let rt = Runtime::new(Database::new());
    let errors = do_thing(rt);
    assert!(errors.is_empty());
}

#[test]
fn client_and_server_round_trip_to_one() {
    // The asking actor starts with a stored countdown of 3 (from i = 4) and a
    // first number 4; the answering actor doubles; each answer decrements the
    // countdown and re-asks until it reaches 1.
    let mut rt: Runtime<ExampleProgram> = Runtime::new(Database::new());
    assert!(rt.register_actor::<Server>(ExampleProgram::InitServer));
    assert!(rt.register_actor::<Client>(ExampleProgram::InitClient));
    assert!(rt.register_handler::<Server, Double>(ExampleProgram::ServerDouble));
    assert!(rt.register_handler::<Client, ServerResponse>(ExampleProgram::ClientResponse));
    let server_id = rt.add_actor(Server).unwrap();
    assert!(rt.add_actor(Client { server_id, i: 4, n: 4 }).is_some());
    let errors = rt.run(64);
    assert!(errors.is_empty());
    // The client's key ends at 1; the server stored nothing, so the store
    // holds exactly the one key.
    assert_eq!(rt.db.get_resource::<u32>(&"counter".to_string()), Ok(Some(1)));
    assert_eq!(rt.db.map.len(), 1);
}

#[test]
fn faulting_actor_does_not_stop_the_others() {
    // The counter starts at 0: its init stores nothing, and its first Dec
    // fails with KeyNotFound on the never-written key. The client and server
    // keep running in the same run and finish their work.
    let mut rt: Runtime<ExampleProgram> = Runtime::new(Database::new());
    assert!(rt.register_actor::<Counter>(ExampleProgram::InitCounter));
    assert!(rt.register_handler::<Counter, Dec>(ExampleProgram::CounterDec));
    assert!(rt.register_actor::<Server>(ExampleProgram::InitServer));
    assert!(rt.register_actor::<Client>(ExampleProgram::InitClient));
    assert!(rt.register_handler::<Server, Double>(ExampleProgram::ServerDouble));
    assert!(rt.register_handler::<Client, ServerResponse>(ExampleProgram::ClientResponse));
    let broken = rt.add_actor(Counter { i: 0 }).unwrap();
    let server_id = rt.add_actor(Server).unwrap();
    assert!(rt.add_actor(Client { server_id, i: 4, n: 4 }).is_some());
    let errors = rt.run(64);
    assert_eq!(errors.len(), 1);
    assert_eq!(errors[0].0, broken.into_any());
    assert_eq!(
        errors[0].1,
        RuntimeError::Storage(StorageError::KeyNotFound)
    );
    // The unrelated actors updated normally within the same run.
    assert_eq!(rt.db.get_resource::<u32>(&"counter".to_string()), Ok(Some(1)));
    assert_eq!(rt.db.get_resource::<u32>(&"i".to_string()), Ok(None));
}

#[test]
fn inc_lowers_the_stored_value_and_stops_at_zero() {
    let mut rt = counter_runtime(0);
    // Give the counter a stored value and one Inc delivery by hand, then let
    // replay run with a small budget (Inc keeps nudging itself by one).
    rt.db.update_resource("i".to_string(), 10u32).unwrap();
    let id = rt.actor_id_at(0);
    rt.log
        .append(id, id, AnyMessage::from_message(&Inc { value: 4 }))
        .unwrap();
    let _ = rt.do_step(0);
    assert_eq!(rt.db.get_resource::<u32>(&"i".to_string()), Ok(Some(6)));
}
