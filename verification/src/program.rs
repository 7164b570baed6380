//! The registry entries for the example actors. An application names its
//! typed behaviors in one entry type; each entry recovers its own static
//! types through the generic typed-dispatch functions, so the table can hold
//! them uniformly and every dispatch stays a function of the pre-state.

use vstd::prelude::*;

use crate::actor::{actor_erase, AnyActor, AnyActorV, PersistentActor};
use crate::client_server::{Client, Double, Server, ServerResponse};
use crate::context::{Effects, EffectsV};
use crate::counter::{Counter, Dec, Inc};
use crate::database::Database;
use crate::dyn_table::{
    run_handler_typed, run_init_typed, spec_run_handler, spec_run_init, DispatchError, HandlerId,
    Invoke, opt_msg_view,
};
use crate::errors::RuntimeError;
use crate::global_storage::GlobalStorageCache;
use crate::kinds::{ActorName, AnyActorId};
use crate::message::{AnyMessage, AnyMessageV, Message};
use crate::runtime::{spec_run, ActorDataV, Runtime, RuntimeV};
use crate::value::AnyValueV;

verus! {

/// One entry per registered behavior of the example actors.
pub enum ExampleProgram {
    InitCounter,
    CounterDec,
    CounterInc,
    InitClient,
    InitServer,
    ServerDouble,
    ClientResponse,
}

impl Invoke for ExampleProgram {
    open spec fn spec_call(
        self,
        id: AnyActorId,
        actor: AnyActorV,
        db: Map<Seq<char>, AnyValueV>,
        cache: Map<Seq<char>, AnyValueV>,
        message: Option<AnyMessageV>,
    ) -> (Map<Seq<char>, AnyValueV>, Result<EffectsV, RuntimeError>) {
        match (self, message) {
            (ExampleProgram::InitCounter, None) => spec_run_init::<Counter>(id, actor, db, cache),
            (ExampleProgram::CounterDec, Some(m)) => spec_run_handler::<Counter, Dec>(
                id,
                actor,
                db,
                cache,
                m,
            ),
            (ExampleProgram::CounterInc, Some(m)) => spec_run_handler::<Counter, Inc>(
                id,
                actor,
                db,
                cache,
                m,
            ),
            (ExampleProgram::InitClient, None) => spec_run_init::<Client>(id, actor, db, cache),
            (ExampleProgram::InitServer, None) => spec_run_init::<Server>(id, actor, db, cache),
            (ExampleProgram::ServerDouble, Some(m)) => spec_run_handler::<Server, Double>(
                id,
                actor,
                db,
                cache,
                m,
            ),
            (ExampleProgram::ClientResponse, Some(m)) => spec_run_handler::<Client, ServerResponse>(
                id,
                actor,
                db,
                cache,
                m,
            ),
            _ => (cache, Err(RuntimeError::Dispatch(DispatchError::TypeMismatch))),
        }
    }

    fn call(
        &self,
        id: AnyActorId,
        actor: &AnyActor,
        db: &Database,
        cache: GlobalStorageCache,
        message: Option<&AnyMessage>,
    ) -> (r: (GlobalStorageCache, Result<Effects, RuntimeError>)) {
        match (self, message) {
            (ExampleProgram::InitCounter, None) => run_init_typed::<Counter>(id, actor, db, cache),
            (ExampleProgram::CounterDec, Some(m)) => run_handler_typed::<Counter, Dec>(
                id,
                actor,
                db,
                cache,
                m,
            ),
            (ExampleProgram::CounterInc, Some(m)) => run_handler_typed::<Counter, Inc>(
                id,
                actor,
                db,
                cache,
                m,
            ),
            (ExampleProgram::InitClient, None) => run_init_typed::<Client>(id, actor, db, cache),
            (ExampleProgram::InitServer, None) => run_init_typed::<Server>(id, actor, db, cache),
            (ExampleProgram::ServerDouble, Some(m)) => run_handler_typed::<Server, Double>(
                id,
                actor,
                db,
                cache,
                m,
            ),
            (ExampleProgram::ClientResponse, Some(m)) => run_handler_typed::<
                Client,
                ServerResponse,
            >(id, actor, db, cache, m),
            _ => (cache, Err(RuntimeError::Dispatch(DispatchError::TypeMismatch))),
        }
    }
}

/// Wires a counter into a freshly-registered runtime and drives it: the
/// whole lifecycle on one page — registration, admission, initialization and
/// replay until idle. What comes back is exactly `spec_run` of the wired
/// model.
pub fn do_thing(runtime: Runtime<ExampleProgram>) -> (errors: Vec<(AnyActorId, RuntimeError)>)
    requires
        runtime.wf(),
        runtime.table.inits@ == Map::<ActorName, ExampleProgram>::empty(),
        runtime.table.handlers@ == Map::<HandlerId, ExampleProgram>::empty(),
        runtime.next_id < u32::MAX,
    ensures
        ({
            let m0 = runtime.model();
            let wired = RuntimeV::<ExampleProgram> {
                inits: m0.inits.insert(Counter::spec_kind(), ExampleProgram::InitCounter),
                handlers: m0.handlers.insert(
                    HandlerId { actor: Counter::spec_kind(), message: Inc::spec_kind() },
                    ExampleProgram::CounterInc,
                ).insert(
                    HandlerId { actor: Counter::spec_kind(), message: Dec::spec_kind() },
                    ExampleProgram::CounterDec,
                ),
                actors: m0.actors.push(
                    ActorDataV {
                        id: AnyActorId {
                            name: Counter::spec_kind(),
                            value: (runtime.next_id + 1) as u32,
                        },
                        actor: actor_erase(Counter { i: 3 }),
                        cache: Map::<Seq<char>, crate::value::AnyValueV>::empty(),
                        curr_log_index: 0,
                    },
                ),
                db: m0.db,
                log: m0.log,
            };
            errors@ == spec_run(wired, 64).1
        }),
{
    let ghost m0 = runtime.model();
    let ghost next0 = runtime.next_id;
    let mut runtime = runtime;
    let reg_counter = runtime.register_actor::<Counter>(ExampleProgram::InitCounter);
    let reg_inc = runtime.register_handler::<Counter, Inc>(ExampleProgram::CounterInc);
    let reg_dec = runtime.register_handler::<Counter, Dec>(ExampleProgram::CounterDec);
    let added = runtime.add_actor(Counter { i: 3 });
    match added {
        Some(id) => {
            proof {
                let wired = RuntimeV::<ExampleProgram> {
                    inits: m0.inits.insert(Counter::spec_kind(), ExampleProgram::InitCounter),
                    handlers: m0.handlers.insert(
                        HandlerId { actor: Counter::spec_kind(), message: Inc::spec_kind() },
                        ExampleProgram::CounterInc,
                    ).insert(
                        HandlerId { actor: Counter::spec_kind(), message: Dec::spec_kind() },
                        ExampleProgram::CounterDec,
                    ),
                    actors: m0.actors.push(
                        ActorDataV {
                            id: AnyActorId {
                                name: Counter::spec_kind(),
                                value: (next0 + 1) as u32,
                            },
                            actor: actor_erase(Counter { i: 3 }),
                            cache: Map::<Seq<char>, crate::value::AnyValueV>::empty(),
                            curr_log_index: 0,
                        },
                    ),
                    db: m0.db,
                    log: m0.log,
                };
                assert(runtime.model().actors =~= wired.actors);
                assert(runtime.model() == wired);
            }
            runtime.run(64)
        },
        None => Vec::new(),
    }
}

} // verus!
