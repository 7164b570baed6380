//! The engine's cross-cutting guarantees, stated once and proved from the
//! contracts of the pieces they speak of.

use vstd::prelude::*;

use crate::actor::{actor_downcast, AnyActorV, PersistentActor};
use crate::context::{fresh_ctx, EffectsV};
use crate::dyn_table::{
    entry_handles, spec_dispatch_handler, spec_run_handler, DispatchError, HandlerId, Invoke,
};
use crate::errors::RuntimeError;
use crate::global_storage::GlobalEffect;
use crate::handler::Handler;
use crate::kinds::AnyActorId;
use crate::message::{message_downcast, AnyMessageV, Message};
use crate::runtime::{apply_storage, spec_round, spec_run, spec_step_at, RuntimeV};
use crate::value::AnyValueV;

verus! {

/// Dispatching a correctly-typed actor and message runs the typed handler
/// itself: when identity, erased value and wire form all recover at the
/// registered types, the dispatch outcome is exactly what `spec_handle`
/// produces from a fresh context — success whenever the handler succeeds,
/// with the very same effects.
pub proof fn lemma_dispatch_matches_typed_handler<A: Handler<M>, M: Message>(
    id: AnyActorId,
    av: AnyActorV,
    mv: AnyMessageV,
    a: A,
    m: M,
    db: Map<Seq<char>, AnyValueV>,
    cache: Map<Seq<char>, AnyValueV>,
)
    requires
        id.name == A::spec_kind(),
        av.name == A::spec_kind(),
        A::spec_decode(av.bytes) == Some(a),
        mv.name == M::spec_kind(),
        M::spec_decode(mv.bytes) == Some(m),
    ensures
        ({
            let pr = a.spec_handle(db, fresh_ctx(id, cache), m);
            spec_run_handler::<A, M>(id, av, db, cache, mv) == (match pr.1 {
                Ok(u) => (
                    pr.0.cache,
                    Ok::<EffectsV, RuntimeError>(
                        EffectsV { messages: pr.0.messages, global: pr.0.effects },
                    ),
                ),
                Err(e) => (pr.0.cache, Err::<EffectsV, RuntimeError>(RuntimeError::Storage(e))),
            })
        }),
{
}

/// A message whose (actor kind, message kind) pair has no registered entry is
/// answered `MethodNotFound`, and nothing changes — in particular a message
/// of the wrong kind for its recipient.
pub proof fn lemma_unregistered_is_method_not_found<E: Invoke>(
    handlers: Map<HandlerId, E>,
    id: AnyActorId,
    av: AnyActorV,
    db: Map<Seq<char>, AnyValueV>,
    cache: Map<Seq<char>, AnyValueV>,
    mv: AnyMessageV,
)
    requires
        !handlers.contains_key(HandlerId { actor: id.name, message: mv.name }),
    ensures
        spec_dispatch_handler(handlers, id, av, db, cache, mv) == (
            cache,
            Err::<EffectsV, RuntimeError>(RuntimeError::Dispatch(DispatchError::MethodNotFound)),
        ),
{
}

/// A desynced actor value — one that does not recover at the type bound at
/// registration — is answered `TypeMismatch`, and nothing changes: never
/// silent misbehavior.
pub proof fn lemma_desynced_value_is_type_mismatch<A: Handler<M>, M: Message>(
    id: AnyActorId,
    av: AnyActorV,
    db: Map<Seq<char>, AnyValueV>,
    cache: Map<Seq<char>, AnyValueV>,
    mv: AnyMessageV,
)
    requires
        actor_downcast::<A>(av) is None || id.name != A::spec_kind(),
    ensures
        spec_run_handler::<A, M>(id, av, db, cache, mv) == (
            cache,
            Err::<EffectsV, RuntimeError>(RuntimeError::Dispatch(DispatchError::TypeMismatch)),
        ),
{
}

/// With the registered entry bound to its key — what `register_handler`
/// demands of every registration — looking the pair up and dispatching is
/// exactly the typed dispatch: the table adds nothing and loses nothing.
pub proof fn lemma_registered_dispatch_is_typed<E: Invoke, A: Handler<M>, M: Message>(
    handlers: Map<HandlerId, E>,
    id: AnyActorId,
    av: AnyActorV,
    db: Map<Seq<char>, AnyValueV>,
    cache: Map<Seq<char>, AnyValueV>,
    mv: AnyMessageV,
)
    requires
        id.name == A::spec_kind(),
        mv.name == M::spec_kind(),
        handlers.contains_key(HandlerId { actor: A::spec_kind(), message: M::spec_kind() }),
        entry_handles::<E, A, M>(
            handlers[HandlerId { actor: A::spec_kind(), message: M::spec_kind() }],
        ),
    ensures
        spec_dispatch_handler(handlers, id, av, db, cache, mv) == spec_run_handler::<A, M>(
            id,
            av,
            db,
            cache,
            mv,
        ),
{
}

/// A wire form of one kind recovered at a different kind is absent — bytes
/// are never reinterpreted across kinds.
pub proof fn lemma_wrong_kind_is_absent<M: Message, N: Message>(mv: AnyMessageV)
    requires
        mv.name == M::spec_kind(),
        M::spec_kind() != N::spec_kind(),
    ensures
        message_downcast::<N>(mv) is None,
{
}

/// Dispatch is deterministic: the outcome is the function
/// `spec_dispatch_handler` of the pre-state alone — the entry's contract pins
/// the executable call to `spec_call`, and this lemma records that two
/// dispatches of one pre-state denote one outcome. Replay steps inherit the
/// same shape through `spec_step`.
pub proof fn lemma_dispatch_deterministic<E: Invoke>(
    handlers: Map<HandlerId, E>,
    id: AnyActorId,
    av: AnyActorV,
    db: Map<Seq<char>, AnyValueV>,
    cache: Map<Seq<char>, AnyValueV>,
    mv: AnyMessageV,
    mv2: AnyMessageV,
)
    requires
        mv == mv2,
    ensures
        spec_dispatch_handler(handlers, id, av, db, cache, mv) == spec_dispatch_handler(
            handlers,
            id,
            av,
            db,
            cache,
            mv2,
        ),
{
}

/// A key that one invocation first writes and later deletes carries only the
/// delete in its effect set, and applying the effects removes the key from
/// the store.
pub proof fn lemma_put_then_remove_deletes(
    db: Map<Seq<char>, AnyValueV>,
    cache: Map<Seq<char>, AnyValueV>,
    eff: Map<Seq<char>, GlobalEffect>,
    k: Seq<char>,
)
    ensures
        eff.insert(k, GlobalEffect::Modified).insert(k, GlobalEffect::Deleted)[k]
            == GlobalEffect::Deleted,
        !apply_storage(
            db,
            cache,
            eff.insert(k, GlobalEffect::Modified).insert(k, GlobalEffect::Deleted),
        ).contains_key(k),
{
}

/// Replay from zero is deterministic: `run`'s whole outcome — terminal
/// store, log, caches, indices and fault reports — is the function
/// `spec_run` of the initial state alone, so two runs from one state agree
/// on all of it.
pub proof fn lemma_run_deterministic<E: Invoke>(s: RuntimeV<E>, s2: RuntimeV<E>, fuel: u64)
    requires
        s == s2,
    ensures
        spec_run(s, fuel) == spec_run(s2, fuel),
{
}

/// A replay round that reports no progress is the idle fixpoint: the store,
/// the log, every actor identity and every log position are left unchanged,
/// and every actor that is still live afterwards has caught up with its
/// record. `Runtime::run` stops replaying exactly when a round reports no
/// progress (or the budget ends), so with `run`'s contract this is the
/// "replay until every actor idles" guarantee.
pub proof fn lemma_no_progress_means_idle<E: Invoke>(
    s: RuntimeV<E>,
    halted: Seq<bool>,
    errors: Seq<(AnyActorId, RuntimeError)>,
    k: nat,
)
    requires
        k <= s.actors.len(),
        k <= halted.len(),
        !spec_round(s, halted, errors, false, k).3,
    ensures
        ({
            let r = spec_round(s, halted, errors, false, k);
            &&& r.0.db == s.db
            &&& r.0.log == s.log
            &&& r.0.actors.len() == s.actors.len()
            &&& r.1.len() == halted.len()
            &&& forall|j: int| 0 <= j < halted.len() && halted[j] ==> #[trigger] r.1[j]
            &&& forall|i: int|
                0 <= i < s.actors.len() ==> (#[trigger] r.0.actors[i]).id == s.actors[i].id
                    && r.0.actors[i].actor == s.actors[i].actor
                    && r.0.actors[i].curr_log_index == s.actors[i].curr_log_index
            &&& forall|i: int|
                0 <= i < k && !(#[trigger] r.1[i]) ==> s.actors[i].curr_log_index
                    >= s.log[s.actors[i].id].len()
        }),
    decreases k,
{
    if k > 0 {
        let pr = spec_round(s, halted, errors, false, (k - 1) as nat);
        let r = spec_round(s, halted, errors, false, k);
        assert(!pr.3);
        lemma_no_progress_means_idle(s, halted, errors, (k - 1) as nat);
        let i = k - 1;
        if !pr.1[i as int] {
            let st = spec_step_at(pr.0, i as int);
            let a = pr.0.actors[i as int];
            if a.curr_log_index >= pr.0.log[a.id].len() {
                assert((crate::runtime::ActorDataV {
                    cache: a.cache,
                    curr_log_index: a.curr_log_index,
                    ..a
                }) == a);
                assert(st.0.actors =~= pr.0.actors);
                assert(st.0 == pr.0);
            } else {
                assert(st.1 is Err);
            }
        }
    }
}

} // verus!
