//! What holds of every setup of an engine.

use crate::analytic_engine::config::{
    Config, EngineRuntimes, ObkvWalConfig, Parts, StorageOptions,
};
use crate::analytic_engine::error::Error;
use crate::analytic_engine::setup::{
    after_storage, after_wal, BuildInput, EngineAction, EngineBuilder, EngineEvent, EngineState,
    KafkaWalEngineBuilder, MemWalEngineBuilder, ObkvWalEngineBuilder, RocksDBWalEngineBuilder,
};
use crate::analytic_engine::storage::{storage_plan, StorageState, StoreEvent};
use crate::analytic_engine::wal::{
    log_action, wal_runtimes, Log, TableKv, WalAction, WalEvent, WalOpening, WalSource,
    MANIFEST_DIR_NAME, WAL_DIR_NAME,
};
use vstd::prelude::*;

verus! {

/// A builder accepts exactly the configurations for its own kind of wal, and what it accepts
/// it starts to work on. The wal in memory goes by the configuration of obkv.
pub proof fn law_builder_accepts_its_own_wal<'a, P: Parts>(
    rocksdb: &'a RocksDBWalEngineBuilder,
    obkv: &'a ObkvWalEngineBuilder,
    mem: &'a MemWalEngineBuilder<P>,
    kafka: &'a KafkaWalEngineBuilder,
    input: BuildInput<'a, P>,
) where P::MemoryKv: Default + Send + Sync
    ensures
        rocksdb.wal_opening(input) is Ok <==> input.config.wal_storage is RocksDB,
        obkv.wal_opening(input) is Ok <==> input.config.wal_storage is Obkv,
        mem.wal_opening(input) is Ok <==> input.config.wal_storage is Obkv,
        kafka.wal_opening(input) is Ok <==> input.config.wal_storage is Kafka,
        rocksdb.wal_opening(input) matches Ok(opening) ==> is_underway(
            after_wal(input.config, input.engine_runtimes, opening),
        ),
        obkv.wal_opening(input) matches Ok(opening) ==> is_underway(
            after_wal(input.config, input.engine_runtimes, opening),
        ),
        mem.wal_opening(input) matches Ok(opening) ==> is_underway(
            after_wal(input.config, input.engine_runtimes, opening),
        ),
        kafka.wal_opening(input) matches Ok(opening) ==> is_underway(
            after_wal(input.config, input.engine_runtimes, opening),
        ),
{
}

/// All engines of one builder for a wal in memory keep it in the same store.
pub proof fn law_engines_in_memory_share_the_store<'a, P: Parts>(
    builder: &'a MemWalEngineBuilder<P>,
    first: BuildInput<'a, P>,
    second: BuildInput<'a, P>,
) where P::MemoryKv: Default + Send + Sync
    requires
        first.config.wal_storage is Obkv,
        second.config.wal_storage is Obkv,
    ensures
        builder.wal_opening(first) matches Ok(
            WalOpening::OpenWal { source: WalSource::TableKv { table_kv, .. }, .. },
        ) && table_kv == TableKv::<'a, P>::Memory(&builder.table_kv()),
        builder.wal_opening(second) matches Ok(
            WalOpening::OpenWal { source: WalSource::TableKv { table_kv, .. }, .. },
        ) && table_kv == TableKv::<'a, P>::Memory(&builder.table_kv()),
{
}

/// The two logs are kept apart: their names differ, so they are never opened in the same place.
pub proof fn law_logs_are_kept_apart<'a, P: Parts>(source: WalSource<'a, P>)
    ensures
        WAL_DIR_NAME@ != MANIFEST_DIR_NAME@,
        log_action(source, Log::Wal) != log_action(source, Log::Manifest),
{
    reveal_strlit("wal");
    reveal_strlit("manifest");
    assert(WAL_DIR_NAME@.len() == 3);
    assert(MANIFEST_DIR_NAME@.len() == 8);
}

/// From one source the wal is opened first, then the wal of the manifest, then the manifest
/// over the latter, and the outcome is the first wal with that manifest.
pub proof fn law_wal_and_manifest_are_opened_in_order<'a, P: Parts>(
    source: WalSource<'a, P>,
    manifest_opts: &'a P::ManifestOptions,
    wal: P::Wal,
    manifest_wal: P::Wal,
    manifest: P::Manifest,
)
    ensures
        ({
            let start = WalOpening::OpenWal { source, manifest_opts };
            let second = start.after(WalEvent::WalOpened { wal });
            let third = second.after(WalEvent::WalOpened { wal: manifest_wal });
            let opened: WalOpening<'a, P> = WalOpening::Opened { wal, manifest };
            &&& start.asks() == Some(log_action(source, Log::Wal))
            &&& second.asks() == Some(log_action(source, Log::Manifest))
            &&& third.asks() == Some::<WalAction<'a, P>>(
                WalAction::OpenManifest { wal: &manifest_wal, options: manifest_opts },
            )
            &&& third.after(WalEvent::ManifestOpened { manifest }) == opened
        }),
{
}

/// A wal in obkv needs the client first: once it is connected, both logs are opened in it.
pub proof fn law_obkv_is_connected_first<'a, P: Parts>(
    config: &'a ObkvWalConfig<P>,
    manifest_opts: &'a P::ManifestOptions,
    runtimes: &'a EngineRuntimes<P>,
    client: P::ObkvKv,
)
    ensures
        ({
            let start = WalOpening::ConnectObkv { config, manifest_opts, runtimes };
            let source = WalSource::TableKv { table_kv: TableKv::Obkv(client), runtimes, config };
            &&& start.asks() == Some::<WalAction<'a, P>>(
                WalAction::ConnectObkv { runtime: &runtimes.write_runtime, config: &config.obkv },
            )
            &&& start.after(WalEvent::ObkvConnected { table_kv: client }) == (WalOpening::OpenWal {
                source,
                manifest_opts,
            })
        }),
{
}

/// An open wal and manifest and a failure are final: nothing more is asked for and no
/// answer changes the outcome.
pub proof fn law_wal_outcome_is_final<'a, P: Parts>(
    opening: WalOpening<'a, P>,
    events: Seq<WalEvent<P>>,
)
    requires
        opening is Opened || opening is Failed,
    ensures
        opening.asks() is None,
        opening.run(events) == opening,
    decreases events.len(),
{
    if events.len() > 0 {
        law_wal_outcome_is_final(opening, events.drop_first());
    }
}

/// The first failure decides: the opening of the wal and the manifest ends with its error,
/// whatever is answered after it.
pub proof fn law_first_wal_failure_decides<'a, P: Parts>(
    opening: WalOpening<'a, P>,
    before: Seq<WalEvent<P>>,
    failure: WalEvent<P>,
    after: Seq<WalEvent<P>>,
    error: Error<P>,
)
    requires
        opening.run(before).fails_with(failure) == Some(error),
    ensures
        opening.run(before + seq![failure] + after) == (WalOpening::Failed { error }),
    decreases before.len(),
{
    let events = before + seq![failure] + after;
    if before.len() == 0 {
        assert(events.drop_first() =~= after);
        law_wal_outcome_is_final(opening.after(failure), after);
    } else {
        assert(events.drop_first() =~= before.drop_first() + seq![failure] + after);
        law_first_wal_failure_decides(
            opening.after(before[0]),
            before.drop_first(),
            failure,
            after,
            error,
        );
    }
}

/// A built engine and a failure are final: nothing more is asked for and no answer
/// changes the outcome.
pub proof fn law_engine_outcome_is_final<'a, P: Parts>(
    state: EngineState<'a, P>,
    events: Seq<EngineEvent<P>>,
)
    requires
        state is Built || state is Failed,
    ensures
        state.action() is None,
        state.run(events) == state,
    decreases events.len(),
{
    if events.len() > 0 {
        law_engine_outcome_is_final(state, events.drop_first());
    }
}

/// Answers can be handed over in two portions.
proof fn lemma_run_in_portions<'a, P: Parts>(
    state: EngineState<'a, P>,
    first: Seq<EngineEvent<P>>,
    second: Seq<EngineEvent<P>>,
)
    ensures
        state.run(first + second) == state.run(first).run(second),
    decreases first.len(),
{
    if first.len() == 0 {
        assert(first + second =~= second);
    } else {
        assert((first + second).drop_first() =~= first.drop_first() + second);
        lemma_run_in_portions(state.advance(first[0]), first.drop_first(), second);
    }
}

/// One answer is handed over.
proof fn lemma_run_one<'a, P: Parts>(state: EngineState<'a, P>, event: EngineEvent<P>)
    ensures
        state.run(seq![event]) == state.advance(event),
{
    reveal_with_fuel(EngineState::run, 2);
}

/// The first failure decides: the setup ends with its error, whatever is answered after it.
pub proof fn law_first_failure_decides<'a, P: Parts>(
    state: EngineState<'a, P>,
    before: Seq<EngineEvent<P>>,
    failure: EngineEvent<P>,
    after: Seq<EngineEvent<P>>,
    error: Error<P>,
)
    requires
        state.run(before).fails_with(failure) == Some(error),
    ensures
        state.run(before + seq![failure] + after) == (EngineState::Failed { error }),
{
    lemma_run_in_portions(state, before + seq![failure], after);
    lemma_run_in_portions(state, before, seq![failure]);
    lemma_run_one(state.run(before), failure);
    law_engine_outcome_is_final(state.run(before).advance(failure), after);
}

/// `events` as answers to the setup.
pub open spec fn wal_answers<P: Parts>(events: Seq<WalEvent<P>>) -> Seq<EngineEvent<P>> {
    events.map_values(|event: WalEvent<P>| EngineEvent::Wal(event))
}

/// `events` as answers to the setup.
pub open spec fn store_answers<P: Parts>(events: Seq<StoreEvent<P>>) -> Seq<EngineEvent<P>> {
    events.map_values(|event: StoreEvent<P>| EngineEvent::Storage(event))
}

/// The setup follows the opening of the wal and the manifest.
proof fn lemma_wal_answers<'a, P: Parts>(
    config: &'a Config<P>,
    runtimes: &'a EngineRuntimes<P>,
    opening: WalOpening<'a, P>,
    events: Seq<WalEvent<P>>,
)
    ensures
        after_wal(config, runtimes, opening).run(wal_answers(events)) == after_wal(
            config,
            runtimes,
            opening.run(events),
        ),
    decreases events.len(),
{
    if events.len() > 0 {
        let rest = events.drop_first();
        assert(wal_answers(events).drop_first() =~= wal_answers(rest));
        assert(after_wal(config, runtimes, opening).advance(
            EngineEvent::Wal(events[0]),
        ) == after_wal(
            config,
            runtimes,
            opening.after(events[0]),
        ));
        lemma_wal_answers(config, runtimes, opening.after(events[0]), rest);
    }
}

/// The setup follows the opening of the object store.
proof fn lemma_store_answers<'a, P: Parts>(
    config: &'a Config<P>,
    runtimes: &'a EngineRuntimes<P>,
    wal: P::Wal,
    manifest: P::Manifest,
    opening: StorageState<'a, P>,
    events: Seq<StoreEvent<P>>,
)
    ensures
        after_storage(config, runtimes, wal, manifest, opening).run(store_answers(events))
            == after_storage(config, runtimes, wal, manifest, opening.run(events)),
    decreases events.len(),
{
    if events.len() > 0 {
        let rest = events.drop_first();
        assert(store_answers(events).drop_first() =~= store_answers(rest));
        assert(after_storage(config, runtimes, wal, manifest, opening).advance(
            EngineEvent::Storage(events[0]),
        ) == after_storage(config, runtimes, wal, manifest, opening.advance(events[0])));
        lemma_store_answers(config, runtimes, wal, manifest, opening.advance(events[0]), rest);
    }
}

/// The instance is opened over the wal, the manifest and the store that have been opened, in
/// this order, with the configuration and the runtimes as they were handed in, and the engine
/// is what is then made over the instance.
pub proof fn law_engine_is_built_from_its_parts<'a, P: Parts>(
    config: &'a Config<P>,
    runtimes: &'a EngineRuntimes<P>,
    opening: WalOpening<'a, P>,
    wal_events: Seq<WalEvent<P>>,
    wal: P::Wal,
    manifest: P::Manifest,
    store_events: Seq<StoreEvent<P>>,
    store: P::Store,
    instance: P::Instance,
    engine: P::Engine,
)
    requires
        opening.run(wal_events) matches WalOpening::Opened { wal: w, manifest: m } && w == wal && m
            == manifest,
        (StorageState::Opening { todo: storage_plan(&config.storage), stores: Seq::empty() }).run(
            store_events,
        ) matches StorageState::Opened { store: s } && s == store,
    ensures
        ({
            let before = wal_answers(wal_events) + store_answers(store_events);
            let opened = EngineEvent::InstanceOpened { instance };
            let made = EngineEvent::EngineMade { engine };
            let start = after_wal(config, runtimes, opening);
            let built: EngineState<'a, P> = EngineState::Built { engine };
            &&& start.run(before).action() == Some::<EngineAction<'a, P>>(
                EngineAction::OpenInstance {
                    config,
                    runtimes,
                    meta_cache_cap: config.sst_meta_cache_cap,
                    manifest: &manifest,
                    wal: &wal,
                    store: &store,
                },
            )
            &&& start.run(before + seq![opened]).action() == Some::<EngineAction<'a, P>>(
                EngineAction::MakeEngine { instance: &instance },
            )
            &&& start.run(before + seq![opened] + seq![made]) == built
        }),
{
    let start = after_wal(config, runtimes, opening);
    let storage = StorageState::Opening {
        todo: storage_plan(&config.storage),
        stores: Seq::<P::Store>::empty(),
    };
    let before = wal_answers(wal_events) + store_answers(store_events);
    lemma_run_in_portions(start, wal_answers(wal_events), store_answers(store_events));
    lemma_wal_answers(config, runtimes, opening, wal_events);
    lemma_store_answers(config, runtimes, wal, manifest, storage, store_events);
    let opened = EngineEvent::InstanceOpened { instance };
    lemma_run_in_portions(start, before, seq![opened]);
    lemma_run_one(start.run(before), opened);
    let made = EngineEvent::EngineMade { engine };
    lemma_run_in_portions(start, before + seq![opened], seq![made]);
    lemma_run_one(start.run(before + seq![opened]), made);
}

/// Each piece of the work for a wal goes to the runtime that is there for it.
pub open spec fn is_wal_work_on<'a, P: Parts>(
    action: WalAction<'a, P>,
    runtimes: &EngineRuntimes<P>,
) -> bool {
    match action {
        WalAction::ConnectObkv { runtime, .. } => *runtime == runtimes.write_runtime,
        WalAction::OpenRocksDB { runtime, .. } => *runtime == runtimes.write_runtime,
        WalAction::OpenNamespace { runtimes: on, .. } => on == wal_runtimes(runtimes),
        WalAction::OpenMessageQueue { runtime, .. } => *runtime == runtimes.bg_runtime,
        WalAction::OpenManifest { .. } => true,
    }
}

/// An action that goes by `config` and is done on `runtimes`.
pub open spec fn is_work_on<'a, P: Parts>(
    action: EngineAction<'a, P>,
    config: &Config<P>,
    runtimes: &EngineRuntimes<P>,
) -> bool {
    match action {
        EngineAction::Wal(wal_action) => is_wal_work_on(wal_action, runtimes),
        EngineAction::OpenInstance { config: c, runtimes: r, meta_cache_cap, .. } => c == config && r
            == runtimes && meta_cache_cap == config.sst_meta_cache_cap,
        _ => true,
    }
}

/// Whatever is still to be opened for the wal and the manifest is opened on `runtimes`.
spec fn opens_on<'a, P: Parts>(opening: WalOpening<'a, P>, runtimes: &EngineRuntimes<P>) -> bool {
    match opening {
        WalOpening::ConnectObkv { runtimes: r, .. } => r == runtimes,
        WalOpening::OpenWal { source, .. } => is_wal_work_on(
            log_action(source, Log::Wal),
            runtimes,
        ),
        WalOpening::OpenManifestWal { source, .. } => is_wal_work_on(
            log_action(source, Log::Manifest),
            runtimes,
        ),
        _ => true,
    }
}

/// The setup holds on to the configuration and the runtimes that it was handed.
spec fn holds_on_to<'a, P: Parts>(
    state: EngineState<'a, P>,
    config: &Config<P>,
    runtimes: &EngineRuntimes<P>,
) -> bool {
    match state {
        EngineState::OpenWalAndManifest { config: c, runtimes: r, wal_opening } => c == config && r
            == runtimes && opens_on(wal_opening, runtimes),
        EngineState::OpenStorage { config: c, runtimes: r, .. } => c == config && r == runtimes,
        EngineState::OpenInstance { config: c, runtimes: r, .. } => c == config && r == runtimes,
        _ => true,
    }
}

/// No answer makes the setup let go of what it was handed.
proof fn lemma_setup_holds_on<'a, P: Parts>(
    state: EngineState<'a, P>,
    config: &Config<P>,
    runtimes: &EngineRuntimes<P>,
    events: Seq<EngineEvent<P>>,
)
    requires
        holds_on_to(state, config, runtimes),
    ensures
        holds_on_to(state.run(events), config, runtimes),
    decreases events.len(),
{
    if events.len() > 0 {
        lemma_setup_holds_on(state.advance(events[0]), config, runtimes, events.drop_first());
    }
}

/// Whatever has been answered, all work goes by the configuration and is done on the runtimes
/// that the builder was handed.
pub proof fn law_work_is_done_on_the_given_runtimes<'a, P: Parts>(
    rocksdb: &'a RocksDBWalEngineBuilder,
    obkv: &'a ObkvWalEngineBuilder,
    mem: &'a MemWalEngineBuilder<P>,
    kafka: &'a KafkaWalEngineBuilder,
    input: BuildInput<'a, P>,
    opening: WalOpening<'a, P>,
    events: Seq<EngineEvent<P>>,
    action: EngineAction<'a, P>,
) where P::MemoryKv: Default + Send + Sync
    requires
        ({
            ||| rocksdb.wal_opening(input) == Ok::<WalOpening<'a, P>, Seq<char>>(opening)
            ||| obkv.wal_opening(input) == Ok::<WalOpening<'a, P>, Seq<char>>(opening)
            ||| mem.wal_opening(input) == Ok::<WalOpening<'a, P>, Seq<char>>(opening)
            ||| kafka.wal_opening(input) == Ok::<WalOpening<'a, P>, Seq<char>>(opening)
        }),
        after_wal(input.config, input.engine_runtimes, opening).run(events).action() == Some(
            action,
        ),
    ensures
        is_work_on(action, input.config, input.engine_runtimes),
{
    lemma_setup_holds_on(
        after_wal(input.config, input.engine_runtimes, opening),
        input.config,
        input.engine_runtimes,
        events,
    );
}

/// How many of the stages of a setup are behind it.
pub open spec fn stage<'a, P: Parts>(state: EngineState<'a, P>) -> int {
    match state {
        EngineState::OpenWalAndManifest { .. } => 0,
        EngineState::OpenStorage { .. } => 1,
        EngineState::OpenInstance { .. } => 2,
        EngineState::MakeEngine { .. } => 3,
        EngineState::Built { .. } => 4,
        EngineState::Failed { .. } => 5,
    }
}

/// No stage is skipped or taken up again: an answer leaves the setup in its stage, takes
/// it to the next one or ends it with a failure.
pub proof fn law_stages_come_in_order<'a, P: Parts>(
    state: EngineState<'a, P>,
    event: EngineEvent<P>,
)
    requires
        state matches EngineState::OpenWalAndManifest { wal_opening, .. } ==> !(
        wal_opening is Failed),
        state matches EngineState::OpenStorage { opening, .. } ==> !(opening is Failed),
    ensures
        ({
            let next = state.advance(event);
            ||| stage(next) == stage(state)
            ||| stage(next) == stage(state) + 1 && !(next is Failed)
            ||| next is Failed && state.fails_with(event) is Some
        }),
{
}

/// How many answers it takes at least to open the wal and the manifest.
pub open spec fn wal_steps_left<'a, P: Parts>(opening: WalOpening<'a, P>) -> nat {
    match opening {
        WalOpening::ConnectObkv { .. } => 4,
        WalOpening::OpenWal { .. } => 3,
        WalOpening::OpenManifestWal { .. } => 2,
        WalOpening::OpenManifest { .. } => 1,
        _ => 0,
    }
}

/// How many answers it takes at least to build the engine.
pub open spec fn steps_left<'a, P: Parts>(state: EngineState<'a, P>) -> nat {
    match state {
        EngineState::OpenWalAndManifest { config, wal_opening, .. } => wal_steps_left(wal_opening)
            + storage_plan(&config.storage).len() + 2,
        EngineState::OpenStorage { opening: StorageState::Opening { todo, .. }, .. } => todo.len()
            + 2,
        EngineState::OpenStorage { .. } => 2,
        EngineState::OpenInstance { .. } => 2,
        EngineState::MakeEngine { .. } => 1,
        _ => 0,
    }
}

/// Something is left to do in the stage that the setup is in.
pub open spec fn is_underway<'a, P: Parts>(state: EngineState<'a, P>) -> bool {
    match state {
        EngineState::OpenWalAndManifest { wal_opening, .. } => wal_steps_left(wal_opening) > 0,
        EngineState::OpenStorage { opening: StorageState::Opening { todo, .. }, .. } => todo.len()
            > 0,
        EngineState::OpenStorage { .. } => false,
        EngineState::OpenInstance { .. } => true,
        EngineState::MakeEngine { .. } => true,
        _ => false,
    }
}

/// The setup comes to an end: an answer that changes anything brings the engine one step
/// closer or ends the setup with a failure, and no step is left only when it has ended.
pub proof fn law_each_answer_is_one_step<'a, P: Parts>(
    state: EngineState<'a, P>,
    event: EngineEvent<P>,
)
    requires
        is_underway(state),
    ensures
        state.action() is Some,
        steps_left(state) > 0,
        ({
            let next = state.advance(event);
            ||| next == state
            ||| next is Failed
            ||| steps_left(next) == steps_left(state) - 1 && (is_underway(next) || next is Built)
        }),
{
    if let EngineState::OpenWalAndManifest { config, .. } = state {
        lemma_plan_is_not_empty(&config.storage);
    }
}

/// There is always something to do for a store.
proof fn lemma_plan_is_not_empty<P: Parts>(options: &StorageOptions<P>)
    ensures
        storage_plan(options).len() > 0,
{
}

} // verus!
