//! What each builder has done for the wal and the manifest, and how the setup goes on from
//! there, whatever the configuration is.

use crate::analytic_engine::config::{
    Config, EngineRuntimes, ObkvWalConfig, Parts, WalStorageConfig,
};
use crate::analytic_engine::error::Error;
use crate::analytic_engine::setup::{
    open_instance, BuildInput, EngineAction, EngineBuild, EngineBuilder, EngineEvent,
    KafkaWalEngineBuilder, MemWalEngineBuilder, ObkvWalEngineBuilder, RocksDBWalEngineBuilder,
};
use crate::analytic_engine::storage::{open_storage, StorageOpening, StoreAction, StoreEvent};
use crate::analytic_engine::wal::{
    open_wal_and_manifest_with_table_kv, TableKv, TableKvRef, WalAction, WalEvent, WalOpening,
};
use vstd::prelude::*;

verus! {

/// A wal in rocksdb is opened under the wal path of the configuration, in the directory `wal`,
/// and that of the manifest beside it in the directory `manifest`, both on the write runtime and
/// for the default shard, wherever the object store is. The manifest is then opened over its own
/// wal with the options of the configuration.
pub proof fn law_rocksdb_logs_are_under_the_wal_path<'a, P: Parts>(
    builder: &'a RocksDBWalEngineBuilder,
    input: BuildInput<'a, P>,
    wal: P::Wal,
    manifest_wal: P::Wal,
    manifest: P::Manifest,
    states: Seq<WalOpening<'a, P>>,
    actions: Seq<Option<WalAction<'a, P>>>,
)
    requires
        call_ensures(
            <RocksDBWalEngineBuilder as EngineBuilder<P>>::open_wal_and_manifest,
            (builder, input),
            Ok(states[0]),
        ),
        call_ensures(
            WalOpening::<'a, P>::advance,
            (states[0], WalEvent::WalOpened { wal }),
            states[1],
        ),
        call_ensures(
            WalOpening::<'a, P>::advance,
            (states[1], WalEvent::WalOpened { wal: manifest_wal }),
            states[2],
        ),
        call_ensures(
            WalOpening::<'a, P>::advance,
            (states[2], WalEvent::ManifestOpened { manifest }),
            states[3],
        ),
        forall|i: int|
            0 <= i < 4 ==> call_ensures(
                WalOpening::<'a, P>::action,
                (&#[trigger] states[i],),
                actions[i],
            ),
    ensures
        actions[0] matches Some(WalAction::OpenRocksDB { base, name, runtime, region_id }) && {
            &&& base@ == input.config.wal_path@
            &&& name@ == "wal"@
            &&& *runtime == input.engine_runtimes.write_runtime
            &&& region_id == input.default_shard_id
        },
        actions[1] matches Some(WalAction::OpenRocksDB { base, name, runtime, region_id }) && {
            &&& base@ == input.config.wal_path@
            &&& name@ == "manifest"@
            &&& *runtime == input.engine_runtimes.write_runtime
            &&& region_id == input.default_shard_id
        },
        actions[2] matches Some(WalAction::OpenManifest { wal: w, options }) && *w == manifest_wal
            && *options == input.config.manifest,
        actions[3] is None,
        states[3] matches WalOpening::Opened { wal: w, manifest: m } && w == wal && m == manifest,
{
}

/// Two configurations that agree on the wal path and the manifest get the same wal in rocksdb,
/// whatever else they differ in.
pub proof fn law_rocksdb_wal_depends_on_the_wal_path_alone<'a, P: Parts>(
    builder: &'a RocksDBWalEngineBuilder,
    first: BuildInput<'a, P>,
    first_opening: WalOpening<'a, P>,
    first_action: Option<WalAction<'a, P>>,
    second: BuildInput<'a, P>,
    second_opening: WalOpening<'a, P>,
    second_action: Option<WalAction<'a, P>>,
)
    requires
        call_ensures(
            <RocksDBWalEngineBuilder as EngineBuilder<P>>::open_wal_and_manifest,
            (builder, first),
            Ok(first_opening),
        ),
        call_ensures(
            <RocksDBWalEngineBuilder as EngineBuilder<P>>::open_wal_and_manifest,
            (builder, second),
            Ok(second_opening),
        ),
        call_ensures(WalOpening::<'a, P>::action, (&first_opening,), first_action),
        call_ensures(WalOpening::<'a, P>::action, (&second_opening,), second_action),
        first.engine_runtimes == second.engine_runtimes,
    ensures
        first_action == second_action <==> first.config.wal_path == second.config.wal_path
            && first.default_shard_id == second.default_shard_id,
{
}

/// A builder for a wal in rocksdb accepts a configuration exactly when it asks for rocksdb, and
/// otherwise shows the wal storage that it refuses.
pub proof fn law_rocksdb_builder_refuses_other_wals<'a, P: Parts>(
    builder: &'a RocksDBWalEngineBuilder,
    input: BuildInput<'a, P>,
    r: Result<WalOpening<'a, P>, Error<P>>,
)
    requires
        call_ensures(
            <RocksDBWalEngineBuilder as EngineBuilder<P>>::open_wal_and_manifest,
            (builder, input),
            r,
        ),
    ensures
        r is Ok <==> input.config.wal_storage is RocksDB,
        r matches Err(error) ==> error matches Error::InvalidWalConfig { msg } && msg@
            == "invalid wal storage config while opening rocksDB wal, config:"@
            + input.wal_storage_text@,
{
}

/// A wal in obkv needs the client first, which is connected on the write runtime with the
/// configuration of obkv. In that client the wal is opened in the namespace `wal` and that of the
/// manifest in the namespace `manifest`, each with its own namespace configuration and both on
/// the runtimes of the engine. The manifest is then opened over its own wal.
pub proof fn law_obkv_logs_are_in_their_namespaces<'a, P: Parts>(
    builder: &'a ObkvWalEngineBuilder,
    input: BuildInput<'a, P>,
    client: P::ObkvKv,
    wal: P::Wal,
    manifest_wal: P::Wal,
    manifest: P::Manifest,
    states: Seq<WalOpening<'a, P>>,
    actions: Seq<Option<WalAction<'a, P>>>,
)
    requires
        call_ensures(
            <ObkvWalEngineBuilder as EngineBuilder<P>>::open_wal_and_manifest,
            (builder, input),
            Ok(states[0]),
        ),
        call_ensures(
            WalOpening::<'a, P>::advance,
            (states[0], WalEvent::ObkvConnected { table_kv: client }),
            states[1],
        ),
        call_ensures(
            WalOpening::<'a, P>::advance,
            (states[1], WalEvent::WalOpened { wal }),
            states[2],
        ),
        call_ensures(
            WalOpening::<'a, P>::advance,
            (states[2], WalEvent::WalOpened { wal: manifest_wal }),
            states[3],
        ),
        call_ensures(
            WalOpening::<'a, P>::advance,
            (states[3], WalEvent::ManifestOpened { manifest }),
            states[4],
        ),
        forall|i: int|
            0 <= i < 5 ==> call_ensures(
                WalOpening::<'a, P>::action,
                (&#[trigger] states[i],),
                actions[i],
            ),
    ensures
        input.config.wal_storage matches WalStorageConfig::Obkv(asked) && {
            &&& actions[0] matches Some(WalAction::ConnectObkv { runtime, config }) && *runtime
                == input.engine_runtimes.write_runtime && *config == asked.obkv
            &&& actions[1] matches Some(
                WalAction::OpenNamespace { table_kv, runtimes, name, config },
            ) && {
                &&& table_kv matches TableKvRef::Obkv(kv) && *kv == client
                &&& *runtimes.read_runtime == input.engine_runtimes.read_runtime
                &&& *runtimes.write_runtime == input.engine_runtimes.write_runtime
                &&& *runtimes.bg_runtime == input.engine_runtimes.bg_runtime
                &&& name@ == "wal"@
                &&& *config == asked.wal
            }
            &&& actions[2] matches Some(
                WalAction::OpenNamespace { table_kv, runtimes, name, config },
            ) && {
                &&& table_kv matches TableKvRef::Obkv(kv) && *kv == client
                &&& *runtimes.read_runtime == input.engine_runtimes.read_runtime
                &&& *runtimes.write_runtime == input.engine_runtimes.write_runtime
                &&& *runtimes.bg_runtime == input.engine_runtimes.bg_runtime
                &&& name@ == "manifest"@
                &&& *config == asked.manifest
            }
        },
        actions[3] matches Some(WalAction::OpenManifest { wal: w, options }) && *w == manifest_wal
            && *options == input.config.manifest,
        actions[4] is None,
        states[4] matches WalOpening::Opened { wal: w, manifest: m } && w == wal && m == manifest,
{
}

/// A builder for a wal in obkv accepts a configuration exactly when it asks for obkv, and
/// otherwise shows the wal storage that it refuses.
pub proof fn law_obkv_builder_refuses_other_wals<'a, P: Parts>(
    builder: &'a ObkvWalEngineBuilder,
    input: BuildInput<'a, P>,
    r: Result<WalOpening<'a, P>, Error<P>>,
)
    requires
        call_ensures(
            <ObkvWalEngineBuilder as EngineBuilder<P>>::open_wal_and_manifest,
            (builder, input),
            r,
        ),
    ensures
        r is Ok <==> input.config.wal_storage is Obkv,
        r matches Err(error) ==> error matches Error::InvalidWalConfig { msg } && msg@
            == "invalid wal storage config while opening obkv wal, config:"@
            + input.wal_storage_text@,
{
}

/// A wal in memory goes by the configuration of obkv, but into the store that the builder holds:
/// the wal is opened there in the namespace `wal` and that of the manifest in the namespace
/// `manifest`, each with its own namespace configuration and both on the runtimes of the engine.
/// The manifest is then opened over its own wal.
pub proof fn law_memory_logs_are_in_the_shared_store<'a, P: Parts>(
    builder: &'a MemWalEngineBuilder<P>,
    input: BuildInput<'a, P>,
    wal: P::Wal,
    manifest_wal: P::Wal,
    manifest: P::Manifest,
    states: Seq<WalOpening<'a, P>>,
    actions: Seq<Option<WalAction<'a, P>>>,
) where P::MemoryKv: Default + Send + Sync
    requires
        call_ensures(
            <MemWalEngineBuilder<P> as EngineBuilder<P>>::open_wal_and_manifest,
            (builder, input),
            Ok(states[0]),
        ),
        call_ensures(
            WalOpening::<'a, P>::advance,
            (states[0], WalEvent::WalOpened { wal }),
            states[1],
        ),
        call_ensures(
            WalOpening::<'a, P>::advance,
            (states[1], WalEvent::WalOpened { wal: manifest_wal }),
            states[2],
        ),
        call_ensures(
            WalOpening::<'a, P>::advance,
            (states[2], WalEvent::ManifestOpened { manifest }),
            states[3],
        ),
        forall|i: int|
            0 <= i < 4 ==> call_ensures(
                WalOpening::<'a, P>::action,
                (&#[trigger] states[i],),
                actions[i],
            ),
    ensures
        input.config.wal_storage matches WalStorageConfig::Obkv(asked) && {
            &&& actions[0] matches Some(
                WalAction::OpenNamespace { table_kv, runtimes, name, config },
            ) && {
                &&& table_kv matches TableKvRef::Memory(kv) && *kv == builder.table_kv()
                &&& *runtimes.read_runtime == input.engine_runtimes.read_runtime
                &&& *runtimes.write_runtime == input.engine_runtimes.write_runtime
                &&& *runtimes.bg_runtime == input.engine_runtimes.bg_runtime
                &&& name@ == "wal"@
                &&& *config == asked.wal
            }
            &&& actions[1] matches Some(
                WalAction::OpenNamespace { table_kv, runtimes, name, config },
            ) && {
                &&& table_kv matches TableKvRef::Memory(kv) && *kv == builder.table_kv()
                &&& *runtimes.read_runtime == input.engine_runtimes.read_runtime
                &&& *runtimes.write_runtime == input.engine_runtimes.write_runtime
                &&& *runtimes.bg_runtime == input.engine_runtimes.bg_runtime
                &&& name@ == "manifest"@
                &&& *config == asked.manifest
            }
        },
        actions[2] matches Some(WalAction::OpenManifest { wal: w, options }) && *w == manifest_wal
            && *options == input.config.manifest,
        actions[3] is None,
        states[3] matches WalOpening::Opened { wal: w, manifest: m } && w == wal && m == manifest,
{
}

/// A builder for a wal in memory accepts a configuration exactly when it asks for obkv, and
/// otherwise shows the wal storage that it refuses.
pub proof fn law_memory_builder_refuses_other_wals<'a, P: Parts>(
    builder: &'a MemWalEngineBuilder<P>,
    input: BuildInput<'a, P>,
    r: Result<WalOpening<'a, P>, Error<P>>,
) where P::MemoryKv: Default + Send + Sync
    requires
        call_ensures(
            <MemWalEngineBuilder<P> as EngineBuilder<P>>::open_wal_and_manifest,
            (builder, input),
            r,
        ),
    ensures
        r is Ok <==> input.config.wal_storage is Obkv,
        r matches Err(error) ==> error matches Error::InvalidWalConfig { msg } && msg@
            == "invalid wal storage config while opening memory wal, config:"@
            + input.wal_storage_text@,
{
}

/// A wal in kafka is kept in the queues of `wal` and that of the manifest in the queues of
/// `manifest`, each over a client of its own with the configuration of kafka, both with the
/// configuration of the wal and on the background runtime. The manifest is then opened over its
/// own wal.
pub proof fn law_kafka_logs_are_in_their_queues<'a, P: Parts>(
    builder: &'a KafkaWalEngineBuilder,
    input: BuildInput<'a, P>,
    wal: P::Wal,
    manifest_wal: P::Wal,
    manifest: P::Manifest,
    states: Seq<WalOpening<'a, P>>,
    actions: Seq<Option<WalAction<'a, P>>>,
)
    requires
        call_ensures(
            <KafkaWalEngineBuilder as EngineBuilder<P>>::open_wal_and_manifest,
            (builder, input),
            Ok(states[0]),
        ),
        call_ensures(
            WalOpening::<'a, P>::advance,
            (states[0], WalEvent::WalOpened { wal }),
            states[1],
        ),
        call_ensures(
            WalOpening::<'a, P>::advance,
            (states[1], WalEvent::WalOpened { wal: manifest_wal }),
            states[2],
        ),
        call_ensures(
            WalOpening::<'a, P>::advance,
            (states[2], WalEvent::ManifestOpened { manifest }),
            states[3],
        ),
        forall|i: int|
            0 <= i < 4 ==> call_ensures(
                WalOpening::<'a, P>::action,
                (&#[trigger] states[i],),
                actions[i],
            ),
    ensures
        input.config.wal_storage matches WalStorageConfig::Kafka(asked) && {
            &&& actions[0] matches Some(
                WalAction::OpenMessageQueue { name, kafka_config, runtime, config },
            ) && {
                &&& name@ == "wal"@
                &&& *kafka_config == asked.kafka_config
                &&& *runtime == input.engine_runtimes.bg_runtime
                &&& *config == asked.wal_config
            }
            &&& actions[1] matches Some(
                WalAction::OpenMessageQueue { name, kafka_config, runtime, config },
            ) && {
                &&& name@ == "manifest"@
                &&& *kafka_config == asked.kafka_config
                &&& *runtime == input.engine_runtimes.bg_runtime
                &&& *config == asked.wal_config
            }
        },
        actions[2] matches Some(WalAction::OpenManifest { wal: w, options }) && *w == manifest_wal
            && *options == input.config.manifest,
        actions[3] is None,
        states[3] matches WalOpening::Opened { wal: w, manifest: m } && w == wal && m == manifest,
{
}

/// A builder for a wal in kafka accepts a configuration exactly when it asks for kafka, and
/// otherwise shows the whole configuration that it refuses.
pub proof fn law_kafka_builder_refuses_other_wals<'a, P: Parts>(
    builder: &'a KafkaWalEngineBuilder,
    input: BuildInput<'a, P>,
    r: Result<WalOpening<'a, P>, Error<P>>,
)
    requires
        call_ensures(
            <KafkaWalEngineBuilder as EngineBuilder<P>>::open_wal_and_manifest,
            (builder, input),
            r,
        ),
    ensures
        r is Ok <==> input.config.wal_storage is Kafka,
        r matches Err(error) ==> error matches Error::InvalidWalConfig { msg } && msg@
            == "invalid wal storage config while opening kafka wal, config:"@ + input.config_text@,
{
}

/// Both logs are opened in the table-kv store that is handed in, the wal first.
pub proof fn law_table_kv_is_opened_as_given<'a, P: Parts>(
    config: &'a ObkvWalConfig<P>,
    manifest_opts: &'a P::ManifestOptions,
    runtimes: &'a EngineRuntimes<P>,
    client: P::ObkvKv,
    opening: WalOpening<'a, P>,
    action: Option<WalAction<'a, P>>,
)
    requires
        call_ensures(
            open_wal_and_manifest_with_table_kv::<P>,
            (config, manifest_opts, runtimes, TableKv::Obkv(client)),
            opening,
        ),
        call_ensures(WalOpening::<'a, P>::action, (&opening,), action),
    ensures
        action matches Some(
            WalAction::OpenNamespace { table_kv, runtimes: on, name, config: namespace },
        ) && {
            &&& table_kv matches TableKvRef::Obkv(kv) && *kv == client
            &&& *on.read_runtime == runtimes.read_runtime
            &&& *on.write_runtime == runtimes.write_runtime
            &&& *on.bg_runtime == runtimes.bg_runtime
            &&& name@ == "wal"@
            &&& *namespace == config.wal
        },
{
}

/// A failure ends the opening of the wal and the manifest with an error that names what was
/// being done and why it failed. The two logs are told apart by their names; in kafka both fail
/// for the client.
pub proof fn law_wal_failure_names_what_failed<'a, P: Parts>(
    opening: WalOpening<'a, P>,
    action: WalAction<'a, P>,
    event: WalEvent<P>,
    next: WalOpening<'a, P>,
)
    requires
        call_ensures(WalOpening::<'a, P>::action, (&opening,), Some(action)),
        call_ensures(WalOpening::<'a, P>::advance, (opening, event), next),
    ensures
        match (action, event) {
            (WalAction::ConnectObkv { .. }, WalEvent::ObkvFailed { source }) => {
                next matches WalOpening::Failed { error: Error::OpenObkv { source: s } } && s
                    == source
            },
            (WalAction::ConnectObkv { .. }, WalEvent::RuntimeFailed { source }) => {
                next matches WalOpening::Failed { error: Error::RuntimeExec { source: s } } && s
                    == source
            },
            (WalAction::OpenRocksDB { name, .. }, WalEvent::WalFailed { source }) => {
                &&& name@ == "wal"@ ==> (next matches WalOpening::Failed {
                    error: Error::OpenWal { source: s },
                } && s == source)
                &&& name@ != "wal"@ ==> (next matches WalOpening::Failed {
                    error: Error::OpenManifestWal { source: s },
                } && s == source)
            },
            (WalAction::OpenNamespace { name, .. }, WalEvent::WalFailed { source }) => {
                &&& name@ == "wal"@ ==> (next matches WalOpening::Failed {
                    error: Error::OpenWal { source: s },
                } && s == source)
                &&& name@ != "wal"@ ==> (next matches WalOpening::Failed {
                    error: Error::OpenManifestWal { source: s },
                } && s == source)
            },
            (WalAction::OpenMessageQueue { .. }, WalEvent::KafkaFailed { source }) => {
                next matches WalOpening::Failed { error: Error::OpenKafka { source: s } } && s
                    == source
            },
            (WalAction::OpenManifest { .. }, WalEvent::ManifestFailed { source }) => {
                next matches WalOpening::Failed { error: Error::OpenManifest { source: s } } && s
                    == source
            },
            _ => !(next is Failed),
        },
{
    reveal_strlit("wal");
    reveal_strlit("manifest");
    assert("wal"@.len() == 3);
    assert("manifest"@.len() == 8);
}

/// What does not answer the question in hand changes nothing, and what does moves on.
pub proof fn law_only_the_awaited_answer_moves_the_wal_on<'a, P: Parts>(
    opening: WalOpening<'a, P>,
    action: Option<WalAction<'a, P>>,
    event: WalEvent<P>,
    next: WalOpening<'a, P>,
)
    requires
        call_ensures(WalOpening::<'a, P>::action, (&opening,), action),
        call_ensures(WalOpening::<'a, P>::advance, (opening, event), next),
    ensures
        match (action, event) {
            (Some(WalAction::ConnectObkv { .. }), WalEvent::ObkvConnected { .. }) => next
                is OpenWal,
            (Some(WalAction::ConnectObkv { .. }), WalEvent::ObkvFailed { .. }) => next is Failed,
            (Some(WalAction::ConnectObkv { .. }), WalEvent::RuntimeFailed { .. }) => next is Failed,
            (Some(WalAction::OpenRocksDB { .. }), WalEvent::WalOpened { .. }) => next != opening,
            (Some(WalAction::OpenRocksDB { .. }), WalEvent::WalFailed { .. }) => next is Failed,
            (Some(WalAction::OpenNamespace { .. }), WalEvent::WalOpened { .. }) => next != opening,
            (Some(WalAction::OpenNamespace { .. }), WalEvent::WalFailed { .. }) => next is Failed,
            (Some(WalAction::OpenMessageQueue { .. }), WalEvent::WalOpened { .. }) => next
                != opening,
            (Some(WalAction::OpenMessageQueue { .. }), WalEvent::KafkaFailed { .. }) => next
                is Failed,
            (Some(WalAction::OpenManifest { .. }), WalEvent::ManifestOpened { .. }) => next
                is Opened,
            (Some(WalAction::OpenManifest { .. }), WalEvent::ManifestFailed { .. }) => next
                is Failed,
            _ => next == opening,
        },
{
}

/// A setup starts with the opening that its builder starts with, for the configuration and the
/// runtimes that it is handed, and is refused exactly when that opening is, with the same message.
pub proof fn law_setup_starts_as_its_builder_does<'a, P: Parts, B: EngineBuilder<P>>(
    builder: &'a B,
    input: BuildInput<'a, P>,
    opened: Result<WalOpening<'a, P>, Error<P>>,
    built: Result<EngineBuild<'a, P>, Error<P>>,
)
    requires
        call_ensures(<B as EngineBuilder<P>>::open_wal_and_manifest, (builder, input), opened),
        call_ensures(<B as EngineBuilder<P>>::build, (builder, input), built),
    ensures
        match opened {
            Ok(WalOpening::Opened { wal, manifest }) => built matches Ok(
                EngineBuild::OpenStorage { config, runtimes, wal: w, manifest: m, .. },
            ) && config == input.config && runtimes == input.engine_runtimes && w == wal && m
                == manifest,
            Ok(WalOpening::Failed { error }) => built matches Ok(EngineBuild::Failed { error: e })
                && e == error,
            Ok(start) => built matches Ok(
                EngineBuild::OpenWalAndManifest { config, runtimes, opening },
            ) && config == input.config && runtimes == input.engine_runtimes && opening == start,
            Err(error) => built matches Err(Error::InvalidWalConfig { msg }) && (error matches
                Error::InvalidWalConfig { msg: m } && m@ == msg@),
        },
{
}

/// While the wal and the manifest are being opened, the setup asks for what that opening asks for
/// and goes on as it does. Once both are open they are kept, and the store of the same
/// configuration is opened next, from its beginning. A failure ends the setup with its error.
pub proof fn law_setup_opens_the_store_after_the_wal<'a, P: Parts>(
    config: &'a Config<P>,
    runtimes: &'a EngineRuntimes<P>,
    opening: WalOpening<'a, P>,
    wal_action: Option<WalAction<'a, P>>,
    event: WalEvent<P>,
    wal_next: WalOpening<'a, P>,
    store_opening: StorageOpening<'a, P>,
    action: Option<EngineAction<'a, P>>,
    next: EngineBuild<'a, P>,
)
    requires
        call_ensures(WalOpening::<'a, P>::action, (&opening,), wal_action),
        call_ensures(WalOpening::<'a, P>::advance, (opening, event), wal_next),
        call_ensures(open_storage::<P>, (&config.storage,), store_opening),
        call_ensures(
            EngineBuild::<'a, P>::action,
            (&EngineBuild::OpenWalAndManifest { config, runtimes, opening },),
            action,
        ),
        call_ensures(
            EngineBuild::<'a, P>::advance,
            (
                EngineBuild::OpenWalAndManifest { config, runtimes, opening },
                EngineEvent::Wal(event),
            ),
            next,
        ),
    ensures
        match wal_action {
            Some(asked) => action matches Some(EngineAction::Wal(a)) && a == asked,
            None => action is None,
        },
        match wal_next {
            WalOpening::Opened { wal, manifest } => next matches EngineBuild::OpenStorage {
                config: c,
                runtimes: r,
                wal: w,
                manifest: m,
                opening: o,
            } && c == config && r == runtimes && w == wal && m == manifest && o@
                == store_opening@,
            WalOpening::Failed { error } => next matches EngineBuild::Failed { error: e } && e
                == error,
            _ => next matches EngineBuild::OpenWalAndManifest {
                config: c,
                runtimes: r,
                opening: o,
            } && c == config && r == runtimes && o == wal_next,
        },
{
}

/// While the store is being opened, the setup asks for what that opening asks for and goes on as
/// it does, and keeps the wal and the manifest. Once the store is open the instance is opened over
/// all three. A failure ends the setup with its error.
pub proof fn law_setup_opens_the_instance_after_the_store<'a, P: Parts>(
    config: &'a Config<P>,
    runtimes: &'a EngineRuntimes<P>,
    wal: P::Wal,
    manifest: P::Manifest,
    opening: StorageOpening<'a, P>,
    store_action: Option<StoreAction<'a, P>>,
    event: StoreEvent<P>,
    store_next: StorageOpening<'a, P>,
    action: Option<EngineAction<'a, P>>,
    next: EngineBuild<'a, P>,
)
    requires
        call_ensures(StorageOpening::<'a, P>::action, (&opening,), store_action),
        call_ensures(StorageOpening::<'a, P>::advance, (opening, event), store_next),
        call_ensures(
            EngineBuild::<'a, P>::action,
            (&EngineBuild::OpenStorage { config, runtimes, wal, manifest, opening },),
            action,
        ),
        call_ensures(
            EngineBuild::<'a, P>::advance,
            (
                EngineBuild::OpenStorage { config, runtimes, wal, manifest, opening },
                EngineEvent::Storage(event),
            ),
            next,
        ),
    ensures
        match store_action {
            Some(asked) => action matches Some(EngineAction::Storage(a)) && a == asked,
            None => action is None,
        },
        match store_next {
            StorageOpening::Opened { store } => next matches EngineBuild::OpenInstance {
                config: c,
                runtimes: r,
                wal: w,
                manifest: m,
                store: s,
            } && c == config && r == runtimes && w == wal && m == manifest && s == store,
            StorageOpening::Failed { error } => next matches EngineBuild::Failed { error: e } && e
                == error,
            StorageOpening::Opening(_) => next matches EngineBuild::OpenStorage {
                config: c,
                runtimes: r,
                wal: w,
                manifest: m,
                opening: o,
            } && c == config && r == runtimes && w == wal && m == manifest && o@ == store_next@,
        },
{
}

/// The instance is opened with the configuration, the runtimes, the wal, the manifest and the
/// store that are handed in, and with a cache for the metadata of sst files of the configured
/// capacity, or none. Once it is open the engine is made over it, and that engine is the outcome.
/// If it cannot be opened, the setup ends with the reason.
pub proof fn law_engine_is_made_over_the_opened_instance<'a, P: Parts>(
    config: &'a Config<P>,
    runtimes: &'a EngineRuntimes<P>,
    wal: P::Wal,
    manifest: P::Manifest,
    store: P::Store,
    instance: P::Instance,
    engine: P::Engine,
    source: P::InstanceError,
    start: EngineBuild<'a, P>,
    opened: EngineBuild<'a, P>,
    failed: EngineBuild<'a, P>,
    made: EngineBuild<'a, P>,
    asked_first: Option<EngineAction<'a, P>>,
    asked_then: Option<EngineAction<'a, P>>,
    asked_last: Option<EngineAction<'a, P>>,
)
    requires
        call_ensures(open_instance::<P>, (config, runtimes, wal, manifest, store), start),
        call_ensures(EngineBuild::<'a, P>::action, (&start,), asked_first),
        call_ensures(
            EngineBuild::<'a, P>::advance,
            (start, EngineEvent::InstanceOpened { instance }),
            opened,
        ),
        call_ensures(
            EngineBuild::<'a, P>::advance,
            (start, EngineEvent::InstanceFailed { source }),
            failed,
        ),
        call_ensures(EngineBuild::<'a, P>::action, (&opened,), asked_then),
        call_ensures(
            EngineBuild::<'a, P>::advance,
            (opened, EngineEvent::EngineMade { engine }),
            made,
        ),
        call_ensures(EngineBuild::<'a, P>::action, (&made,), asked_last),
    ensures
        asked_first matches Some(
            EngineAction::OpenInstance {
                config: c,
                runtimes: r,
                meta_cache_cap,
                manifest: m,
                wal: w,
                store: s,
            },
        ) && {
            &&& c == config
            &&& r == runtimes
            &&& meta_cache_cap == config.sst_meta_cache_cap
            &&& *m == manifest
            &&& *w == wal
            &&& *s == store
        },
        asked_then matches Some(EngineAction::MakeEngine { instance: i }) && *i == instance,
        asked_last is None,
        made matches EngineBuild::Built { engine: e } && e == engine,
        failed matches EngineBuild::Failed { error: Error::OpenInstance { source: s } } && s
            == source,
{
}

/// What does not answer the question in hand changes nothing, and an engine that is there or has
/// failed asks for nothing and stays as it is.
pub proof fn law_only_the_awaited_answer_moves_the_setup_on<'a, P: Parts>(
    build: EngineBuild<'a, P>,
    action: Option<EngineAction<'a, P>>,
    event: EngineEvent<P>,
    next: EngineBuild<'a, P>,
)
    requires
        call_ensures(EngineBuild::<'a, P>::action, (&build,), action),
        call_ensures(EngineBuild::<'a, P>::advance, (build, event), next),
    ensures
        build is Built || build is Failed ==> action is None && next == build,
        build is OpenWalAndManifest && !(event is Wal) ==> next == build,
        build is OpenStorage && !(event is Storage) ==> next@ == build@,
        build is OpenInstance && !(event is InstanceOpened || event is InstanceFailed) ==> next
            == build,
        build is MakeEngine && !(event is EngineMade) ==> next == build,
{
}

} // verus!
