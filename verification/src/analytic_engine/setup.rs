//! Setting up an engine: the wal and the manifest first, then the object store, then
//! the instance over all of them, and last the table engine over the instance.

use crate::analytic_engine::config::{Config, EngineRuntimes, Parts, WalStorageConfig};
use crate::analytic_engine::error::Error;
use crate::analytic_engine::storage::{
    op_error, open_storage, storage_plan, StorageOpening, StorageState, StoreAction, StoreEvent,
};
use crate::analytic_engine::wal::{
    open_wal_and_manifest_with_table_kv, RegionId, TableKv, WalAction, WalEvent, WalOpening,
    WalSource,
};
use vstd::prelude::*;

verus! {

/// What a builder for a wal in rocksdb says before the configuration that it refuses.
pub const ROCKSDB_REFUSAL: &'static str = "invalid wal storage config while opening rocksDB wal, config:";

/// What a builder for a wal in obkv says before the configuration that it refuses.
pub const OBKV_REFUSAL: &'static str = "invalid wal storage config while opening obkv wal, config:";

/// What a builder for a wal in memory says before the configuration that it refuses.
pub const MEMORY_REFUSAL: &'static str = "invalid wal storage config while opening memory wal, config:";

/// What a builder for a wal in kafka says before the configuration that it refuses.
pub const KAFKA_REFUSAL: &'static str = "invalid wal storage config while opening kafka wal, config:";

/// What a builder is handed.
pub struct BuildInput<'a, P: Parts> {
    pub config: &'a Config<P>,

    /// The runtimes that the engine is to work on.
    pub engine_runtimes: &'a EngineRuntimes<P>,

    /// The shard whose region a local wal belongs to.
    pub default_shard_id: u32,

    /// `config.wal_storage` as `{:?}` shows it, for error messages.
    pub wal_storage_text: &'a str,

    /// `config` as a whole as `{:?}` shows it, for error messages.
    pub config_text: &'a str,
}

/// How far the setup of an engine has come.
#[allow(inconsistent_fields)]
pub enum EngineBuild<'a, P: Parts> {
    /// The wal and the manifest are being opened.
    OpenWalAndManifest {
        config: &'a Config<P>,
        runtimes: &'a EngineRuntimes<P>,
        opening: WalOpening<'a, P>,
    },

    /// The object store is being opened.
    OpenStorage {
        config: &'a Config<P>,
        runtimes: &'a EngineRuntimes<P>,
        wal: P::Wal,
        manifest: P::Manifest,
        opening: StorageOpening<'a, P>,
    },

    /// The instance has to be opened.
    OpenInstance {
        config: &'a Config<P>,
        runtimes: &'a EngineRuntimes<P>,
        wal: P::Wal,
        manifest: P::Manifest,
        store: P::Store,
    },

    /// The table engine has to be made over the instance.
    MakeEngine { instance: P::Instance },

    /// The engine is there.
    Built { engine: P::Engine },

    /// Something could not be opened.
    Failed { error: Error<P> },
}

/// An [`EngineBuild`] with the work on its store as plain sequences.
pub enum EngineState<'a, P: Parts> {
    OpenWalAndManifest {
        config: &'a Config<P>,
        runtimes: &'a EngineRuntimes<P>,
        wal_opening: WalOpening<'a, P>,
    },
    OpenStorage {
        config: &'a Config<P>,
        runtimes: &'a EngineRuntimes<P>,
        wal: P::Wal,
        manifest: P::Manifest,
        opening: StorageState<'a, P>,
    },
    OpenInstance {
        config: &'a Config<P>,
        runtimes: &'a EngineRuntimes<P>,
        wal: P::Wal,
        manifest: P::Manifest,
        store: P::Store,
    },
    MakeEngine { instance: P::Instance },
    Built { engine: P::Engine },
    Failed { error: Error<P> },
}

impl<'a, P: Parts> View for EngineBuild<'a, P> {
    type V = EngineState<'a, P>;

    open spec fn view(&self) -> EngineState<'a, P> {
        match *self {
            EngineBuild::OpenWalAndManifest { config, runtimes, opening } => {
                EngineState::OpenWalAndManifest { config, runtimes, wal_opening: opening }
            },
            EngineBuild::OpenStorage { config, runtimes, wal, manifest, opening } => {
                EngineState::OpenStorage { config, runtimes, wal, manifest, opening: opening@ }
            },
            EngineBuild::OpenInstance { config, runtimes, wal, manifest, store } => {
                EngineState::OpenInstance { config, runtimes, wal, manifest, store }
            },
            EngineBuild::MakeEngine { instance } => EngineState::MakeEngine { instance },
            EngineBuild::Built { engine } => EngineState::Built { engine },
            EngineBuild::Failed { error } => EngineState::Failed { error },
        }
    }
}

/// What the surroundings are asked to do for an engine.
pub enum EngineAction<'b, P: Parts> {
    /// Something for the wal or the manifest.
    Wal(WalAction<'b, P>),

    /// Something for the object store.
    Storage(StoreAction<'b, P>),

    /// Open the instance, with a cache of `meta_cache_cap` entries for the metadata of
    /// sst files where there is a capacity, and with the default factory for sst files.
    OpenInstance {
        config: &'b Config<P>,
        runtimes: &'b EngineRuntimes<P>,
        meta_cache_cap: Option<usize>,
        manifest: &'b P::Manifest,
        wal: &'b P::Wal,
        store: &'b P::Store,
    },

    /// Make the table engine over the instance, which cannot fail.
    MakeEngine { instance: &'b P::Instance },
}

/// What the surroundings answer.
pub enum EngineEvent<P: Parts> {
    Wal(WalEvent<P>),
    Storage(StoreEvent<P>),
    InstanceOpened { instance: P::Instance },
    InstanceFailed { source: P::InstanceError },
    EngineMade { engine: P::Engine },
}

/// The state that follows from how far the wal and the manifest have come.
pub open spec fn after_wal<'a, P: Parts>(
    config: &'a Config<P>,
    runtimes: &'a EngineRuntimes<P>,
    opening: WalOpening<'a, P>,
) -> EngineState<'a, P> {
    match opening {
        WalOpening::Opened { wal, manifest } => EngineState::OpenStorage {
            config,
            runtimes,
            wal,
            manifest,
            opening: StorageState::Opening {
                todo: storage_plan(&config.storage),
                stores: Seq::empty(),
            },
        },
        WalOpening::Failed { error } => EngineState::Failed { error },
        _ => EngineState::OpenWalAndManifest { config, runtimes, wal_opening: opening },
    }
}

/// The state that follows from how far the object store has come.
pub open spec fn after_storage<'a, P: Parts>(
    config: &'a Config<P>,
    runtimes: &'a EngineRuntimes<P>,
    wal: P::Wal,
    manifest: P::Manifest,
    opening: StorageState<'a, P>,
) -> EngineState<'a, P> {
    match opening {
        StorageState::Opened { store } => EngineState::OpenInstance {
            config,
            runtimes,
            wal,
            manifest,
            store,
        },
        StorageState::Failed { error } => EngineState::Failed { error },
        StorageState::Opening { .. } => EngineState::OpenStorage {
            config,
            runtimes,
            wal,
            manifest,
            opening,
        },
    }
}

impl<'a, P: Parts> EngineState<'a, P> {
    /// What the surroundings are asked to do next, if anything is left.
    pub open spec fn action(self) -> Option<EngineAction<'a, P>> {
        match self {
            EngineState::OpenWalAndManifest { wal_opening, .. } => match wal_opening.asks() {
                Some(action) => Some(EngineAction::Wal(action)),
                None => None,
            },
            EngineState::OpenStorage { opening, .. } => match opening.action() {
                Some(action) => Some(EngineAction::Storage(action)),
                None => None,
            },
            EngineState::OpenInstance { config, runtimes, wal, manifest, store } => Some(
                EngineAction::OpenInstance {
                    config,
                    runtimes,
                    meta_cache_cap: config.sst_meta_cache_cap,
                    manifest: &manifest,
                    wal: &wal,
                    store: &store,
                },
            ),
            EngineState::MakeEngine { instance } => Some(
                EngineAction::MakeEngine { instance: &instance },
            ),
            EngineState::Built { .. } => None,
            EngineState::Failed { .. } => None,
        }
    }

    /// The state after `event`. What does not answer the action in hand changes nothing.
    pub open spec fn advance(self, event: EngineEvent<P>) -> EngineState<'a, P> {
        match (self, event) {
            (
                EngineState::OpenWalAndManifest { config, runtimes, wal_opening },
                EngineEvent::Wal(wal_event),
            ) => after_wal(config, runtimes, wal_opening.after(wal_event)),
            (
                EngineState::OpenStorage { config, runtimes, wal, manifest, opening },
                EngineEvent::Storage(store_event),
            ) => after_storage(config, runtimes, wal, manifest, opening.advance(store_event)),
            (EngineState::OpenInstance { .. }, EngineEvent::InstanceOpened { instance }) => {
                EngineState::MakeEngine { instance }
            },
            (EngineState::OpenInstance { .. }, EngineEvent::InstanceFailed { source }) => {
                EngineState::Failed { error: Error::OpenInstance { source } }
            },
            (EngineState::MakeEngine { .. }, EngineEvent::EngineMade { engine }) => {
                EngineState::Built { engine }
            },
            _ => self,
        }
    }

    /// The error that `event` brings, if it brings one.
    pub open spec fn fails_with(self, event: EngineEvent<P>) -> Option<Error<P>> {
        match (self, event) {
            (
                EngineState::OpenWalAndManifest { wal_opening, .. },
                EngineEvent::Wal(wal_event),
            ) => wal_opening.fails_with(wal_event),
            (
                EngineState::OpenStorage { opening: StorageState::Opening { todo, .. }, .. },
                EngineEvent::Storage(store_event),
            ) => op_error(todo[0], store_event),
            (EngineState::OpenInstance { .. }, EngineEvent::InstanceFailed { source }) => Some(
                Error::OpenInstance { source },
            ),
            _ => None,
        }
    }

    /// The state after all of `events`.
    pub open spec fn run(self, events: Seq<EngineEvent<P>>) -> EngineState<'a, P>
        decreases events.len(),
    {
        if events.len() == 0 {
            self
        } else {
            self.advance(events[0]).run(events.drop_first())
        }
    }
}

/// Starts to open the instance over a wal, a manifest and a store.
pub fn open_instance<'a, P: Parts>(
    config: &'a Config<P>,
    engine_runtimes: &'a EngineRuntimes<P>,
    wal_manager: P::Wal,
    manifest: P::Manifest,
    store: P::Store,
) -> (build: EngineBuild<'a, P>)
    ensures
        build@ == (EngineState::OpenInstance {
            config,
            runtimes: engine_runtimes,
            wal: wal_manager,
            manifest,
            store,
        }),
{
    EngineBuild::OpenInstance {
        config,
        runtimes: engine_runtimes,
        wal: wal_manager,
        manifest,
        store,
    }
}

impl<'a, P: Parts> EngineBuild<'a, P> {
    /// Goes on from how far the wal and the manifest have come.
    fn after_wal(
        config: &'a Config<P>,
        runtimes: &'a EngineRuntimes<P>,
        opening: WalOpening<'a, P>,
    ) -> (build: Self)
        ensures
            build@ == after_wal(config, runtimes, opening),
    {
        match opening {
            WalOpening::Opened { wal, manifest } => EngineBuild::OpenStorage {
                config,
                runtimes,
                wal,
                manifest,
                opening: open_storage(&config.storage),
            },
            WalOpening::Failed { error } => EngineBuild::Failed { error },
            opening => EngineBuild::OpenWalAndManifest { config, runtimes, opening },
        }
    }

    /// Goes on from how far the object store has come.
    fn after_storage(
        config: &'a Config<P>,
        runtimes: &'a EngineRuntimes<P>,
        wal: P::Wal,
        manifest: P::Manifest,
        opening: StorageOpening<'a, P>,
    ) -> (build: Self)
        ensures
            build@ == after_storage(config, runtimes, wal, manifest, opening@),
    {
        match opening {
            StorageOpening::Opened { store } => open_instance(
                config,
                runtimes,
                wal,
                manifest,
                store,
            ),
            StorageOpening::Failed { error } => EngineBuild::Failed { error },
            opening => EngineBuild::OpenStorage { config, runtimes, wal, manifest, opening },
        }
    }

    /// What the surroundings are asked to do next, if anything is left.
    pub fn action(&self) -> (action: Option<EngineAction<'_, P>>)
        ensures
            action == self@.action(),
    {
        match self {
            EngineBuild::OpenWalAndManifest { opening, .. } => match opening.action() {
                Some(action) => Some(EngineAction::Wal(action)),
                None => None,
            },
            EngineBuild::OpenStorage { opening, .. } => match opening.action() {
                Some(action) => Some(EngineAction::Storage(action)),
                None => None,
            },
            EngineBuild::OpenInstance { config, runtimes, wal, manifest, store } => Some(
                EngineAction::OpenInstance {
                    config: *config,
                    runtimes: *runtimes,
                    meta_cache_cap: config.sst_meta_cache_cap,
                    manifest,
                    wal,
                    store,
                },
            ),
            EngineBuild::MakeEngine { instance } => Some(EngineAction::MakeEngine { instance }),
            EngineBuild::Built { .. } => None,
            EngineBuild::Failed { .. } => None,
        }
    }

    /// Goes on with what the surroundings answered.
    pub fn advance(self, event: EngineEvent<P>) -> (build: Self)
        ensures
            build@ == self@.advance(event),
    {
        match (self, event) {
            (
                EngineBuild::OpenWalAndManifest { config, runtimes, opening },
                EngineEvent::Wal(wal_event),
            ) => Self::after_wal(config, runtimes, opening.advance(wal_event)),
            (
                EngineBuild::OpenStorage { config, runtimes, wal, manifest, opening },
                EngineEvent::Storage(store_event),
            ) => Self::after_storage(
                config,
                runtimes,
                wal,
                manifest,
                opening.advance(store_event),
            ),
            (EngineBuild::OpenInstance { .. }, EngineEvent::InstanceOpened { instance }) => {
                EngineBuild::MakeEngine { instance }
            },
            (EngineBuild::OpenInstance { .. }, EngineEvent::InstanceFailed { source }) => {
                EngineBuild::Failed { error: Error::OpenInstance { source } }
            },
            (EngineBuild::MakeEngine { .. }, EngineEvent::EngineMade { engine }) => {
                EngineBuild::Built { engine }
            },
            (build, _) => build,
        }
    }
}

/// Analytic engine builder.
pub trait EngineBuilder<P: Parts>: Send + Sync + Default {
    /// Where the opening of the wal and the manifest starts, or the message that
    /// refuses the configuration.
    spec fn wal_opening<'a>(&'a self, input: BuildInput<'a, P>) -> Result<
        WalOpening<'a, P>,
        Seq<char>,
    >;

    /// Starts to open the wal and the manifest, unless the configuration is for
    /// another kind of wal.
    fn open_wal_and_manifest<'a>(&'a self, input: BuildInput<'a, P>) -> (r: Result<
        WalOpening<'a, P>,
        Error<P>,
    >)
        ensures
            match self.wal_opening(input) {
                Ok(opening) => r == Ok::<WalOpening<'a, P>, Error<P>>(opening),
                Err(text) => r matches Err(Error::InvalidWalConfig { msg }) && msg@ == text,
            },
    ;

    /// Starts to build the analytic engine from `input.config` and `input.engine_runtimes`.
    fn build<'a>(&'a self, input: BuildInput<'a, P>) -> (r: Result<EngineBuild<'a, P>, Error<P>>)
        ensures
            match self.wal_opening(input) {
                Ok(opening) => r matches Ok(build) && build@ == after_wal(
                    input.config,
                    input.engine_runtimes,
                    opening,
                ),
                Err(text) => r matches Err(Error::InvalidWalConfig { msg }) && msg@ == text,
            },
    {
        let config = input.config;
        let runtimes = input.engine_runtimes;
        match self.open_wal_and_manifest(input) {
            Ok(opening) => Ok(EngineBuild::after_wal(config, runtimes, opening)),
            Err(error) => Err(error),
        }
    }
}

/// Builds an engine whose wal is kept in rocksdb.
pub struct RocksDBWalEngineBuilder;

/// Builds an engine whose wal is kept in obkv.
pub struct ObkvWalEngineBuilder;

/// Builds an engine whose wal is kept in memory.
///
/// All engines built by one builder share the same store, so what one of them wrote
/// is still there after it has been dropped.
pub struct MemWalEngineBuilder<P: Parts> {
    table_kv: P::MemoryKv,
}

/// Builds an engine whose wal is kept in kafka.
pub struct KafkaWalEngineBuilder;

/// Refuses the configuration whose text is `config`.
fn refuse<P: Parts>(reason: &str, config: &str) -> (error: Error<P>)
    ensures
        error matches Error::InvalidWalConfig { msg } && msg@ == reason@ + config@,
{
    Error::InvalidWalConfig { msg: reason.to_string().concat(config) }
}

impl Default for RocksDBWalEngineBuilder {
    fn default() -> (r: Self)
        ensures
            r == RocksDBWalEngineBuilder,
    {
        RocksDBWalEngineBuilder
    }
}

impl Default for ObkvWalEngineBuilder {
    fn default() -> (r: Self)
        ensures
            r == ObkvWalEngineBuilder,
    {
        ObkvWalEngineBuilder
    }
}

impl<P: Parts> MemWalEngineBuilder<P> {
    /// The store that all engines share.
    pub closed spec fn table_kv(self) -> P::MemoryKv {
        self.table_kv
    }
}

impl<P: Parts> Default for MemWalEngineBuilder<P> where P::MemoryKv: Default {
    fn default() -> (r: Self)
        ensures
            call_ensures(<P::MemoryKv as Default>::default, (), r.table_kv()),
    {
        MemWalEngineBuilder { table_kv: Default::default() }
    }
}

impl Default for KafkaWalEngineBuilder {
    fn default() -> (r: Self)
        ensures
            r == KafkaWalEngineBuilder,
    {
        KafkaWalEngineBuilder
    }
}

impl<P: Parts> EngineBuilder<P> for RocksDBWalEngineBuilder {
    open spec fn wal_opening<'a>(&'a self, input: BuildInput<'a, P>) -> Result<
        WalOpening<'a, P>,
        Seq<char>,
    > {
        match input.config.wal_storage {
            WalStorageConfig::RocksDB => Ok(
                WalOpening::OpenWal {
                    source: WalSource::RocksDB {
                        wal_path: &input.config.wal_path,
                        write_runtime: &input.engine_runtimes.write_runtime,
                        region_id: input.default_shard_id as RegionId,
                    },
                    manifest_opts: &input.config.manifest,
                },
            ),
            _ => Err(ROCKSDB_REFUSAL@ + input.wal_storage_text@),
        }
    }

    fn open_wal_and_manifest<'a>(&'a self, input: BuildInput<'a, P>) -> Result<
        WalOpening<'a, P>,
        Error<P>,
    > {
        match &input.config.wal_storage {
            WalStorageConfig::RocksDB => Ok(
                WalOpening::OpenWal {
                    source: WalSource::RocksDB {
                        wal_path: &input.config.wal_path,
                        write_runtime: &input.engine_runtimes.write_runtime,
                        region_id: input.default_shard_id as RegionId,
                    },
                    manifest_opts: &input.config.manifest,
                },
            ),
            _ => Err(refuse(ROCKSDB_REFUSAL, input.wal_storage_text)),
        }
    }
}

impl<P: Parts> EngineBuilder<P> for ObkvWalEngineBuilder {
    open spec fn wal_opening<'a>(&'a self, input: BuildInput<'a, P>) -> Result<
        WalOpening<'a, P>,
        Seq<char>,
    > {
        match input.config.wal_storage {
            WalStorageConfig::Obkv(config) => Ok(
                WalOpening::ConnectObkv {
                    config: &*config,
                    manifest_opts: &input.config.manifest,
                    runtimes: input.engine_runtimes,
                },
            ),
            _ => Err(OBKV_REFUSAL@ + input.wal_storage_text@),
        }
    }

    fn open_wal_and_manifest<'a>(&'a self, input: BuildInput<'a, P>) -> Result<
        WalOpening<'a, P>,
        Error<P>,
    > {
        match &input.config.wal_storage {
            WalStorageConfig::Obkv(config) => Ok(
                WalOpening::ConnectObkv {
                    config: &**config,
                    manifest_opts: &input.config.manifest,
                    runtimes: input.engine_runtimes,
                },
            ),
            _ => Err(refuse(OBKV_REFUSAL, input.wal_storage_text)),
        }
    }
}

impl<P: Parts> EngineBuilder<P> for MemWalEngineBuilder<P> where
    P::MemoryKv: Default + Send + Sync,
 {
    open spec fn wal_opening<'a>(&'a self, input: BuildInput<'a, P>) -> Result<
        WalOpening<'a, P>,
        Seq<char>,
    > {
        match input.config.wal_storage {
            WalStorageConfig::Obkv(config) => Ok(
                WalOpening::OpenWal {
                    source: WalSource::TableKv {
                        table_kv: TableKv::Memory(&self.table_kv()),
                        runtimes: input.engine_runtimes,
                        config: &*config,
                    },
                    manifest_opts: &input.config.manifest,
                },
            ),
            _ => Err(MEMORY_REFUSAL@ + input.wal_storage_text@),
        }
    }

    fn open_wal_and_manifest<'a>(&'a self, input: BuildInput<'a, P>) -> Result<
        WalOpening<'a, P>,
        Error<P>,
    > {
        match &input.config.wal_storage {
            WalStorageConfig::Obkv(config) => Ok(
                open_wal_and_manifest_with_table_kv(
                    &**config,
                    &input.config.manifest,
                    input.engine_runtimes,
                    TableKv::Memory(&self.table_kv),
                ),
            ),
            _ => Err(refuse(MEMORY_REFUSAL, input.wal_storage_text)),
        }
    }
}

impl<P: Parts> EngineBuilder<P> for KafkaWalEngineBuilder {
    open spec fn wal_opening<'a>(&'a self, input: BuildInput<'a, P>) -> Result<
        WalOpening<'a, P>,
        Seq<char>,
    > {
        match input.config.wal_storage {
            WalStorageConfig::Kafka(config) => Ok(
                WalOpening::OpenWal {
                    source: WalSource::Kafka {
                        bg_runtime: &input.engine_runtimes.bg_runtime,
                        config: &config,
                    },
                    manifest_opts: &input.config.manifest,
                },
            ),
            _ => Err(KAFKA_REFUSAL@ + input.config_text@),
        }
    }

    fn open_wal_and_manifest<'a>(&'a self, input: BuildInput<'a, P>) -> Result<
        WalOpening<'a, P>,
        Error<P>,
    > {
        match &input.config.wal_storage {
            WalStorageConfig::Kafka(config) => Ok(
                WalOpening::OpenWal {
                    source: WalSource::Kafka {
                        bg_runtime: &input.engine_runtimes.bg_runtime,
                        config,
                    },
                    manifest_opts: &input.config.manifest,
                },
            ),
            _ => Err(refuse(KAFKA_REFUSAL, input.config_text)),
        }
    }
}

} // verus!
