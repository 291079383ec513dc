//! Opening the wal and the manifest of an engine.

use crate::analytic_engine::config::{EngineRuntimes, KafkaWalConfig, ObkvWalConfig, Parts};
use crate::analytic_engine::error::Error;
use vstd::prelude::*;

verus! {

/// The name under which the wal of the data is kept: a directory, a namespace or a queue.
pub const WAL_DIR_NAME: &'static str = "wal";

/// The name under which the wal of the manifest is kept.
pub const MANIFEST_DIR_NAME: &'static str = "manifest";

/// Identifies a region of a wal.
pub type RegionId = u64;

/// The runtimes that a wal in a table-kv store works on.
pub struct WalRuntimes<'b, P: Parts> {
    pub read_runtime: &'b P::Runtime,
    pub write_runtime: &'b P::Runtime,
    pub bg_runtime: &'b P::Runtime,
}

/// The two logs of an engine.
#[derive(Clone, Copy, Debug, PartialEq, Eq, Structural)]
pub enum Log {
    Wal,
    Manifest,
}

/// A table-kv store.
pub enum TableKv<'a, P: Parts> {
    Obkv(P::ObkvKv),
    Memory(&'a P::MemoryKv),
}

/// A table-kv store on loan.
pub enum TableKvRef<'b, P: Parts> {
    Obkv(&'b P::ObkvKv),
    Memory(&'b P::MemoryKv),
}

/// What both logs are opened from.
#[allow(inconsistent_fields)]
pub enum WalSource<'a, P: Parts> {
    /// A database for each log, in its own directory under `wal_path`.
    RocksDB { wal_path: &'a String, write_runtime: &'a P::Runtime, region_id: RegionId },

    /// A namespace for each log in the same table-kv store.
    TableKv {
        table_kv: TableKv<'a, P>,
        runtimes: &'a EngineRuntimes<P>,
        config: &'a ObkvWalConfig<P>,
    },

    /// A queue for each log.
    Kafka { bg_runtime: &'a P::Runtime, config: &'a KafkaWalConfig<P> },
}

/// How far the opening of the wal and the manifest has come.
pub enum WalOpening<'a, P: Parts> {
    /// Obkv has to be reached first.
    ConnectObkv {
        config: &'a ObkvWalConfig<P>,
        manifest_opts: &'a P::ManifestOptions,
        runtimes: &'a EngineRuntimes<P>,
    },

    /// The wal has to be opened.
    OpenWal { source: WalSource<'a, P>, manifest_opts: &'a P::ManifestOptions },

    /// The wal is open, that of the manifest has to be opened.
    OpenManifestWal {
        source: WalSource<'a, P>,
        manifest_opts: &'a P::ManifestOptions,
        wal: P::Wal,
    },

    /// Both wals are open, the manifest has to be opened.
    OpenManifest { manifest_opts: &'a P::ManifestOptions, wal: P::Wal, manifest_wal: P::Wal },

    /// The wal and the manifest are open.
    Opened { wal: P::Wal, manifest: P::Manifest },

    /// Something could not be opened.
    Failed { error: Error<P> },
}

/// What the surroundings are asked to do for the wal and the manifest.
#[allow(inconsistent_fields)]
pub enum WalAction<'b, P: Parts> {
    /// Connect to obkv, which may block: the work goes to `runtime`.
    ConnectObkv { runtime: &'b P::Runtime, config: &'b P::ObkvConfig },

    /// Open the database in the directory `name` under `base`.
    OpenRocksDB {
        base: &'b String,
        name: &'static str,
        runtime: &'b P::Runtime,
        region_id: RegionId,
    },

    /// Open the namespace `name` of `table_kv`.
    OpenNamespace {
        table_kv: TableKvRef<'b, P>,
        runtimes: WalRuntimes<'b, P>,
        name: &'static str,
        config: &'b P::NamespaceConfig,
    },

    /// Connect to kafka and keep the log in the queues of the namespace `name`.
    OpenMessageQueue {
        name: &'static str,
        kafka_config: &'b P::KafkaConfig,
        runtime: &'b P::Runtime,
        config: &'b P::QueueWalConfig,
    },

    /// Open the manifest over `wal`.
    OpenManifest { wal: &'b P::Wal, options: &'b P::ManifestOptions },
}

/// What the surroundings answer.
#[allow(inconsistent_fields)]
pub enum WalEvent<P: Parts> {
    ObkvConnected { table_kv: P::ObkvKv },
    ObkvFailed { source: P::ObkvError },
    RuntimeFailed { source: P::RuntimeError },
    WalOpened { wal: P::Wal },
    WalFailed { source: P::WalError },
    KafkaFailed { source: P::KafkaError },
    ManifestOpened { manifest: P::Manifest },
    ManifestFailed { source: P::ManifestError },
}

/// The name of a log.
pub open spec fn log_name(log: Log) -> &'static str {
    match log {
        Log::Wal => WAL_DIR_NAME,
        Log::Manifest => MANIFEST_DIR_NAME,
    }
}

/// The namespace of a log.
pub open spec fn log_namespace<P: Parts>(
    config: &ObkvWalConfig<P>,
    log: Log,
) -> &P::NamespaceConfig {
    match log {
        Log::Wal => &config.wal,
        Log::Manifest => &config.manifest,
    }
}

/// Each runtime of the engine in its own role.
pub open spec fn wal_runtimes<P: Parts>(runtimes: &EngineRuntimes<P>) -> WalRuntimes<'_, P> {
    WalRuntimes {
        read_runtime: &runtimes.read_runtime,
        write_runtime: &runtimes.write_runtime,
        bg_runtime: &runtimes.bg_runtime,
    }
}

/// `table_kv` on loan.
pub open spec fn kv_ref<'a, P: Parts>(table_kv: TableKv<'a, P>) -> TableKvRef<'a, P> {
    match table_kv {
        TableKv::Obkv(kv) => TableKvRef::Obkv(&kv),
        TableKv::Memory(kv) => TableKvRef::Memory(kv),
    }
}

/// What opens `log` from `source`.
pub open spec fn log_action<'a, P: Parts>(
    source: WalSource<'a, P>,
    log: Log,
) -> WalAction<'a, P> {
    match source {
        WalSource::RocksDB { wal_path, write_runtime, region_id } => WalAction::OpenRocksDB {
            base: wal_path,
            name: log_name(log),
            runtime: write_runtime,
            region_id,
        },
        WalSource::TableKv { table_kv, runtimes, config } => WalAction::OpenNamespace {
            table_kv: kv_ref(table_kv),
            runtimes: wal_runtimes(runtimes),
            name: log_name(log),
            config: log_namespace(config, log),
        },
        WalSource::Kafka { bg_runtime, config } => WalAction::OpenMessageQueue {
            name: log_name(log),
            kafka_config: &config.kafka_config,
            runtime: bg_runtime,
            config: &config.wal_config,
        },
    }
}

/// The error that `event` brings while `log` is being opened from `source`, if it brings one.
pub open spec fn log_error<'a, P: Parts>(
    source: WalSource<'a, P>,
    log: Log,
    event: WalEvent<P>,
) -> Option<Error<P>> {
    match (source, event) {
        (WalSource::Kafka { .. }, WalEvent::KafkaFailed { source: cause }) => Some(
            Error::OpenKafka { source: cause },
        ),
        (WalSource::Kafka { .. }, _) => None,
        (_, WalEvent::WalFailed { source: cause }) => Some(
            match log {
                Log::Wal => Error::OpenWal { source: cause },
                Log::Manifest => Error::OpenManifestWal { source: cause },
            },
        ),
        _ => None,
    }
}

impl<'a, P: Parts> WalSource<'a, P> {
    /// What opens `log`.
    fn log_action(&self, log: Log) -> (action: WalAction<'_, P>)
        ensures
            action == log_action(*self, log),
    {
        let name = match log {
            Log::Wal => WAL_DIR_NAME,
            Log::Manifest => MANIFEST_DIR_NAME,
        };
        match self {
            WalSource::RocksDB { wal_path, write_runtime, region_id } => WalAction::OpenRocksDB {
                base: *wal_path,
                name,
                runtime: *write_runtime,
                region_id: *region_id,
            },
            WalSource::TableKv { table_kv, runtimes, config } => WalAction::OpenNamespace {
                table_kv: match table_kv {
                    TableKv::Obkv(kv) => TableKvRef::Obkv(kv),
                    TableKv::Memory(kv) => TableKvRef::Memory(*kv),
                },
                runtimes: WalRuntimes {
                    read_runtime: &runtimes.read_runtime,
                    write_runtime: &runtimes.write_runtime,
                    bg_runtime: &runtimes.bg_runtime,
                },
                name,
                config: match log {
                    Log::Wal => &config.wal,
                    Log::Manifest => &config.manifest,
                },
            },
            WalSource::Kafka { bg_runtime, config } => WalAction::OpenMessageQueue {
                name,
                kafka_config: &config.kafka_config,
                runtime: *bg_runtime,
                config: &config.wal_config,
            },
        }
    }

    /// Whether the log is kept in kafka.
    fn is_kafka(&self) -> (b: bool)
        ensures
            b == (self is Kafka),
    {
        match self {
            WalSource::Kafka { .. } => true,
            _ => false,
        }
    }
}

/// Starts to open the wal and the manifest in `table_kv`.
pub fn open_wal_and_manifest_with_table_kv<'a, P: Parts>(
    config: &'a ObkvWalConfig<P>,
    manifest_opts: &'a P::ManifestOptions,
    engine_runtimes: &'a EngineRuntimes<P>,
    table_kv: TableKv<'a, P>,
) -> (opening: WalOpening<'a, P>)
    ensures
        opening == (WalOpening::OpenWal {
            source: WalSource::TableKv { table_kv, runtimes: engine_runtimes, config },
            manifest_opts,
        }),
{
    WalOpening::OpenWal {
        source: WalSource::TableKv { table_kv, runtimes: engine_runtimes, config },
        manifest_opts,
    }
}

impl<'a, P: Parts> WalOpening<'a, P> {
    /// What the surroundings are asked to do next, if anything is left.
    pub open spec fn asks(self) -> Option<WalAction<'a, P>> {
        match self {
            WalOpening::ConnectObkv { config, runtimes, .. } => Some(
                WalAction::ConnectObkv { runtime: &runtimes.write_runtime, config: &config.obkv },
            ),
            WalOpening::OpenWal { source, .. } => Some(log_action(source, Log::Wal)),
            WalOpening::OpenManifestWal { source, .. } => Some(log_action(source, Log::Manifest)),
            WalOpening::OpenManifest { manifest_opts, manifest_wal, .. } => Some(
                WalAction::OpenManifest { wal: &manifest_wal, options: manifest_opts },
            ),
            WalOpening::Opened { .. } => None,
            WalOpening::Failed { .. } => None,
        }
    }

    /// The error that `event` brings, if it brings one.
    pub open spec fn fails_with(self, event: WalEvent<P>) -> Option<Error<P>> {
        match self {
            WalOpening::ConnectObkv { .. } => match event {
                WalEvent::ObkvFailed { source } => Some(Error::OpenObkv { source }),
                WalEvent::RuntimeFailed { source } => Some(Error::RuntimeExec { source }),
                _ => None,
            },
            WalOpening::OpenWal { source, .. } => log_error(source, Log::Wal, event),
            WalOpening::OpenManifestWal { source, .. } => log_error(source, Log::Manifest, event),
            WalOpening::OpenManifest { .. } => match event {
                WalEvent::ManifestFailed { source } => Some(Error::OpenManifest { source }),
                _ => None,
            },
            WalOpening::Opened { .. } => None,
            WalOpening::Failed { .. } => None,
        }
    }

    /// The state after `event`. What does not answer the action in hand changes nothing.
    pub open spec fn after(self, event: WalEvent<P>) -> WalOpening<'a, P> {
        if let Some(error) = self.fails_with(event) {
            WalOpening::Failed { error }
        } else {
            match (self, event) {
                (
                    WalOpening::ConnectObkv { config, manifest_opts, runtimes },
                    WalEvent::ObkvConnected { table_kv },
                ) => WalOpening::OpenWal {
                    source: WalSource::TableKv {
                        table_kv: TableKv::Obkv(table_kv),
                        runtimes,
                        config,
                    },
                    manifest_opts,
                },
                (
                    WalOpening::OpenWal { source, manifest_opts },
                    WalEvent::WalOpened { wal },
                ) => WalOpening::OpenManifestWal { source, manifest_opts, wal },
                (
                    WalOpening::OpenManifestWal { source: _, manifest_opts, wal },
                    WalEvent::WalOpened { wal: manifest_wal },
                ) => WalOpening::OpenManifest { manifest_opts, wal, manifest_wal },
                (
                    WalOpening::OpenManifest { manifest_opts: _, wal, manifest_wal: _ },
                    WalEvent::ManifestOpened { manifest },
                ) => WalOpening::Opened { wal, manifest },
                _ => self,
            }
        }
    }

    /// The state after all of `events`.
    pub open spec fn run(self, events: Seq<WalEvent<P>>) -> WalOpening<'a, P>
        decreases events.len(),
    {
        if events.len() == 0 {
            self
        } else {
            self.after(events[0]).run(events.drop_first())
        }
    }

    /// What the surroundings are asked to do next, if anything is left.
    pub fn action(&self) -> (action: Option<WalAction<'_, P>>)
        ensures
            action == self.asks(),
    {
        match self {
            WalOpening::ConnectObkv { config, runtimes, .. } => Some(
                WalAction::ConnectObkv { runtime: &runtimes.write_runtime, config: &config.obkv },
            ),
            WalOpening::OpenWal { source, .. } => Some(source.log_action(Log::Wal)),
            WalOpening::OpenManifestWal { source, .. } => Some(source.log_action(Log::Manifest)),
            WalOpening::OpenManifest { manifest_opts, manifest_wal, .. } => Some(
                WalAction::OpenManifest { wal: manifest_wal, options: *manifest_opts },
            ),
            WalOpening::Opened { .. } => None,
            WalOpening::Failed { .. } => None,
        }
    }

    /// Goes on with what the surroundings answered.
    pub fn advance(self, event: WalEvent<P>) -> (opening: Self)
        ensures
            opening == self.after(event),
    {
        match (self, event) {
            (
                WalOpening::ConnectObkv { config, manifest_opts, runtimes },
                WalEvent::ObkvConnected { table_kv },
            ) => open_wal_and_manifest_with_table_kv(
                config,
                manifest_opts,
                runtimes,
                TableKv::Obkv(table_kv),
            ),
            (WalOpening::ConnectObkv { .. }, WalEvent::ObkvFailed { source }) => {
                WalOpening::Failed { error: Error::OpenObkv { source } }
            },
            (WalOpening::ConnectObkv { .. }, WalEvent::RuntimeFailed { source }) => {
                WalOpening::Failed { error: Error::RuntimeExec { source } }
            },
            (WalOpening::OpenWal { source, manifest_opts }, WalEvent::WalOpened { wal }) => {
                WalOpening::OpenManifestWal { source, manifest_opts, wal }
            },
            (
                WalOpening::OpenWal { source, manifest_opts },
                WalEvent::WalFailed { source: cause },
            ) => if source.is_kafka() {
                WalOpening::OpenWal { source, manifest_opts }
            } else {
                WalOpening::Failed { error: Error::OpenWal { source: cause } }
            },
            (
                WalOpening::OpenWal { source, manifest_opts },
                WalEvent::KafkaFailed { source: cause },
            ) => if source.is_kafka() {
                WalOpening::Failed { error: Error::OpenKafka { source: cause } }
            } else {
                WalOpening::OpenWal { source, manifest_opts }
            },
            (
                WalOpening::OpenManifestWal { source: _, manifest_opts, wal },
                WalEvent::WalOpened { wal: manifest_wal },
            ) => WalOpening::OpenManifest { manifest_opts, wal, manifest_wal },
            (
                WalOpening::OpenManifestWal { source, manifest_opts, wal },
                WalEvent::WalFailed { source: cause },
            ) => if source.is_kafka() {
                WalOpening::OpenManifestWal { source, manifest_opts, wal }
            } else {
                WalOpening::Failed { error: Error::OpenManifestWal { source: cause } }
            },
            (
                WalOpening::OpenManifestWal { source, manifest_opts, wal },
                WalEvent::KafkaFailed { source: cause },
            ) => if source.is_kafka() {
                WalOpening::Failed { error: Error::OpenKafka { source: cause } }
            } else {
                WalOpening::OpenManifestWal { source, manifest_opts, wal }
            },
            (
                WalOpening::OpenManifest { manifest_opts: _, wal, manifest_wal: _ },
                WalEvent::ManifestOpened { manifest },
            ) => WalOpening::Opened { wal, manifest },
            (WalOpening::OpenManifest { .. }, WalEvent::ManifestFailed { source }) => {
                WalOpening::Failed { error: Error::OpenManifest { source } }
            },
            (opening, _) => opening,
        }
    }
}

} // verus!
