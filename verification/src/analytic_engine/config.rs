//! The configuration that the setup of an engine reads.

use vstd::prelude::*;

verus! {

/// The types that an engine is put together from.
///
/// Setup decides what is opened, in which order and from which part of the
/// configuration; it never looks inside a value of one of these types.
pub trait Parts {
    /// Options of the manifest.
    type ManifestOptions;

    /// Configuration of one wal namespace in a table-kv store.
    type NamespaceConfig;

    /// Configuration of the obkv client.
    type ObkvConfig;

    /// Configuration of the kafka client.
    type KafkaConfig;

    /// Configuration of a wal that is kept in a message queue.
    type QueueWalConfig;

    /// Options of the on-disk cache in front of a remote store.
    type DiskCacheOptions;

    /// The settings of the engine that only the instance reads.
    type EngineOptions;

    /// A runtime that work is handed to.
    type Runtime;

    /// A table-kv store in memory.
    type MemoryKv;

    /// A connected obkv client.
    type ObkvKv;

    /// An open wal manager.
    type Wal;

    /// An open manifest.
    type Manifest;

    /// An open object store.
    type Store;

    /// An open engine instance.
    type Instance;

    /// A table engine over an instance.
    type Engine;

    /// Why a wal could not be opened.
    type WalError;

    /// Why a manifest could not be opened.
    type ManifestError;

    /// Why obkv could not be reached.
    type ObkvError;

    /// Why a task could not be run on a runtime.
    type RuntimeError;

    /// Why kafka could not be reached.
    type KafkaError;

    /// Why a directory could not be created.
    type IoError;

    /// Why an object store could not be opened.
    type StoreError;

    /// Why an instance could not be opened.
    type InstanceError;
}

/// The runtimes of an engine, one for each kind of work.
pub struct EngineRuntimes<P: Parts> {
    pub read_runtime: P::Runtime,
    pub write_runtime: P::Runtime,
    pub bg_runtime: P::Runtime,
}

/// A wal in obkv: the client and a namespace for each of the two logs.
pub struct ObkvWalConfig<P: Parts> {
    pub obkv: P::ObkvConfig,
    pub wal: P::NamespaceConfig,
    pub manifest: P::NamespaceConfig,
}

/// A wal in kafka.
pub struct KafkaWalConfig<P: Parts> {
    pub kafka_config: P::KafkaConfig,
    pub wal_config: P::QueueWalConfig,
}

/// Where the wal is kept.
pub enum WalStorageConfig<P: Parts> {
    RocksDB,
    Obkv(Box<ObkvWalConfig<P>>),
    Kafka(KafkaWalConfig<P>),
}

/// A store in a directory of the local file system.
#[derive(Debug)]
pub struct LocalOptions {
    pub data_path: String,
}

/// A bucket of the aliyun object storage service.
#[derive(Debug)]
pub struct AliyunOptions {
    pub key_id: String,
    pub key_secret: String,
    pub endpoint: String,
    pub bucket: String,
}

/// A local store that caches a remote one.
pub struct CacheOptions<P: Parts> {
    pub local_store: Box<StorageOptions<P>>,
    pub remote_store: Box<StorageOptions<P>>,
    pub cache_opts: P::DiskCacheOptions,
}

/// Which object store is used.
pub enum ObjectStoreOptions<P: Parts> {
    Local(LocalOptions),
    Aliyun(AliyunOptions),
    Cache(CacheOptions<P>),
}

/// An object store and the memory cache in front of it.
pub struct StorageOptions<P: Parts> {
    /// Capacity of the memory cache in bytes, zero for no cache.
    pub mem_cache_capacity: u64,
    pub mem_cache_partition_bits: usize,
    pub object_store: ObjectStoreOptions<P>,
}

/// The configuration of an engine.
pub struct Config<P: Parts> {
    pub wal_storage: WalStorageConfig<P>,
    pub wal_path: String,
    pub manifest: P::ManifestOptions,
    pub storage: StorageOptions<P>,
    pub sst_meta_cache_cap: Option<usize>,
    pub engine: P::EngineOptions,
}

} // verus!
