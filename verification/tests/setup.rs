use ceresdb::analytic_engine::config::{
    AliyunOptions, CacheOptions, Config, EngineRuntimes, KafkaWalConfig, LocalOptions,
    ObjectStoreOptions, ObkvWalConfig, Parts, StorageOptions, WalStorageConfig,
};
use ceresdb::analytic_engine::error::Error;
use ceresdb::analytic_engine::setup::{
    BuildInput, EngineAction, EngineBuild, EngineBuilder, EngineEvent, KafkaWalEngineBuilder,
    MemWalEngineBuilder, ObkvWalEngineBuilder, RocksDBWalEngineBuilder,
};
use ceresdb::analytic_engine::storage::{open_storage, StorageOpening, StoreAction, StoreEvent};
use ceresdb::analytic_engine::wal::{TableKvRef, WalAction, WalEvent, WalOpening};

/// Parts that are the texts of how they were made.
struct Texts;

impl Parts for Texts {
    type ManifestOptions = &'static str;
    type NamespaceConfig = &'static str;
    type ObkvConfig = &'static str;
    type KafkaConfig = &'static str;
    type QueueWalConfig = &'static str;
    type DiskCacheOptions = &'static str;
    type EngineOptions = &'static str;
    type Runtime = &'static str;
    type MemoryKv = u64;
    type ObkvKv = String;
    type Wal = String;
    type Manifest = String;
    type Store = String;
    type Instance = String;
    type Engine = String;
    type WalError = String;
    type ManifestError = String;
    type ObkvError = String;
    type RuntimeError = String;
    type KafkaError = String;
    type IoError = String;
    type StoreError = String;
    type InstanceError = String;
}

fn local(data_path: &str, capacity: u64) -> StorageOptions<Texts> {
    StorageOptions {
        mem_cache_capacity: capacity,
        mem_cache_partition_bits: 3,
        object_store: ObjectStoreOptions::Local(LocalOptions { data_path: data_path.to_string() }),
    }
}

fn aliyun(bucket: &str, capacity: u64) -> StorageOptions<Texts> {
    StorageOptions {
        mem_cache_capacity: capacity,
        mem_cache_partition_bits: 4,
        object_store: ObjectStoreOptions::Aliyun(AliyunOptions {
            key_id: "id".to_string(),
            key_secret: "secret".to_string(),
            endpoint: "oss".to_string(),
            bucket: bucket.to_string(),
        }),
    }
}

fn cached(
    local_store: StorageOptions<Texts>,
    remote_store: StorageOptions<Texts>,
    capacity: u64,
) -> StorageOptions<Texts> {
    StorageOptions {
        mem_cache_capacity: capacity,
        mem_cache_partition_bits: 5,
        object_store: ObjectStoreOptions::Cache(CacheOptions {
            local_store: Box::new(local_store),
            remote_store: Box::new(remote_store),
            cache_opts: "disk",
        }),
    }
}

fn config(wal_storage: WalStorageConfig<Texts>) -> Config<Texts> {
    Config {
        wal_storage,
        wal_path: "/data".to_string(),
        manifest: "manifest options",
        storage: local("/data", 0),
        sst_meta_cache_cap: Some(1000),
        engine: "engine",
    }
}

fn obkv() -> WalStorageConfig<Texts> {
    WalStorageConfig::Obkv(Box::new(ObkvWalConfig {
        obkv: "obkv config",
        wal: "wal ns",
        manifest: "manifest ns",
    }))
}

fn kafka() -> WalStorageConfig<Texts> {
    WalStorageConfig::Kafka(KafkaWalConfig { kafka_config: "kafka config", wal_config: "queue" })
}

const RUNTIMES: EngineRuntimes<Texts> =
    EngineRuntimes { read_runtime: "reader", write_runtime: "writer", bg_runtime: "worker" };

fn input(config: &Config<Texts>) -> BuildInput<'_, Texts> {
    BuildInput {
        config,
        engine_runtimes: &RUNTIMES,
        default_shard_id: 2,
        wal_storage_text: "<wal storage>",
        config_text: "<config>",
    }
}

/// Does what is asked for a store.
fn do_store(action: StoreAction<'_, Texts>, log: &mut Vec<String>) -> StoreEvent<Texts> {
    let (entry, store) = match action {
        StoreAction::CreateDir { base, name } => {
            log.push(format!("mkdir {}/{}", base, name));
            return StoreEvent::DirCreated;
        }
        StoreAction::OpenLocal { base, name } => {
            let store = format!("local({}/{})", base, name);
            (store.clone(), store)
        }
        StoreAction::OpenAliyun { options } => {
            let store = format!(
                "aliyun({},{},{},{})",
                options.key_id, options.key_secret, options.endpoint, options.bucket
            );
            (store.clone(), store)
        }
        StoreAction::InitCache { local, remote, options } => (
            "cache".to_string(),
            format!("cache[{}]({}, {})", options, local, remote),
        ),
        StoreAction::WrapMemCache { partition_bits, capacity, store } => (
            "mem".to_string(),
            format!("mem[{},{}]({})", partition_bits, capacity, store),
        ),
    };
    log.push(entry);
    StoreEvent::StoreOpened { store }
}

/// Does what is asked for the wal and the manifest.
fn do_wal(action: WalAction<'_, Texts>, log: &mut Vec<String>) -> WalEvent<Texts> {
    match action {
        WalAction::ConnectObkv { runtime, config } => {
            assert_eq!(*runtime, "writer");
            log.push(format!("connect {}", config));
            WalEvent::ObkvConnected { table_kv: format!("obkv({})", config) }
        }
        WalAction::OpenRocksDB { base, name, runtime, region_id } => {
            assert_eq!(*runtime, "writer");
            let wal = format!("rocksdb({}/{}, {})", base, name, region_id);
            log.push(wal.clone());
            WalEvent::WalOpened { wal }
        }
        WalAction::OpenNamespace { table_kv, runtimes, name, config } => {
            assert_eq!(*runtimes.read_runtime, "reader");
            assert_eq!(*runtimes.write_runtime, "writer");
            assert_eq!(*runtimes.bg_runtime, "worker");
            let kv = match table_kv {
                TableKvRef::Obkv(kv) => kv.clone(),
                TableKvRef::Memory(kv) => format!("memory({})", kv),
            };
            let wal = format!("namespace({}, {}, {})", kv, name, config);
            log.push(wal.clone());
            WalEvent::WalOpened { wal }
        }
        WalAction::OpenMessageQueue { name, kafka_config, runtime, config } => {
            assert_eq!(*runtime, "worker");
            let wal = format!("queue({}, {}, {})", name, kafka_config, config);
            log.push(wal.clone());
            WalEvent::WalOpened { wal }
        }
        WalAction::OpenManifest { wal, options } => {
            let manifest = format!("manifest({}, {})", wal, options);
            log.push(manifest.clone());
            WalEvent::ManifestOpened { manifest }
        }
    }
}

/// Does what is asked for an engine.
fn do_engine(action: EngineAction<'_, Texts>, log: &mut Vec<String>) -> EngineEvent<Texts> {
    match action {
        EngineAction::Wal(action) => EngineEvent::Wal(do_wal(action, log)),
        EngineAction::Storage(action) => EngineEvent::Storage(do_store(action, log)),
        EngineAction::OpenInstance { config, runtimes, meta_cache_cap, manifest, wal, store } => {
            assert_eq!(runtimes.read_runtime, "reader");
            assert_eq!(runtimes.write_runtime, "writer");
            assert_eq!(runtimes.bg_runtime, "worker");
            let instance = format!(
                "instance({}, {:?}, {}, {}, {})",
                config.engine, meta_cache_cap, wal, manifest, store
            );
            log.push("instance".to_string());
            EngineEvent::InstanceOpened { instance }
        }
        EngineAction::MakeEngine { instance } => {
            log.push("engine".to_string());
            EngineEvent::EngineMade { engine: format!("engine over {}", instance) }
        }
    }
}

fn opened_store(options: &StorageOptions<Texts>) -> (String, Vec<String>) {
    let mut log = Vec::new();
    let mut opening = open_storage(options);
    loop {
        let event = match opening.action() {
            Some(action) => do_store(action, &mut log),
            None => break,
        };
        opening = opening.advance(event);
    }
    match opening {
        StorageOpening::Opened { store } => (store, log),
        _ => panic!("not opened"),
    }
}

fn built<B: EngineBuilder<Texts>>(builder: &B, config: &Config<Texts>) -> (String, Vec<String>) {
    let mut log = Vec::new();
    let mut build = match builder.build(input(config)) {
        Ok(build) => build,
        Err(_) => panic!("refused"),
    };
    loop {
        let event = match build.action() {
            Some(action) => do_engine(action, &mut log),
            None => break,
        };
        build = build.advance(event);
    }
    match build {
        EngineBuild::Built { engine } => (engine, log),
        _ => panic!("not built"),
    }
}

fn refusal<B: EngineBuilder<Texts>>(builder: &B, config: &Config<Texts>) -> String {
    let from_build = match builder.build(input(config)) {
        Err(Error::InvalidWalConfig { msg }) => msg,
        _ => panic!("not refused"),
    };
    match builder.open_wal_and_manifest(input(config)) {
        Err(Error::InvalidWalConfig { msg }) => assert_eq!(msg, from_build),
        _ => panic!("not refused"),
    }
    from_build
}

#[test]
fn local_store_is_opened_in_its_directory() {
    let (store, log) = opened_store(&local("/d", 0));
    assert_eq!(store, "local(/d/store)");
    assert_eq!(log, vec!["mkdir /d/store", "local(/d/store)"]);
}

#[test]
fn memory_cache_goes_in_front() {
    let (store, log) = opened_store(&local("/d", 64));
    assert_eq!(store, "mem[3,64](local(/d/store))");
    assert_eq!(log, vec!["mkdir /d/store", "local(/d/store)", "mem"]);
    let (store, _) = opened_store(&aliyun("b", 1));
    assert_eq!(store, "mem[4,1](aliyun(id,secret,oss,b))");
}

#[test]
fn bucket_is_opened_with_its_options() {
    let (store, log) = opened_store(&aliyun("b", 0));
    assert_eq!(store, "aliyun(id,secret,oss,b)");
    assert_eq!(log.len(), 1);
}

#[test]
fn opened_store_has_configured_shape() {
    let inner = cached(local("/in", 7), aliyun("x", 0), 0);
    let (store, log) = opened_store(&cached(local("/out", 0), inner, 9));
    assert_eq!(
        store,
        "mem[5,9](cache[disk](local(/out/store), \
         cache[disk](mem[3,7](local(/in/store)), aliyun(id,secret,oss,x))))"
    );
    assert_eq!(
        log,
        vec![
            "mkdir /out/store",
            "local(/out/store)",
            "mkdir /in/store",
            "local(/in/store)",
            "mem",
            "aliyun(id,secret,oss,x)",
            "cache",
            "cache",
            "mem",
        ]
    );
}

#[test]
fn first_storage_failure_decides() {
    let options = cached(local("/l", 0), local("/r", 0), 5);
    let opening = open_storage(&options)
        .advance(StoreEvent::DirCreated)
        .advance(StoreEvent::StoreOpened { store: "l".to_string() })
        .advance(StoreEvent::DirFailed { source: "denied".to_string() })
        .advance(StoreEvent::DirCreated)
        .advance(StoreEvent::StoreOpened { store: "r".to_string() });
    assert!(opening.action().is_none());
    match opening {
        StorageOpening::Failed { error: Error::CreateDir { path, source } } => {
            assert_eq!((path.base.as_str(), path.name), ("/r", "store"));
            assert_eq!(source, "denied");
        }
        _ => panic!("no failure"),
    }
}

#[test]
fn store_that_cannot_be_opened_is_a_failure() {
    let options = local("/l", 0);
    let opening = open_storage(&options)
        .advance(StoreEvent::DirCreated)
        .advance(StoreEvent::StoreFailed { source: "bad".to_string() });
    match opening {
        StorageOpening::Failed { error: Error::OpenObjectStore { source } } => {
            assert_eq!(source, "bad")
        }
        _ => panic!("no failure"),
    }

    let options = cached(aliyun("a", 0), aliyun("b", 0), 0);
    let opening = open_storage(&options)
        .advance(StoreEvent::StoreOpened { store: "a".to_string() })
        .advance(StoreEvent::StoreOpened { store: "b".to_string() })
        .advance(StoreEvent::StoreFailed { source: "bad".to_string() });
    match opening {
        StorageOpening::Failed { error: Error::OpenObjectStore { source } } => {
            assert_eq!(source, "bad")
        }
        _ => panic!("no failure"),
    }
}

#[test]
fn answer_to_another_question_changes_nothing() {
    let options = local("/l", 0);
    let opening = open_storage(&options)
        .advance(StoreEvent::StoreOpened { store: "early".to_string() })
        .advance(StoreEvent::StoreFailed { source: "early".to_string() });
    assert!(matches!(opening.action(), Some(StoreAction::CreateDir { .. })));

    let options = aliyun("b", 0);
    let opening = open_storage(&options).advance(StoreEvent::StoreFailed { source: "no".to_string() });
    assert!(matches!(opening.action(), Some(StoreAction::OpenAliyun { .. })));
}

#[test]
fn rocksdb_engine_is_built_from_its_parts() {
    let config = config(WalStorageConfig::RocksDB);
    let (engine, log) = built(&RocksDBWalEngineBuilder::default(), &config);
    assert_eq!(
        log,
        vec![
            "rocksdb(/data/wal, 2)",
            "rocksdb(/data/manifest, 2)",
            "manifest(rocksdb(/data/manifest, 2), manifest options)",
            "mkdir /data/store",
            "local(/data/store)",
            "instance",
            "engine",
        ]
    );
    assert_eq!(
        engine,
        "engine over instance(engine, Some(1000), rocksdb(/data/wal, 2), \
         manifest(rocksdb(/data/manifest, 2), manifest options), local(/data/store))"
    );
}

#[test]
fn obkv_engine_connects_first() {
    let config = config(obkv());
    let (_, log) = built(&ObkvWalEngineBuilder::default(), &config);
    assert_eq!(log[0], "connect obkv config");
    assert_eq!(log[1], "namespace(obkv(obkv config), wal, wal ns)");
    assert_eq!(log[2], "namespace(obkv(obkv config), manifest, manifest ns)");
    assert_eq!(
        log[3],
        "manifest(namespace(obkv(obkv config), manifest, manifest ns), manifest options)"
    );
}

#[test]
fn engines_in_memory_share_the_store() {
    let config = config(obkv());
    let builder: MemWalEngineBuilder<Texts> = MemWalEngineBuilder::default();
    let (first, log) = built(&builder, &config);
    let (second, _) = built(&builder, &config);
    assert_eq!(first, second);
    assert_eq!(log[0], "namespace(memory(0), wal, wal ns)");
    assert_eq!(log[1], "namespace(memory(0), manifest, manifest ns)");
}

#[test]
fn kafka_engine_has_a_queue_for_each_log() {
    let mut config = config(kafka());
    config.sst_meta_cache_cap = None;
    let (engine, log) = built(&KafkaWalEngineBuilder::default(), &config);
    assert_eq!(log[0], "queue(wal, kafka config, queue)");
    assert_eq!(log[1], "queue(manifest, kafka config, queue)");
    assert_eq!(log[2], "manifest(queue(manifest, kafka config, queue), manifest options)");
    assert!(engine.starts_with("engine over instance(engine, None, queue(wal, "));
}

#[test]
fn builder_refuses_another_wal() {
    let mem: MemWalEngineBuilder<Texts> = MemWalEngineBuilder::default();
    for wal_storage in [obkv(), kafka()] {
        assert_eq!(
            refusal(&RocksDBWalEngineBuilder, &config(wal_storage)),
            "invalid wal storage config while opening rocksDB wal, config:<wal storage>"
        );
    }
    for wal_storage in [WalStorageConfig::RocksDB, kafka()] {
        assert_eq!(
            refusal(&ObkvWalEngineBuilder, &config(wal_storage)),
            "invalid wal storage config while opening obkv wal, config:<wal storage>"
        );
    }
    for wal_storage in [WalStorageConfig::RocksDB, kafka()] {
        assert_eq!(
            refusal(&mem, &config(wal_storage)),
            "invalid wal storage config while opening memory wal, config:<wal storage>"
        );
    }
    for wal_storage in [WalStorageConfig::RocksDB, obkv()] {
        assert_eq!(
            refusal(&KafkaWalEngineBuilder, &config(wal_storage)),
            "invalid wal storage config while opening kafka wal, config:<config>"
        );
    }
}

fn wal_error<B: EngineBuilder<Texts>>(
    builder: &B,
    config: &Config<Texts>,
    events: Vec<WalEvent<Texts>>,
) -> (&'static str, String) {
    let mut opening = match builder.open_wal_and_manifest(input(config)) {
        Ok(opening) => opening,
        Err(_) => panic!("refused"),
    };
    for event in events {
        opening = opening.advance(event);
    }
    assert!(opening.action().is_none());
    match opening {
        WalOpening::Failed { error } => match error {
            Error::OpenWal { source } => ("wal", source),
            Error::OpenManifestWal { source } => ("manifest wal", source),
            Error::OpenManifest { source } => ("manifest", source),
            Error::OpenObkv { source } => ("obkv", source),
            Error::RuntimeExec { source } => ("runtime", source),
            Error::OpenKafka { source } => ("kafka", source),
            _ => panic!("another error"),
        },
        _ => panic!("no failure"),
    }
}

fn wal_opened(wal: &str) -> WalEvent<Texts> {
    WalEvent::WalOpened { wal: wal.to_string() }
}

#[test]
fn wal_failures_are_told_apart() {
    let rocksdb = config(WalStorageConfig::RocksDB);
    let failed = || WalEvent::WalFailed { source: "w".to_string() };
    assert_eq!(
        wal_error(&RocksDBWalEngineBuilder, &rocksdb, vec![failed()]),
        ("wal", "w".to_string())
    );
    assert_eq!(
        wal_error(&RocksDBWalEngineBuilder, &rocksdb, vec![wal_opened("a"), failed()]),
        ("manifest wal", "w".to_string())
    );
    assert_eq!(
        wal_error(
            &RocksDBWalEngineBuilder,
            &rocksdb,
            vec![
                wal_opened("a"),
                wal_opened("b"),
                WalEvent::ManifestFailed { source: "m".to_string() },
            ]
        ),
        ("manifest", "m".to_string())
    );
    let obkv = config(obkv());
    assert_eq!(
        wal_error(
            &ObkvWalEngineBuilder,
            &obkv,
            vec![WalEvent::ObkvFailed { source: "o".to_string() }]
        ),
        ("obkv", "o".to_string())
    );
    assert_eq!(
        wal_error(
            &ObkvWalEngineBuilder,
            &obkv,
            vec![WalEvent::RuntimeFailed { source: "r".to_string() }]
        ),
        ("runtime", "r".to_string())
    );
    let kafka = config(kafka());
    let kafka_failed = || WalEvent::KafkaFailed { source: "k".to_string() };
    assert_eq!(
        wal_error(&KafkaWalEngineBuilder, &kafka, vec![kafka_failed()]),
        ("kafka", "k".to_string())
    );
    assert_eq!(
        wal_error(
            &KafkaWalEngineBuilder,
            &kafka,
            vec![failed(), wal_opened("a"), failed(), kafka_failed()]
        ),
        ("kafka", "k".to_string())
    );
    assert_eq!(
        wal_error(
            &RocksDBWalEngineBuilder,
            &rocksdb,
            vec![kafka_failed(), wal_opened("a"), kafka_failed(), failed(), wal_opened("b")]
        ),
        ("manifest wal", "w".to_string())
    );
}

#[test]
fn first_failure_ends_the_build() {
    let config = config(WalStorageConfig::RocksDB);
    let start = || match RocksDBWalEngineBuilder.build(input(&config)) {
        Ok(build) => build,
        Err(_) => panic!("refused"),
    };
    let failed = start()
        .advance(EngineEvent::Wal(WalEvent::WalFailed { source: "w".to_string() }))
        .advance(EngineEvent::Wal(wal_opened("late")));
    assert!(failed.action().is_none());
    assert!(matches!(failed, EngineBuild::Failed { error: Error::OpenWal { .. } }));

    let at_storage = || {
        start()
            .advance(EngineEvent::Wal(wal_opened("a")))
            .advance(EngineEvent::Wal(wal_opened("b")))
            .advance(EngineEvent::Wal(WalEvent::ManifestOpened { manifest: "m".to_string() }))
    };
    let failed = at_storage()
        .advance(EngineEvent::Storage(StoreEvent::DirFailed { source: "io".to_string() }));
    assert!(matches!(failed, EngineBuild::Failed { error: Error::CreateDir { .. } }));

    let failed = at_storage()
        .advance(EngineEvent::Wal(wal_opened("late")))
        .advance(EngineEvent::Storage(StoreEvent::DirCreated))
        .advance(EngineEvent::Storage(StoreEvent::StoreOpened { store: "s".to_string() }))
        .advance(EngineEvent::InstanceFailed { source: "i".to_string() });
    match failed {
        EngineBuild::Failed { error: Error::OpenInstance { source } } => assert_eq!(source, "i"),
        _ => panic!("no failure"),
    }
}

#[test]
fn engine_is_made_last() {
    let config = config(WalStorageConfig::RocksDB);
    let opened = match RocksDBWalEngineBuilder.build(input(&config)) {
        Ok(build) => build
            .advance(EngineEvent::Wal(wal_opened("a")))
            .advance(EngineEvent::Wal(wal_opened("b")))
            .advance(EngineEvent::Wal(WalEvent::ManifestOpened { manifest: "m".to_string() }))
            .advance(EngineEvent::Storage(StoreEvent::DirCreated))
            .advance(EngineEvent::Storage(StoreEvent::StoreOpened { store: "s".to_string() }))
            .advance(EngineEvent::EngineMade { engine: "early".to_string() })
            .advance(EngineEvent::InstanceOpened { instance: "i".to_string() })
            .advance(EngineEvent::InstanceFailed { source: "late".to_string() }),
        Err(_) => panic!("refused"),
    };
    match opened.action() {
        Some(EngineAction::MakeEngine { instance }) => assert_eq!(instance, "i"),
        _ => panic!("no engine is asked for"),
    }
    let built = opened
        .advance(EngineEvent::EngineMade { engine: "e".to_string() })
        .advance(EngineEvent::EngineMade { engine: "late".to_string() });
    assert!(built.action().is_none());
    match built {
        EngineBuild::Built { engine } => assert_eq!(engine, "e"),
        _ => panic!("not built"),
    }
}
