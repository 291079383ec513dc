//! Why an engine could not be set up.

use crate::analytic_engine::config::Parts;
use vstd::prelude::*;

verus! {

/// The directory `name` directly under the path `base`.
pub struct SubDir {
    pub base: String,
    pub name: &'static str,
}

/// Why an engine could not be set up.
#[allow(inconsistent_fields)]
pub enum Error<P: Parts> {
    /// The engine instance could not be opened.
    OpenInstance { source: P::InstanceError },

    /// The wal could not be opened.
    OpenWal { source: P::WalError },

    /// The wal storage in the configuration is not the one that the builder is for.
    InvalidWalConfig { msg: String },

    /// The wal of the manifest could not be opened.
    OpenManifestWal { source: P::WalError },

    /// The manifest could not be opened.
    OpenManifest { source: P::ManifestError },

    /// Obkv could not be reached.
    OpenObkv { source: P::ObkvError },

    /// A task could not be run on a runtime.
    RuntimeExec { source: P::RuntimeError },

    /// An object store could not be opened.
    OpenObjectStore { source: P::StoreError },

    /// The directory of a local store could not be created.
    CreateDir { path: SubDir, source: P::IoError },

    /// Kafka could not be reached.
    OpenKafka { source: P::KafkaError },
}

} // verus!
