//! Construction-time selection of a backend: a configuration value, a
//! builder over it, a factory that realizes it, and a provider of
//! ready-made wrappers.

use vstd::prelude::*;

use crate::common::{Storage, StorageId, StorageMode};
use crate::lmdb_storage::LMDBStorage;
use crate::memory_storage::MemoryStorage;
use crate::remote_storage_client::StorageROClient;
use crate::vstorage::{VLMDBStorage, VMemoryStorage, VRemoteStorage, VStorage, VStorageEnum};
use vstd::string::to_string_from_display_ensures_for_str;

verus! {

broadcast use to_string_from_display_ensures_for_str;

/// Why a backend could not be created.
#[derive(Debug)]
pub enum StorageError {
    ConnectionFailed(String),
    InvalidConfiguration(String),
    IoError(String),
}

/// Which backend to create, and with what parameters.
#[derive(Debug, Clone)]
pub enum StorageConfig {
    Memory,
    Lmdb { path: String, mode: StorageMode, max_read_counter_reopen: Option<u64> },
    Remote { address: String },
}

/// An embedded backend's three namespace instances sit at their
/// subdirectories under the given base path.
pub open spec fn lmdb_paths_under(l: LMDBStorage, base: Seq<char>) -> bool {
    forall|id: StorageId| #![trigger l.instance(id)]
        l.instance(id).spec_path() == crate::lmdb_storage::namespace_path(base, id)
}

/// What a backend built from a configuration looks like: the matching
/// enum variant around a freshly constructed backend.
pub open spec fn built_from(config: StorageConfig, s: VStorageEnum) -> bool {
    &&& s.inv()
    &&& match config {
        StorageConfig::Memory => s matches VStorageEnum::Memory(m) && (forall|id: StorageId|
            m.ns(id) == Map::<Seq<char>, Seq<u8>>::empty()),
        StorageConfig::Lmdb { path, .. } => s matches VStorageEnum::Lmdb(l) && lmdb_paths_under(
            l,
            path@,
        ),
        StorageConfig::Remote { address } => s matches VStorageEnum::Remote(c) && c.addr@
            == address@ && !c.is_ready,
    }
}

/// An abstract factory: anything that can create a boxed backend.  The
/// crate's callers may implement it for their own construction schemes;
/// since the boxed dispatcher holds the crate's closed backend set, an
/// implementation chooses among those backends.
pub trait StorageFactory {
    /// Creates a backend.
    fn create_storage(&self) -> Result<Box<VStorageEnum>, StorageError>;
}

/// Builds a backend from an accumulated configuration.
pub struct StorageBuilder {
    config: Option<StorageConfig>,
}

impl StorageBuilder {
    /// The accumulated configuration.
    pub closed spec fn spec_config(&self) -> Option<StorageConfig> {
        self.config
    }

    /// A builder with nothing selected.
    pub fn new() -> (r: Self)
        ensures
            r.spec_config() is None,
    {
        Self { config: None }
    }

    /// Selects the in-memory backend.
    pub fn memory(self) -> (r: Self)
        ensures
            r.spec_config() == Some(StorageConfig::Memory),
    {
        Self { config: Some(StorageConfig::Memory) }
    }

    /// Selects the embedded backend with its path, mode and reopen
    /// threshold.
    pub fn lmdb(self, path: &str, mode: StorageMode, max_read_counter_reopen: Option<u64>) -> (r:
        Self)
        ensures
            r.spec_config() matches Some(StorageConfig::Lmdb { path: p, mode: m, max_read_counter_reopen: x })
                && p@ == path@ && m == mode && x == max_read_counter_reopen,
    {
        Self {
            config: Some(
                StorageConfig::Lmdb { path: path.to_owned(), mode, max_read_counter_reopen },
            ),
        }
    }

    /// Selects the remote read-only backend with its address.
    pub fn remote(self, address: &str) -> (r: Self)
        ensures
            r.spec_config() matches Some(StorageConfig::Remote { address: a }) && a@ == address@,
    {
        Self { config: Some(StorageConfig::Remote { address: address.to_owned() }) }
    }

    /// Builds the selected backend; an error when nothing was selected.
    pub fn build(self) -> (r: Result<Box<VStorageEnum>, StorageError>)
        ensures
            match self.spec_config() {
                Some(cfg) => r matches Ok(b) && built_from(cfg, *b),
                None => r matches Err(e) && (e matches StorageError::InvalidConfiguration(m) && m@
                    == "No storage type specified"@),
            },
    {
        let config = match self.config {
            Some(c) => c,
            None => {
                return Err(
                    StorageError::InvalidConfiguration("No storage type specified".to_string()),
                );
            },
        };
        DefaultStorageFactory::new().create_storage_from_config(config)
    }

    /// Builds the in-memory backend in its generic wrapper; an error when
    /// the builder is configured for another backend.
    pub fn build_memory_generic(self) -> (r: Result<VMemoryStorage, StorageError>)
        ensures
            match self.spec_config() {
                Some(StorageConfig::Memory) => r matches Ok(g) && g.inv() && (
                g.spec_storage() matches Some(m) && forall|id: StorageId|
                    m.ns(id) == Map::<Seq<char>, Seq<u8>>::empty()),
                _ => r matches Err(e) && (e matches StorageError::InvalidConfiguration(m) && m@
                    == "Builder is not configured for memory storage"@),
            },
    {
        if let Some(StorageConfig::Memory) = self.config {
            Ok(VMemoryStorage::new(MemoryStorage::new()))
        } else {
            Err(
                StorageError::InvalidConfiguration(
                    "Builder is not configured for memory storage".to_string(),
                ),
            )
        }
    }

    /// Builds the embedded backend in its generic wrapper; an error when
    /// the builder is configured for another backend.
    pub fn build_lmdb_generic(self) -> (r: Result<VLMDBStorage, StorageError>)
        ensures
            match self.spec_config() {
                Some(StorageConfig::Lmdb { path, .. }) => r matches Ok(g) && g.inv() && (
                g.spec_storage() matches Some(l) && lmdb_paths_under(l, path@)),
                _ => r matches Err(e) && (e matches StorageError::InvalidConfiguration(m) && m@
                    == "Builder is not configured for LMDB storage"@),
            },
    {
        if let Some(StorageConfig::Lmdb { path, mode, max_read_counter_reopen }) = self.config {
            Ok(VLMDBStorage::new(LMDBStorage::new(path.as_str(), mode, max_read_counter_reopen)))
        } else {
            Err(
                StorageError::InvalidConfiguration(
                    "Builder is not configured for LMDB storage".to_string(),
                ),
            )
        }
    }

    /// Builds the remote backend in its generic wrapper; an error when the
    /// builder is configured for another backend.
    pub fn build_remote_generic(self) -> (r: Result<VRemoteStorage, StorageError>)
        ensures
            match self.spec_config() {
                Some(StorageConfig::Remote { address }) => r matches Ok(g) && g.inv() && (
                g.spec_storage() matches Some(c) && c.addr@ == address@ && !c.is_ready),
                _ => r matches Err(e) && (e matches StorageError::InvalidConfiguration(m) && m@
                    == "Builder is not configured for remote storage"@),
            },
    {
        if let Some(StorageConfig::Remote { address }) = self.config {
            Ok(VRemoteStorage::new(StorageROClient::new(address.as_str())))
        } else {
            Err(
                StorageError::InvalidConfiguration(
                    "Builder is not configured for remote storage".to_string(),
                ),
            )
        }
    }
}

impl Default for StorageBuilder {
    /// A builder with nothing selected.
    fn default() -> (r: Self)
        ensures
            r.spec_config() is None,
    {
        Self::new()
    }
}

/// The factory realizing configurations with this crate's backends.
pub struct DefaultStorageFactory;

impl DefaultStorageFactory {
    /// The factory.
    pub fn new() -> (r: Self) {
        Self
    }

    /// Creates the backend a configuration describes.
    pub fn create_storage_from_config(&self, config: StorageConfig) -> (r: Result<
        Box<VStorageEnum>,
        StorageError,
    >)
        ensures
            r matches Ok(b) && built_from(config, *b),
    {
        match config {
            StorageConfig::Memory => Ok(Box::new(VStorageEnum::memory())),
            StorageConfig::Lmdb { path, mode, max_read_counter_reopen } => Ok(
                Box::new(VStorageEnum::lmdb(path.as_str(), mode, max_read_counter_reopen)),
            ),
            StorageConfig::Remote { address } => Ok(
                Box::new(VStorageEnum::remote(address.as_str())),
            ),
        }
    }
}

impl Default for DefaultStorageFactory {
    /// The factory.
    fn default() -> (r: Self) {
        Self::new()
    }
}

/// Ready-made wrappers around each backend kind.
pub struct StorageProvider;

impl StorageProvider {
    /// A boxed fresh in-memory backend.
    pub fn memory() -> (r: Box<VStorageEnum>)
        ensures
            built_from(StorageConfig::Memory, *r),
    {
        Box::new(VStorageEnum::memory())
    }

    /// A boxed fresh embedded backend under the given path.
    pub fn lmdb(db_path: &str, mode: StorageMode, max_read_counter_reopen: Option<u64>) -> (r: Box<
        VStorageEnum,
    >)
        ensures
            r.inv(),
            (*r) matches VStorageEnum::Lmdb(l) && lmdb_paths_under(l, db_path@),
    {
        Box::new(VStorageEnum::lmdb(db_path, mode, max_read_counter_reopen))
    }

    /// A boxed fresh remote read-only client.
    pub fn remote(addr: &str) -> (r: Box<VStorageEnum>)
        ensures
            r.inv(),
            (*r) matches VStorageEnum::Remote(c) && c.addr@ == addr@ && !c.is_ready,
    {
        Box::new(VStorageEnum::remote(addr))
    }

    /// The boxed dispatcher around a fresh in-memory backend.
    pub fn vstorage_memory() -> (r: VStorage)
        ensures
            r.inv(),
            r.spec_storage() matches Some(s) && built_from(StorageConfig::Memory, s),
    {
        VStorage::new(Self::memory())
    }

    /// The boxed dispatcher around a fresh embedded backend.
    pub fn vstorage_lmdb(db_path: &str, mode: StorageMode, max_read_counter_reopen: Option<u64>)
        -> (r: VStorage)
        ensures
            r.inv(),
            r.spec_storage() matches Some(s) && (s matches VStorageEnum::Lmdb(l)
                && lmdb_paths_under(l, db_path@)),
    {
        VStorage::new(Self::lmdb(db_path, mode, max_read_counter_reopen))
    }

    /// The boxed dispatcher around a fresh remote client.
    pub fn vstorage_remote(addr: &str) -> (r: VStorage)
        ensures
            r.inv(),
            r.spec_storage() matches Some(s) && s is Remote,
    {
        VStorage::new(Self::remote(addr))
    }

    /// The generic wrapper around a fresh in-memory backend.
    pub fn memory_generic() -> (r: VMemoryStorage)
        ensures
            r.inv(),
            r.spec_storage() matches Some(m) && forall|id: StorageId|
                m.ns(id) == Map::<Seq<char>, Seq<u8>>::empty(),
    {
        VMemoryStorage::new(MemoryStorage::new())
    }

    /// The generic wrapper around a fresh embedded backend.
    pub fn lmdb_generic(db_path: &str, mode: StorageMode, max_read_counter_reopen: Option<u64>)
        -> (r: VLMDBStorage)
        ensures
            r.inv(),
            r.spec_storage() matches Some(l) && lmdb_paths_under(l, db_path@),
    {
        VLMDBStorage::new(LMDBStorage::new(db_path, mode, max_read_counter_reopen))
    }

    /// The generic wrapper around a fresh remote client.
    pub fn remote_generic(addr: &str) -> (r: VRemoteStorage)
        ensures
            r.inv(),
            r.spec_storage() matches Some(c) && c.addr@ == addr@ && !c.is_ready,
    {
        VRemoteStorage::new(StorageROClient::new(addr))
    }
}

} // verus!
