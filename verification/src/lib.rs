//! A uniform key/value storage abstraction: one capability contract
//! (`Storage`) over several backends — an in-process map, a memory-mapped
//! embedded database, and a remote read-only client — reachable through
//! three dispatch strategies with identical observable behaviour.

pub mod codec;
pub mod common;
pub mod laws;
pub mod lmdb_storage;
pub mod memory_storage;
pub mod individual;
pub mod remote_storage_client;
pub mod storage_factory;
pub mod vstorage;

pub use common::{Storage, StorageId, StorageMode, StorageResult};
pub use lmdb_storage::LMDBStorage;
pub use memory_storage::MemoryStorage;
pub use remote_storage_client::StorageROClient;
pub use storage_factory::{
    DefaultStorageFactory, StorageBuilder, StorageConfig, StorageError, StorageFactory,
    StorageProvider,
};
pub use vstorage::{
    VLMDBStorage, VMemoryStorage, VRemoteStorage, VStorage, VStorageEnum, VStorageGeneric,
};
