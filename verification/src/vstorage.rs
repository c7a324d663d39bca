//! The three dispatch strategies over one backend: a closed-enum wrapper
//! dispatched by a match, a compile-time generic wrapper, and a boxed
//! container.  Each wrapper forwards every operation unchanged and
//! substitutes NotReady when it holds no backend, so the three are
//! behaviourally indistinguishable over equal backends; the laws module
//! states that equivalence.

use vstd::prelude::*;

use crate::common::{Storage, StorageId, StorageMode, StorageResult};
use crate::lmdb_storage::LMDBStorage;
use crate::memory_storage::MemoryStorage;
use crate::remote_storage_client::StorageROClient;
use v_individual_model::onto::individual::Individual;

verus! {

/// The closed-enum dispatch strategy: one variant per backend kind and an
/// explicit empty variant, dispatched by a single match.
pub enum VStorageEnum {
    Memory(MemoryStorage),
    Lmdb(LMDBStorage),
    Remote(StorageROClient),
    Empty,
}

impl VStorageEnum {
    /// A wrapper around a fresh in-memory backend.
    pub fn memory() -> (r: Self)
        ensures
            r.inv(),
            r matches VStorageEnum::Memory(m) && (forall|id: StorageId|
                m.ns(id) == Map::<Seq<char>, Seq<u8>>::empty()),
    {
        VStorageEnum::Memory(MemoryStorage::new())
    }

    /// A wrapper around a fresh embedded backend under the given path.
    pub fn lmdb(path: &str, mode: StorageMode, max_read_counter_reopen: Option<u64>) -> (r: Self)
        ensures
            r.inv(),
            r matches VStorageEnum::Lmdb(l) && (forall|id: StorageId|
                #![trigger l.instance(id)]
                l.instance(id).spec_path() == crate::lmdb_storage::namespace_path(path@, id)),
    {
        VStorageEnum::Lmdb(LMDBStorage::new(path, mode, max_read_counter_reopen))
    }

    /// A wrapper around a fresh remote read-only client.
    pub fn remote(address: &str) -> (r: Self)
        ensures
            r.inv(),
            r matches VStorageEnum::Remote(c) && c.addr@ == address@ && !c.is_ready,
    {
        VStorageEnum::Remote(StorageROClient::new(address))
    }

    /// Whether the wrapper holds no backend.
    pub fn is_empty(&self) -> (r: bool)
        ensures
            r == (self is Empty),
    {
        matches!(self, VStorageEnum::Empty)
    }
}

impl Default for VStorageEnum {
    /// A wrapper holding no backend.
    fn default() -> (r: Self)
        ensures
            r is Empty,
    {
        VStorageEnum::Empty
    }
}

impl Storage for VStorageEnum {
    open spec fn inv(&self) -> bool {
        match *self {
            VStorageEnum::Memory(s) => s.inv(),
            VStorageEnum::Lmdb(s) => s.inv(),
            VStorageEnum::Remote(s) => s.inv(),
            VStorageEnum::Empty => true,
        }
    }

    open spec fn get_individual_post(
        pre: Self,
        storage: StorageId,
        id: Seq<char>,
        ipre: Individual,
        ipost: Individual,
        post: Self,
        r: StorageResult<()>,
    ) -> bool {
        match pre {
            VStorageEnum::Memory(s) => post matches VStorageEnum::Memory(s2)
                && MemoryStorage::get_individual_post(s, storage, id, ipre, ipost, s2, r),
            VStorageEnum::Lmdb(s) => post matches VStorageEnum::Lmdb(s2)
                && LMDBStorage::get_individual_post(s, storage, id, ipre, ipost, s2, r),
            VStorageEnum::Remote(s) => post matches VStorageEnum::Remote(s2)
                && StorageROClient::get_individual_post(s, storage, id, ipre, ipost, s2, r),
            VStorageEnum::Empty => post is Empty && ipost == ipre && r is NotReady,
        }
    }

    open spec fn get_value_post(
        pre: Self,
        storage: StorageId,
        key: Seq<char>,
        post: Self,
        r: StorageResult<String>,
    ) -> bool {
        match pre {
            VStorageEnum::Memory(s) => post matches VStorageEnum::Memory(s2)
                && MemoryStorage::get_value_post(s, storage, key, s2, r),
            VStorageEnum::Lmdb(s) => post matches VStorageEnum::Lmdb(s2)
                && LMDBStorage::get_value_post(s, storage, key, s2, r),
            VStorageEnum::Remote(s) => post matches VStorageEnum::Remote(s2)
                && StorageROClient::get_value_post(s, storage, key, s2, r),
            VStorageEnum::Empty => post is Empty && r is NotReady,
        }
    }

    open spec fn get_raw_value_post(
        pre: Self,
        storage: StorageId,
        key: Seq<char>,
        post: Self,
        r: StorageResult<Vec<u8>>,
    ) -> bool {
        match pre {
            VStorageEnum::Memory(s) => post matches VStorageEnum::Memory(s2)
                && MemoryStorage::get_raw_value_post(s, storage, key, s2, r),
            VStorageEnum::Lmdb(s) => post matches VStorageEnum::Lmdb(s2)
                && LMDBStorage::get_raw_value_post(s, storage, key, s2, r),
            VStorageEnum::Remote(s) => post matches VStorageEnum::Remote(s2)
                && StorageROClient::get_raw_value_post(s, storage, key, s2, r),
            VStorageEnum::Empty => post is Empty && r is NotReady,
        }
    }

    open spec fn put_value_post(
        pre: Self,
        storage: StorageId,
        key: Seq<char>,
        val: Seq<char>,
        post: Self,
        r: StorageResult<()>,
    ) -> bool {
        match pre {
            VStorageEnum::Memory(s) => post matches VStorageEnum::Memory(s2)
                && MemoryStorage::put_value_post(s, storage, key, val, s2, r),
            VStorageEnum::Lmdb(s) => post matches VStorageEnum::Lmdb(s2)
                && LMDBStorage::put_value_post(s, storage, key, val, s2, r),
            VStorageEnum::Remote(s) => post matches VStorageEnum::Remote(s2)
                && StorageROClient::put_value_post(s, storage, key, val, s2, r),
            VStorageEnum::Empty => post is Empty && r is NotReady,
        }
    }

    open spec fn put_raw_value_post(
        pre: Self,
        storage: StorageId,
        key: Seq<char>,
        val: Seq<u8>,
        post: Self,
        r: StorageResult<()>,
    ) -> bool {
        match pre {
            VStorageEnum::Memory(s) => post matches VStorageEnum::Memory(s2)
                && MemoryStorage::put_raw_value_post(s, storage, key, val, s2, r),
            VStorageEnum::Lmdb(s) => post matches VStorageEnum::Lmdb(s2)
                && LMDBStorage::put_raw_value_post(s, storage, key, val, s2, r),
            VStorageEnum::Remote(s) => post matches VStorageEnum::Remote(s2)
                && StorageROClient::put_raw_value_post(s, storage, key, val, s2, r),
            VStorageEnum::Empty => post is Empty && r is NotReady,
        }
    }

    open spec fn remove_value_post(
        pre: Self,
        storage: StorageId,
        key: Seq<char>,
        post: Self,
        r: StorageResult<()>,
    ) -> bool {
        match pre {
            VStorageEnum::Memory(s) => post matches VStorageEnum::Memory(s2)
                && MemoryStorage::remove_value_post(s, storage, key, s2, r),
            VStorageEnum::Lmdb(s) => post matches VStorageEnum::Lmdb(s2)
                && LMDBStorage::remove_value_post(s, storage, key, s2, r),
            VStorageEnum::Remote(s) => post matches VStorageEnum::Remote(s2)
                && StorageROClient::remove_value_post(s, storage, key, s2, r),
            VStorageEnum::Empty => post is Empty && r is NotReady,
        }
    }

    open spec fn count_post(
        pre: Self,
        storage: StorageId,
        post: Self,
        r: StorageResult<usize>,
    ) -> bool {
        match pre {
            VStorageEnum::Memory(s) => post matches VStorageEnum::Memory(s2)
                && MemoryStorage::count_post(s, storage, s2, r),
            VStorageEnum::Lmdb(s) => post matches VStorageEnum::Lmdb(s2)
                && LMDBStorage::count_post(s, storage, s2, r),
            VStorageEnum::Remote(s) => post matches VStorageEnum::Remote(s2)
                && StorageROClient::count_post(s, storage, s2, r),
            VStorageEnum::Empty => post is Empty && r is NotReady,
        }
    }

    fn get_individual(&mut self, storage: StorageId, id: &str, iraw: &mut Individual) -> (r:
        StorageResult<()>) {
        match self {
            VStorageEnum::Memory(s) => s.get_individual(storage, id, iraw),
            VStorageEnum::Lmdb(s) => s.get_individual(storage, id, iraw),
            VStorageEnum::Remote(s) => s.get_individual(storage, id, iraw),
            VStorageEnum::Empty => StorageResult::NotReady,
        }
    }

    fn get_value(&mut self, storage: StorageId, key: &str) -> (r: StorageResult<String>) {
        match self {
            VStorageEnum::Memory(s) => s.get_value(storage, key),
            VStorageEnum::Lmdb(s) => s.get_value(storage, key),
            VStorageEnum::Remote(s) => s.get_value(storage, key),
            VStorageEnum::Empty => StorageResult::NotReady,
        }
    }

    fn get_raw_value(&mut self, storage: StorageId, key: &str) -> (r: StorageResult<Vec<u8>>) {
        match self {
            VStorageEnum::Memory(s) => s.get_raw_value(storage, key),
            VStorageEnum::Lmdb(s) => s.get_raw_value(storage, key),
            VStorageEnum::Remote(s) => s.get_raw_value(storage, key),
            VStorageEnum::Empty => StorageResult::NotReady,
        }
    }

    fn put_value(&mut self, storage: StorageId, key: &str, val: &str) -> (r: StorageResult<()>) {
        match self {
            VStorageEnum::Memory(s) => s.put_value(storage, key, val),
            VStorageEnum::Lmdb(s) => s.put_value(storage, key, val),
            VStorageEnum::Remote(s) => s.put_value(storage, key, val),
            VStorageEnum::Empty => StorageResult::NotReady,
        }
    }

    fn put_raw_value(&mut self, storage: StorageId, key: &str, val: Vec<u8>) -> (r: StorageResult<
        (),
    >) {
        match self {
            VStorageEnum::Memory(s) => s.put_raw_value(storage, key, val),
            VStorageEnum::Lmdb(s) => s.put_raw_value(storage, key, val),
            VStorageEnum::Remote(s) => s.put_raw_value(storage, key, val),
            VStorageEnum::Empty => StorageResult::NotReady,
        }
    }

    fn remove_value(&mut self, storage: StorageId, key: &str) -> (r: StorageResult<()>) {
        match self {
            VStorageEnum::Memory(s) => s.remove_value(storage, key),
            VStorageEnum::Lmdb(s) => s.remove_value(storage, key),
            VStorageEnum::Remote(s) => s.remove_value(storage, key),
            VStorageEnum::Empty => StorageResult::NotReady,
        }
    }

    fn count(&mut self, storage: StorageId) -> (r: StorageResult<usize>) {
        match self {
            VStorageEnum::Memory(s) => s.count(storage),
            VStorageEnum::Lmdb(s) => s.count(storage),
            VStorageEnum::Remote(s) => s.count(storage),
            VStorageEnum::Empty => StorageResult::NotReady,
        }
    }
}

/// The compile-time generic dispatch strategy: an optional backend of one
/// statically known type.
pub struct VStorageGeneric<S: Storage> {
    storage: Option<S>,
}

impl<S: Storage> VStorageGeneric<S> {
    /// The wrapped backend, if any.
    pub closed spec fn spec_storage(&self) -> Option<S> {
        self.storage
    }

    /// The wrapper's well-formedness: a held backend is well-formed.
    pub open spec fn inv(&self) -> bool {
        self.spec_storage() matches Some(s) ==> s.inv()
    }

    /// Wraps the given backend.
    pub fn new(storage: S) -> (r: Self)
        requires
            storage.inv(),
        ensures
            r.inv(),
            r.spec_storage() == Some(storage),
    {
        Self { storage: Some(storage) }
    }

    /// A wrapper holding no backend.
    pub fn none() -> (r: Self)
        ensures
            r.inv(),
            r.spec_storage() is None,
    {
        Self { storage: None }
    }

    /// Whether the wrapper holds no backend.
    pub fn is_empty(&self) -> (r: bool)
        ensures
            r == (self.spec_storage() is None),
    {
        self.storage.is_none()
    }

    /// Moves the backend out of the wrapper.
    pub fn take_storage(self) -> (r: Option<S>)
        ensures
            r == self.spec_storage(),
    {
        self.storage
    }

    /// Borrows the backend.
    pub fn storage(&self) -> (r: Option<&S>)
        ensures
            match r {
                Some(s) => self.spec_storage() == Some(*s),
                None => self.spec_storage() is None,
            },
    {
        self.storage.as_ref()
    }

    /// Fetches a record from the default namespace.
    pub fn get_individual(&mut self, id: &str, iraw: &mut Individual) -> (r: StorageResult<()>)
        requires
            old(self).inv(),
        ensures
            final(self).inv(),
            match old(self).spec_storage() {
                Some(s) => final(self).spec_storage() matches Some(s2) && S::get_individual_post(
                    s,
                    StorageId::Individuals,
                    id@,
                    *old(iraw),
                    *final(iraw),
                    s2,
                    r,
                ),
                None => final(self).spec_storage() is None && r is NotReady && *final(iraw) == *old(
                    iraw,
                ),
            },
    {
        match &mut self.storage {
            Some(s) => s.get_individual(StorageId::Individuals, id, iraw),
            None => StorageResult::NotReady,
        }
    }

    /// Fetches a record from the given namespace.
    pub fn get_individual_from_storage(
        &mut self,
        storage: StorageId,
        id: &str,
        iraw: &mut Individual,
    ) -> (r: StorageResult<()>)
        requires
            old(self).inv(),
        ensures
            final(self).inv(),
            match old(self).spec_storage() {
                Some(s) => final(self).spec_storage() matches Some(s2) && S::get_individual_post(
                    s,
                    storage,
                    id@,
                    *old(iraw),
                    *final(iraw),
                    s2,
                    r,
                ),
                None => final(self).spec_storage() is None && r is NotReady && *final(iraw) == *old(
                    iraw,
                ),
            },
    {
        match &mut self.storage {
            Some(s) => s.get_individual(storage, id, iraw),
            None => StorageResult::NotReady,
        }
    }

    /// Fetches a value as text through the wrapped backend.
    pub fn get_value(&mut self, storage: StorageId, id: &str) -> (r: StorageResult<String>)
        requires
            old(self).inv(),
        ensures
            final(self).inv(),
            match old(self).spec_storage() {
                Some(s) => final(self).spec_storage() matches Some(s2) && S::get_value_post(
                    s,
                    storage,
                    id@,
                    s2,
                    r,
                ),
                None => final(self).spec_storage() is None && r is NotReady,
            },
    {
        match &mut self.storage {
            Some(s) => s.get_value(storage, id),
            None => StorageResult::NotReady,
        }
    }

    /// Fetches a value as raw bytes through the wrapped backend.
    pub fn get_raw_value(&mut self, storage: StorageId, id: &str) -> (r: StorageResult<Vec<u8>>)
        requires
            old(self).inv(),
        ensures
            final(self).inv(),
            match old(self).spec_storage() {
                Some(s) => final(self).spec_storage() matches Some(s2) && S::get_raw_value_post(
                    s,
                    storage,
                    id@,
                    s2,
                    r,
                ),
                None => final(self).spec_storage() is None && r is NotReady,
            },
    {
        match &mut self.storage {
            Some(s) => s.get_raw_value(storage, id),
            None => StorageResult::NotReady,
        }
    }

    /// Stores text through the wrapped backend.
    pub fn put_value(&mut self, storage: StorageId, key: &str, val: &str) -> (r: StorageResult<()>)
        requires
            old(self).inv(),
        ensures
            final(self).inv(),
            match old(self).spec_storage() {
                Some(s) => final(self).spec_storage() matches Some(s2) && S::put_value_post(
                    s,
                    storage,
                    key@,
                    val@,
                    s2,
                    r,
                ),
                None => final(self).spec_storage() is None && r is NotReady,
            },
    {
        match &mut self.storage {
            Some(s) => s.put_value(storage, key, val),
            None => StorageResult::NotReady,
        }
    }

    /// Stores raw bytes through the wrapped backend.
    pub fn put_raw_value(&mut self, storage: StorageId, key: &str, val: Vec<u8>) -> (r:
        StorageResult<()>)
        requires
            old(self).inv(),
        ensures
            final(self).inv(),
            match old(self).spec_storage() {
                Some(s) => final(self).spec_storage() matches Some(s2) && S::put_raw_value_post(
                    s,
                    storage,
                    key@,
                    val@,
                    s2,
                    r,
                ),
                None => final(self).spec_storage() is None && r is NotReady,
            },
    {
        match &mut self.storage {
            Some(s) => s.put_raw_value(storage, key, val),
            None => StorageResult::NotReady,
        }
    }

    /// Removes a value through the wrapped backend.
    pub fn remove_value(&mut self, storage: StorageId, key: &str) -> (r: StorageResult<()>)
        requires
            old(self).inv(),
        ensures
            final(self).inv(),
            match old(self).spec_storage() {
                Some(s) => final(self).spec_storage() matches Some(s2) && S::remove_value_post(
                    s,
                    storage,
                    key@,
                    s2,
                    r,
                ),
                None => final(self).spec_storage() is None && r is NotReady,
            },
    {
        match &mut self.storage {
            Some(s) => s.remove_value(storage, key),
            None => StorageResult::NotReady,
        }
    }

    /// Counts a namespace's keys through the wrapped backend.
    pub fn count(&mut self, storage: StorageId) -> (r: StorageResult<usize>)
        requires
            old(self).inv(),
        ensures
            final(self).inv(),
            match old(self).spec_storage() {
                Some(s) => final(self).spec_storage() matches Some(s2) && S::count_post(
                    s,
                    storage,
                    s2,
                    r,
                ),
                None => final(self).spec_storage() is None && r is NotReady,
            },
    {
        match &mut self.storage {
            Some(s) => s.count(storage),
            None => StorageResult::NotReady,
        }
    }
}

/// The generic wrapper over the in-memory backend.
pub type VMemoryStorage = VStorageGeneric<MemoryStorage>;

/// The generic wrapper over the embedded backend.
pub type VLMDBStorage = VStorageGeneric<LMDBStorage>;

/// The generic wrapper over the remote read-only client.
pub type VRemoteStorage = VStorageGeneric<StorageROClient>;

/// The boxed dispatch strategy: an optional boxed backend.  The backend
/// kinds are the crate's closed set, so the box holds the closed enum and
/// dispatch goes through its match.
pub struct VStorage {
    storage: Option<Box<VStorageEnum>>,
}

impl VStorage {
    /// The wrapped backend, if any.
    pub closed spec fn spec_storage(&self) -> Option<VStorageEnum> {
        match self.storage {
            Some(b) => Some(*b),
            None => None,
        }
    }

    /// The wrapper's well-formedness: a held backend is well-formed.
    pub open spec fn inv(&self) -> bool {
        self.spec_storage() matches Some(s) ==> s.inv()
    }

    /// A wrapper holding no backend.
    pub fn none() -> (r: VStorage)
        ensures
            r.inv(),
            r.spec_storage() is None,
    {
        VStorage { storage: None }
    }

    /// Whether the wrapper holds no backend.
    pub fn is_empty(&self) -> (r: bool)
        ensures
            r == (self.spec_storage() is None),
    {
        self.storage.is_none()
    }

    /// Wraps the given boxed backend.
    pub fn new(storage: Box<VStorageEnum>) -> (r: VStorage)
        requires
            storage.inv(),
        ensures
            r.inv(),
            r.spec_storage() == Some(*storage),
    {
        VStorage { storage: Some(storage) }
    }

    /// A builder with nothing selected.
    pub fn builder() -> (r: crate::storage_factory::StorageBuilder)
        ensures
            r.spec_config() is None,
    {
        crate::storage_factory::StorageBuilder::new()
    }

    /// The boxed dispatcher around the backend a configuration describes.
    pub fn from_config(config: crate::storage_factory::StorageConfig) -> (r: Result<
        VStorage,
        crate::storage_factory::StorageError,
    >)
        ensures
            r matches Ok(v) && v.inv() && (v.spec_storage() matches Some(s)
                && crate::storage_factory::built_from(config, s)),
    {
        let storage = match crate::storage_factory::DefaultStorageFactory::new()
            .create_storage_from_config(config) {
            Ok(b) => b,
            Err(e) => {
                return Err(e);
            },
        };
        Ok(VStorage::new(storage))
    }

    /// Fetches a record from the default namespace.
    pub fn get_individual(&mut self, id: &str, iraw: &mut Individual) -> (r: StorageResult<()>)
        requires
            old(self).inv(),
        ensures
            final(self).inv(),
            match old(self).spec_storage() {
                Some(s) => final(self).spec_storage() matches Some(s2)
                    && VStorageEnum::get_individual_post(
                    s,
                    StorageId::Individuals,
                    id@,
                    *old(iraw),
                    *final(iraw),
                    s2,
                    r,
                ),
                None => final(self).spec_storage() is None && r is NotReady && *final(iraw) == *old(
                    iraw,
                ),
            },
    {
        match &mut self.storage {
            Some(s) => s.get_individual(StorageId::Individuals, id, iraw),
            None => StorageResult::NotReady,
        }
    }

    /// Fetches a record from the given namespace.
    pub fn get_individual_from_storage(
        &mut self,
        storage: StorageId,
        id: &str,
        iraw: &mut Individual,
    ) -> (r: StorageResult<()>)
        requires
            old(self).inv(),
        ensures
            final(self).inv(),
            match old(self).spec_storage() {
                Some(s) => final(self).spec_storage() matches Some(s2)
                    && VStorageEnum::get_individual_post(
                    s,
                    storage,
                    id@,
                    *old(iraw),
                    *final(iraw),
                    s2,
                    r,
                ),
                None => final(self).spec_storage() is None && r is NotReady && *final(iraw) == *old(
                    iraw,
                ),
            },
    {
        match &mut self.storage {
            Some(s) => s.get_individual(storage, id, iraw),
            None => StorageResult::NotReady,
        }
    }

    /// Fetches a value as text through the wrapped backend.
    pub fn get_value(&mut self, storage: StorageId, id: &str) -> (r: StorageResult<String>)
        requires
            old(self).inv(),
        ensures
            final(self).inv(),
            match old(self).spec_storage() {
                Some(s) => final(self).spec_storage() matches Some(s2)
                    && VStorageEnum::get_value_post(s, storage, id@, s2, r),
                None => final(self).spec_storage() is None && r is NotReady,
            },
    {
        match &mut self.storage {
            Some(s) => s.get_value(storage, id),
            None => StorageResult::NotReady,
        }
    }

    /// Fetches a value as raw bytes through the wrapped backend.
    pub fn get_raw_value(&mut self, storage: StorageId, id: &str) -> (r: StorageResult<Vec<u8>>)
        requires
            old(self).inv(),
        ensures
            final(self).inv(),
            match old(self).spec_storage() {
                Some(s) => final(self).spec_storage() matches Some(s2)
                    && VStorageEnum::get_raw_value_post(s, storage, id@, s2, r),
                None => final(self).spec_storage() is None && r is NotReady,
            },
    {
        match &mut self.storage {
            Some(s) => s.get_raw_value(storage, id),
            None => StorageResult::NotReady,
        }
    }

    /// Stores text through the wrapped backend.
    pub fn put_value(&mut self, storage: StorageId, key: &str, val: &str) -> (r: StorageResult<()>)
        requires
            old(self).inv(),
        ensures
            final(self).inv(),
            match old(self).spec_storage() {
                Some(s) => final(self).spec_storage() matches Some(s2)
                    && VStorageEnum::put_value_post(s, storage, key@, val@, s2, r),
                None => final(self).spec_storage() is None && r is NotReady,
            },
    {
        match &mut self.storage {
            Some(s) => s.put_value(storage, key, val),
            None => StorageResult::NotReady,
        }
    }

    /// Stores raw bytes through the wrapped backend.
    pub fn put_raw_value(&mut self, storage: StorageId, key: &str, val: Vec<u8>) -> (r:
        StorageResult<()>)
        requires
            old(self).inv(),
        ensures
            final(self).inv(),
            match old(self).spec_storage() {
                Some(s) => final(self).spec_storage() matches Some(s2)
                    && VStorageEnum::put_raw_value_post(s, storage, key@, val@, s2, r),
                None => final(self).spec_storage() is None && r is NotReady,
            },
    {
        match &mut self.storage {
            Some(s) => s.put_raw_value(storage, key, val),
            None => StorageResult::NotReady,
        }
    }

    /// Removes a value through the wrapped backend.
    pub fn remove_value(&mut self, storage: StorageId, key: &str) -> (r: StorageResult<()>)
        requires
            old(self).inv(),
        ensures
            final(self).inv(),
            match old(self).spec_storage() {
                Some(s) => final(self).spec_storage() matches Some(s2)
                    && VStorageEnum::remove_value_post(s, storage, key@, s2, r),
                None => final(self).spec_storage() is None && r is NotReady,
            },
    {
        match &mut self.storage {
            Some(s) => s.remove_value(storage, key),
            None => StorageResult::NotReady,
        }
    }

    /// Counts a namespace's keys through the wrapped backend.
    pub fn count(&mut self, storage: StorageId) -> (r: StorageResult<usize>)
        requires
            old(self).inv(),
        ensures
            final(self).inv(),
            match old(self).spec_storage() {
                Some(s) => final(self).spec_storage() matches Some(s2)
                    && VStorageEnum::count_post(s, storage, s2, r),
                None => final(self).spec_storage() is None && r is NotReady,
            },
    {
        match &mut self.storage {
            Some(s) => s.count(storage),
            None => StorageResult::NotReady,
        }
    }

    /// Legacy synonym of `get_individual_from_storage`, kept as a pure
    /// delegation.
    pub fn get_individual_from_db(
        &mut self,
        storage: StorageId,
        id: &str,
        iraw: &mut Individual,
    ) -> (r: StorageResult<()>)
        requires
            old(self).inv(),
        ensures
            final(self).inv(),
            match old(self).spec_storage() {
                Some(s) => final(self).spec_storage() matches Some(s2)
                    && VStorageEnum::get_individual_post(
                    s,
                    storage,
                    id@,
                    *old(iraw),
                    *final(iraw),
                    s2,
                    r,
                ),
                None => final(self).spec_storage() is None && r is NotReady && *final(iraw) == *old(
                    iraw,
                ),
            },
    {
        self.get_individual_from_storage(storage, id, iraw)
    }

    /// Legacy form of `get_value`: the success payload, or nothing on any
    /// other tag.
    pub fn get_v(&mut self, storage: StorageId, id: &str) -> (r: Option<String>)
        requires
            old(self).inv(),
        ensures
            final(self).inv(),
            exists|rr: StorageResult<String>|
                {
                    &&& #[trigger] vstorage_get_value_post(*old(self), storage, id@, *final(self), rr)
                    &&& match rr {
                        StorageResult::Success(v) => r == Some(v),
                        _ => r is None,
                    }
                },
    {
        let rr = self.get_value(storage, id);
        proof {
            assert(vstorage_get_value_post(*old(self), storage, id@, *self, rr));
        }
        match rr {
            StorageResult::Success(value) => Some(value),
            _ => None,
        }
    }

    /// Legacy form of `get_raw_value`: the success payload, or an empty
    /// byte vector on any other tag.
    pub fn get_raw(&mut self, storage: StorageId, id: &str) -> (r: Vec<u8>)
        requires
            old(self).inv(),
        ensures
            final(self).inv(),
            exists|rr: StorageResult<Vec<u8>>|
                {
                    &&& #[trigger] vstorage_get_raw_value_post(
                        *old(self),
                        storage,
                        id@,
                        *final(self),
                        rr,
                    )
                    &&& (rr matches StorageResult::Success(v) ==> r == v)
                },
    {
        let rr = self.get_raw_value(storage, id);
        proof {
            assert(vstorage_get_raw_value_post(*old(self), storage, id@, *self, rr));
        }
        rr.unwrap_or_default()
    }

    /// Legacy form of `put_value`: true exactly on success.
    pub fn put_kv(&mut self, storage: StorageId, key: &str, val: &str) -> (r: bool)
        requires
            old(self).inv(),
        ensures
            final(self).inv(),
            exists|rr: StorageResult<()>|
                {
                    &&& #[trigger] vstorage_put_value_post(
                        *old(self),
                        storage,
                        key@,
                        val@,
                        *final(self),
                        rr,
                    )
                    &&& r == (rr is Success)
                },
    {
        let rr = self.put_value(storage, key, val);
        proof {
            assert(vstorage_put_value_post(*old(self), storage, key@, val@, *self, rr));
        }
        rr.is_ok()
    }

    /// Legacy form of `put_raw_value`: true exactly on success.
    pub fn put_kv_raw(&mut self, storage: StorageId, key: &str, val: Vec<u8>) -> (r: bool)
        requires
            old(self).inv(),
        ensures
            final(self).inv(),
            exists|rr: StorageResult<()>|
                {
                    &&& #[trigger] vstorage_put_raw_value_post(
                        *old(self),
                        storage,
                        key@,
                        val@,
                        *final(self),
                        rr,
                    )
                    &&& r == (rr is Success)
                },
    {
        let rr = self.put_raw_value(storage, key, val);
        proof {
            assert(vstorage_put_raw_value_post(*old(self), storage, key@, val@, *self, rr));
        }
        rr.is_ok()
    }

    /// Legacy form of `remove_value`: true exactly on success.
    pub fn remove(&mut self, storage: StorageId, key: &str) -> (r: bool)
        requires
            old(self).inv(),
        ensures
            final(self).inv(),
            exists|rr: StorageResult<()>|
                {
                    &&& #[trigger] vstorage_remove_value_post(
                        *old(self),
                        storage,
                        key@,
                        *final(self),
                        rr,
                    )
                    &&& r == (rr is Success)
                },
    {
        let rr = self.remove_value(storage, key);
        proof {
            assert(vstorage_remove_value_post(*old(self), storage, key@, *self, rr));
        }
        rr.is_ok()
    }
}

/// What the boxed dispatcher's `get_value` promises: the wrapped backend's
/// own promise, or NotReady when empty.
pub open spec fn vstorage_get_value_post(
    pre: VStorage,
    storage: StorageId,
    key: Seq<char>,
    post: VStorage,
    r: StorageResult<String>,
) -> bool {
    match pre.spec_storage() {
        Some(s) => post.spec_storage() matches Some(s2) && VStorageEnum::get_value_post(
            s,
            storage,
            key,
            s2,
            r,
        ),
        None => post.spec_storage() is None && r is NotReady,
    }
}

/// What the boxed dispatcher's `get_raw_value` promises.
pub open spec fn vstorage_get_raw_value_post(
    pre: VStorage,
    storage: StorageId,
    key: Seq<char>,
    post: VStorage,
    r: StorageResult<Vec<u8>>,
) -> bool {
    match pre.spec_storage() {
        Some(s) => post.spec_storage() matches Some(s2) && VStorageEnum::get_raw_value_post(
            s,
            storage,
            key,
            s2,
            r,
        ),
        None => post.spec_storage() is None && r is NotReady,
    }
}

/// What the boxed dispatcher's `put_value` promises.
pub open spec fn vstorage_put_value_post(
    pre: VStorage,
    storage: StorageId,
    key: Seq<char>,
    val: Seq<char>,
    post: VStorage,
    r: StorageResult<()>,
) -> bool {
    match pre.spec_storage() {
        Some(s) => post.spec_storage() matches Some(s2) && VStorageEnum::put_value_post(
            s,
            storage,
            key,
            val,
            s2,
            r,
        ),
        None => post.spec_storage() is None && r is NotReady,
    }
}

/// What the boxed dispatcher's `put_raw_value` promises.
pub open spec fn vstorage_put_raw_value_post(
    pre: VStorage,
    storage: StorageId,
    key: Seq<char>,
    val: Seq<u8>,
    post: VStorage,
    r: StorageResult<()>,
) -> bool {
    match pre.spec_storage() {
        Some(s) => post.spec_storage() matches Some(s2) && VStorageEnum::put_raw_value_post(
            s,
            storage,
            key,
            val,
            s2,
            r,
        ),
        None => post.spec_storage() is None && r is NotReady,
    }
}

/// What the boxed dispatcher's `remove_value` promises.
pub open spec fn vstorage_remove_value_post(
    pre: VStorage,
    storage: StorageId,
    key: Seq<char>,
    post: VStorage,
    r: StorageResult<()>,
) -> bool {
    match pre.spec_storage() {
        Some(s) => post.spec_storage() matches Some(s2) && VStorageEnum::remove_value_post(
            s,
            storage,
            key,
            s2,
            r,
        ),
        None => post.spec_storage() is None && r is NotReady,
    }
}

} // verus!
