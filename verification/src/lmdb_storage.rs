//! The embedded memory-mapped backend.  One environment exists per
//! filesystem path; per-namespace instances share environments through an
//! explicit registry; reads may borrow directly from mapped memory within
//! a read transaction's scope.  The engine itself is trusted at the narrow
//! boundary declared here; the sharing, retry, reopen and tagging logic
//! around it is verified.

use vstd::prelude::*;

use crate::codec::le_bytes_value;
use crate::codec::string_from_bytes;
use crate::codec::u32_from_le_bytes;
use crate::codec::u64_from_le_bytes;
use crate::common::{Storage, StorageId, StorageMode, StorageResult};
use crate::individual::{individual_parse, individual_raw, individual_set_raw, parses};
use v_individual_model::onto::individual::Individual;
use vstd::slice::slice_to_vec;
use vstd::string::StrSliceExecFns;
use vstd::string::StringExecFns;
use vstd::string::StringSliceAdditionalSpecFns;
use vstd::string::to_string_from_display_ensures_for_str;
use vstd::utf8::decode_utf8;
use vstd::utf8::valid_utf8;

verus! {

broadcast use to_string_from_display_ensures_for_str;

#[verifier::external_type_specification]
#[verifier::external_body]
pub struct ExEnv(heed::Env);

#[verifier::external_type_specification]
#[verifier::external_body]
#[verifier::reject_recursive_types(T)]
pub struct ExUnalignedSlice<T>(heed::types::UnalignedSlice<T>);

#[verifier::external_type_specification]
#[verifier::external_body]
#[verifier::reject_recursive_types(KC)]
#[verifier::reject_recursive_types(DC)]
pub struct ExDatabase<KC, DC>(heed::Database<KC, DC>);

#[verifier::external_type_specification]
#[verifier::external_body]
#[verifier::reject_recursive_types(T)]
pub struct ExRoTxn<'e, T>(heed::RoTxn<'e, T>);

#[verifier::external_type_specification]
#[verifier::external_body]
#[verifier::reject_recursive_types(T)]
pub struct ExRwTxn<'e, 'p, T>(heed::RwTxn<'e, 'p, T>);

/// The contents of the environment's single unnamed table as one read
/// transaction sees them: a fixed snapshot for the transaction's lifetime.
pub uninterp spec fn txn_contents(txn: &heed::RoTxn<'_, ()>) -> Map<Seq<u8>, Seq<u8>>;

/// The contents of the environment's single unnamed table as one write
/// transaction sees and stages them: the engine's single writer makes this
/// view exclusive to the transaction until it commits or aborts.
pub uninterp spec fn rw_txn_contents(txn: &heed::RwTxn<'_, '_, ()>) -> Map<Seq<u8>, Seq<u8>>;

/// The environment a table handle was opened from.  The engine insists a
/// table is only used with transactions of its own environment.
pub uninterp spec fn db_env(
    db: &heed::Database<heed::types::UnalignedSlice<u8>, heed::types::UnalignedSlice<u8>>,
) -> heed::Env;

/// The environment a read transaction was begun on.
pub uninterp spec fn ro_txn_env(txn: &heed::RoTxn<'_, ()>) -> heed::Env;

/// The environment a write transaction was begun on.
pub uninterp spec fn rw_txn_env(txn: &heed::RwTxn<'_, '_, ()>) -> heed::Env;

/// Relies on fs_err::create_dir_all: creates the directory and its parents
/// if missing; creation is idempotent.
#[verifier::external_body]
fn ensure_dir(path: &str) -> (r: bool) {
    fs_err::create_dir_all(path).is_ok()
}

/// Relies on heed's EnvOpenOptions::open: opens the memory-mapped
/// environment at the given path, or returns the environment already open
/// at that path in this process — the engine itself keeps one environment
/// per canonical path.
#[verifier::external_body]
fn env_open(path: &str) -> (r: Option<heed::Env>) {
    let mut opts = heed::EnvOpenOptions::new();
    opts.map_size(256 * 1024 * 1024);
    opts.max_dbs(1);
    opts.open(path).ok()
}

/// How many times one access attempts to open an environment before
/// reporting failure.  The design retries an environment open until it
/// succeeds; a verified function must terminate, so each access bounds its
/// attempts and the next access starts over.
pub const ENV_OPEN_ATTEMPTS: u64 = 3;

/// Creates the environment's directory and opens it, retrying a bounded
/// number of times.
fn open_env_retrying(path: &str) -> (r: Option<heed::Env>) {
    let mut attempt: u64 = 0;
    let mut result: Option<heed::Env> = None;
    while attempt < ENV_OPEN_ATTEMPTS && result.is_none()
        invariant
            attempt <= ENV_OPEN_ATTEMPTS,
        decreases ENV_OPEN_ATTEMPTS - attempt,
    {
        ensure_dir(path);
        result = env_open(path);
        attempt = attempt + 1;
    }
    result
}

/// Relies on heed's derived Clone for Env: an environment value is a
/// shared handle, and its clone is the same handle.
#[verifier::external_body]
fn env_clone(env: &heed::Env) -> (r: heed::Env)
    ensures
        r == *env,
{
    env.clone()
}

/// Relies on Env::create_database: opens the environment's single unnamed
/// table, creating it on first use.
#[verifier::external_body]
fn env_create_database(env: &heed::Env) -> (r: Option<
    heed::Database<heed::types::UnalignedSlice<u8>, heed::types::UnalignedSlice<u8>>,
>)
    ensures
        r matches Some(db) ==> db_env(&db) == *env,
{
    env.create_database::<heed::types::ByteSlice, heed::types::ByteSlice>(None).ok()
}

/// Relies on Env::read_txn: begins a read-only snapshot of the
/// environment.
#[verifier::external_body]
fn env_read_txn<'e>(env: &'e heed::Env) -> (r: Option<heed::RoTxn<'e, ()>>)
    ensures
        r matches Some(txn) ==> ro_txn_env(&txn) == *env,
{
    env.read_txn().ok()
}

/// Relies on Env::write_txn: begins the environment's single write
/// transaction.
#[verifier::external_body]
fn env_write_txn<'e>(env: &'e heed::Env) -> (r: Option<heed::RwTxn<'e, 'e, ()>>)
    ensures
        r matches Some(txn) ==> rw_txn_env(&txn) == *env,
{
    env.write_txn().ok()
}

/// Relies on Database::get: a found value is the snapshot's value for that
/// key, borrowed from mapped memory without copying.  Nothing comes back
/// only when the key is absent from the snapshot: the engine's read of a
/// valid transaction and table reports either the value or not-found, and
/// a key it rejects outright (oversized) can never be among the snapshot's
/// keys.
#[verifier::external_body]
fn db_get_txn<'e, 't>(
    db: &heed::Database<heed::types::UnalignedSlice<u8>, heed::types::UnalignedSlice<u8>>,
    txn: &'t heed::RoTxn<'e, ()>,
    key: &[u8],
) -> (r: Option<&'t [u8]>)
    requires
        db_env(db) == ro_txn_env(txn),
    ensures
        match r {
            Some(v) => txn_contents(txn).contains_key(key@) && v@ == txn_contents(txn)[key@],
            None => !txn_contents(txn).contains_key(key@),
        },
{
    match db.get(txn, key) {
        Ok(v) => v,
        Err(_) => None,
    }
}

/// Relies on Database::len: the number of entries in the table as the
/// snapshot sees it.
#[verifier::external_body]
fn db_len(
    db: &heed::Database<heed::types::UnalignedSlice<u8>, heed::types::UnalignedSlice<u8>>,
    txn: &heed::RoTxn<'_, ()>,
) -> (r: Option<u64>)
    requires
        db_env(db) == ro_txn_env(txn),
    ensures
        r matches Some(n) ==> txn_contents(txn).dom().finite() && n == txn_contents(txn).dom().len(),
{
    db.len(txn).ok()
}

/// Relies on Database::put: stages the pair in the write transaction,
/// overwriting any existing value — last write wins; a failed put (the
/// map's size bound reached, an oversized key) stages nothing.  The staged
/// view becomes observable only if the transaction commits.
#[verifier::external_body]
fn db_put(
    db: &heed::Database<heed::types::UnalignedSlice<u8>, heed::types::UnalignedSlice<u8>>,
    txn: &mut heed::RwTxn<'_, '_, ()>,
    key: &[u8],
    val: &[u8],
) -> (r: bool)
    requires
        db_env(db) == rw_txn_env(old(txn)),
    ensures
        rw_txn_env(final(txn)) == rw_txn_env(old(txn)),
        r ==> rw_txn_contents(final(txn)) == rw_txn_contents(old(txn)).insert(key@, val@),
        !r ==> rw_txn_contents(final(txn)) == rw_txn_contents(old(txn)),
{
    db.put(txn, key, val).is_ok()
}

/// Relies on Database::delete: removes the key in the write transaction.
/// True reports exactly that the key was present in the transaction's view
/// and is now removed from it; false reports exactly that it was absent,
/// the view unchanged; nothing is reported on an engine error, which
/// stages no change.
#[verifier::external_body]
fn db_delete(
    db: &heed::Database<heed::types::UnalignedSlice<u8>, heed::types::UnalignedSlice<u8>>,
    txn: &mut heed::RwTxn<'_, '_, ()>,
    key: &[u8],
) -> (r: Option<bool>)
    requires
        db_env(db) == rw_txn_env(old(txn)),
    ensures
        rw_txn_env(final(txn)) == rw_txn_env(old(txn)),
        match r {
            Some(true) => rw_txn_contents(old(txn)).contains_key(key@) && rw_txn_contents(
                final(txn),
            ) == rw_txn_contents(old(txn)).remove(key@),
            Some(false) => !rw_txn_contents(old(txn)).contains_key(key@) && rw_txn_contents(
                final(txn),
            ) == rw_txn_contents(old(txn)),
            None => rw_txn_contents(final(txn)) == rw_txn_contents(old(txn)),
        },
{
    db.delete(txn, key).ok()
}

/// Relies on RwTxn::commit: makes the staged writes durable, or fails and
/// discards them.
#[verifier::external_body]
fn txn_commit(txn: heed::RwTxn<'_, '_, ()>) -> (r: bool) {
    txn.commit().is_ok()
}

/// Relies on Database::iter: walks the table's entries in order within the
/// snapshot, yielding each key once; over a valid transaction and table
/// the walk covers exactly the snapshot's keys.
#[verifier::external_body]
fn db_keys(
    db: &heed::Database<heed::types::UnalignedSlice<u8>, heed::types::UnalignedSlice<u8>>,
    txn: &heed::RoTxn<'_, ()>,
) -> (r: Vec<Vec<u8>>)
    requires
        db_env(db) == ro_txn_env(txn),
    ensures
        r@.map_values(|k: Vec<u8>| k@).to_set() == txn_contents(txn).dom(),
        r@.map_values(|k: Vec<u8>| k@).no_duplicates(),
{
    let mut keys = Vec::new();
    if let Ok(entries) = db.iter(txn) {
        for entry in entries {
            if let Ok((key, _)) = entry {
                keys.push(key.to_vec());
            }
        }
    }
    keys
}

/// A representation a stored byte payload can be decoded into.  Each
/// implementation states exactly which payloads decode and to what.
pub trait FromMdbValue: Sized {
    /// Whether the bytes decode to a value of this type.
    spec fn decodable(bytes: Seq<u8>) -> bool;

    /// What the bytes decode to.
    spec fn decoded(bytes: Seq<u8>, v: Self) -> bool;

    /// Decodes a stored payload, succeeding exactly on decodable bytes.
    fn from_mdb_value(bytes: &[u8]) -> (r: Option<Self>)
        ensures
            match r {
                Some(v) => Self::decodable(bytes@) && Self::decoded(bytes@, v),
                None => !Self::decodable(bytes@),
            },
    ;
}

impl FromMdbValue for Vec<u8> {
    open spec fn decodable(bytes: Seq<u8>) -> bool {
        true
    }

    open spec fn decoded(bytes: Seq<u8>, v: Self) -> bool {
        v@ == bytes
    }

    fn from_mdb_value(bytes: &[u8]) -> (r: Option<Self>) {
        Some(slice_to_vec(bytes))
    }
}

impl FromMdbValue for String {
    open spec fn decodable(bytes: Seq<u8>) -> bool {
        valid_utf8(bytes)
    }

    open spec fn decoded(bytes: Seq<u8>, v: Self) -> bool {
        v@ == decode_utf8(bytes)
    }

    fn from_mdb_value(bytes: &[u8]) -> (r: Option<Self>) {
        string_from_bytes(slice_to_vec(bytes))
    }
}

impl FromMdbValue for u64 {
    open spec fn decodable(bytes: Seq<u8>) -> bool {
        bytes.len() == 8
    }

    open spec fn decoded(bytes: Seq<u8>, v: Self) -> bool {
        v == le_bytes_value(bytes)
    }

    fn from_mdb_value(bytes: &[u8]) -> (r: Option<Self>) {
        if bytes.len() == 8 {
            Some(u64_from_le_bytes(bytes))
        } else {
            None
        }
    }
}

impl FromMdbValue for u32 {
    open spec fn decodable(bytes: Seq<u8>) -> bool {
        bytes.len() == 4
    }

    open spec fn decoded(bytes: Seq<u8>, v: Self) -> bool {
        v == le_bytes_value(bytes)
    }

    fn from_mdb_value(bytes: &[u8]) -> (r: Option<Self>) {
        if bytes.len() == 4 {
            Some(u32_from_le_bytes(bytes))
        } else {
            None
        }
    }
}

impl FromMdbValue for i64 {
    open spec fn decodable(bytes: Seq<u8>) -> bool {
        bytes.len() == 8
    }

    open spec fn decoded(bytes: Seq<u8>, v: Self) -> bool {
        if le_bytes_value(bytes) < 0x8000_0000_0000_0000 {
            v == le_bytes_value(bytes)
        } else {
            v == le_bytes_value(bytes) - 0x1_0000_0000_0000_0000
        }
    }

    fn from_mdb_value(bytes: &[u8]) -> (r: Option<Self>) {
        if bytes.len() == 8 {
            let u = u64_from_le_bytes(bytes);
            proof {
                crate::codec::lemma_le_bytes_value_8(bytes@);
            }
            if u < 0x8000_0000_0000_0000 {
                Some(u as i64)
            } else {
                let v: i64 = -1i64 - ((u64::MAX - u) as i64);
                Some(v)
            }
        } else {
            None
        }
    }
}

impl FromMdbValue for i32 {
    open spec fn decodable(bytes: Seq<u8>) -> bool {
        bytes.len() == 4
    }

    open spec fn decoded(bytes: Seq<u8>, v: Self) -> bool {
        if le_bytes_value(bytes) < 0x8000_0000 {
            v == le_bytes_value(bytes)
        } else {
            v == le_bytes_value(bytes) - 0x1_0000_0000
        }
    }

    fn from_mdb_value(bytes: &[u8]) -> (r: Option<Self>) {
        if bytes.len() == 4 {
            let u = u32_from_le_bytes(bytes);
            proof {
                crate::codec::lemma_le_bytes_value_4(bytes@);
            }
            if u < 0x8000_0000 {
                Some(u as i32)
            } else {
                let v: i32 = -1i32 - ((u32::MAX - u) as i32);
                Some(v)
            }
        } else {
            None
        }
    }
}

/// The environment's single unnamed table, keyed and valued by raw bytes.
pub type BytesDatabase = heed::Database<
    heed::types::UnalignedSlice<u8>,
    heed::types::UnalignedSlice<u8>,
>;

/// Maps the engine's delete-and-commit answers to the removal's tag:
/// NotFound exactly when the engine reported the key absent from the
/// write's view, success exactly when a present key's removal committed,
/// and the removal error otherwise.
pub fn delete_outcome(deleted: Option<bool>, committed: bool) -> (r: StorageResult<()>)
    ensures
        (r is NotFound) <==> deleted == Some(false),
        (r is Success) <==> (deleted == Some(true) && committed),
        (r matches StorageResult::Error(m) && m@ == "Failed to remove value"@) <==> (deleted
            is None || (deleted == Some(true) && !committed)),
{
    match deleted {
        Some(true) => {
            if committed {
                StorageResult::Success(())
            } else {
                StorageResult::Error("Failed to remove value".to_string())
            }
        },
        Some(false) => StorageResult::NotFound,
        None => StorageResult::Error("Failed to remove value".to_string()),
    }
}

/// The read counter after one read: it wraps to zero once the reopen
/// threshold is crossed.
pub open spec fn bump_counter(c: u64) -> u64 {
    if c >= 1000 {
        0
    } else {
        (c + 1) as u64
    }
}

/// One logical table bound to one shared environment, with a read counter
/// and a reopen threshold.  The environment is opened lazily: an instance
/// whose path cannot be opened stays unopened and every operation on it
/// reports failure until a later access succeeds.
pub struct LmdbInstance {
    max_read_counter: u64,
    path: String,
    env: Option<heed::Env>,
    db: Option<BytesDatabase>,
    read_counter: u64,
}

impl LmdbInstance {
    /// The filesystem path this instance is bound to.
    pub closed spec fn spec_path(&self) -> Seq<char> {
        self.path@
    }

    /// The shared environment handle, if the path has been opened.
    pub closed spec fn spec_env(&self) -> Option<heed::Env> {
        self.env
    }

    /// The table handle, if the environment has been opened.
    pub closed spec fn spec_db(&self) -> Option<BytesDatabase> {
        self.db
    }

    /// Reads taken since the counter was last reset.
    pub closed spec fn spec_read_counter(&self) -> u64 {
        self.read_counter
    }

    /// The reopen threshold.
    pub closed spec fn spec_max_read_counter(&self) -> u64 {
        self.max_read_counter
    }

    /// The instance's well-formedness: the fixed threshold, a counter
    /// within it, and a table only ever opened from the instance's own
    /// open environment.
    pub open spec fn inv(&self) -> bool {
        &&& self.spec_max_read_counter() == 1000
        &&& self.spec_read_counter() <= 1000
        &&& (self.spec_db() matches Some(db) ==> (self.spec_env() matches Some(e) && db_env(&db)
            == e))
    }

    /// How one read evolves the instance: path and threshold fixed, the
    /// environment and table only ever gained, the counter stepped once or
    /// twice (one step per attempt).
    pub open spec fn read_step(pre: Self, post: Self) -> bool {
        &&& post.spec_path() == pre.spec_path()
        &&& post.spec_max_read_counter() == pre.spec_max_read_counter()
        &&& (pre.spec_env() is Some ==> post.spec_env() == pre.spec_env())
        &&& (pre.spec_db() is Some ==> post.spec_db() == pre.spec_db())
        &&& (post.spec_read_counter() == bump_counter(pre.spec_read_counter())
            || post.spec_read_counter() == bump_counter(bump_counter(pre.spec_read_counter())))
    }

    /// How one write or count evolves the instance: as a read, but the
    /// counter is untouched.
    pub open spec fn write_step(pre: Self, post: Self) -> bool {
        &&& post.spec_path() == pre.spec_path()
        &&& post.spec_max_read_counter() == pre.spec_max_read_counter()
        &&& post.spec_read_counter() == pre.spec_read_counter()
        &&& (pre.spec_env() is Some ==> post.spec_env() == pre.spec_env())
        &&& (pre.spec_db() is Some ==> post.spec_db() == pre.spec_db())
    }

    /// Creates an instance bound to `path`, creating the directory and
    /// opening the shared environment; on failure the instance starts
    /// unopened and retries on first access.
    pub fn new(path: &str, _mode: StorageMode) -> (r: Self)
        ensures
            r.inv(),
            r.spec_path() == path@,
            r.spec_read_counter() == 0,
    {
        let env = open_env_retrying(path);
        let db = match &env {
            Some(e) => env_create_database(e),
            None => None,
        };
        LmdbInstance { max_read_counter: 1000, path: path.to_owned(), env, db, read_counter: 0 }
    }

    /// Resets the read counter; the shared environment stays open.
    pub fn open(&mut self)
        requires
            old(self).inv(),
        ensures
            final(self).inv(),
            final(self).spec_read_counter() == 0,
            final(self).spec_path() == old(self).spec_path(),
            final(self).spec_env() == old(self).spec_env(),
            final(self).spec_db() == old(self).spec_db(),
            final(self).spec_max_read_counter() == old(self).spec_max_read_counter(),
    {
        self.read_counter = 0;
    }

    /// Steps the read counter, wrapping at the reopen threshold.
    fn bump(&mut self)
        requires
            old(self).inv(),
        ensures
            final(self).inv(),
            final(self).spec_read_counter() == bump_counter(old(self).spec_read_counter()),
            final(self).spec_path() == old(self).spec_path(),
            final(self).spec_env() == old(self).spec_env(),
            final(self).spec_db() == old(self).spec_db(),
            final(self).spec_max_read_counter() == old(self).spec_max_read_counter(),
    {
        self.read_counter = self.read_counter + 1;
        if self.read_counter > self.max_read_counter {
            self.read_counter = 0;
        }
    }

    /// Opens the environment and table if a previous attempt failed.
    fn ensure_open(&mut self)
        requires
            old(self).inv(),
        ensures
            final(self).inv(),
            final(self).spec_path() == old(self).spec_path(),
            final(self).spec_read_counter() == old(self).spec_read_counter(),
            final(self).spec_max_read_counter() == old(self).spec_max_read_counter(),
            old(self).spec_env() is Some ==> final(self).spec_env() == old(self).spec_env(),
            old(self).spec_db() is Some ==> final(self).spec_db() == old(self).spec_db(),
    {
        if self.env.is_none() {
            self.env = open_env_retrying(self.path.as_str());
        }
        if self.db.is_none() {
            self.db = match &self.env {
                Some(e) => env_create_database(e),
                None => None,
            };
        }
    }

    /// Reads and decodes the value stored under `key`: nothing when the
    /// key is absent, the bytes fail to decode, the instance stays
    /// unopened, or the engine fails twice.
    pub fn get<T: FromMdbValue>(&mut self, key: &str) -> (r: Option<T>)
        requires
            old(self).inv(),
        ensures
            final(self).inv(),
            Self::read_step(*old(self), *final(self)),
            final(self).spec_db() is None ==> r is None,
    {
        self.bump();
        self.ensure_open();
        if let Some(env) = &self.env {
            if let Some(db) = &self.db {
                if let Some(txn) = env_read_txn(env) {
                    return match db_get_txn(db, &txn, key.as_bytes()) {
                        Some(bytes) => T::from_mdb_value(bytes),
                        None => None,
                    };
                }
            }
        }
        self.bump();
        self.ensure_open();
        if let Some(env) = &self.env {
            if let Some(db) = &self.db {
                if let Some(txn) = env_read_txn(env) {
                    return match db_get_txn(db, &txn, key.as_bytes()) {
                        Some(bytes) => T::from_mdb_value(bytes),
                        None => None,
                    };
                }
            }
        }
        None
    }

    /// Reads the value stored under `key` as text.
    pub fn get_v(&mut self, key: &str) -> (r: Option<String>)
        requires
            old(self).inv(),
        ensures
            final(self).inv(),
            Self::read_step(*old(self), *final(self)),
            final(self).spec_db() is None ==> r is None,
    {
        self.get::<String>(key)
    }

    /// Reads the value stored under `key` as raw bytes.
    pub fn get_raw(&mut self, key: &str) -> (r: Option<Vec<u8>>)
        requires
            old(self).inv(),
        ensures
            final(self).inv(),
            Self::read_step(*old(self), *final(self)),
            final(self).spec_db() is None ==> r is None,
    {
        self.get::<Vec<u8>>(key)
    }

    /// Fetches the bytes stored under `uri` into the caller's domain
    /// record and parses them.
    pub fn get_individual(&mut self, uri: &str, iraw: &mut Individual) -> (r: StorageResult<()>)
        requires
            old(self).inv(),
        ensures
            final(self).inv(),
            Self::read_step(*old(self), *final(self)),
            final(self).spec_db() is None ==> r is NotFound,
            match r {
                StorageResult::Success(_) => parses(individual_raw(final(iraw))),
                StorageResult::UnprocessableEntity => !parses(individual_raw(final(iraw))),
                StorageResult::NotFound => *final(iraw) == *old(iraw),
                _ => false,
            },
    {
        match self.get_raw(uri) {
            Some(val) => {
                individual_set_raw(iraw, val.as_slice());
                if individual_parse(iraw) {
                    StorageResult::Success(())
                } else {
                    StorageResult::UnprocessableEntity
                }
            },
            None => StorageResult::NotFound,
        }
    }

    /// The number of entries in the table as a fresh snapshot counts them;
    /// zero when the instance is unopened or the engine fails twice.
    pub fn count(&mut self) -> (r: usize)
        requires
            old(self).inv(),
        ensures
            final(self).inv(),
            *final(self) == *old(self),
            old(self).spec_env() is None || old(self).spec_db() is None ==> r == 0,
    {
        if let Some(env) = &self.env {
            if let Some(db) = &self.db {
                if let Some(txn) = env_read_txn(env) {
                    if let Some(n) = db_len(db, &txn) {
                        return #[verifier::truncate] (n as usize);
                    }
                }
                if let Some(txn) = env_read_txn(env) {
                    if let Some(n) = db_len(db, &txn) {
                        return #[verifier::truncate] (n as usize);
                    }
                }
            }
        }
        0
    }

    /// Stores `val` under `key`, overwriting any existing value; true
    /// exactly when the pair was staged and its commit reported success,
    /// and never on an unopened instance.
    pub fn put(&mut self, key: &str, val: &[u8]) -> (r: bool)
        requires
            old(self).inv(),
        ensures
            final(self).inv(),
            Self::write_step(*old(self), *final(self)),
            final(self).spec_env() is None || final(self).spec_db() is None ==> r == false,
            r ==> final(self).spec_env() is Some && final(self).spec_db() is Some,
    {
        self.ensure_open();
        if let Some(env) = &self.env {
            if let Some(db) = &self.db {
                if let Some(mut txn) = env_write_txn(env) {
                    if db_put(db, &mut txn, key.as_bytes(), val) {
                        return txn_commit(txn);
                    }
                    return false;
                }
            }
        }
        false
    }

    /// Removes the value stored under `key`: success when a present key
    /// was removed and the removal committed, NotFound when the engine
    /// reported the key absent, an error when the instance is unopened or
    /// the engine or the commit failed.  The tag decision over the
    /// engine's answers stands in [`delete_outcome`].
    pub fn remove_entry(&mut self, key: &str) -> (r: StorageResult<()>)
        requires
            old(self).inv(),
        ensures
            final(self).inv(),
            Self::write_step(*old(self), *final(self)),
            r is Success || r is NotFound || (r matches StorageResult::Error(m) && m@
                == "Failed to remove value"@),
            final(self).spec_env() is None || final(self).spec_db() is None ==> (
            r matches StorageResult::Error(m) && m@ == "Failed to remove value"@),
            (r is Success || r is NotFound) ==> (final(self).spec_env() is Some
                && final(self).spec_db() is Some),
    {
        self.ensure_open();
        if let Some(env) = &self.env {
            if let Some(db) = &self.db {
                if let Some(mut txn) = env_write_txn(env) {
                    let deleted = db_delete(db, &mut txn, key.as_bytes());
                    let committed = match deleted {
                        Some(true) => txn_commit(txn),
                        _ => false,
                    };
                    return delete_outcome(deleted, committed);
                }
                return StorageResult::Error("Failed to remove value".to_string());
            }
        }
        StorageResult::Error("Failed to remove value".to_string())
    }

    /// Legacy form of `remove_entry`: true exactly when a present key was
    /// removed and the removal committed.
    pub fn remove(&mut self, key: &str) -> (r: bool)
        requires
            old(self).inv(),
        ensures
            final(self).inv(),
            Self::write_step(*old(self), *final(self)),
    {
        self.remove_entry(key).is_ok()
    }

    /// Begins a read-only snapshot for zero-copy reads; nothing when the
    /// instance is unopened or the engine fails.
    pub fn begin_ro_txn<'a>(&'a self) -> (r: Option<heed::RoTxn<'a, ()>>)
        ensures
            r matches Some(txn) ==> (self.spec_env() matches Some(e) && ro_txn_env(&txn) == e),
    {
        match &self.env {
            Some(e) => env_read_txn(e),
            None => None,
        }
    }

    /// Reads the value stored under `key` within the given snapshot,
    /// borrowing from mapped memory without copying.  With the table open,
    /// a key the snapshot holds always yields its bytes, so two such reads
    /// of one key within one snapshot yield the same bytes.
    pub fn get_with_txn<'e, 't>(&self, txn: &'t heed::RoTxn<'e, ()>, key: &str) -> (r: Option<
        &'t [u8],
    >)
        requires
            self.inv(),
            self.spec_env() matches Some(e) ==> ro_txn_env(txn) == e,
        ensures
            match r {
                Some(v) => txn_contents(txn).contains_key(key.spec_bytes()) && v@
                    == txn_contents(txn)[key.spec_bytes()],
                None => self.spec_db() is Some ==> !txn_contents(txn).contains_key(
                    key.spec_bytes(),
                ),
            },
    {
        match &self.db {
            Some(db) => db_get_txn(db, txn, key.as_bytes()),
            None => None,
        }
    }
}

impl LmdbInstance {
    /// The keys the given snapshot holds, each once; empty when the
    /// instance holds no table.
    pub fn keys_with_txn<'e, 't>(&self, txn: &'t heed::RoTxn<'e, ()>) -> (r: Vec<Vec<u8>>)
        requires
            self.inv(),
            self.spec_env() matches Some(e) ==> ro_txn_env(txn) == e,
        ensures
            self.spec_db() is Some ==> r@.map_values(|k: Vec<u8>| k@).to_set() == txn_contents(
                txn,
            ).dom() && r@.map_values(|k: Vec<u8>| k@).no_duplicates(),
            self.spec_db() is None ==> r@.len() == 0,
    {
        match &self.db {
            Some(db) => db_keys(db, txn),
            None => Vec::new(),
        }
    }

    /// The keys of a fresh snapshot, collected; empty when the instance is
    /// unopened or the engine refuses a snapshot.  The per-snapshot form,
    /// [`Self::keys_with_txn`], carries the exact contract.
    pub fn iter(&mut self) -> (r: Vec<Vec<u8>>)
        requires
            old(self).inv(),
        ensures
            final(self).inv(),
            *final(self) == *old(self),
            final(self).spec_db() is None ==> r@.len() == 0,
    {
        if let Some(env) = &self.env {
            if let Some(txn) = env_read_txn(env) {
                return self.keys_with_txn(&txn);
            }
        }
        Vec::new()
    }
}

/// Every successful zero-copy read within one snapshot returns the
/// snapshot's value for that key, so two reads of one key within one
/// transaction agree with each other.
pub proof fn lemma_snapshot_reads_agree(
    txn: &heed::RoTxn<'_, ()>,
    key: Seq<u8>,
    v1: Seq<u8>,
    v2: Seq<u8>,
)
    requires
        v1 == txn_contents(txn)[key],
        v2 == txn_contents(txn)[key],
    ensures
        v1 == v2,
{
}

/// The path-to-environment registry: every per-namespace instance opened
/// against one path through one registry shares one environment handle.
/// The registry is threaded explicitly through the constructors that use
/// it and retains its entries for its whole lifetime.
pub struct EnvRegistry {
    envs: vstd::hash_map::StringHashMap<heed::Env>,
}

impl View for EnvRegistry {
    type V = Map<Seq<char>, heed::Env>;

    closed spec fn view(&self) -> Map<Seq<char>, heed::Env> {
        self.envs@
    }
}

/// How opening an instance relates it to the registry it was opened
/// through: the instance holds the registry's environment for its path,
/// and the registry gains the path at most once.
pub open spec fn opened_with(
    inst: LmdbInstance,
    rpre: EnvRegistry,
    rpost: EnvRegistry,
    path: Seq<char>,
) -> bool {
    &&& inst.inv()
    &&& inst.spec_path() == path
    &&& inst.spec_read_counter() == 0
    &&& (rpre@.contains_key(path) ==> rpost == rpre && inst.spec_env() == Some(rpre@[path]))
    &&& (!rpre@.contains_key(path) ==> match inst.spec_env() {
        Some(e) => rpost@ == rpre@.insert(path, e),
        None => rpost == rpre,
    })
}

impl EnvRegistry {
    /// An empty registry.
    pub fn new() -> (r: Self)
        ensures
            r@ == Map::<Seq<char>, heed::Env>::empty(),
    {
        EnvRegistry { envs: vstd::hash_map::StringHashMap::new() }
    }

    /// The environment for `path`: the registered one if the path is
    /// known, else a newly opened one, registered for every later caller.
    pub fn get_or_create(&mut self, path: &str) -> (r: Option<heed::Env>)
        ensures
            old(self)@.contains_key(path@) ==> (r == Some(old(self)@[path@]) && *final(self)
                == *old(self)),
            !old(self)@.contains_key(path@) ==> match r {
                Some(e) => final(self)@ == old(self)@.insert(path@, e),
                None => *final(self) == *old(self),
            },
    {
        match self.envs.get(path) {
            Some(e) => {
                return Some(env_clone(e));
            },
            None => {},
        }
        match open_env_retrying(path) {
            Some(e) => {
                let shared = env_clone(&e);
                self.envs.insert(path.to_owned(), shared);
                Some(e)
            },
            None => None,
        }
    }

    /// Opens a per-namespace instance whose environment is shared through
    /// this registry.
    pub fn open_instance(&mut self, path: &str, _mode: StorageMode) -> (r: LmdbInstance)
        ensures
            opened_with(r, *old(self), *final(self), path@),
    {
        let env = self.get_or_create(path);
        let db = match &env {
            Some(e) => env_create_database(e),
            None => None,
        };
        LmdbInstance { max_read_counter: 1000, path: path.to_owned(), env, db, read_counter: 0 }
    }
}

/// One environment per path: a second instance opened against the same
/// path through the same registry holds the same environment handle as the
/// first, so a write through either is a write to the store the other
/// reads.
pub proof fn lemma_instances_share_environment(
    r0: EnvRegistry,
    r1: EnvRegistry,
    r2: EnvRegistry,
    a: LmdbInstance,
    b: LmdbInstance,
    path: Seq<char>,
)
    requires
        opened_with(a, r0, r1, path),
        opened_with(b, r1, r2, path),
        a.spec_env() is Some,
    ensures
        b.spec_env() == a.spec_env(),
{
}

/// One environment per path, for whole backends: a second backend opened
/// over the same base path through the same registry holds, namespace by
/// namespace, the same environment handles as the first — a write through
/// either is a write to the very store the other reads.
pub proof fn lemma_storages_share_environments(
    r0: EnvRegistry,
    r1: EnvRegistry,
    r2: EnvRegistry,
    s1: LMDBStorage,
    s2: LMDBStorage,
    base: Seq<char>,
    id: StorageId,
)
    requires
        storage_opened_with(s1, r0, r1, base),
        storage_opened_with(s2, r1, r2, base),
        s1.instance(id).spec_env() is Some,
    ensures
        s2.instance(id).spec_env() == s1.instance(id).spec_env(),
{
    assert(r1@.contains_key(namespace_path(base, id)));
}

/// Opening an instance only grows the registry: every earlier entry is
/// kept unchanged.
pub proof fn lemma_opened_with_grows(
    inst: LmdbInstance,
    rpre: EnvRegistry,
    rpost: EnvRegistry,
    path: Seq<char>,
)
    requires
        opened_with(inst, rpre, rpost, path),
    ensures
        rpre@.submap_of(rpost@),
{
    if !rpre@.contains_key(path) {
        match inst.spec_env() {
            Some(e) => {
                assert forall|k: Seq<char>| rpre@.dom().contains(k) implies #[trigger] rpost@.dom().contains(k)
                    && rpre@[k] == rpost@[k] by {
                    assert(rpost@ == rpre@.insert(path, e));
                }
            },
            None => {},
        }
    }
}

/// The subdirectory one namespace lives in, under a backend's base path.
pub open spec fn namespace_path(base: Seq<char>, id: StorageId) -> Seq<char> {
    match id {
        StorageId::Individuals => base + "/lmdb-individuals/"@,
        StorageId::Tickets => base + "/lmdb-tickets/"@,
        StorageId::Az => base + "/acl-indexes/"@,
    }
}

/// How a whole embedded backend relates to the registry it was opened
/// through: each namespace instance sits at its subdirectory with a fresh
/// counter; the registry keeps every earlier entry; an instance that
/// opened holds the registry's environment for its path; and a path the
/// registry already knew is reused, never reopened.
pub open spec fn storage_opened_with(
    r: LMDBStorage,
    rpre: EnvRegistry,
    rpost: EnvRegistry,
    base: Seq<char>,
) -> bool {
    &&& r.inv()
    &&& rpre@.submap_of(rpost@)
    &&& forall|id: StorageId|
        #![trigger r.instance(id)]
        {
            &&& r.instance(id).spec_path() == namespace_path(base, id)
            &&& r.instance(id).spec_read_counter() == 0
            &&& (r.instance(id).spec_env() matches Some(e) ==> rpost@.contains_key(
                namespace_path(base, id),
            ) && rpost@[namespace_path(base, id)] == e)
            &&& (rpre@.contains_key(namespace_path(base, id)) ==> r.instance(id).spec_env()
                == Some(rpre@[namespace_path(base, id)]))
        }
}

/// The embedded backend: one per-namespace instance for each key space,
/// all under one base path.
pub struct LMDBStorage {
    individuals_db: LmdbInstance,
    tickets_db: LmdbInstance,
    az_db: LmdbInstance,
}

impl LMDBStorage {
    /// The per-namespace instance serving the given key space.
    pub closed spec fn instance(&self, storage: StorageId) -> LmdbInstance {
        match storage {
            StorageId::Individuals => self.individuals_db,
            StorageId::Tickets => self.tickets_db,
            StorageId::Az => self.az_db,
        }
    }

    /// Opens the three per-namespace instances under `db_path`, sharing
    /// environments through the given registry: backends opened over one
    /// base path through one registry hold the same environments.
    pub fn new_shared(
        db_path: &str,
        mode: StorageMode,
        _max_read_counter_reopen: Option<u64>,
        registry: &mut EnvRegistry,
    ) -> (r: LMDBStorage)
        ensures
            storage_opened_with(r, *old(registry), *final(registry), db_path@),
    {
        let p_ind = String::from_str(db_path).concat("/lmdb-individuals/");
        let p_tck = String::from_str(db_path).concat("/lmdb-tickets/");
        let p_az = String::from_str(db_path).concat("/acl-indexes/");
        let individuals_db = registry.open_instance(p_ind.as_str(), mode);
        let ghost g1 = *registry;
        let tickets_db = registry.open_instance(p_tck.as_str(), mode);
        let ghost g2 = *registry;
        let az_db = registry.open_instance(p_az.as_str(), mode);
        let r = LMDBStorage { individuals_db, tickets_db, az_db };
        proof {
            lemma_opened_with_grows(r.individuals_db, *old(registry), g1, p_ind@);
            lemma_opened_with_grows(r.tickets_db, g1, g2, p_tck@);
            lemma_opened_with_grows(r.az_db, g2, *registry, p_az@);
        }
        r
    }

    /// Opens the three per-namespace instances under `db_path`, sharing
    /// environments through a registry of their own; across backend
    /// objects the engine itself reuses the environment already open at a
    /// path in this process.
    pub fn new(db_path: &str, mode: StorageMode, max_read_counter_reopen: Option<u64>) -> (r:
        LMDBStorage)
        ensures
            r.inv(),
            r.instance(StorageId::Individuals).spec_path() == db_path@ + "/lmdb-individuals/"@,
            r.instance(StorageId::Tickets).spec_path() == db_path@ + "/lmdb-tickets/"@,
            r.instance(StorageId::Az).spec_path() == db_path@ + "/acl-indexes/"@,
    {
        let mut registry = EnvRegistry::new();
        Self::new_shared(db_path, mode, max_read_counter_reopen, &mut registry)
    }

    /// Resets the read counter of the given namespace's instance.
    pub fn open(&mut self, storage: StorageId)
        requires
            old(self).inv(),
        ensures
            final(self).inv(),
            final(self).instance(storage).spec_read_counter() == 0,
            forall|o: StorageId| o != storage ==> final(self).instance(o) == old(self).instance(o),
    {
        match storage {
            StorageId::Individuals => self.individuals_db.open(),
            StorageId::Tickets => self.tickets_db.open(),
            StorageId::Az => self.az_db.open(),
        }
    }
}

/// The instance of one namespace stepped as a read, every other namespace
/// untouched.
pub open spec fn lmdb_read_frame(pre: LMDBStorage, storage: StorageId, post: LMDBStorage) -> bool {
    &&& LmdbInstance::read_step(pre.instance(storage), post.instance(storage))
    &&& forall|o: StorageId| o != storage ==> post.instance(o) == pre.instance(o)
}

/// The instance of one namespace stepped as a write, every other
/// namespace untouched.
pub open spec fn lmdb_write_frame(pre: LMDBStorage, storage: StorageId, post: LMDBStorage) -> bool {
    &&& LmdbInstance::write_step(pre.instance(storage), post.instance(storage))
    &&& forall|o: StorageId| o != storage ==> post.instance(o) == pre.instance(o)
}

impl Storage for LMDBStorage {
    open spec fn inv(&self) -> bool {
        &&& self.instance(StorageId::Individuals).inv()
        &&& self.instance(StorageId::Tickets).inv()
        &&& self.instance(StorageId::Az).inv()
    }

    open spec fn get_individual_post(
        pre: Self,
        storage: StorageId,
        id: Seq<char>,
        ipre: Individual,
        ipost: Individual,
        post: Self,
        r: StorageResult<()>,
    ) -> bool {
        &&& lmdb_read_frame(pre, storage, post)
        &&& (post.instance(storage).spec_db() is None ==> r is NotFound)
        &&& match r {
            StorageResult::Success(_) => parses(individual_raw(&ipost)),
            StorageResult::UnprocessableEntity => !parses(individual_raw(&ipost)),
            StorageResult::NotFound => ipost == ipre,
            _ => false,
        }
    }

    open spec fn get_value_post(
        pre: Self,
        storage: StorageId,
        key: Seq<char>,
        post: Self,
        r: StorageResult<String>,
    ) -> bool {
        &&& lmdb_read_frame(pre, storage, post)
        &&& (post.instance(storage).spec_db() is None ==> r is NotFound)
        &&& (r is Success || r is NotFound || (r matches StorageResult::Error(m) && m@
            == "Invalid UTF-8 data"@))
    }

    open spec fn get_raw_value_post(
        pre: Self,
        storage: StorageId,
        key: Seq<char>,
        post: Self,
        r: StorageResult<Vec<u8>>,
    ) -> bool {
        &&& lmdb_read_frame(pre, storage, post)
        &&& (post.instance(storage).spec_db() is None ==> r is NotFound)
        &&& (r is Success || r is NotFound)
    }

    open spec fn put_value_post(
        pre: Self,
        storage: StorageId,
        key: Seq<char>,
        val: Seq<char>,
        post: Self,
        r: StorageResult<()>,
    ) -> bool {
        &&& lmdb_write_frame(pre, storage, post)
        &&& (post.instance(storage).spec_db() is None ==> r is Error)
        &&& (r is Success ==> post.instance(storage).spec_db() is Some)
        &&& (r is Success || (r matches StorageResult::Error(m) && m@ == "Failed to put value"@))
    }

    open spec fn put_raw_value_post(
        pre: Self,
        storage: StorageId,
        key: Seq<char>,
        val: Seq<u8>,
        post: Self,
        r: StorageResult<()>,
    ) -> bool {
        &&& lmdb_write_frame(pre, storage, post)
        &&& (post.instance(storage).spec_db() is None ==> r is Error)
        &&& (r is Success ==> post.instance(storage).spec_db() is Some)
        &&& (r is Success || (r matches StorageResult::Error(m) && m@
            == "Failed to put raw value"@))
    }

    open spec fn remove_value_post(
        pre: Self,
        storage: StorageId,
        key: Seq<char>,
        post: Self,
        r: StorageResult<()>,
    ) -> bool {
        &&& lmdb_write_frame(pre, storage, post)
        &&& (post.instance(storage).spec_db() is None ==> r is Error)
        &&& ((r is Success || r is NotFound) ==> post.instance(storage).spec_db() is Some)
        &&& (r is Success || r is NotFound || (r matches StorageResult::Error(m) && m@
            == "Failed to remove value"@))
    }

    open spec fn count_post(
        pre: Self,
        storage: StorageId,
        post: Self,
        r: StorageResult<usize>,
    ) -> bool {
        &&& post == pre
        &&& (r matches StorageResult::Success(n) && (pre.instance(storage).spec_db() is None ==> n
            == 0))
    }

    fn get_individual(&mut self, storage: StorageId, uri: &str, iraw: &mut Individual) -> (r:
        StorageResult<()>) {
        match storage {
            StorageId::Individuals => self.individuals_db.get_individual(uri, iraw),
            StorageId::Tickets => self.tickets_db.get_individual(uri, iraw),
            StorageId::Az => self.az_db.get_individual(uri, iraw),
        }
    }

    fn get_value(&mut self, storage: StorageId, key: &str) -> (r: StorageResult<String>) {
        let v = match storage {
            StorageId::Individuals => self.individuals_db.get_raw(key),
            StorageId::Tickets => self.tickets_db.get_raw(key),
            StorageId::Az => self.az_db.get_raw(key),
        };
        match v {
            Some(bytes) => match string_from_bytes(bytes) {
                Some(value) => StorageResult::Success(value),
                None => StorageResult::Error("Invalid UTF-8 data".to_string()),
            },
            None => StorageResult::NotFound,
        }
    }

    fn get_raw_value(&mut self, storage: StorageId, key: &str) -> (r: StorageResult<Vec<u8>>) {
        let v = match storage {
            StorageId::Individuals => self.individuals_db.get_raw(key),
            StorageId::Tickets => self.tickets_db.get_raw(key),
            StorageId::Az => self.az_db.get_raw(key),
        };
        match v {
            Some(value) => StorageResult::Success(value),
            None => StorageResult::NotFound,
        }
    }

    fn put_value(&mut self, storage: StorageId, key: &str, val: &str) -> (r: StorageResult<()>) {
        let ok = match storage {
            StorageId::Individuals => self.individuals_db.put(key, val.as_bytes()),
            StorageId::Tickets => self.tickets_db.put(key, val.as_bytes()),
            StorageId::Az => self.az_db.put(key, val.as_bytes()),
        };
        if ok {
            StorageResult::Success(())
        } else {
            StorageResult::Error("Failed to put value".to_string())
        }
    }

    fn put_raw_value(&mut self, storage: StorageId, key: &str, val: Vec<u8>) -> (r: StorageResult<
        (),
    >) {
        let ok = match storage {
            StorageId::Individuals => self.individuals_db.put(key, val.as_slice()),
            StorageId::Tickets => self.tickets_db.put(key, val.as_slice()),
            StorageId::Az => self.az_db.put(key, val.as_slice()),
        };
        if ok {
            StorageResult::Success(())
        } else {
            StorageResult::Error("Failed to put raw value".to_string())
        }
    }

    fn remove_value(&mut self, storage: StorageId, key: &str) -> (r: StorageResult<()>) {
        match storage {
            StorageId::Individuals => self.individuals_db.remove_entry(key),
            StorageId::Tickets => self.tickets_db.remove_entry(key),
            StorageId::Az => self.az_db.remove_entry(key),
        }
    }

    fn count(&mut self, storage: StorageId) -> (r: StorageResult<usize>) {
        let n = match storage {
            StorageId::Individuals => self.individuals_db.count(),
            StorageId::Tickets => self.tickets_db.count(),
            StorageId::Az => self.az_db.count(),
        };
        StorageResult::Success(n)
    }
}

} // verus!
