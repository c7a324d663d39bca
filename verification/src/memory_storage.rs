//! The in-process backend: one specified hash map per namespace.  Its
//! contracts pin every operation down exactly, and the dispatch layer's
//! behaviour-equivalence laws are stated over this reference semantics.

use vstd::prelude::*;

use crate::codec::string_from_bytes;
use crate::common::{Storage, StorageId, StorageResult};
use crate::individual::{individual_parse, individual_raw, individual_set_raw, parses};
use v_individual_model::onto::individual::Individual;
use vstd::hash_map::StringHashMap;
use vstd::slice::slice_to_vec;
use vstd::utf8::decode_utf8;
use vstd::utf8::encode_utf8;
use vstd::utf8::valid_utf8;

verus! {

/// The abstract contents of one namespace: a finite map from key
/// characters to stored bytes.
pub open spec fn bytes_view(m: Map<Seq<char>, Vec<u8>>) -> Map<Seq<char>, Seq<u8>> {
    m.map_values(|v: Vec<u8>| v@)
}

/// Inserting into a namespace inserts the payload's bytes into its
/// abstract contents.
pub proof fn lemma_bytes_view_insert(m: Map<Seq<char>, Vec<u8>>, k: Seq<char>, v: Vec<u8>)
    ensures
        bytes_view(m.insert(k, v)) == bytes_view(m).insert(k, v@),
{
    assert(bytes_view(m.insert(k, v)) =~= bytes_view(m).insert(k, v@));
}

/// Removing from a namespace removes the key from its abstract contents.
pub proof fn lemma_bytes_view_remove(m: Map<Seq<char>, Vec<u8>>, k: Seq<char>)
    ensures
        bytes_view(m.remove(k)) == bytes_view(m).remove(k),
{
    assert(bytes_view(m.remove(k)) =~= bytes_view(m).remove(k));
}

/// A namespace's abstract contents have the same keys, and so the same
/// size, as the map that holds it.
pub proof fn lemma_bytes_view_len(m: Map<Seq<char>, Vec<u8>>)
    ensures
        bytes_view(m).dom() == m.dom(),
        bytes_view(m).len() == m.len(),
{
    assert(bytes_view(m).dom() =~= m.dom());
}

/// What `get_value` returns given a namespace's contents: the decoded text
/// when the key holds valid UTF-8, an error when it does not, NotFound
/// when it is absent.
pub open spec fn mem_get_value_post(
    m: Map<Seq<char>, Seq<u8>>,
    key: Seq<char>,
    r: StorageResult<String>,
) -> bool {
    if m.contains_key(key) {
        if valid_utf8(m[key]) {
            r matches StorageResult::Success(s) && s@ == decode_utf8(m[key])
        } else {
            r matches StorageResult::Error(msg) && msg@ == "Invalid UTF-8 data"@
        }
    } else {
        r is NotFound
    }
}

/// What `get_raw_value` returns given a namespace's contents.
pub open spec fn mem_get_raw_value_post(
    m: Map<Seq<char>, Seq<u8>>,
    key: Seq<char>,
    r: StorageResult<Vec<u8>>,
) -> bool {
    if m.contains_key(key) {
        r matches StorageResult::Success(v) && v@ == m[key]
    } else {
        r is NotFound
    }
}

/// What `get_individual` returns given a namespace's contents: NotFound
/// when absent, otherwise the parse verdict on the stored bytes.
pub open spec fn mem_get_individual_post(
    m: Map<Seq<char>, Seq<u8>>,
    id: Seq<char>,
    ipre: Individual,
    ipost: Individual,
    r: StorageResult<()>,
) -> bool {
    if m.contains_key(id) {
        &&& individual_raw(&ipost) == m[id]
        &&& if parses(m[id]) {
            r is Success
        } else {
            r is UnprocessableEntity
        }
    } else {
        r is NotFound && ipost == ipre
    }
}

/// A namespace-partitioned in-memory store, the reference backend.
pub struct MemoryStorage {
    individuals: StringHashMap<Vec<u8>>,
    tickets: StringHashMap<Vec<u8>>,
    az: StringHashMap<Vec<u8>>,
}

impl MemoryStorage {
    /// The abstract contents of the given namespace.
    pub closed spec fn ns(&self, storage: StorageId) -> Map<Seq<char>, Seq<u8>> {
        match storage {
            StorageId::Individuals => bytes_view(self.individuals@),
            StorageId::Tickets => bytes_view(self.tickets@),
            StorageId::Az => bytes_view(self.az@),
        }
    }

    /// Creates a store with every namespace empty.
    pub fn new() -> (r: MemoryStorage)
        ensures
            forall|id: StorageId| r.ns(id) == Map::<Seq<char>, Seq<u8>>::empty(),
    {
        let r = MemoryStorage {
            individuals: StringHashMap::new(),
            tickets: StringHashMap::new(),
            az: StringHashMap::new(),
        };
        proof {
            assert forall|id: StorageId| r.ns(id) == Map::<Seq<char>, Seq<u8>>::empty() by {
                assert(bytes_view(Map::<Seq<char>, Vec<u8>>::empty()) =~= Map::<
                    Seq<char>,
                    Seq<u8>,
                >::empty());
            }
        }
        r
    }

    fn map_of(&self, storage: StorageId) -> (r: &StringHashMap<Vec<u8>>)
        ensures
            bytes_view(r@) == self.ns(storage),
    {
        match storage {
            StorageId::Individuals => &self.individuals,
            StorageId::Tickets => &self.tickets,
            StorageId::Az => &self.az,
        }
    }

    /// Stores a payload directly in the given namespace; a test seam kept
    /// from the reference backend's public surface.
    pub fn insert_test_data(&mut self, storage: StorageId, key: &str, val: Vec<u8>)
        ensures
            final(self).ns(storage) == old(self).ns(storage).insert(key@, val@),
            forall|o: StorageId| o != storage ==> final(self).ns(o) == old(self).ns(o),
    {
        proof {
            match storage {
                StorageId::Individuals => lemma_bytes_view_insert(
                    old(self).individuals@,
                    key@,
                    val,
                ),
                StorageId::Tickets => lemma_bytes_view_insert(old(self).tickets@, key@, val),
                StorageId::Az => lemma_bytes_view_insert(old(self).az@, key@, val),
            }
        }
        match storage {
            StorageId::Individuals => self.individuals.insert(key.to_owned(), val),
            StorageId::Tickets => self.tickets.insert(key.to_owned(), val),
            StorageId::Az => self.az.insert(key.to_owned(), val),
        }
    }

    /// Reads a payload directly from the given namespace; a test seam kept
    /// from the reference backend's public surface.
    pub fn get_test_data(&self, storage: StorageId, key: &str) -> (r: Option<Vec<u8>>)
        ensures
            match r {
                Some(v) => self.ns(storage).contains_key(key@) && v@ == self.ns(storage)[key@],
                None => !self.ns(storage).contains_key(key@),
            },
    {
        match self.map_of(storage).get(key) {
            Some(v) => Some(slice_to_vec(v.as_slice())),
            None => None,
        }
    }
}

impl Storage for MemoryStorage {
    open spec fn inv(&self) -> bool {
        true
    }

    open spec fn get_individual_post(
        pre: Self,
        storage: StorageId,
        id: Seq<char>,
        ipre: Individual,
        ipost: Individual,
        post: Self,
        r: StorageResult<()>,
    ) -> bool {
        post == pre && mem_get_individual_post(pre.ns(storage), id, ipre, ipost, r)
    }

    open spec fn get_value_post(
        pre: Self,
        storage: StorageId,
        key: Seq<char>,
        post: Self,
        r: StorageResult<String>,
    ) -> bool {
        post == pre && mem_get_value_post(pre.ns(storage), key, r)
    }

    open spec fn get_raw_value_post(
        pre: Self,
        storage: StorageId,
        key: Seq<char>,
        post: Self,
        r: StorageResult<Vec<u8>>,
    ) -> bool {
        post == pre && mem_get_raw_value_post(pre.ns(storage), key, r)
    }

    open spec fn put_value_post(
        pre: Self,
        storage: StorageId,
        key: Seq<char>,
        val: Seq<char>,
        post: Self,
        r: StorageResult<()>,
    ) -> bool {
        &&& r is Success
        &&& post.ns(storage) == pre.ns(storage).insert(key, encode_utf8(val))
        &&& forall|o: StorageId| o != storage ==> post.ns(o) == pre.ns(o)
    }

    open spec fn put_raw_value_post(
        pre: Self,
        storage: StorageId,
        key: Seq<char>,
        val: Seq<u8>,
        post: Self,
        r: StorageResult<()>,
    ) -> bool {
        &&& r is Success
        &&& post.ns(storage) == pre.ns(storage).insert(key, val)
        &&& forall|o: StorageId| o != storage ==> post.ns(o) == pre.ns(o)
    }

    open spec fn remove_value_post(
        pre: Self,
        storage: StorageId,
        key: Seq<char>,
        post: Self,
        r: StorageResult<()>,
    ) -> bool {
        &&& if pre.ns(storage).contains_key(key) {
            r is Success
        } else {
            r is NotFound
        }
        &&& post.ns(storage) == pre.ns(storage).remove(key)
        &&& forall|o: StorageId| o != storage ==> post.ns(o) == pre.ns(o)
    }

    open spec fn count_post(
        pre: Self,
        storage: StorageId,
        post: Self,
        r: StorageResult<usize>,
    ) -> bool {
        post == pre && (r matches StorageResult::Success(n) && n == pre.ns(storage).len())
    }

    fn get_individual(&mut self, storage: StorageId, id: &str, iraw: &mut Individual) -> (r:
        StorageResult<()>) {
        let m = self.map_of(storage);
        match m.get(id) {
            Some(data) => {
                proof {
                    assert(bytes_view(m@)[id@] == m@[id@]@);
                }
                individual_set_raw(iraw, data.as_slice());
                if individual_parse(iraw) {
                    StorageResult::Success(())
                } else {
                    StorageResult::UnprocessableEntity
                }
            },
            None => StorageResult::NotFound,
        }
    }

    fn get_value(&mut self, storage: StorageId, key: &str) -> (r: StorageResult<String>) {
        match self.map_of(storage).get(key) {
            Some(val) => match string_from_bytes(slice_to_vec(val.as_slice())) {
                Some(string_val) => StorageResult::Success(string_val),
                None => StorageResult::Error("Invalid UTF-8 data".to_string()),
            },
            None => StorageResult::NotFound,
        }
    }

    fn get_raw_value(&mut self, storage: StorageId, key: &str) -> (r: StorageResult<Vec<u8>>) {
        match self.map_of(storage).get(key) {
            Some(val) => StorageResult::Success(slice_to_vec(val.as_slice())),
            None => StorageResult::NotFound,
        }
    }

    fn put_value(&mut self, storage: StorageId, key: &str, val: &str) -> (r: StorageResult<()>) {
        self.insert_test_data(storage, key, val.as_bytes_vec());
        StorageResult::Success(())
    }

    fn put_raw_value(&mut self, storage: StorageId, key: &str, val: Vec<u8>) -> (r: StorageResult<
        (),
    >) {
        self.insert_test_data(storage, key, val);
        StorageResult::Success(())
    }

    fn remove_value(&mut self, storage: StorageId, key: &str) -> (r: StorageResult<()>) {
        proof {
            match storage {
                StorageId::Individuals => lemma_bytes_view_remove(old(self).individuals@, key@),
                StorageId::Tickets => lemma_bytes_view_remove(old(self).tickets@, key@),
                StorageId::Az => lemma_bytes_view_remove(old(self).az@, key@),
            }
        }
        let present = match storage {
            StorageId::Individuals => {
                let p = self.individuals.contains_key(key);
                self.individuals.remove(key);
                p
            },
            StorageId::Tickets => {
                let p = self.tickets.contains_key(key);
                self.tickets.remove(key);
                p
            },
            StorageId::Az => {
                let p = self.az.contains_key(key);
                self.az.remove(key);
                p
            },
        };
        if present {
            StorageResult::Success(())
        } else {
            StorageResult::NotFound
        }
    }

    fn count(&mut self, storage: StorageId) -> (r: StorageResult<usize>) {
        proof {
            match storage {
                StorageId::Individuals => lemma_bytes_view_len(old(self).individuals@),
                StorageId::Tickets => lemma_bytes_view_len(old(self).tickets@),
                StorageId::Az => lemma_bytes_view_len(old(self).az@),
            }
        }
        let n = match storage {
            StorageId::Individuals => self.individuals.len(),
            StorageId::Tickets => self.tickets.len(),
            StorageId::Az => self.az.len(),
        };
        StorageResult::Success(n)
    }
}

impl Default for MemoryStorage {
    /// An empty store.
    fn default() -> (r: Self)
        ensures
            forall|id: StorageId| r.ns(id) == Map::<Seq<char>, Seq<u8>>::empty(),
    {
        Self::new()
    }
}

} // verus!
