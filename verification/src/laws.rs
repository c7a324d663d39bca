//! The laws the storage layer obeys, stated over the backends' contracts
//! and proved from them: round trips, deletion effects, count behaviour,
//! and the agreement of the three dispatch strategies.

use vstd::prelude::*;

use crate::common::{Storage, StorageId, StorageResult};
use crate::memory_storage::MemoryStorage;
use crate::vstorage::{VStorage, VStorageEnum, VStorageGeneric};
use vstd::utf8::encode_utf8;

verus! {

broadcast use vstd::utf8::encode_utf8_valid_utf8, vstd::utf8::encode_utf8_decode_utf8;

/// Two text outcomes are observably the same: equal tags, and equal
/// payloads on the success and error tags.
pub open spec fn value_results_agree(r1: StorageResult<String>, r2: StorageResult<String>) -> bool {
    match (r1, r2) {
        (StorageResult::Success(a), StorageResult::Success(b)) => a@ == b@,
        (StorageResult::NotFound, StorageResult::NotFound) => true,
        (StorageResult::NotReady, StorageResult::NotReady) => true,
        (StorageResult::UnprocessableEntity, StorageResult::UnprocessableEntity) => true,
        (StorageResult::Error(a), StorageResult::Error(b)) => a@ == b@,
        _ => false,
    }
}

/// The in-memory backend's reads are a function of its contents: two
/// `get_value` outcomes for one key over equal contents agree.
pub proof fn lemma_memory_get_value_deterministic(
    m1: MemoryStorage,
    m2: MemoryStorage,
    post1: MemoryStorage,
    post2: MemoryStorage,
    storage: StorageId,
    key: Seq<char>,
    r1: StorageResult<String>,
    r2: StorageResult<String>,
)
    requires
        m1.ns(storage) == m2.ns(storage),
        MemoryStorage::get_value_post(m1, storage, key, post1, r1),
        MemoryStorage::get_value_post(m2, storage, key, post2, r2),
    ensures
        value_results_agree(r1, r2),
{
}

/// Storing a text value and reading it back through the in-memory backend
/// yields exactly that value, in every namespace.
pub proof fn lemma_put_get_round_trip(
    m0: MemoryStorage,
    m1: MemoryStorage,
    m2: MemoryStorage,
    storage: StorageId,
    key: Seq<char>,
    val: Seq<char>,
    rput: StorageResult<()>,
    rget: StorageResult<String>,
)
    requires
        MemoryStorage::put_value_post(m0, storage, key, val, m1, rput),
        MemoryStorage::get_value_post(m1, storage, key, m2, rget),
    ensures
        rput is Success,
        rget matches StorageResult::Success(s) && s@ == val,
{
    assert(m1.ns(storage)[key] == encode_utf8(val));
}

/// Removing a present key succeeds, removing an absent key reports
/// NotFound, and after a removal a lookup of that key reports NotFound:
/// deletion's effect is lasting.
pub proof fn lemma_remove_then_get(
    m0: MemoryStorage,
    m1: MemoryStorage,
    m2: MemoryStorage,
    storage: StorageId,
    key: Seq<char>,
    rrem: StorageResult<()>,
    rget: StorageResult<String>,
)
    requires
        MemoryStorage::remove_value_post(m0, storage, key, m1, rrem),
        MemoryStorage::get_value_post(m1, storage, key, m2, rget),
    ensures
        m0.ns(storage).contains_key(key) ==> rrem is Success,
        !m0.ns(storage).contains_key(key) ==> rrem is NotFound,
        rget is NotFound,
{
}

/// Storing a fresh key raises the namespace's count by one, an
/// overwritten key leaves it unchanged, and the other namespaces' counts
/// are untouched.
pub proof fn lemma_put_count(
    m0: MemoryStorage,
    m1: MemoryStorage,
    storage: StorageId,
    key: Seq<char>,
    val: Seq<char>,
    rput: StorageResult<()>,
)
    requires
        m0.ns(storage).dom().finite(),
        MemoryStorage::put_value_post(m0, storage, key, val, m1, rput),
    ensures
        !m0.ns(storage).contains_key(key) ==> m1.ns(storage).len() == m0.ns(storage).len() + 1,
        m0.ns(storage).contains_key(key) ==> m1.ns(storage).len() == m0.ns(storage).len(),
        forall|o: StorageId| o != storage ==> m1.ns(o) == m0.ns(o),
{
    let d0 = m0.ns(storage).dom();
    let d1 = m1.ns(storage).dom();
    assert(d1 =~= d0.insert(key));
    if m0.ns(storage).contains_key(key) {
        assert(d0.insert(key) =~= d0);
    }
}

/// The contents of a namespace after storing a sequence of entries in
/// order, each `put` realizing one insert.
pub open spec fn store_all(
    m: Map<Seq<char>, Seq<u8>>,
    entries: Seq<(Seq<char>, Seq<u8>)>,
) -> Map<Seq<char>, Seq<u8>>
    decreases entries.len(),
{
    if entries.len() == 0 {
        m
    } else {
        store_all(m, entries.drop_last()).insert(entries.last().0, entries.last().1)
    }
}

/// A key is held after a sequence of stores exactly when the namespace
/// already held it or some stored entry carries it.
pub proof fn lemma_store_all_contains(
    m: Map<Seq<char>, Seq<u8>>,
    entries: Seq<(Seq<char>, Seq<u8>)>,
    k: Seq<char>,
)
    ensures
        store_all(m, entries).contains_key(k) <==> (m.contains_key(k) || exists|i: int|
            0 <= i < entries.len() && (#[trigger] entries[i]).0 == k),
    decreases entries.len(),
{
    if entries.len() > 0 {
        let prefix = entries.drop_last();
        lemma_store_all_contains(m, prefix, k);
        if entries.last().0 == k {
            assert(entries[entries.len() - 1].0 == k);
        } else if exists|i: int| 0 <= i < prefix.len() && (#[trigger] prefix[i]).0 == k {
            let i = choose|i: int| 0 <= i < prefix.len() && (#[trigger] prefix[i]).0 == k;
            assert(entries[i].0 == k);
        } else if exists|i: int| 0 <= i < entries.len() && (#[trigger] entries[i]).0 == k {
            let i = choose|i: int| 0 <= i < entries.len() && (#[trigger] entries[i]).0 == k;
            if i < entries.len() - 1 {
                assert(prefix[i].0 == k);
            }
        }
    }
}

/// Storing N entries with pairwise distinct keys, none already held,
/// raises the namespace's count by exactly N — the general form of the
/// count law, whose single step is `lemma_put_count`.
pub proof fn lemma_count_after_distinct_inserts(
    m: Map<Seq<char>, Seq<u8>>,
    entries: Seq<(Seq<char>, Seq<u8>)>,
)
    requires
        m.dom().finite(),
        forall|i: int, j: int|
            0 <= i < j < entries.len() ==> (#[trigger] entries[i]).0 != (#[trigger] entries[j]).0,
        forall|i: int| 0 <= i < entries.len() ==> !m.contains_key((#[trigger] entries[i]).0),
    ensures
        store_all(m, entries).dom().finite(),
        store_all(m, entries).len() == m.len() + entries.len(),
    decreases entries.len(),
{
    if entries.len() > 0 {
        let prefix = entries.drop_last();
        assert forall|i: int, j: int|
            0 <= i < j < prefix.len() implies (#[trigger] prefix[i]).0 != (#[trigger] prefix[j]).0 by {
            assert(entries[i].0 != entries[j].0);
        }
        assert forall|i: int| 0 <= i < prefix.len() implies !m.contains_key(
            (#[trigger] prefix[i]).0,
        ) by {
            assert(entries[i] == prefix[i]);
        }
        lemma_count_after_distinct_inserts(m, prefix);
        let last = entries.last();
        lemma_store_all_contains(m, prefix, last.0);
        assert(!m.contains_key(last.0)) by {
            assert(entries[entries.len() - 1] == last);
        }
        assert forall|i: int| 0 <= i < prefix.len() implies (#[trigger] prefix[i]).0 != last.0 by {
            assert(entries[i].0 != entries[entries.len() - 1].0);
        }
        assert(!store_all(m, prefix).contains_key(last.0));
        assert(store_all(m, entries).dom() =~= store_all(m, prefix).dom().insert(last.0));
    }
}

/// The boxed, generic and closed-enum wrappers over in-memory backends
/// with equal contents: one put-then-get sequence succeeds identically
/// through all three, each get returns the value put, and the three
/// outcomes agree — the dispatch strategies are observably the same.
pub proof fn lemma_dispatch_strategies_agree(
    d0: VStorage,
    d1: VStorage,
    d2: VStorage,
    a0: MemoryStorage,
    a1: MemoryStorage,
    a2: MemoryStorage,
    dput: StorageResult<()>,
    dget: StorageResult<String>,
    g0: VStorageGeneric<MemoryStorage>,
    g1: VStorageGeneric<MemoryStorage>,
    g2: VStorageGeneric<MemoryStorage>,
    b0: MemoryStorage,
    b1: MemoryStorage,
    b2: MemoryStorage,
    gput: StorageResult<()>,
    gget: StorageResult<String>,
    e0: VStorageEnum,
    e1: VStorageEnum,
    e2: VStorageEnum,
    c0: MemoryStorage,
    c1: MemoryStorage,
    c2: MemoryStorage,
    eput: StorageResult<()>,
    eget: StorageResult<String>,
    storage: StorageId,
    key: Seq<char>,
    val: Seq<char>,
)
    requires
        forall|id: StorageId| #![auto] a0.ns(id) == b0.ns(id) && b0.ns(id) == c0.ns(id),
        // the boxed dispatcher's observed steps
        d0.spec_storage() == Some(VStorageEnum::Memory(a0)),
        d1.spec_storage() == Some(VStorageEnum::Memory(a1)),
        d2.spec_storage() == Some(VStorageEnum::Memory(a2)),
        MemoryStorage::put_value_post(a0, storage, key, val, a1, dput),
        MemoryStorage::get_value_post(a1, storage, key, a2, dget),
        // the generic wrapper's observed steps
        g0.spec_storage() == Some(b0),
        g1.spec_storage() == Some(b1),
        g2.spec_storage() == Some(b2),
        MemoryStorage::put_value_post(b0, storage, key, val, b1, gput),
        MemoryStorage::get_value_post(b1, storage, key, b2, gget),
        // the closed-enum wrapper's observed steps
        e0 == VStorageEnum::Memory(c0),
        e1 == VStorageEnum::Memory(c1),
        e2 == VStorageEnum::Memory(c2),
        MemoryStorage::put_value_post(c0, storage, key, val, c1, eput),
        MemoryStorage::get_value_post(c1, storage, key, c2, eget),
    ensures
        dput is Success && gput is Success && eput is Success,
        dget matches StorageResult::Success(s) && s@ == val,
        gget matches StorageResult::Success(s) && s@ == val,
        eget matches StorageResult::Success(s) && s@ == val,
        value_results_agree(dget, gget),
        value_results_agree(gget, eget),
{
    lemma_put_get_round_trip(a0, a1, a2, storage, key, val, dput, dget);
    lemma_put_get_round_trip(b0, b1, b2, storage, key, val, gput, gget);
    lemma_put_get_round_trip(c0, c1, c2, storage, key, val, eput, eget);
}

} // verus!
