use vstd::prelude::*;

use v_individual_model::onto::individual::Individual;

verus! {

/// Whether a backend is opened for reading only or for reading and writing.
#[derive(Eq, PartialEq, Debug, Clone, Copy, Structural)]
pub enum StorageMode {
    ReadOnly,
    ReadWrite,
}

/// Selects one of the logically independent key spaces a backend partitions
/// its storage into.
#[derive(Eq, PartialEq, Debug, Clone, Copy, Structural)]
pub enum StorageId {
    Individuals,
    Tickets,
    Az,
}

/// The outcome of every storage operation: a success payload, a structural
/// "not found", a "backend unusable" signal, a "bytes present but unparsable"
/// signal, or an operational error with a message.
#[derive(Debug, Clone, PartialEq)]
pub enum StorageResult<T> {
    Success(T),
    NotFound,
    NotReady,
    UnprocessableEntity,
    Error(String),
}

impl<T> StorageResult<T> {
    /// True exactly on the success tag.
    pub fn is_ok(&self) -> (r: bool)
        ensures
            r == (self is Success),
    {
        matches!(self, StorageResult::Success(_))
    }

    /// True exactly on the four non-success tags.
    pub fn is_error(&self) -> (r: bool)
        ensures
            r == !(self is Success),
    {
        !self.is_ok()
    }

    /// The success payload, or the payload type's default value on any
    /// other tag.
    pub fn unwrap_or_default(self) -> (r: T) where T: Default
        ensures
            self matches StorageResult::Success(v) ==> r == v,
            !(self is Success) ==> call_ensures(T::default, (), r),
    {
        match self {
            StorageResult::Success(value) => value,
            _ => T::default(),
        }
    }

    /// Transforms the success payload and keeps every other tag unchanged.
    pub fn map<U, F: FnOnce(T) -> U>(self, f: F) -> (r: StorageResult<U>)
        requires
            self matches StorageResult::Success(v) ==> call_requires(f, (v,)),
        ensures
            match self {
                StorageResult::Success(v) => r matches StorageResult::Success(u) && call_ensures(
                    f,
                    (v,),
                    u,
                ),
                StorageResult::NotFound => r is NotFound,
                StorageResult::NotReady => r is NotReady,
                StorageResult::UnprocessableEntity => r is UnprocessableEntity,
                StorageResult::Error(msg) => r matches StorageResult::Error(m) && m == msg,
            },
    {
        match self {
            StorageResult::Success(value) => StorageResult::Success(f(value)),
            StorageResult::NotFound => StorageResult::NotFound,
            StorageResult::NotReady => StorageResult::NotReady,
            StorageResult::UnprocessableEntity => StorageResult::UnprocessableEntity,
            StorageResult::Error(msg) => StorageResult::Error(msg),
        }
    }

    /// Chains a fallible transformation of the success payload and keeps
    /// every other tag unchanged.
    pub fn and_then<U, F: FnOnce(T) -> StorageResult<U>>(self, f: F) -> (r: StorageResult<U>)
        requires
            self matches StorageResult::Success(v) ==> call_requires(f, (v,)),
        ensures
            match self {
                StorageResult::Success(v) => call_ensures(f, (v,), r),
                StorageResult::NotFound => r is NotFound,
                StorageResult::NotReady => r is NotReady,
                StorageResult::UnprocessableEntity => r is UnprocessableEntity,
                StorageResult::Error(msg) => r matches StorageResult::Error(m) && m == msg,
            },
    {
        match self {
            StorageResult::Success(value) => f(value),
            StorageResult::NotFound => StorageResult::NotFound,
            StorageResult::NotReady => StorageResult::NotReady,
            StorageResult::UnprocessableEntity => StorageResult::UnprocessableEntity,
            StorageResult::Error(msg) => StorageResult::Error(msg),
        }
    }
}

impl<T> From<StorageResult<T>> for bool {
    /// True exactly on the success tag.
    fn from(result: StorageResult<T>) -> bool {
        result.is_ok()
    }
}

impl<T> vstd::std_specs::convert::FromSpecImpl<StorageResult<T>> for bool {
    open spec fn obeys_from_spec() -> bool {
        true
    }

    open spec fn from_spec(t: StorageResult<T>) -> Self {
        t is Success
    }
}

/// The capability contract every backend realizes: seven operations over
/// namespaced keys, each returning one tag of [`StorageResult`].  What a
/// given backend promises of an operation is stated by that backend's
/// relational postcondition (`*_post`), relating the state before the call,
/// the arguments, the state after it and the result.
pub trait Storage: Sized {
    /// The backend's internal well-formedness condition.
    spec fn inv(&self) -> bool;

    /// What `get_individual` promises: relates the old and new backend
    /// state, the old and new domain record, and the outcome tag.
    spec fn get_individual_post(
        pre: Self,
        storage: StorageId,
        id: Seq<char>,
        ipre: Individual,
        ipost: Individual,
        post: Self,
        r: StorageResult<()>,
    ) -> bool;

    /// What `get_value` promises.
    spec fn get_value_post(
        pre: Self,
        storage: StorageId,
        key: Seq<char>,
        post: Self,
        r: StorageResult<String>,
    ) -> bool;

    /// What `get_raw_value` promises.
    spec fn get_raw_value_post(
        pre: Self,
        storage: StorageId,
        key: Seq<char>,
        post: Self,
        r: StorageResult<Vec<u8>>,
    ) -> bool;

    /// What `put_value` promises.
    spec fn put_value_post(
        pre: Self,
        storage: StorageId,
        key: Seq<char>,
        val: Seq<char>,
        post: Self,
        r: StorageResult<()>,
    ) -> bool;

    /// What `put_raw_value` promises.
    spec fn put_raw_value_post(
        pre: Self,
        storage: StorageId,
        key: Seq<char>,
        val: Seq<u8>,
        post: Self,
        r: StorageResult<()>,
    ) -> bool;

    /// What `remove_value` promises.
    spec fn remove_value_post(
        pre: Self,
        storage: StorageId,
        key: Seq<char>,
        post: Self,
        r: StorageResult<()>,
    ) -> bool;

    /// What `count` promises.
    spec fn count_post(pre: Self, storage: StorageId, post: Self, r: StorageResult<usize>) -> bool;

    /// Fetches the bytes stored under `id`, hands them to the caller's
    /// domain record and parses them: NotFound when absent,
    /// UnprocessableEntity when present but unparsable.
    fn get_individual(&mut self, storage: StorageId, id: &str, iraw: &mut Individual) -> (r:
        StorageResult<()>)
        requires
            old(self).inv(),
        ensures
            final(self).inv(),
            Self::get_individual_post(
                *old(self),
                storage,
                id@,
                *old(iraw),
                *final(iraw),
                *final(self),
                r,
            ),
    ;

    /// Fetches the value stored under `key` as text.
    fn get_value(&mut self, storage: StorageId, key: &str) -> (r: StorageResult<String>)
        requires
            old(self).inv(),
        ensures
            final(self).inv(),
            Self::get_value_post(*old(self), storage, key@, *final(self), r),
    ;

    /// Fetches the value stored under `key` as raw bytes.
    fn get_raw_value(&mut self, storage: StorageId, key: &str) -> (r: StorageResult<Vec<u8>>)
        requires
            old(self).inv(),
        ensures
            final(self).inv(),
            Self::get_raw_value_post(*old(self), storage, key@, *final(self), r),
    ;

    /// Stores text under `key`, overwriting any existing value.
    fn put_value(&mut self, storage: StorageId, key: &str, val: &str) -> (r: StorageResult<()>)
        requires
            old(self).inv(),
        ensures
            final(self).inv(),
            Self::put_value_post(*old(self), storage, key@, val@, *final(self), r),
    ;

    /// Stores raw bytes under `key`, overwriting any existing value.
    fn put_raw_value(&mut self, storage: StorageId, key: &str, val: Vec<u8>) -> (r: StorageResult<
        (),
    >)
        requires
            old(self).inv(),
        ensures
            final(self).inv(),
            Self::put_raw_value_post(*old(self), storage, key@, val@, *final(self), r),
    ;

    /// Removes the value stored under `key`: NotFound when absent.
    fn remove_value(&mut self, storage: StorageId, key: &str) -> (r: StorageResult<()>)
        requires
            old(self).inv(),
        ensures
            final(self).inv(),
            Self::remove_value_post(*old(self), storage, key@, *final(self), r),
    ;

    /// The number of keys stored in the given namespace.
    fn count(&mut self, storage: StorageId) -> (r: StorageResult<usize>)
        requires
            old(self).inv(),
        ensures
            final(self).inv(),
            Self::count_post(*old(self), storage, *final(self), r),
    ;

    /// Legacy synonym of `get_individual`, kept as a pure delegation.
    fn get_individual_from_db(
        &mut self,
        storage: StorageId,
        id: &str,
        iraw: &mut Individual,
    ) -> (r: StorageResult<()>)
        requires
            old(self).inv(),
        ensures
            final(self).inv(),
        default_ensures
            Self::get_individual_post(
                *old(self),
                storage,
                id@,
                *old(iraw),
                *final(iraw),
                *final(self),
                r,
            ),
    {
        self.get_individual(storage, id, iraw)
    }

    /// Legacy form of `get_value`: the success payload, or nothing on any
    /// other tag.
    fn get_v(&mut self, storage: StorageId, key: &str) -> (r: Option<String>)
        requires
            old(self).inv(),
        ensures
            final(self).inv(),
        default_ensures
            exists|rr: StorageResult<String>|
                {
                    &&& #[trigger] Self::get_value_post(*old(self), storage, key@, *final(self), rr)
                    &&& match rr {
                        StorageResult::Success(v) => r == Some(v),
                        _ => r is None,
                    }
                },
    {
        match self.get_value(storage, key) {
            StorageResult::Success(value) => Some(value),
            _ => None,
        }
    }

    /// Legacy form of `get_raw_value`: the success payload, or an empty
    /// byte vector on any other tag.
    fn get_raw(&mut self, storage: StorageId, key: &str) -> (r: Vec<u8>)
        requires
            old(self).inv(),
        ensures
            final(self).inv(),
        default_ensures
            exists|rr: StorageResult<Vec<u8>>|
                {
                    &&& #[trigger] Self::get_raw_value_post(
                        *old(self),
                        storage,
                        key@,
                        *final(self),
                        rr,
                    )
                    &&& (rr matches StorageResult::Success(v) ==> r == v)
                },
    {
        self.get_raw_value(storage, key).unwrap_or_default()
    }

    /// Legacy form of `put_value`: true exactly on success.
    fn put_kv(&mut self, storage: StorageId, key: &str, val: &str) -> (r: bool)
        requires
            old(self).inv(),
        ensures
            final(self).inv(),
        default_ensures
            exists|rr: StorageResult<()>|
                {
                    &&& #[trigger] Self::put_value_post(
                        *old(self),
                        storage,
                        key@,
                        val@,
                        *final(self),
                        rr,
                    )
                    &&& r == (rr is Success)
                },
    {
        self.put_value(storage, key, val).is_ok()
    }

    /// Legacy form of `put_raw_value`: true exactly on success.
    fn put_kv_raw(&mut self, storage: StorageId, key: &str, val: Vec<u8>) -> (r: bool)
        requires
            old(self).inv(),
        ensures
            final(self).inv(),
        default_ensures
            exists|rr: StorageResult<()>|
                {
                    &&& #[trigger] Self::put_raw_value_post(
                        *old(self),
                        storage,
                        key@,
                        val@,
                        *final(self),
                        rr,
                    )
                    &&& r == (rr is Success)
                },
    {
        self.put_raw_value(storage, key, val).is_ok()
    }

    /// Legacy form of `remove_value`: true exactly on success.
    fn remove(&mut self, storage: StorageId, key: &str) -> (r: bool)
        requires
            old(self).inv(),
        ensures
            final(self).inv(),
        default_ensures
            exists|rr: StorageResult<()>|
                {
                    &&& #[trigger] Self::remove_value_post(
                        *old(self),
                        storage,
                        key@,
                        *final(self),
                        rr,
                    )
                    &&& r == (rr is Success)
                },
    {
        self.remove_value(storage, key).is_ok()
    }
}

} // verus!
