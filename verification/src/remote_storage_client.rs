//! The remote read-only backend: a request/response client for an external
//! storage service.  The wire protocol — request framing, reply
//! interpretation and the session's state steps — is verified here;
//! carrying the bytes over a socket is transport work that the application
//! shell performs, driving [`encode_request`],
//! [`StorageROClient::handle_exchange`] and
//! [`StorageROClient::set_connected`].

use vstd::prelude::*;

use crate::common::{Storage, StorageId, StorageResult};
use crate::individual::{individual_parse, individual_raw, individual_set_raw, parses};
use v_individual_model::onto::individual::Individual;
use vstd::string::StrSliceExecFns;
use vstd::string::to_string_from_display_ensures_for_str;
use vstd::utf8::encode_utf8;

verus! {

broadcast use to_string_from_display_ensures_for_str;

/// The request message for a lookup: a one-character namespace tag, a
/// comma, then the key's bytes.
pub open spec fn request_bytes(storage: StorageId, id: Seq<char>) -> Seq<u8> {
    (if storage == StorageId::Tickets {
        seq![116u8, 44u8]
    } else {
        seq![105u8, 44u8]
    }) + encode_utf8(id)
}

/// The reply that stands for an absent record: the two-byte literal `[]`.
pub open spec fn not_found_reply() -> Seq<u8> {
    seq![91u8, 93u8]
}

/// Frames one lookup request: `t,` for the ticket namespace, `i,` for the
/// others, followed by the key.
pub fn encode_request(storage: StorageId, id: &str) -> (r: Vec<u8>)
    ensures
        r@ == request_bytes(storage, id@),
{
    let mut v: Vec<u8> = Vec::new();
    if storage == StorageId::Tickets {
        v.push(116u8);
    } else {
        v.push(105u8);
    }
    v.push(44u8);
    let mut tail = id.as_bytes_vec();
    v.append(&mut tail);
    proof {
        assert(v@ =~= request_bytes(storage, id@));
    }
    v
}

/// Interprets one reply: the `[]` literal means the record is absent; any
/// other reply carries a fixed five-byte header, skipped before the
/// remainder is handed to the domain record and parsed.  A reply too short
/// to carry the header is unprocessable.
pub fn apply_reply(iraw: &mut Individual, data: &[u8]) -> (r: StorageResult<()>)
    ensures
        data@ == not_found_reply() ==> r is NotFound && *final(iraw) == *old(iraw),
        data@ != not_found_reply() && data@.len() < 5 ==> r is UnprocessableEntity && *final(iraw)
            == *old(iraw),
        data@ != not_found_reply() && data@.len() >= 5 ==> {
            &&& individual_raw(final(iraw)) == data@.skip(5)
            &&& if parses(data@.skip(5)) {
                r is Success
            } else {
                r is UnprocessableEntity
            }
        },
{
    if data.len() == 2 && data[0] == 91u8 && data[1] == 93u8 {
        proof {
            assert(data@ =~= not_found_reply());
        }
        return StorageResult::NotFound;
    }
    proof {
        assert(data@ != not_found_reply());
    }
    if data.len() < 5 {
        return StorageResult::UnprocessableEntity;
    }
    let payload: &[u8] = &data[5..data.len()];
    proof {
        assert(payload@ =~= data@.skip(5));
    }
    individual_set_raw(iraw, payload);
    if individual_parse(iraw) {
        StorageResult::Success(())
    } else {
        StorageResult::UnprocessableEntity
    }
}

/// The remote client's connection state: a target address and a readiness
/// flag.  The library holds no socket; an application-side adapter owns the
/// transport, dials the address and carries the framed requests.
pub struct StorageROClient {
    pub addr: String,
    pub is_ready: bool,
}

impl StorageROClient {
    /// A client aimed at the given address, not yet connected.
    pub fn new(addr: &str) -> (r: Self)
        ensures
            r.addr@ == addr@,
            !r.is_ready,
    {
        StorageROClient { addr: addr.to_owned(), is_ready: false }
    }

    /// Records the outcome of the transport adapter's dial attempt.
    pub fn set_connected(&mut self, ok: bool)
        ensures
            final(self).is_ready == ok,
            final(self).addr == old(self).addr,
    {
        self.is_ready = ok;
    }

    /// One step of a fetch session, after the transport's round trip: no
    /// reply downgrades readiness so the next call re-dials, and a reply
    /// is interpreted by the wire protocol with readiness kept.
    pub fn handle_exchange(&mut self, reply: Option<&[u8]>, iraw: &mut Individual) -> (r:
        StorageResult<()>)
        ensures
            final(self).addr == old(self).addr,
            match reply {
                None => !final(self).is_ready && r is NotReady && *final(iraw) == *old(iraw),
                Some(data) => {
                    &&& final(self).is_ready == old(self).is_ready
                    &&& (data@ == not_found_reply() ==> r is NotFound && *final(iraw) == *old(iraw))
                    &&& (data@ != not_found_reply() && data@.len() < 5 ==> r
                        is UnprocessableEntity && *final(iraw) == *old(iraw))
                    &&& (data@ != not_found_reply() && data@.len() >= 5 ==> {
                        &&& individual_raw(final(iraw)) == data@.skip(5)
                        &&& if parses(data@.skip(5)) {
                            r is Success
                        } else {
                            r is UnprocessableEntity
                        }
                    })
                },
            },
    {
        match reply {
            Some(data) => apply_reply(iraw, data),
            None => {
                self.is_ready = false;
                StorageResult::NotReady
            },
        }
    }

    /// Fetching a record needs a transport round trip, which the library
    /// cannot perform itself: without one the backend is not usable.
    pub fn get_individual_from_db(
        &mut self,
        _db_id: StorageId,
        _id: &str,
        _iraw: &mut Individual,
    ) -> (r: StorageResult<()>)
        ensures
            r is NotReady,
            *final(self) == *old(self),
            *final(_iraw) == *old(_iraw),
    {
        StorageResult::NotReady
    }

    /// Counting is not offered by the remote service.
    pub fn count(&mut self, _storage: StorageId) -> (r: StorageResult<usize>)
        ensures
            (r matches StorageResult::Error(m) && m@ == "Remote storage does not support count"@),
            *final(self) == *old(self),
    {
        StorageResult::Error("Remote storage does not support count".to_string())
    }
}

impl Default for StorageROClient {
    /// A client with an empty address, not yet connected.
    fn default() -> (r: Self)
        ensures
            r.addr@ == Seq::<char>::empty(),
            !r.is_ready,
    {
        proof {
            reveal_strlit("");
        }
        StorageROClient { addr: "".to_owned(), is_ready: false }
    }
}

impl Storage for StorageROClient {
    open spec fn inv(&self) -> bool {
        true
    }

    open spec fn get_individual_post(
        pre: Self,
        storage: StorageId,
        id: Seq<char>,
        ipre: Individual,
        ipost: Individual,
        post: Self,
        r: StorageResult<()>,
    ) -> bool {
        post == pre && ipost == ipre && r is NotReady
    }

    open spec fn get_value_post(
        pre: Self,
        storage: StorageId,
        key: Seq<char>,
        post: Self,
        r: StorageResult<String>,
    ) -> bool {
        post == pre && (r matches StorageResult::Error(m) && m@
            == "Remote storage does not support get_value"@)
    }

    open spec fn get_raw_value_post(
        pre: Self,
        storage: StorageId,
        key: Seq<char>,
        post: Self,
        r: StorageResult<Vec<u8>>,
    ) -> bool {
        post == pre && (r matches StorageResult::Error(m) && m@
            == "Remote storage does not support get_raw_value"@)
    }

    open spec fn put_value_post(
        pre: Self,
        storage: StorageId,
        key: Seq<char>,
        val: Seq<char>,
        post: Self,
        r: StorageResult<()>,
    ) -> bool {
        post == pre && (r matches StorageResult::Error(m) && m@ == "Remote storage is read-only"@)
    }

    open spec fn put_raw_value_post(
        pre: Self,
        storage: StorageId,
        key: Seq<char>,
        val: Seq<u8>,
        post: Self,
        r: StorageResult<()>,
    ) -> bool {
        post == pre && (r matches StorageResult::Error(m) && m@ == "Remote storage is read-only"@)
    }

    open spec fn remove_value_post(
        pre: Self,
        storage: StorageId,
        key: Seq<char>,
        post: Self,
        r: StorageResult<()>,
    ) -> bool {
        post == pre && (r matches StorageResult::Error(m) && m@ == "Remote storage is read-only"@)
    }

    open spec fn count_post(
        pre: Self,
        storage: StorageId,
        post: Self,
        r: StorageResult<usize>,
    ) -> bool {
        post == pre && (r matches StorageResult::Error(m) && m@
            == "Remote storage does not support count"@)
    }

    fn get_individual(&mut self, storage: StorageId, id: &str, iraw: &mut Individual) -> (r:
        StorageResult<()>) {
        self.get_individual_from_db(storage, id, iraw)
    }

    fn get_value(&mut self, storage: StorageId, key: &str) -> (r: StorageResult<String>) {
        StorageResult::Error("Remote storage does not support get_value".to_string())
    }

    fn get_raw_value(&mut self, storage: StorageId, key: &str) -> (r: StorageResult<Vec<u8>>) {
        StorageResult::Error("Remote storage does not support get_raw_value".to_string())
    }

    fn put_value(&mut self, storage: StorageId, key: &str, val: &str) -> (r: StorageResult<()>) {
        StorageResult::Error("Remote storage is read-only".to_string())
    }

    fn put_raw_value(&mut self, storage: StorageId, key: &str, val: Vec<u8>) -> (r: StorageResult<
        (),
    >) {
        StorageResult::Error("Remote storage is read-only".to_string())
    }

    fn remove_value(&mut self, storage: StorageId, key: &str) -> (r: StorageResult<()>) {
        StorageResult::Error("Remote storage is read-only".to_string())
    }

    fn count(&mut self, storage: StorageId) -> (r: StorageResult<usize>) {
        StorageResult::Error("Remote storage does not support count".to_string())
    }
}

} // verus!
