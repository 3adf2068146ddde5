//! Both tiers in one process: a request served straight from a storage, with
//! nothing between the gateway and the storage service. What the two tiers
//! answer between them is stated here once, end to end.

use crate::gateway;
use crate::gateway::{load_response, load_response_view, store_response, Dispatch};
use crate::http::HttpStatus;
use crate::rpc::{Entry, LoadReply, LoadRequest, StoreRequest};
use crate::storage::{load_outcome, stored, InMemoryKeyValueStorage};
use vstd::prelude::*;

verus! {

/// What `POST /store` answers and what it leaves in the storage. `decoded` is
/// the entry that the body asks to store, or `None` where the body does not
/// decode.
pub open spec fn store_exchange(entries: Map<Seq<char>, Seq<char>>, decoded: Option<Entry>) -> (
    HttpStatus,
    Map<Seq<char>, Seq<char>>,
) {
    match decoded {
        Some(entry) => (store_response(Ok(())), stored(entries, entry)),
        None => (HttpStatus::BadRequest, entries),
    }
}

/// What `GET /load` answers. `decoded` is the key that the body asks for, or
/// `None` where the body does not decode.
pub open spec fn load_exchange(entries: Map<Seq<char>, Seq<char>>, decoded: Option<Seq<char>>) -> Result<
    Entry,
    HttpStatus,
> {
    match decoded {
        Some(key) => load_response(load_outcome(entries, key)),
        None => Err(HttpStatus::BadRequest),
    }
}

/// The entry that a decoded store body asks to store.
pub open spec fn store_body_view(decoded: Option<StoreRequest>) -> Option<Entry> {
    match decoded {
        Some(request) => Some(request@),
        None => None,
    }
}

/// The key that a decoded load body asks for.
pub open spec fn load_body_view(decoded: Option<LoadRequest>) -> Option<Seq<char>> {
    match decoded {
        Some(request) => Some(request.key@),
        None => None,
    }
}

/// Serves one `POST /store` from `storage` and returns the status of the
/// response.
pub fn serve_store(storage: &mut InMemoryKeyValueStorage, decoded: Option<StoreRequest>) -> (status:
    HttpStatus)
    ensures
        (status, final(storage)@) == store_exchange(old(storage)@, store_body_view(decoded)),
{
    match gateway::dispatch(decoded) {
        Dispatch::Forward(request) => {
            let reply_result = storage.store_key_value(request);
            gateway::store_key_value(reply_result)
        },
        Dispatch::Reject(status) => status,
    }
}

/// Serves one `GET /load` from `storage` and returns the reply that makes the
/// body of a 200 response, or the status of a response without a body.
pub fn serve_load(storage: &InMemoryKeyValueStorage, decoded: Option<LoadRequest>) -> (response:
    Result<LoadReply, HttpStatus>)
    ensures
        load_response_view(response) == load_exchange(storage@, load_body_view(decoded)),
{
    match gateway::dispatch(decoded) {
        Dispatch::Forward(request) => {
            let reply_result = storage.load_key_value(request);
            gateway::load_key_value(reply_result)
        },
        Dispatch::Reject(status) => Err(status),
    }
}

} // verus!
