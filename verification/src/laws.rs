//! What holds of the service as a whole, proved from the contracts of its
//! parts.
//!
//! A storage shared between tasks sits behind a readers-writer lock, so the
//! stores that reach it take effect one after another in the order the lock
//! grants. The laws on a sequence of stores hold of every sequence, hence of
//! every such order.

use crate::gateway::{http_status_for, load_response, store_response};
use crate::http::HttpStatus;
use crate::loopback::{load_exchange, store_exchange};
use crate::rpc::{Entry, RpcCode, RpcStatusView};
use crate::storage::{after_stores, load_outcome, stored};
use vstd::prelude::*;

verus! {

/// No two of `requests` store under the same key.
pub open spec fn keys_distinct(requests: Seq<Entry>) -> bool {
    forall|a: int, b: int|
        0 <= a < b < requests.len() ==> (#[trigger] requests[a]).key != (#[trigger] requests[b]).key
}

/// `requests` and `other` hold the same entries, in whatever order.
pub open spec fn same_entries(requests: Seq<Entry>, other: Seq<Entry>) -> bool {
    forall|entry: Entry| requests.contains(entry) <==> other.contains(entry)
}

/// A key that none of `requests` stores under leads, after them, to what it
/// led to before.
pub proof fn stores_leave_other_keys(
    entries: Map<Seq<char>, Seq<char>>,
    requests: Seq<Entry>,
    key: Seq<char>,
)
    requires
        forall|j: int| 0 <= j < requests.len() ==> (#[trigger] requests[j]).key != key,
    ensures
        load_outcome(after_stores(entries, requests), key) == load_outcome(entries, key),
    decreases requests.len(),
{
    if requests.len() > 0 {
        let earlier = requests.drop_last();
        assert forall|j: int| 0 <= j < earlier.len() implies (#[trigger] earlier[j]).key != key by {
            assert(earlier[j] == requests[j]);
        }
        stores_leave_other_keys(entries, earlier, key);
        assert(requests.last() == requests[requests.len() - 1]);
    }
}

/// After a sequence of stores, a load returns what the last store under its
/// key stored.
pub proof fn last_store_wins(entries: Map<Seq<char>, Seq<char>>, requests: Seq<Entry>, i: int)
    requires
        0 <= i < requests.len(),
        forall|j: int| i < j < requests.len() ==> (#[trigger] requests[j]).key != requests[i].key,
    ensures
        load_outcome(after_stores(entries, requests), requests[i].key) == Ok::<
            Entry,
            RpcStatusView,
        >(requests[i]),
    decreases requests.len(),
{
    let earlier = requests.drop_last();
    if i < requests.len() - 1 {
        assert(earlier[i] == requests[i]);
        assert forall|j: int| i < j < earlier.len() implies (#[trigger] earlier[j]).key
            != earlier[i].key by {
            assert(earlier[j] == requests[j]);
        }
        last_store_wins(entries, earlier, i);
        assert(requests.last() == requests[requests.len() - 1]);
    }
}

/// A store followed by a load of the same key: the store is answered 200 and
/// the load returns exactly the value that was stored, whatever was kept
/// before.
pub proof fn store_then_load(entries: Map<Seq<char>, Seq<char>>, entry: Entry)
    ensures
        load_outcome(stored(entries, entry), entry.key) == Ok::<Entry, RpcStatusView>(entry),
        store_exchange(entries, Some(entry)).0 == HttpStatus::Okay,
        load_exchange(store_exchange(entries, Some(entry)).1, Some(entry.key)) == Ok::<
            Entry,
            HttpStatus,
        >(entry),
{
}

/// Two stores under one key followed by a load: the load returns the second
/// value whole, and nothing of the first.
pub proof fn overwrite_keeps_last(
    entries: Map<Seq<char>, Seq<char>>,
    key: Seq<char>,
    first: Seq<char>,
    second: Seq<char>,
)
    ensures
        load_outcome(
            stored(stored(entries, Entry { key, value: first }), Entry { key, value: second }),
            key,
        ) == Ok::<Entry, RpcStatusView>(Entry { key, value: second }),
        load_exchange(
            store_exchange(
                store_exchange(entries, Some(Entry { key, value: first })).1,
                Some(Entry { key, value: second }),
            ).1,
            Some(key),
        ) == Ok::<Entry, HttpStatus>(Entry { key, value: second }),
{
}

/// A key that was never stored: the load fails with the not-found code, and
/// the gateway answers 404.
pub proof fn never_stored_is_not_found(requests: Seq<Entry>, key: Seq<char>)
    requires
        forall|j: int| 0 <= j < requests.len() ==> (#[trigger] requests[j]).key != key,
    ensures
        load_outcome(after_stores(Map::empty(), requests), key) matches Err(status)
            && status.code == RpcCode::NotFound,
        load_exchange(after_stores(Map::empty(), requests), Some(key)) == Err::<Entry, HttpStatus>(
            HttpStatus::NotFound,
        ),
        HttpStatus::NotFound.number() == 404,
{
    stores_leave_other_keys(Map::empty(), requests, key);
}

/// A body that does not decode is answered 400, and the storage keeps what
/// it kept.
pub proof fn undecodable_body_changes_nothing(entries: Map<Seq<char>, Seq<char>>)
    ensures
        store_exchange(entries, None) == (HttpStatus::BadRequest, entries),
        load_exchange(entries, None) == Err::<Entry, HttpStatus>(HttpStatus::BadRequest),
        HttpStatus::BadRequest.number() == 400,
{
}

/// A call that fails with `status` is answered with the HTTP status that
/// goes with its code, on either route, and that status is the one whose
/// number stands in the table at the number of the code.
pub proof fn failure_is_answered_by_the_table(status: RpcStatusView)
    ensures
        store_response(Err(status)) == http_status_for(status.code),
        load_response(Err(status)) == Err::<Entry, HttpStatus>(http_status_for(status.code)),
        http_status_for(status.code).number() == seq![
            200int,
            408,
            500,
            400,
            504,
            404,
            409,
            403,
            429,
            412,
            409,
            400,
            501,
            500,
            503,
            500,
            401,
        ][status.code.number()],
{
}

/// A number off the wire that names no code is answered 500.
pub proof fn unmapped_code_is_internal_error(n: int)
    requires
        n < 0 || n > 16,
    ensures
        http_status_for(RpcCode::of_number(n)) == HttpStatus::InternalServerError,
        HttpStatus::InternalServerError.number() == 500,
{
    RpcCode::of_number_defaults_to_unknown(n);
}

/// Stores under distinct keys, in whatever order they take effect: afterwards
/// every one of the keys loads the value stored under it. No store is lost.
pub proof fn distinct_stores_all_load(
    entries: Map<Seq<char>, Seq<char>>,
    requests: Seq<Entry>,
    i: int,
)
    requires
        keys_distinct(requests),
        0 <= i < requests.len(),
    ensures
        load_outcome(after_stores(entries, requests), requests[i].key) == Ok::<
            Entry,
            RpcStatusView,
        >(requests[i]),
        load_exchange(after_stores(entries, requests), Some(requests[i].key)) == Ok::<
            Entry,
            HttpStatus,
        >(requests[i]),
{
    last_store_wins(entries, requests, i);
}

/// Stores under distinct keys leave the same entries in whatever order they
/// take effect.
pub proof fn store_order_does_not_matter(
    entries: Map<Seq<char>, Seq<char>>,
    requests: Seq<Entry>,
    other: Seq<Entry>,
)
    requires
        keys_distinct(requests),
        keys_distinct(other),
        same_entries(requests, other),
    ensures
        after_stores(entries, requests) == after_stores(entries, other),
{
    let left = after_stores(entries, requests);
    let right = after_stores(entries, other);
    assert forall|key: Seq<char>|
        (#[trigger] left.dom().contains(key)) == right.dom().contains(key) && (left.dom().contains(
            key,
        ) ==> left[key] == right[key]) by {
        if exists|i: int| 0 <= i < requests.len() && (#[trigger] requests[i]).key == key {
            let i = choose|i: int| 0 <= i < requests.len() && (#[trigger] requests[i]).key == key;
            assert(requests.contains(requests[i]));
            assert(other.contains(requests[i]));
            let j = choose|j: int| 0 <= j < other.len() && other[j] == requests[i];
            distinct_stores_all_load(entries, requests, i);
            distinct_stores_all_load(entries, other, j);
        } else {
            assert forall|j: int| 0 <= j < other.len() implies (#[trigger] other[j]).key != key by {
                assert(other.contains(other[j]));
                assert(requests.contains(other[j]));
                let i = choose|i: int| 0 <= i < requests.len() && requests[i] == other[j];
                assert(requests[i].key == key ==> false);
            }
            stores_leave_other_keys(entries, requests, key);
            stores_leave_other_keys(entries, other, key);
        }
    }
    assert(left =~= right);
}

} // verus!
