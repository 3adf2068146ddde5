//! The storage tier: the entries kept in memory, and the two remote
//! procedures that the storage service answers from them.
//!
//! Writing takes `&mut self` and reading takes `&self`, so a caller that
//! shares one storage between tasks has to put it behind a readers-writer
//! lock: many loads may run side by side, a store runs alone. Whatever order
//! the lock grants, the calls take effect one after another, and the
//! contracts below speak of that order.

use crate::rpc::{Entry, LoadReply, LoadRequest, RpcCode, RpcStatus, RpcStatusView, StoreRequest};
use crate::rpc::load_result_view;
use vstd::hash_map::StringHashMap;
use vstd::prelude::*;

verus! {

/// What a load call is told when no entry is kept under its key.
pub const NO_ENTRY_MESSAGE: &'static str = "There is no entry under provided key";

/// The entries after `entry` has been stored: its key now leads to its
/// value, every other key to what it led to before.
pub open spec fn stored(entries: Map<Seq<char>, Seq<char>>, entry: Entry) -> Map<
    Seq<char>,
    Seq<char>,
> {
    entries.insert(entry.key, entry.value)
}

/// What a load of `key` returns from `entries`: the entry kept under the key,
/// or the not-found status where there is none.
pub open spec fn load_outcome(entries: Map<Seq<char>, Seq<char>>, key: Seq<char>) -> Result<
    Entry,
    RpcStatusView,
> {
    if entries.contains_key(key) {
        Ok(Entry { key, value: entries[key] })
    } else {
        Err(RpcStatusView { code: RpcCode::NotFound, message: NO_ENTRY_MESSAGE@ })
    }
}

/// The entries after each of `requests` has been stored, the first of them
/// first.
pub open spec fn after_stores(entries: Map<Seq<char>, Seq<char>>, requests: Seq<Entry>) -> Map<
    Seq<char>,
    Seq<char>,
>
    decreases requests.len(),
{
    if requests.len() == 0 {
        entries
    } else {
        stored(after_stores(entries, requests.drop_last()), requests.last())
    }
}

/// Keeps the entries in memory for as long as the process lives.
pub struct InMemoryKeyValueStorage {
    map: StringHashMap<String>,
}

impl View for InMemoryKeyValueStorage {
    type V = Map<Seq<char>, Seq<char>>;

    /// The entries kept: each key with the one value under it.
    closed spec fn view(&self) -> Map<Seq<char>, Seq<char>> {
        self.map@.map_values(|value: String| value@)
    }
}

impl InMemoryKeyValueStorage {
    /// A storage that keeps no entry yet.
    pub fn new() -> (storage: Self)
        ensures
            storage@ == Map::<Seq<char>, Seq<char>>::empty(),
    {
        let storage = InMemoryKeyValueStorage { map: StringHashMap::new() };
        assert(storage@ =~= Map::<Seq<char>, Seq<char>>::empty());
        storage
    }

    /// Keeps `value` under `key`, in place of what was kept there before.
    pub fn put(&mut self, key: String, value: String)
        ensures
            final(self)@ == old(self)@.insert(key@, value@),
    {
        let ghost k = key@;
        let ghost v = value@;
        self.map.insert(key, value);
        assert(self@ =~= old(self)@.insert(k, v));
    }

    /// The value kept under `key`, if there is one.
    pub fn get(&self, key: &str) -> (value: Option<String>)
        ensures
            match value {
                Some(found) => self@.contains_key(key@) && found@ == self@[key@],
                None => !self@.contains_key(key@),
            },
    {
        match self.map.get(key) {
            Some(found) => Some(found.clone()),
            None => None,
        }
    }

    /// The remote procedure that stores an entry. It always succeeds.
    pub fn store_key_value(&mut self, request: StoreRequest) -> (result: Result<(), RpcStatus>)
        ensures
            result is Ok,
            final(self)@ == stored(old(self)@, request@),
    {
        self.put(request.key, request.value);
        Ok(())
    }

    /// The remote procedure that loads an entry: it answers with the key and
    /// the value kept under it, or with the not-found status where no entry is
    /// kept under the key.
    pub fn load_key_value(&self, request: LoadRequest) -> (result: Result<LoadReply, RpcStatus>)
        ensures
            load_result_view(result) == load_outcome(self@, request.key@),
    {
        let key = request.key;
        match self.get(key.as_str()) {
            Some(value) => Ok(LoadReply { key, value }),
            None => Err(RpcStatus::not_found(NO_ENTRY_MESSAGE)),
        }
    }
}

impl Default for InMemoryKeyValueStorage {
    fn default() -> (storage: Self)
        ensures
            storage@ == Map::<Seq<char>, Seq<char>>::empty(),
    {
        InMemoryKeyValueStorage::new()
    }
}

} // verus!
