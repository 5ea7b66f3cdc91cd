//! The storage that the service keeps its redirects in: what every storage offers, and the
//! one kept in memory behind a single reader/writer lock.

use vstd::prelude::*;
use vstd::string::*;
use std::sync::RwLock;
use crate::error::StorageError;
use crate::lock::{guarded, guarded_mut, made_around, new_lock, read_lock, write_lock};
use crate::table::{lookup_outcome, store_outcome, RedirectTable, RedirectView};

verus! {

/// What a lookup returned, with the URL as the contracts see it.
pub open spec fn found_view(result: Result<String, StorageError>) -> Result<
    Seq<char>,
    StorageError,
> {
    match result {
        Ok(url) => Ok(url@),
        Err(e) => Err(e),
    }
}

/// A place that keeps redirects and may be shared between threads. What a call returns depends
/// on what other holders of the storage did before it, so a storage says of each call only
/// which results it can give, whatever it holds at the time.
pub trait Storage: Send + Sync {
    /// Whether a lookup of `id` can return `found`. Unless a storage says otherwise, it can
    /// return anything.
    open spec fn lookup_may_return(
        &self,
        id: Seq<char>,
        found: Result<Seq<char>, StorageError>,
    ) -> bool {
        true
    }

    /// Whether a store of `url` and `owner` under `id` can return `stored`. Unless a storage
    /// says otherwise, it can return anything.
    open spec fn store_may_return(
        &self,
        id: Seq<char>,
        url: Seq<char>,
        owner: Seq<char>,
        stored: Result<(), StorageError>,
    ) -> bool {
        true
    }

    /// The target URL recorded under exactly `id`. Fails with `NotFound` if there is none and
    /// with `InternalError` if the storage cannot be used.
    fn lookup(&self, id: &str) -> (result: Result<String, StorageError>)
        ensures
            self.lookup_may_return(id@, found_view(result)),
            !(result matches Err(StorageError::AlreadyExists)),
    ;

    /// Records `url` and `owner` under `id`. Fails with `AlreadyExists` if `id` is taken, and
    /// never overwrites; fails with `InternalError` if the storage cannot be used.
    fn store(&self, id: &str, url: &str, owner: &str) -> (result: Result<(), StorageError>)
        ensures
            self.store_may_return(id@, url@, owner@, result),
            !(result matches Err(StorageError::NotFound)),
    ;
}

/// A table of redirects behind one lock for the whole table. It lives as long as the process.
///
/// A lookup holds the lock for reading, so lookups run side by side; a store holds it for
/// writing, alone. Each call takes the lock once and gives it up before it returns, and the
/// lock is reachable through these calls only, so no thread asks for it while holding it.
pub struct InMemoryStorage {
    data: RwLock<RedirectTable>,
}

impl InMemoryStorage {
    /// The records that the storage began with. What it holds at a later time depends on the
    /// stores that were made since, by any holder of the storage.
    pub closed spec fn initial_records(&self) -> Map<Seq<char>, RedirectView> {
        made_around(self.data)
    }

    /// A storage that begins without records: its lock is made around an empty table.
    pub fn new() -> (storage: Self)
        ensures
            storage.initial_records() == Map::<Seq<char>, RedirectView>::empty(),
    {
        InMemoryStorage { data: new_lock(RedirectTable::new()) }
    }
}

impl Storage for InMemoryStorage {
    /// A lookup returns what the table under the lock gives for `id`, whichever table the
    /// other holders of the storage have left there, or `InternalError` if the lock is
    /// poisoned.
    open spec fn lookup_may_return(
        &self,
        id: Seq<char>,
        found: Result<Seq<char>, StorageError>,
    ) -> bool {
        ||| found matches Err(StorageError::InternalError(_))
        ||| exists|records: Map<Seq<char>, RedirectView>|
            found == #[trigger] lookup_outcome(records, id)
    }

    /// A store returns what the table under the lock gives for `id`, whichever table the
    /// other holders of the storage have left there, or `InternalError` if the lock is
    /// poisoned.
    open spec fn store_may_return(
        &self,
        id: Seq<char>,
        url: Seq<char>,
        owner: Seq<char>,
        stored: Result<(), StorageError>,
    ) -> bool {
        ||| stored matches Err(StorageError::InternalError(_))
        ||| exists|records: Map<Seq<char>, RedirectView>|
            stored == #[trigger] store_outcome(records, id)
    }

    /// Takes the lock for reading and looks `id` up in the table found under it.
    fn lookup(&self, id: &str) -> (result: Result<String, StorageError>) {
        match read_lock(&self.data) {
            Ok(guard) => {
                let table = guarded(&guard);
                let result = table.lookup(id);
                assert(found_view(result) == lookup_outcome(table@, id@));
                result
            },
            Err(poisoned) => Err(StorageError::InternalError(poisoned.to_string())),
        }
    }

    /// Takes the lock for writing and holds it over both the test for `id` and the insertion,
    /// so that of two stores under one identifier only one can find it free.
    fn store(&self, id: &str, url: &str, owner: &str) -> (result: Result<(), StorageError>) {
        match write_lock(&self.data) {
            Ok(mut guard) => {
                let table = guarded_mut(&mut guard);
                let ghost before = table@;
                let result = table.store(id, url, owner);
                assert(result == store_outcome(before, id@));
                result
            },
            Err(poisoned) => Err(StorageError::InternalError(poisoned.to_string())),
        }
    }
}

} // verus!
