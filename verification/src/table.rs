//! The table of redirects: a map from identifier to target URL and owner in which an
//! identifier, once recorded, is never overwritten or removed.

use vstd::prelude::*;
use vstd::hash_map::StringHashMap;
use vstd::string::*;
use crate::error::StorageError;

verus! {

/// What is recorded under an identifier.
pub struct Redirect {
    /// Where the identifier leads. Kept as given.
    pub target_url: String,
    /// Who asked for the redirect. Kept as given and never checked.
    pub owner: String,
}

/// A redirect as the contracts see it.
pub struct RedirectView {
    pub target_url: Seq<char>,
    pub owner: Seq<char>,
}

impl View for Redirect {
    type V = RedirectView;

    open spec fn view(&self) -> RedirectView {
        RedirectView { target_url: self.target_url@, owner: self.owner@ }
    }
}

/// What a lookup of `id` returns from a table that holds `records`.
pub open spec fn lookup_outcome(records: Map<Seq<char>, RedirectView>, id: Seq<char>) -> Result<
    Seq<char>,
    StorageError,
> {
    if records.contains_key(id) {
        Ok(records[id].target_url)
    } else {
        Err(StorageError::NotFound)
    }
}

/// What a store under `id` returns from a table that holds `records`.
pub open spec fn store_outcome(records: Map<Seq<char>, RedirectView>, id: Seq<char>) -> Result<
    (),
    StorageError,
> {
    if records.contains_key(id) {
        Err(StorageError::AlreadyExists)
    } else {
        Ok(())
    }
}

/// What a table that held `records` holds after a store: one more record if `id` was free,
/// the same records if it was taken.
pub open spec fn records_after_store(
    records: Map<Seq<char>, RedirectView>,
    id: Seq<char>,
    url: Seq<char>,
    owner: Seq<char>,
) -> Map<Seq<char>, RedirectView> {
    if records.contains_key(id) {
        records
    } else {
        records.insert(id, RedirectView { target_url: url, owner })
    }
}

/// The redirects of one process, keyed by identifier.
pub struct RedirectTable {
    entries: StringHashMap<Redirect>,
}

impl View for RedirectTable {
    type V = Map<Seq<char>, RedirectView>;

    closed spec fn view(&self) -> Map<Seq<char>, RedirectView> {
        self.entries@.map_values(|r: Redirect| r@)
    }
}

impl RedirectTable {
    /// A table without records.
    pub fn new() -> (table: Self)
        ensures
            table@ == Map::<Seq<char>, RedirectView>::empty(),
    {
        let table = RedirectTable { entries: StringHashMap::new() };
        assert(table@ =~= Map::<Seq<char>, RedirectView>::empty());
        table
    }

    /// The target URL recorded under exactly `id`, or `NotFound`.
    pub fn lookup(&self, id: &str) -> (result: Result<String, StorageError>)
        ensures
            match result {
                Ok(url) => lookup_outcome(self@, id@) == Ok::<Seq<char>, StorageError>(url@),
                Err(e) => lookup_outcome(self@, id@) == Err::<Seq<char>, StorageError>(e),
            },
    {
        match self.entries.get(id) {
            Some(redirect) => Ok(redirect.target_url.clone()),
            None => Err(StorageError::NotFound),
        }
    }

    /// Records `url` and `owner` under `id` if `id` is free; otherwise leaves the table as it
    /// is and returns `AlreadyExists`.
    pub fn store(&mut self, id: &str, url: &str, owner: &str) -> (result: Result<(), StorageError>)
        ensures
            result == store_outcome(old(self)@, id@),
            final(self)@ == records_after_store(old(self)@, id@, url@, owner@),
    {
        if self.entries.contains_key(id) {
            Err(StorageError::AlreadyExists)
        } else {
            let redirect = Redirect { target_url: url.to_string(), owner: owner.to_string() };
            self.entries.insert(id.to_string(), redirect);
            assert(self@ =~= old(self)@.insert(id@, redirect@));
            Ok(())
        }
    }
}

} // verus!
