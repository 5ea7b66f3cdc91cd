//! What holds of a table of redirects over any run of calls: a recorded redirect stays as it
//! was recorded, and an identifier that nobody stored stays unknown.

use vstd::prelude::*;
use crate::error::StorageError;
use crate::table::{lookup_outcome, records_after_store, store_outcome, RedirectView};

verus! {

/// One call on a table of redirects.
pub enum Operation {
    /// A lookup of `id`.
    Lookup { id: Seq<char> },
    /// A store of `url` and `owner` under `id`.
    Store { id: Seq<char>, url: Seq<char>, owner: Seq<char> },
}

impl Operation {
    /// Whether this is a store under `id`.
    pub open spec fn stores(self, id: Seq<char>) -> bool {
        self matches Operation::Store { id: stored, .. } && stored == id
    }
}

/// The records after one call on a table that held `records`. A lookup changes nothing.
pub open spec fn records_after(records: Map<Seq<char>, RedirectView>, op: Operation) -> Map<
    Seq<char>,
    RedirectView,
> {
    match op {
        Operation::Lookup { .. } => records,
        Operation::Store { id, url, owner } => records_after_store(records, id, url, owner),
    }
}

/// The records after the calls `ops`, made one after the other in this order on a table that
/// held `records`.
pub open spec fn records_after_all(
    records: Map<Seq<char>, RedirectView>,
    ops: Seq<Operation>,
) -> Map<Seq<char>, RedirectView>
    decreases ops.len(),
{
    if ops.len() == 0 {
        records
    } else {
        records_after(records_after_all(records, ops.drop_last()), ops.last())
    }
}

/// What the store `ops[k]` returns when the calls `ops` are made in this order on a table that
/// held `records`.
pub open spec fn store_outcome_at(
    records: Map<Seq<char>, RedirectView>,
    ops: Seq<Operation>,
    k: int,
) -> Result<(), StorageError>
    recommends
        0 <= k < ops.len(),
        ops[k] is Store,
{
    store_outcome(records_after_all(records, ops.take(k)), ops[k]->Store_id)
}

/// A store under a free identifier succeeds, and a lookup of that identifier then returns the
/// URL that was stored.
pub proof fn law_store_then_lookup(
    records: Map<Seq<char>, RedirectView>,
    id: Seq<char>,
    url: Seq<char>,
    owner: Seq<char>,
)
    requires
        !records.contains_key(id),
    ensures
        store_outcome(records, id) == Ok::<(), StorageError>(()),
        lookup_outcome(records_after_store(records, id, url, owner), id) == Ok::<
            Seq<char>,
            StorageError,
        >(url),
{
}

/// A store under an identifier that is taken fails with `AlreadyExists` and changes neither the
/// table nor what a lookup of that identifier returns.
pub proof fn law_second_store_rejected(
    records: Map<Seq<char>, RedirectView>,
    id: Seq<char>,
    url: Seq<char>,
    owner: Seq<char>,
)
    requires
        records.contains_key(id),
    ensures
        store_outcome(records, id) == Err::<(), StorageError>(StorageError::AlreadyExists),
        records_after_store(records, id, url, owner) == records,
        lookup_outcome(records_after_store(records, id, url, owner), id) == lookup_outcome(
            records,
            id,
        ),
{
}

/// Whatever calls are made, a lookup of an identifier that the table did not hold and that none
/// of the calls stored fails with `NotFound`.
pub proof fn law_never_stored_not_found(
    records: Map<Seq<char>, RedirectView>,
    ops: Seq<Operation>,
    id: Seq<char>,
)
    requires
        !records.contains_key(id),
        forall|k: int| 0 <= k < ops.len() ==> !(#[trigger] ops[k]).stores(id),
    ensures
        lookup_outcome(records_after_all(records, ops), id) == Err::<Seq<char>, StorageError>(
            StorageError::NotFound,
        ),
    decreases ops.len(),
{
    if ops.len() > 0 {
        let earlier = ops.drop_last();
        assert forall|k: int| 0 <= k < earlier.len() implies !(#[trigger] earlier[k]).stores(
            id,
        ) by {
            assert(earlier[k] == ops[k]);
        }
        law_never_stored_not_found(records, earlier, id);
        assert(!ops.last().stores(id));
    }
}

/// Whatever calls are made, lookups and stores alike, a lookup of an identifier that the table
/// holds returns the URL that it returned before them.
pub proof fn law_recorded_redirect_stays(
    records: Map<Seq<char>, RedirectView>,
    ops: Seq<Operation>,
    id: Seq<char>,
)
    requires
        records.contains_key(id),
    ensures
        records_after_all(records, ops).contains_key(id),
        records_after_all(records, ops)[id] == records[id],
        lookup_outcome(records_after_all(records, ops), id) == lookup_outcome(records, id),
    decreases ops.len(),
{
    if ops.len() > 0 {
        law_recorded_redirect_stays(records, ops.drop_last(), id);
    }
}

/// Calls that are all lookups leave the table as it was.
pub proof fn law_lookups_change_nothing(records: Map<Seq<char>, RedirectView>, ops: Seq<Operation>)
    requires
        forall|k: int| 0 <= k < ops.len() ==> (#[trigger] ops[k]) is Lookup,
    ensures
        records_after_all(records, ops) == records,
    decreases ops.len(),
{
    if ops.len() > 0 {
        let earlier = ops.drop_last();
        assert forall|k: int| 0 <= k < earlier.len() implies (#[trigger] earlier[k]) is Lookup by {
            assert(earlier[k] == ops[k]);
        }
        law_lookups_change_nothing(records, earlier);
        assert(ops.last() is Lookup);
    }
}

/// Of any number of stores under one free identifier, made in any order one after the other,
/// the first succeeds and every other fails with `AlreadyExists`; a lookup of the identifier
/// then returns the URL of the first.
pub proof fn law_first_store_wins(
    records: Map<Seq<char>, RedirectView>,
    ops: Seq<Operation>,
    id: Seq<char>,
)
    requires
        !records.contains_key(id),
        ops.len() > 0,
        forall|k: int| 0 <= k < ops.len() ==> (#[trigger] ops[k]).stores(id),
    ensures
        store_outcome_at(records, ops, 0) == Ok::<(), StorageError>(()),
        forall|k: int|
            1 <= k < ops.len() ==> #[trigger] store_outcome_at(records, ops, k) == Err::<
                (),
                StorageError,
            >(StorageError::AlreadyExists),
        lookup_outcome(records_after_all(records, ops), id) == Ok::<Seq<char>, StorageError>(
            ops[0]->Store_url,
        ),
{
    let first = ops.take(1);
    assert(first.drop_last() =~= Seq::<Operation>::empty());
    assert(first.last() == ops[0]);
    assert(ops[0].stores(id));
    assert(ops.take(0) =~= Seq::<Operation>::empty());
    let after_first = records_after_all(records, first);
    assert(after_first == records.insert(
        id,
        RedirectView { target_url: ops[0]->Store_url, owner: ops[0]->Store_owner },
    ));
    assert forall|k: int| 1 <= k <= ops.len() implies {
        &&& records_after_all(records, #[trigger] ops.take(k)).contains_key(id)
        &&& records_after_all(records, ops.take(k))[id].target_url == ops[0]->Store_url
    } by {
        lemma_split_run(records, ops.take(k), 1);
        assert(ops.take(k).take(1) =~= first);
        law_recorded_redirect_stays(after_first, ops.take(k).skip(1), id);
    }
    assert forall|k: int| 1 <= k < ops.len() implies #[trigger] store_outcome_at(records, ops, k)
        == Err::<(), StorageError>(StorageError::AlreadyExists) by {
        assert(ops[k].stores(id));
        assert(records_after_all(records, ops.take(k)).contains_key(id));
    }
    assert(ops.take(ops.len() as int) =~= ops);
}

/// Making the calls `ops` is making the first `n` of them and then the rest.
proof fn lemma_split_run(records: Map<Seq<char>, RedirectView>, ops: Seq<Operation>, n: int)
    requires
        0 <= n <= ops.len(),
    ensures
        records_after_all(records, ops) == records_after_all(
            records_after_all(records, ops.take(n)),
            ops.skip(n),
        ),
    decreases ops.len(),
{
    if n == ops.len() {
        assert(ops.take(n) =~= ops);
        assert(ops.skip(n) =~= Seq::<Operation>::empty());
    } else {
        let earlier = ops.drop_last();
        lemma_split_run(records, earlier, n);
        assert(earlier.take(n) =~= ops.take(n));
        assert(ops.skip(n).drop_last() =~= earlier.skip(n));
        assert(ops.skip(n).last() == ops.last());
    }
}

} // verus!
