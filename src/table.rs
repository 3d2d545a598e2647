use vstd::prelude::*;

use crate::debtrecord::DebtRecord;

verus! {

/// Why a store operation failed.
#[derive(Debug)]
pub enum StoreError {
    /// The store, or its table, could not be opened, created, read or dropped.
    StorageUnavailable(String),
    /// No record carries the requested id.
    NotFound,
    /// A record could not be inserted or deleted.
    WriteFailed(String),
}

/// Whether some row of `rows` carries `id`.
pub open spec fn has_id(rows: Seq<DebtRecord>, id: i64) -> bool {
    exists|i: int| 0 <= i < rows.len() && rows[i].id == id
}

/// `i` is the first position of `rows` whose row carries `id`.
pub open spec fn first_with_id(rows: Seq<DebtRecord>, id: i64, i: int) -> bool {
    &&& 0 <= i < rows.len()
    &&& rows[i].id == id
    &&& forall|j: int| 0 <= j < i ==> rows[j].id != id
}

/// `i` is the first position of `rows` whose id is the greatest of all.
pub open spec fn first_with_max_id(rows: Seq<DebtRecord>, i: int) -> bool {
    &&& 0 <= i < rows.len()
    &&& forall|j: int| 0 <= j < rows.len() ==> rows[j].id <= rows[i].id
    &&& forall|j: int| 0 <= j < i ==> rows[j].id < rows[i].id
}

/// Whether the ids of `rows` never decrease from first to last.
pub open spec fn ascending_or_equal(rows: Seq<DebtRecord>) -> bool {
    forall|i: int, j: int| 0 <= i < j < rows.len() ==> rows[i].id <= rows[j].id
}

/// `r` is what looking up `id` among `rows` gives: the first row that carries
/// `id`, or `NotFound` when none does.
pub open spec fn picks_entry(rows: Seq<DebtRecord>, id: i64, r: Result<DebtRecord, StoreError>) -> bool {
    &&& r is Ok <==> has_id(rows, id)
    &&& r is Err ==> r->Err_0 is NotFound
    &&& r is Ok ==> exists|i: int| first_with_id(rows, id, i) && r->Ok_0 == rows[i]
}

/// `r` is what taking the latest of `rows` gives: the first row with the
/// greatest id, or `NotFound` when there are no rows.
pub open spec fn picks_latest(rows: Seq<DebtRecord>, r: Result<DebtRecord, StoreError>) -> bool {
    &&& r is Ok <==> rows.len() > 0
    &&& r is Err ==> r->Err_0 is NotFound
    &&& r is Ok ==> exists|i: int| first_with_max_id(rows, i) && r->Ok_0 == rows[i]
}

/// The record that carries `id` among the rows a lookup returned:
/// the first such row, or `NotFound` when none does.
pub fn entry_with_id(rows: Vec<DebtRecord>, id: i64) -> (r: Result<DebtRecord, StoreError>)
    ensures
        picks_entry(rows@, id, r),
{
    let mut k: usize = 0;
    while k < rows.len()
        invariant
            0 <= k <= rows.len(),
            forall|j: int| 0 <= j < k ==> rows@[j].id != id,
        decreases rows.len() - k,
    {
        if rows[k].id == id {
            assert(first_with_id(rows@, id, k as int));
            let mut rows = rows;
            return Ok(rows.remove(k));
        }
        k = k + 1;
    }
    Err(StoreError::NotFound)
}

/// The row with the greatest id among `rows` (the first such, were two equal),
/// or `NotFound` when there are no rows.
pub fn latest_entry(rows: Vec<DebtRecord>) -> (r: Result<DebtRecord, StoreError>)
    ensures
        picks_latest(rows@, r),
{
    if rows.len() == 0 {
        return Err(StoreError::NotFound);
    }
    let mut best: usize = 0;
    let mut k: usize = 1;
    while k < rows.len()
        invariant
            1 <= k <= rows.len(),
            best < k,
            forall|j: int| 0 <= j < k ==> rows@[j].id <= rows@[best as int].id,
            forall|j: int| 0 <= j < best ==> rows@[j].id < rows@[best as int].id,
        decreases rows.len() - k,
    {
        if rows[k].id > rows[best].id {
            best = k;
        }
        k = k + 1;
    }
    assert(first_with_max_id(rows@, best as int));
    let mut rows = rows;
    Ok(rows.remove(best))
}

} // verus!
