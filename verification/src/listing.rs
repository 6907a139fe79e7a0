//! Listings: reading all rows of a query, or none.

use vstd::prelude::*;
use crate::error::RowError;

verus! {

/// Whether `k` is the first place in `results` that holds an error.
pub open spec fn is_first_failure<T>(results: Seq<Result<T, RowError>>, k: int) -> bool {
    &&& 0 <= k < results.len()
    &&& results[k] is Err
    &&& forall|j: int| 0 <= j < k ==> (#[trigger] results[j]) is Ok
}

/// The outcome of a listing, given the outcome of each of its rows: all the
/// values in order where every row was read, else the error of the first row
/// that was not.
pub open spec fn collect<T>(results: Seq<Result<T, RowError>>) -> Result<Seq<T>, RowError> {
    if exists|k: int| is_first_failure(results, k) {
        let k = choose|k: int| is_first_failure(results, k);
        Err(results[k]->Err_0)
    } else {
        Ok(Seq::new(results.len(), |i: int| results[i]->Ok_0))
    }
}

/// Where every row was read, the listing is the values in order.
pub proof fn lemma_collect_all<T>(results: Seq<Result<T, RowError>>, values: Seq<T>)
    requires
        values.len() == results.len(),
        forall|i: int| 0 <= i < results.len() ==> (#[trigger] results[i]) == Ok::<T, RowError>(
            values[i],
        ),
    ensures
        collect(results) == Ok::<Seq<T>, RowError>(values),
{
    if exists|k: int| is_first_failure(results, k) {
        let k = choose|k: int| is_first_failure(results, k);
        assert(results[k] is Ok);
    }
    assert(values =~= Seq::new(results.len(), |i: int| results[i]->Ok_0));
}

/// Where row `k` is the first that was not read, the listing fails with the
/// error of row `k`.
pub proof fn lemma_collect_first_failure<T>(results: Seq<Result<T, RowError>>, k: int)
    requires
        is_first_failure(results, k),
    ensures
        collect(results) == Err::<Seq<T>, RowError>(results[k]->Err_0),
{
    let chosen = choose|k: int| is_first_failure(results, k);
    if chosen < k {
        assert(results[chosen] is Ok);
    } else if k < chosen {
        assert(results[k] is Ok);
    }
}

/// A listing that succeeds holds, for every row, what that row reads as.
pub proof fn lemma_collect_each<T>(results: Seq<Result<T, RowError>>, i: int)
    requires
        collect(results) is Ok,
        0 <= i < results.len(),
    ensures
        collect(results)->Ok_0.len() == results.len(),
        results[i] == Ok::<T, RowError>(collect(results)->Ok_0[i]),
{
    if results[i] is Err {
        lemma_has_first_failure(results, i);
    }
}

/// Where some row was not read, there is a first such row.
proof fn lemma_has_first_failure<T>(results: Seq<Result<T, RowError>>, i: int)
    requires
        0 <= i < results.len(),
        results[i] is Err,
    ensures
        exists|k: int| is_first_failure(results, k),
    decreases i,
{
    if exists|j: int| 0 <= j < i && (#[trigger] results[j]) is Err {
        let j = choose|j: int| 0 <= j < i && (#[trigger] results[j]) is Err;
        lemma_has_first_failure(results, j);
    } else {
        assert(is_first_failure(results, i));
    }
}

} // verus!
