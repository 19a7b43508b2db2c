//! Fail-fast collection of a batch's fetch results.
//!
//! A batch of `n` asset references is fetched concurrently outside the
//! library; each finished fetch yields a completion carrying the
//! asset's original position and either its raw bytes or an error. The
//! stage inspects completions in the order they finished: the first
//! error aborts the whole batch, discarding every fetched byte; only
//! when every position reports success does the stage return the dense
//! byte list, in original order.

use vstd::prelude::*;
use vstd::set::axiom_set_insert_len;
use vstd::set_lib::{lemma_int_range, lemma_subset_equality, set_int_range};

verus! {

/// Why a whole batch was aborted: a concurrency permit could not be
/// acquired, a fetch failed (transport error or error status), or a
/// spawned fetch task could not be awaited.
#[derive(Clone, Copy, Debug, PartialEq, Eq, Structural)]
pub enum FetchError {
    Permit,
    Http,
    TaskJoin,
}

/// One finished fetch: the original position of the asset in its batch,
/// and the fetched bytes or the error that ended the fetch.
pub struct FetchCompletion {
    pub index: usize,
    pub outcome: Result<Vec<u8>, FetchError>,
}

/// The completions of one batch of `n` fetches: one per spawned fetch,
/// in finish order, with each original position reported exactly once.
pub open spec fn completions_well_formed(cs: Seq<FetchCompletion>, n: int) -> bool {
    &&& cs.len() == n
    &&& (forall|i: int| 0 <= i < n ==> (#[trigger] cs[i].index) < n)
    &&& (forall|i: int, j: int| 0 <= i < j < n ==> cs[i].index != cs[j].index)
}

/// Whether some fetch of the batch failed.
pub open spec fn has_failure(cs: Seq<FetchCompletion>) -> bool {
    exists|i: int| 0 <= i < cs.len() && cs[i].outcome is Err
}

/// Position `i` holds the first failure observed in completion order.
pub open spec fn first_failure_at(cs: Seq<FetchCompletion>, i: int) -> bool {
    &&& 0 <= i < cs.len()
    &&& cs[i].outcome is Err
    &&& (forall|j: int| 0 <= j < i ==> cs[j].outcome is Ok)
}

fn clone_bytes(v: &Vec<u8>) -> (r: Vec<u8>)
    ensures
        r@ == v@,
{
    let r = v.clone();
    proof {
        assert(r@ =~= v@);
    }
    r
}

/// Reassembles a batch's fetch completions into the dense byte list, in
/// original order. The first failure in completion order aborts the
/// batch and is returned as the batch's error; otherwise every position
/// is filled and the bytes at position `k` are the bytes fetched for
/// asset `k`.
pub fn collect_fetch_results(n: usize, completions: &Vec<FetchCompletion>) -> (r: Result<
    Vec<Vec<u8>>,
    FetchError,
>)
    requires
        completions_well_formed(completions@, n as int),
    ensures
        r is Err <==> has_failure(completions@),
        r matches Err(e) ==> exists|i: int|
            first_failure_at(completions@, i) && completions@[i].outcome->Err_0 == e,
        r matches Ok(out) ==> out@.len() == n && forall|i: int|
            0 <= i < n ==> out@[completions@[i].index as int]@ == completions@[i].outcome->Ok_0@,
{
    let m = completions.len();
    let mut slots: Vec<Option<Vec<u8>>> = Vec::new();
    let mut k: usize = 0;
    while k < n
        invariant
            k <= n,
            slots@.len() == k,
            forall|t: int| 0 <= t < k ==> slots@[t] is None,
        decreases n - k,
    {
        slots.push(None);
        k += 1;
    }

    let ghost mut filled: Set<int> = Set::empty();
    let mut i: usize = 0;
    while i < m
        invariant
            m == completions@.len(),
            completions_well_formed(completions@, n as int),
            i <= m,
            slots@.len() == n,
            forall|j: int| 0 <= j < i ==> (#[trigger] completions@[j].outcome) is Ok,
            forall|j: int|
                0 <= j < i ==> ((#[trigger] slots@[completions@[j].index as int]) matches Some(b)
                    && b@ == completions@[j].outcome->Ok_0@),
            forall|t: int| 0 <= t < n ==> ((#[trigger] slots@[t]) is Some <==> filled.contains(t)),
            forall|t: int| #[trigger]
                filled.contains(t) ==> exists|j: int|
                    0 <= j < i && completions@[j].index == t,
            filled.finite(),
            filled.len() == i,
        decreases m - i,
    {
        let c = &completions[i];
        match &c.outcome {
            Result::Ok(bytes) => {
                let copy = clone_bytes(bytes);
                let idx = c.index;
                proof {
                    assert(!filled.contains(idx as int));
                    axiom_set_insert_len(filled, idx as int);
                    filled = filled.insert(idx as int);
                }
                slots.set(idx, Some(copy));
            },
            Result::Err(e) => {
                proof {
                    assert(first_failure_at(completions@, i as int));
                }
                return Result::Err(*e);
            },
        }
        i += 1;
    }

    proof {
        assert(filled.subset_of(set_int_range(0, n as int)));
        lemma_int_range(0, n as int);
        lemma_subset_equality(filled, set_int_range(0, n as int));
        assert forall|t: int| 0 <= t < n implies (#[trigger] slots@[t]) is Some by {
            assert(set_int_range(0, n as int).contains(t));
            assert(filled.contains(t));
        }
    }

    let mut out: Vec<Vec<u8>> = Vec::new();
    let mut k2: usize = 0;
    while k2 < n
        invariant
            k2 <= n,
            slots@.len() == n,
            out@.len() == k2,
            forall|t: int| 0 <= t < n ==> (#[trigger] slots@[t]) is Some,
            forall|t: int| 0 <= t < k2 ==> (#[trigger] out@[t])@ == slots@[t]->0@,
        decreases n - k2,
    {
        match &slots[k2] {
            Some(b) => {
                out.push(clone_bytes(b));
            },
            None => {
                vstd::pervasive::unreached::<()>();
            },
        }
        k2 += 1;
    }
    Result::Ok(out)
}

} // verus!
