//! The mathematical model of one cache bucket and of what a response does to it.
use crate::types::DriftPriorityFeeLevels;
use vstd::prelude::*;

verus! {

/// The bucket `m` of category `name` after the entries of a response are applied
/// in order: each entry of that category is stored under its market index,
/// overwriting what was there; entries of other categories leave it alone.
pub open spec fn bucket_after(
    m: Map<u64, DriftPriorityFeeLevels>,
    entries: Seq<DriftPriorityFeeLevels>,
    name: Seq<char>,
) -> Map<u64, DriftPriorityFeeLevels>
    decreases entries.len(),
{
    if entries.len() == 0 {
        m
    } else {
        let prev = bucket_after(m, entries.drop_last(), name);
        let e = entries.last();
        if e.market_type@ == name {
            prev.insert(e.market_index, e)
        } else {
            prev
        }
    }
}

/// The last entry of `entries` with category `name` and market index `k`.
pub open spec fn last_match(
    entries: Seq<DriftPriorityFeeLevels>,
    name: Seq<char>,
    k: u64,
) -> Option<DriftPriorityFeeLevels>
    decreases entries.len(),
{
    if entries.len() == 0 {
        None
    } else if entries.last().market_type@ == name && entries.last().market_index == k {
        Some(entries.last())
    } else {
        last_match(entries.drop_last(), name, k)
    }
}

/// The value under `k` in `m`, if any.
pub open spec fn entry_of(m: Map<u64, DriftPriorityFeeLevels>, k: u64) -> Option<
    DriftPriorityFeeLevels,
> {
    if m.contains_key(k) {
        Some(m[k])
    } else {
        None
    }
}

/// After a response, a key holds the last matching entry of the response if
/// there is one, and what it held before otherwise.
pub proof fn lemma_bucket_after_entry(
    m: Map<u64, DriftPriorityFeeLevels>,
    entries: Seq<DriftPriorityFeeLevels>,
    name: Seq<char>,
    k: u64,
)
    ensures
        entry_of(bucket_after(m, entries, name), k) == match last_match(entries, name, k) {
            Some(v) => Some(v),
            None => entry_of(m, k),
        },
    decreases entries.len(),
{
    if entries.len() > 0 {
        lemma_bucket_after_entry(m, entries.drop_last(), name, k);
    }
}

/// Applying the same response twice leaves a bucket as applying it once.
pub proof fn lemma_bucket_after_idempotent(
    m: Map<u64, DriftPriorityFeeLevels>,
    entries: Seq<DriftPriorityFeeLevels>,
    name: Seq<char>,
)
    ensures
        bucket_after(bucket_after(m, entries, name), entries, name) == bucket_after(
            m,
            entries,
            name,
        ),
{
    let once = bucket_after(m, entries, name);
    let twice = bucket_after(once, entries, name);
    assert forall|k: u64| #[trigger] entry_of(twice, k) == entry_of(once, k) by {
        lemma_bucket_after_entry(m, entries, name, k);
        lemma_bucket_after_entry(once, entries, name, k);
    }
    assert forall|k: u64| twice.contains_key(k) <==> once.contains_key(k) by {
        assert(entry_of(twice, k) == entry_of(once, k));
    }
    assert forall|k: u64| #[trigger] twice.contains_key(k) implies twice[k] == once[k] by {
        assert(entry_of(twice, k) == entry_of(once, k));
    }
    assert(twice =~= once);
}

/// Dropping entries of other categories than `name` leaves the bucket of
/// `name` as it is: the bucket after a response is the bucket after any part
/// of it that keeps every entry of that category.
pub proof fn lemma_bucket_after_filter(
    m: Map<u64, DriftPriorityFeeLevels>,
    entries: Seq<DriftPriorityFeeLevels>,
    name: Seq<char>,
    keep: spec_fn(DriftPriorityFeeLevels) -> bool,
)
    requires
        forall|e: DriftPriorityFeeLevels| e.market_type@ == name ==> #[trigger] keep(e),
    ensures
        bucket_after(m, entries, name) == bucket_after(m, entries.filter(keep), name),
    decreases entries.len(),
{
    reveal(Seq::filter);
    if entries.len() > 0 {
        lemma_bucket_after_filter(m, entries.drop_last(), name, keep);
        let fe = entries.filter(keep);
        if keep(entries.last()) {
            assert(fe.drop_last() =~= entries.drop_last().filter(keep));
        }
    }
}

} // verus!
