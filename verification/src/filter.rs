//! The filter engine: the query a filter value denotes, the case-insensitive
//! substring predicate on entry names, and the projection of matching
//! indices in item order.

use vstd::prelude::*;

use crate::stats::Repo;
use crate::strutil::{contains_seq, lemma_contains_empty, lower_of, lowercase, str_contains};

verus! {

/// The query a filter value denotes: an absent or empty filter means the
/// empty query, anything else its lowercased text.
pub open spec fn query_of(filter: Option<String>) -> Seq<char> {
    match filter {
        None => Seq::<char>::empty(),
        Some(f) => if f@.len() == 0 {
            Seq::<char>::empty()
        } else {
            lower_of(f@)
        },
    }
}

/// The filter predicate: the lowercased name contains the query.
pub open spec fn matches_query(r: Repo, q: Seq<char>) -> bool {
    contains_seq(lower_of(r.name@), q)
}

/// Indices below `n` whose items match the query, in item order.
pub open spec fn filter_indices_upto(items: Seq<Repo>, q: Seq<char>, n: int) -> Seq<usize>
    decreases n,
{
    if n <= 0 {
        Seq::<usize>::empty()
    } else {
        let prev = filter_indices_upto(items, q, n - 1);
        if matches_query(items[n - 1], q) {
            prev.push((n - 1) as usize)
        } else {
            prev
        }
    }
}

/// All indices into `items` whose items match the query, in item order.
pub open spec fn filter_indices(items: Seq<Repo>, q: Seq<char>) -> Seq<usize> {
    filter_indices_upto(items, q, items.len() as int)
}

/// Every listed index is in range and its item matches the query.
pub proof fn lemma_filter_indices_in_range(items: Seq<Repo>, q: Seq<char>, n: int)
    requires
        0 <= n <= items.len() <= usize::MAX,
    ensures
        forall|k: int|
            0 <= k < filter_indices_upto(items, q, n).len() ==> (#[trigger] filter_indices_upto(
                items,
                q,
                n,
            )[k]) < n && matches_query(items[filter_indices_upto(items, q, n)[k] as int], q),
    decreases n,
{
    if n > 0 {
        lemma_filter_indices_in_range(items, q, n - 1);
        let prev = filter_indices_upto(items, q, n - 1);
        let cur = filter_indices_upto(items, q, n);
        assert forall|k: int| 0 <= k < cur.len() implies (#[trigger] cur[k]) < n && matches_query(
            items[cur[k] as int],
            q,
        ) by {
            if k < prev.len() {
                assert(cur[k] == prev[k]);
                assert(prev[k] < n - 1 && matches_query(items[prev[k] as int], q));
            } else {
                assert(matches_query(items[n - 1], q));
                assert(cur == prev.push((n - 1) as usize));
                assert(cur[k] == (n - 1) as usize);
            }
        }
    }
}

/// The listing is strictly increasing.
pub proof fn lemma_filter_indices_increasing(items: Seq<Repo>, q: Seq<char>, n: int)
    requires
        0 <= n <= items.len() <= usize::MAX,
    ensures
        forall|k1: int, k2: int|
            0 <= k1 < k2 < filter_indices_upto(items, q, n).len()
                ==> #[trigger] filter_indices_upto(items, q, n)[k1]
                < #[trigger] filter_indices_upto(items, q, n)[k2],
    decreases n,
{
    if n > 0 {
        lemma_filter_indices_increasing(items, q, n - 1);
        lemma_filter_indices_in_range(items, q, n - 1);
        let prev = filter_indices_upto(items, q, n - 1);
        let cur = filter_indices_upto(items, q, n);
        assert forall|k1: int, k2: int| 0 <= k1 < k2 < cur.len() implies (#[trigger] cur[k1])
            < (#[trigger] cur[k2]) by {
            if k2 < prev.len() {
                assert(cur[k1] == prev[k1] && cur[k2] == prev[k2]);
            } else {
                assert(matches_query(items[n - 1], q));
                assert(cur == prev.push((n - 1) as usize));
                assert(cur[k1] == prev[k1] && cur[k2] == (n - 1) as usize);
                assert(prev[k1] < n - 1);
            }
        }
    }
}

/// Every matching index in range is listed.
pub proof fn lemma_filter_indices_complete(items: Seq<Repo>, q: Seq<char>, n: int)
    requires
        0 <= n <= items.len() <= usize::MAX,
    ensures
        forall|i: int|
            0 <= i < n && matches_query(#[trigger] items[i], q) ==> filter_indices_upto(
                items,
                q,
                n,
            ).contains(i as usize),
    decreases n,
{
    if n > 0 {
        lemma_filter_indices_complete(items, q, n - 1);
        let prev = filter_indices_upto(items, q, n - 1);
        let cur = filter_indices_upto(items, q, n);
        assert forall|i: int|
            0 <= i < n && matches_query(#[trigger] items[i], q) implies cur.contains(
            i as usize,
        ) by {
            if i < n - 1 {
                assert(prev.contains(i as usize));
                let k = choose|k: int| 0 <= k < prev.len() && (#[trigger] prev[k]) as int == i;
                assert(cur[k] as int == i);
            } else {
                assert(cur == prev.push((n - 1) as usize));
                assert(cur[cur.len() - 1] as int == i);
            }
        }
    }
}

/// Under the empty query every index is listed: the projection is the
/// identity listing.
pub proof fn lemma_filter_indices_empty_query(items: Seq<Repo>, n: int)
    requires
        0 <= n <= items.len() <= usize::MAX,
    ensures
        filter_indices_upto(items, Seq::<char>::empty(), n) =~= Seq::new(
            n as nat,
            |i: int| i as usize,
        ),
    decreases n,
{
    if n > 0 {
        lemma_filter_indices_empty_query(items, n - 1);
        lemma_contains_empty(lower_of(items[n - 1].name@));
    }
}

/// The indices of the items whose lowercased name contains `q`, in item
/// order. `q` must already be lowercased; the caller's filter value decides
/// it (see `query_of`).
pub fn filter_indices_exec(items: &Vec<Repo>, q: &str) -> (r: Vec<usize>)
    ensures
        r@ == filter_indices(items@, q@),
{
    let mut r: Vec<usize> = Vec::new();
    let mut i: usize = 0;
    proof {
        assert(r@ =~= filter_indices_upto(items@, q@, 0));
    }
    while i < items.len()
        invariant
            i <= items@.len(),
            r@ == filter_indices_upto(items@, q@, i as int),
        decreases items@.len() - i,
    {
        let low = lowercase(items[i].name.as_str());
        if str_contains(low.as_str(), q) {
            r.push(i);
        }
        i = i + 1;
    }
    r
}

} // verus!
