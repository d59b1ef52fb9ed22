//! The sort engine: the five sort keys, the stable order they induce on
//! entries, and an in-place stable sort pinned to a mathematical
//! specification.

use vstd::prelude::*;

use crate::stats::Repo;
use crate::strutil::{
    chars_lt, lemma_chars_lt_asym, lemma_chars_lt_neg_trans, str_lt,
};

verus! {

/// The column a sort is keyed on.
#[derive(Clone, Copy, Debug, PartialEq, Eq, Structural)]
pub enum SortBy {
    Name,
    Stars,
    Forks,
    Created,
    Updated,
}

/// `a` comes strictly before `b` under the key that `sb` selects: name
/// ascending, stars and forks descending, creation oldest first, last push
/// most recent first.
pub open spec fn repo_lt(sb: SortBy, a: Repo, b: Repo) -> bool {
    match sb {
        SortBy::Name => chars_lt(a.name@, b.name@),
        SortBy::Stars => a.stars > b.stars,
        SortBy::Forks => a.forks > b.forks,
        SortBy::Created => a.created_at < b.created_at,
        SortBy::Updated => a.pushed_at > b.pushed_at,
    }
}

pub proof fn lemma_repo_lt_asym(sb: SortBy, a: Repo, b: Repo)
    ensures
        repo_lt(sb, a, b) ==> !repo_lt(sb, b, a),
{
    if repo_lt(sb, a, b) {
        match sb {
            SortBy::Name => lemma_chars_lt_asym(a.name@, b.name@),
            _ => (),
        }
    }
}

pub proof fn lemma_repo_lt_neg_trans(sb: SortBy, a: Repo, b: Repo, c: Repo)
    requires
        !repo_lt(sb, a, b),
        !repo_lt(sb, b, c),
    ensures
        !repo_lt(sb, a, c),
{
    match sb {
        SortBy::Name => lemma_chars_lt_neg_trans(a.name@, b.name@, c.name@),
        _ => (),
    }
}

/// Compares two entries under the selected key.
pub fn repo_before(sb: SortBy, a: &Repo, b: &Repo) -> (r: bool)
    ensures
        r == repo_lt(sb, *a, *b),
{
    match sb {
        SortBy::Name => str_lt(a.name.as_str(), b.name.as_str()),
        SortBy::Stars => a.stars > b.stars,
        SortBy::Forks => a.forks > b.forks,
        SortBy::Created => a.created_at < b.created_at,
        SortBy::Updated => a.pushed_at > b.pushed_at,
    }
}

/// Inserts `x` into `s` directly after the last element that is not
/// strictly after `x`: on a sorted sequence this keeps it sorted and keeps
/// equal keys in arrival order.
pub open spec fn insert_sorted(sb: SortBy, s: Seq<Repo>, x: Repo) -> Seq<Repo>
    decreases s.len(),
{
    if s.len() > 0 && repo_lt(sb, x, s.last()) {
        insert_sorted(sb, s.drop_last(), x).push(s.last())
    } else {
        s.push(x)
    }
}

/// The stable sort of `s` under the key `sb`: each element in turn is
/// placed after its equals, as an insertion sort from the left does.
pub open spec fn sort_spec(sb: SortBy, s: Seq<Repo>) -> Seq<Repo>
    decreases s.len(),
{
    if s.len() == 0 {
        s
    } else {
        insert_sorted(sb, sort_spec(sb, s.drop_last()), s.last())
    }
}

/// No element comes strictly before an element to its left.
pub open spec fn sorted_by(sb: SortBy, s: Seq<Repo>) -> bool {
    forall|i: int, j: int| 0 <= i < j < s.len() ==> !(#[trigger] repo_lt(sb, s[j], s[i]))
}

proof fn lemma_insert_sorted_len(sb: SortBy, s: Seq<Repo>, x: Repo)
    ensures
        insert_sorted(sb, s, x).len() == s.len() + 1,
    decreases s.len(),
{
    if s.len() > 0 && repo_lt(sb, x, s.last()) {
        lemma_insert_sorted_len(sb, s.drop_last(), x);
    }
}

/// The length of the sorted sequence equals the length of the original.
pub proof fn lemma_sort_spec_len(sb: SortBy, s: Seq<Repo>)
    ensures
        sort_spec(sb, s).len() == s.len(),
    decreases s.len(),
{
    if s.len() > 0 {
        lemma_sort_spec_len(sb, s.drop_last());
        lemma_insert_sorted_len(sb, sort_spec(sb, s.drop_last()), s.last());
    }
}

/// Every element of the inserted sequence is `x` or an element of `s`.
proof fn lemma_insert_sorted_membership(sb: SortBy, s: Seq<Repo>, x: Repo)
    ensures
        forall|k: int|
            0 <= k < insert_sorted(sb, s, x).len() ==> insert_sorted(sb, s, x)[k] == x
                || s.contains(#[trigger] insert_sorted(sb, s, x)[k]),
    decreases s.len(),
{
    lemma_insert_sorted_len(sb, s, x);
    let r = insert_sorted(sb, s, x);
    if s.len() > 0 && repo_lt(sb, x, s.last()) {
        lemma_insert_sorted_membership(sb, s.drop_last(), x);
        let r0 = insert_sorted(sb, s.drop_last(), x);
        assert forall|k: int| 0 <= k < r.len() implies r[k] == x || s.contains(r[k]) by {
            if k < r.len() - 1 {
                assert(r[k] == r0[k]);
                if r0[k] != x {
                    let j = choose|j: int| 0 <= j < s.drop_last().len() && s.drop_last()[j]
                        == r0[k];
                    assert(s[j] == r0[k]);
                }
            } else {
                assert(r[k] == s.last());
                assert(s[s.len() - 1] == s.last());
            }
        }
    } else {
        assert forall|k: int| 0 <= k < r.len() implies r[k] == x || s.contains(r[k]) by {
            if k < s.len() {
                assert(s[k] == r[k]);
            }
        }
    }
}

/// Inserting into a sorted sequence yields a sorted sequence.
proof fn lemma_insert_sorted_sorted(sb: SortBy, s: Seq<Repo>, x: Repo)
    requires
        sorted_by(sb, s),
    ensures
        sorted_by(sb, insert_sorted(sb, s, x)),
    decreases s.len(),
{
    let r = insert_sorted(sb, s, x);
    lemma_insert_sorted_len(sb, s, x);
    if s.len() > 0 && repo_lt(sb, x, s.last()) {
        let dl = s.drop_last();
        assert(sorted_by(sb, dl)) by {
            assert(forall|i: int, j: int|
                0 <= i < j < dl.len() ==> !(#[trigger] repo_lt(sb, dl[j], dl[i])));
        }
        lemma_insert_sorted_sorted(sb, dl, x);
        let r0 = insert_sorted(sb, dl, x);
        lemma_insert_sorted_len(sb, dl, x);
        lemma_insert_sorted_membership(sb, dl, x);
        // r == r0.push(s.last()); every element of r0 may stand before s.last()
        assert forall|i: int| 0 <= i < r0.len() implies !repo_lt(sb, r[r.len() - 1], r0[i]) by {
            if r0[i] == x {
                lemma_repo_lt_asym(sb, x, s.last());
            } else {
                let j = choose|j: int| 0 <= j < dl.len() && dl[j] == r0[i];
                assert(!repo_lt(sb, s[s.len() - 1], s[j]));
            }
        }
        assert forall|i: int, j: int| 0 <= i < j < r.len() implies !(#[trigger] repo_lt(
            sb,
            r[j],
            r[i],
        )) by {
            if j < r.len() - 1 {
                assert(r[i] == r0[i] && r[j] == r0[j]);
            } else {
                assert(r[i] == r0[i]);
            }
        }
    } else {
        // r == s.push(x): x may stand after every element of s
        assert forall|i: int| 0 <= i < s.len() implies !repo_lt(sb, x, s[i]) by {
            if s.len() > 0 {
                if i == s.len() - 1 {
                    assert(s[i] == s.last());
                } else {
                    assert(!repo_lt(sb, s[s.len() - 1], s[i]));
                    lemma_repo_lt_neg_trans(sb, x, s.last(), s[i]);
                }
            }
        }
        assert forall|i: int, j: int| 0 <= i < j < r.len() implies !(#[trigger] repo_lt(
            sb,
            r[j],
            r[i],
        )) by {
            if j < r.len() - 1 {
                assert(r[i] == s[i] && r[j] == s[j]);
            } else {
                assert(r[i] == s[i] && r[j] == x);
            }
        }
    }
}

/// The sorted sequence of any input is sorted.
pub proof fn lemma_sort_spec_sorted(sb: SortBy, s: Seq<Repo>)
    ensures
        sorted_by(sb, sort_spec(sb, s)),
    decreases s.len(),
{
    if s.len() > 0 {
        lemma_sort_spec_sorted(sb, s.drop_last());
        lemma_insert_sorted_sorted(sb, sort_spec(sb, s.drop_last()), s.last());
    }
}

/// A sorted sequence is a fixed point of the sort.
pub proof fn lemma_sort_spec_fixpoint(sb: SortBy, s: Seq<Repo>)
    requires
        sorted_by(sb, s),
    ensures
        sort_spec(sb, s) == s,
    decreases s.len(),
{
    if s.len() > 0 {
        let dl = s.drop_last();
        assert(sorted_by(sb, dl)) by {
            assert(forall|i: int, j: int|
                0 <= i < j < dl.len() ==> !(#[trigger] repo_lt(sb, dl[j], dl[i])));
        }
        lemma_sort_spec_fixpoint(sb, dl);
        if dl.len() > 0 {
            assert(!repo_lt(sb, s[s.len() - 1], s[s.len() - 2]));
            assert(dl.last() == s[s.len() - 2]);
        }
        assert(insert_sorted(sb, dl, s.last()) == dl.push(s.last()));
        assert(dl.push(s.last()) =~= s);
    }
}

/// Sorting twice under one key gives the same sequence as sorting once.
pub proof fn lemma_sort_idempotent(sb: SortBy, s: Seq<Repo>)
    ensures
        sort_spec(sb, sort_spec(sb, s)) == sort_spec(sb, s),
{
    lemma_sort_spec_sorted(sb, s);
    lemma_sort_spec_fixpoint(sb, sort_spec(sb, s));
}

proof fn lemma_insert_sorted_multiset(sb: SortBy, s: Seq<Repo>, x: Repo)
    ensures
        insert_sorted(sb, s, x).to_multiset() == s.push(x).to_multiset(),
    decreases s.len(),
{
    broadcast use vstd::seq_lib::group_to_multiset_ensures;

    if s.len() > 0 && repo_lt(sb, x, s.last()) {
        let dl = s.drop_last();
        lemma_insert_sorted_multiset(sb, dl, x);
        assert(insert_sorted(sb, s, x).to_multiset() =~= insert_sorted(
            sb,
            dl,
            x,
        ).to_multiset().insert(s.last()));
        assert(dl.push(x).to_multiset().insert(s.last()) =~= dl.to_multiset().insert(x).insert(
            s.last(),
        ));
        assert(s.push(x).to_multiset() =~= s.to_multiset().insert(x));
        assert(dl.push(s.last()) =~= s);
        assert(s.to_multiset() =~= dl.to_multiset().insert(s.last()));
    }
}

/// Sorting rearranges the entries and nothing more: the sorted sequence
/// holds exactly the entries of the input, with multiplicity.
pub proof fn lemma_sort_spec_permutes(sb: SortBy, s: Seq<Repo>)
    ensures
        sort_spec(sb, s).to_multiset() == s.to_multiset(),
    decreases s.len(),
{
    broadcast use vstd::seq_lib::group_to_multiset_ensures;

    if s.len() > 0 {
        let dl = s.drop_last();
        lemma_sort_spec_permutes(sb, dl);
        lemma_insert_sorted_multiset(sb, sort_spec(sb, dl), s.last());
        assert(sort_spec(sb, dl).push(s.last()).to_multiset() =~= sort_spec(
            sb,
            dl,
        ).to_multiset().insert(s.last()));
        assert(dl.push(s.last()) =~= s);
        assert(s.to_multiset() =~= dl.to_multiset().insert(s.last()));
    }
}

/// `insert_sorted` splits the sequence at the found position.
proof fn lemma_insert_at(sb: SortBy, s: Seq<Repo>, x: Repo, pos: int)
    requires
        0 <= pos <= s.len(),
        forall|j: int| pos <= j < s.len() ==> repo_lt(sb, x, #[trigger] s[j]),
        pos > 0 ==> !repo_lt(sb, x, s[pos - 1]),
    ensures
        insert_sorted(sb, s, x) == s.take(pos) + seq![x] + s.skip(pos),
    decreases s.len(),
{
    if s.len() > 0 && repo_lt(sb, x, s.last()) {
        assert(pos < s.len()) by {
            if pos == s.len() {
                assert(!repo_lt(sb, x, s[pos - 1]));
                assert(s[pos - 1] == s.last());
            }
        }
        let dl = s.drop_last();
        lemma_insert_at(sb, dl, x, pos);
        assert(dl.take(pos) =~= s.take(pos));
        assert((dl.take(pos) + seq![x] + dl.skip(pos)).push(s.last()) =~= s.take(pos) + seq![x]
            + s.skip(pos));
    } else {
        assert(pos == s.len()) by {
            if pos < s.len() {
                assert(repo_lt(sb, x, s[s.len() - 1]));
            }
        }
        assert(s.push(x) =~= s.take(pos) + seq![x] + s.skip(pos));
    }
}

/// Sorts the entries in place, stably, under the key `sb`.
pub fn sort_items(sb: SortBy, v: &mut Vec<Repo>)
    ensures
        final(v)@ == sort_spec(sb, old(v)@),
{
    let ghost orig = v@;
    let mut out: Vec<Repo> = Vec::new();
    proof {
        assert(orig.take(0) =~= Seq::<Repo>::empty());
        assert(v@ =~= orig.skip(0));
    }
    while v.len() > 0
        invariant
            v@.len() <= orig.len(),
            v@ == orig.skip(orig.len() - v@.len()),
            out@ == sort_spec(sb, orig.take(orig.len() - v@.len())),
        decreases v@.len(),
    {
        let ghost k = orig.len() - v@.len();
        let x = v.remove(0);
        proof {
            assert(x == orig[k as int]);
            assert(v@ =~= orig.skip(k + 1));
        }
        let ghost gout = out@;
        let mut pos: usize = out.len();
        loop
            invariant
                pos <= out@.len(),
                out@ == gout,
                forall|j: int| pos <= j < out@.len() ==> repo_lt(sb, x, #[trigger] out@[j]),
            ensures
                pos <= out@.len(),
                out@ == gout,
                forall|j: int| pos <= j < out@.len() ==> repo_lt(sb, x, #[trigger] out@[j]),
                pos == 0 || !repo_lt(sb, x, out@[pos - 1]),
            decreases pos,
        {
            if pos == 0 {
                break;
            }
            if !repo_before(sb, &x, &out[pos - 1]) {
                break;
            }
            pos = pos - 1;
        }
        out.insert(pos, x);
        proof {
            lemma_insert_at(sb, gout, x, pos as int);
            assert(out@ =~= gout.take(pos as int) + seq![x] + gout.skip(pos as int));
            assert(orig.take(k + 1).drop_last() =~= orig.take(k as int));
            assert(orig.take(k + 1).last() == orig[k as int]);
            assert(out@ == sort_spec(sb, orig.take(k + 1)));
        }
    }
    proof {
        assert(orig.take(orig.len() as int) =~= orig);
    }
    *v = out;
}

} // verus!
