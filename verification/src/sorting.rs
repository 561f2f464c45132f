//! Stable sorting by a "no later than" relation, as a specification: the
//! result of inserting each item, in turn, after the last item already placed
//! that goes no later than it. This is what a stable sort gives for a total
//! preorder, and what the panel's insertion sorts compute.
use vstd::prelude::*;

verus! {

/// Inserts `x` after the last item of `s` that goes no later than it.
pub open spec fn insert_by<T>(s: Seq<T>, x: T, le: spec_fn(T, T) -> bool) -> Seq<T>
    decreases s.len(),
{
    if s.len() == 0 {
        seq![x]
    } else if le(s.last(), x) {
        s.push(x)
    } else {
        insert_by(s.drop_last(), x, le).push(s.last())
    }
}

/// `s` stably sorted by `le`.
pub open spec fn sort_by<T>(s: Seq<T>, le: spec_fn(T, T) -> bool) -> Seq<T>
    decreases s.len(),
{
    if s.len() == 0 {
        Seq::empty()
    } else {
        insert_by(sort_by(s.drop_last(), le), s.last(), le)
    }
}

/// `le` is total and transitive.
pub open spec fn total_preorder<T>(le: spec_fn(T, T) -> bool) -> bool {
    &&& forall|a: T, b: T| #[trigger] le(a, b) || le(b, a)
    &&& forall|a: T, b: T, c: T| #[trigger] le(a, b) && #[trigger] le(b, c) ==> le(a, c)
}

/// Every item of `s` goes no later than every item after it.
pub open spec fn sorted_by<T>(s: Seq<T>, le: spec_fn(T, T) -> bool) -> bool {
    forall|i: int, j: int| 0 <= i < j < s.len() ==> le(#[trigger] s[i], #[trigger] s[j])
}

/// Inserting at the found place is inserting at index `j`.
pub proof fn lemma_insert_by<T>(s: Seq<T>, x: T, le: spec_fn(T, T) -> bool, j: int)
    requires
        0 <= j <= s.len(),
        forall|k: int| j <= k < s.len() ==> !le(#[trigger] s[k], x),
        j == 0 || le(s[j - 1], x),
    ensures
        insert_by(s, x, le) == s.insert(j, x),
    decreases s.len(),
{
    if s.len() == 0 {
        assert(s.insert(0, x) =~= seq![x]);
    } else if le(s.last(), x) {
        if j < s.len() {
            assert(!le(s[s.len() - 1], x));
        }
        assert(s.insert(j, x) =~= s.push(x));
    } else {
        assert(!le(s[s.len() - 1], x));
        lemma_insert_by(s.drop_last(), x, le, j);
        assert(s.drop_last().insert(j, x).push(s.last()) =~= s.insert(j, x));
    }
}

/// Inserting adds one item, and keeps the multiset of items plus `x`.
pub proof fn lemma_insert_by_items<T>(s: Seq<T>, x: T, le: spec_fn(T, T) -> bool)
    ensures
        insert_by(s, x, le).len() == s.len() + 1,
        insert_by(s, x, le).to_multiset() == s.to_multiset().insert(x),
    decreases s.len(),
{
    broadcast use vstd::seq_lib::group_to_multiset_ensures;

    if s.len() == 0 {
        assert(seq![x] =~= Seq::<T>::empty().push(x));
    } else if le(s.last(), x) {
    } else {
        lemma_insert_by_items(s.drop_last(), x, le);
        assert(s =~= s.drop_last().push(s.last()));
        assert(s.drop_last().to_multiset().insert(x).insert(s.last()) =~= s.drop_last().to_multiset().insert(
            s.last(),
        ).insert(x));
    }
}

/// Sorting keeps the items: the same length and the same multiset.
pub proof fn lemma_sort_by_items<T>(s: Seq<T>, le: spec_fn(T, T) -> bool)
    ensures
        sort_by(s, le).len() == s.len(),
        sort_by(s, le).to_multiset() == s.to_multiset(),
    decreases s.len(),
{
    broadcast use vstd::seq_lib::group_to_multiset_ensures;

    if s.len() > 0 {
        lemma_sort_by_items(s.drop_last(), le);
        lemma_insert_by_items(sort_by(s.drop_last(), le), s.last(), le);
        assert(s =~= s.drop_last().push(s.last()));
    }
}

/// Inserting into a sorted sequence keeps it sorted.
pub proof fn lemma_insert_by_sorted<T>(s: Seq<T>, x: T, le: spec_fn(T, T) -> bool)
    requires
        total_preorder(le),
        sorted_by(s, le),
    ensures
        sorted_by(insert_by(s, x, le), le),
    decreases s.len(),
{
    if s.len() == 0 {
    } else if le(s.last(), x) {
        let r = s.push(x);
        assert forall|i: int, j: int| 0 <= i < j < r.len() implies le(#[trigger] r[i], #[trigger] r[j]) by {
            if j == s.len() {
                if i < s.len() - 1 {
                    assert(le(s[i], s[s.len() - 1]));
                }
            }
        }
    } else {
        let t = s.drop_last();
        assert(sorted_by(t, le));
        lemma_insert_by_sorted(t, x, le);
        lemma_insert_by_items(t, x, le);
        let u = insert_by(t, x, le);
        let r = u.push(s.last());
        assert(le(x, s.last()));
        assert forall|k: int| 0 <= k < u.len() implies le(#[trigger] u[k], s.last()) by {
            broadcast use vstd::seq_lib::group_to_multiset_ensures;

            assert(u.to_multiset().count(u[k]) > 0);
            assert(t.to_multiset().insert(x).count(u[k]) > 0);
            if u[k] != x {
                assert(t.to_multiset().count(u[k]) > 0);
                assert(t.contains(u[k]));
                let m = choose|m: int| 0 <= m < t.len() && t[m] == u[k];
                assert(le(s[m], s[s.len() - 1]));
            }
        }
        assert forall|i: int, j: int| 0 <= i < j < r.len() implies le(#[trigger] r[i], #[trigger] r[j]) by {
            if j == u.len() {
                assert(le(u[i], s.last()));
            } else {
                assert(le(u[i], u[j]));
            }
        }
    }
}

/// A sorted result: under a total preorder every item goes no later than
/// every item after it.
pub proof fn lemma_sort_by_sorted<T>(s: Seq<T>, le: spec_fn(T, T) -> bool)
    requires
        total_preorder(le),
    ensures
        sorted_by(sort_by(s, le), le),
    decreases s.len(),
{
    if s.len() > 0 {
        lemma_sort_by_sorted(s.drop_last(), le);
        lemma_insert_by_sorted(sort_by(s.drop_last(), le), s.last(), le);
    }
}

} // verus!
