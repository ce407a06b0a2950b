//! Stable ordering of items by a path key: the insertion that keeps a
//! sequence ordered and puts a new item after those with an equal path, and
//! the sort built from it.
use crate::assets::{lemma_path_compare_antisym, lemma_path_compare_trans, path_compare};
use vstd::prelude::*;

verus! {

/// `s` with `x` placed after every leading item whose key is not above the
/// key of `x`.
pub open spec fn insert_by_key<T>(s: Seq<T>, x: T, key: spec_fn(T) -> Seq<Seq<char>>) -> Seq<T>
    decreases s.len(),
{
    if s.len() == 0 {
        seq![x]
    } else if path_compare(key(s[0]), key(x)) <= 0 {
        seq![s[0]] + insert_by_key(s.drop_first(), x, key)
    } else {
        seq![x] + s
    }
}

/// The stable sort of `s` by key: each item inserted in turn, from the first.
pub open spec fn sort_by_key<T>(s: Seq<T>, key: spec_fn(T) -> Seq<Seq<char>>) -> Seq<T>
    decreases s.len(),
{
    if s.len() == 0 {
        Seq::empty()
    } else {
        insert_by_key(sort_by_key(s.drop_last(), key), s.last(), key)
    }
}

/// Every item's key is at or below the keys of the items after it.
pub open spec fn sorted_by_key<T>(s: Seq<T>, key: spec_fn(T) -> Seq<Seq<char>>) -> bool {
    forall|i: int, j: int| 0 <= i < j < s.len() ==> path_compare(key(s[i]), key(s[j])) <= 0
}

/// Inserting puts `x` at the first position whose item has a greater key.
pub proof fn lemma_insert_at<T>(s: Seq<T>, x: T, key: spec_fn(T) -> Seq<Seq<char>>, k: int)
    requires
        0 <= k <= s.len(),
        forall|i: int| 0 <= i < k ==> path_compare(key(s[i]), key(x)) <= 0,
        k == s.len() || path_compare(key(s[k]), key(x)) > 0,
    ensures
        insert_by_key(s, x, key) == s.insert(k, x),
    decreases k,
{
    if k == 0 {
        if s.len() == 0 {
            assert(s.insert(0, x) =~= seq![x]);
        } else {
            assert(s.insert(0, x) =~= seq![x] + s);
        }
    } else {
        let t = s.drop_first();
        assert forall|i: int| 0 <= i < k - 1 implies path_compare(key(t[i]), key(x)) <= 0 by {
            assert(t[i] == s[i + 1]);
        }
        if k < s.len() {
            assert(t[k - 1] == s[k]);
        }
        lemma_insert_at(t, x, key, k - 1);
        assert(s.insert(k, x) =~= seq![s[0]] + t.insert(k - 1, x));
    }
}

/// Inserting adds `x` and keeps every other item.
pub proof fn lemma_insert_contents<T>(s: Seq<T>, x: T, key: spec_fn(T) -> Seq<Seq<char>>)
    ensures
        insert_by_key(s, x, key).len() == s.len() + 1,
        insert_by_key(s, x, key).to_multiset() =~= s.to_multiset().insert(x),
        forall|y: T| #[trigger] insert_by_key(s, x, key).contains(y) ==> y == x || s.contains(y),
    decreases s.len(),
{
    broadcast use vstd::seq_lib::group_to_multiset_ensures;

    let r = insert_by_key(s, x, key);
    if s.len() == 0 {
        assert(r =~= Seq::<T>::empty().push(x));
        assert(s =~= Seq::<T>::empty());
        assert forall|y: T| #[trigger] r.contains(y) implies y == x || s.contains(y) by {
            if r.contains(y) {
                let i = choose|i: int| 0 <= i < r.len() && r[i] == y;
                assert(r[i] == x);
            }
        }
    } else if path_compare(key(s[0]), key(x)) <= 0 {
        let t = s.drop_first();
        lemma_insert_contents(t, x, key);
        vstd::seq_lib::lemma_multiset_commutative(seq![s[0]], insert_by_key(t, x, key));
        vstd::seq_lib::lemma_multiset_commutative(seq![s[0]], t);
        assert(s =~= seq![s[0]] + t);
        assert forall|y: T| #[trigger] r.contains(y) implies y == x || s.contains(y) by {
            let i = choose|i: int| 0 <= i < r.len() && r[i] == y;
            if i > 0 {
                assert(insert_by_key(t, x, key)[i - 1] == y);
                assert(insert_by_key(t, x, key).contains(y));
                if t.contains(y) {
                    let j = choose|j: int| 0 <= j < t.len() && t[j] == y;
                    assert(s[j + 1] == y);
                }
            } else {
                assert(s[0] == y);
            }
        }
    } else {
        vstd::seq_lib::lemma_multiset_commutative(seq![x], s);
        assert forall|y: T| #[trigger] r.contains(y) implies y == x || s.contains(y) by {
            let i = choose|i: int| 0 <= i < r.len() && r[i] == y;
            if i > 0 {
                assert(s[i - 1] == y);
            }
        }
    }
}

/// Inserting into a sorted sequence leaves it sorted.
pub proof fn lemma_insert_sorted<T>(s: Seq<T>, x: T, key: spec_fn(T) -> Seq<Seq<char>>)
    requires
        sorted_by_key(s, key),
    ensures
        sorted_by_key(insert_by_key(s, x, key), key),
    decreases s.len(),
{
    let r = insert_by_key(s, x, key);
    if s.len() == 0 {
    } else if path_compare(key(s[0]), key(x)) <= 0 {
        let t = s.drop_first();
        assert(sorted_by_key(t, key)) by {
            assert forall|i: int, j: int| 0 <= i < j < t.len() implies path_compare(
                key(t[i]),
                key(t[j]),
            ) <= 0 by {
                assert(t[i] == s[i + 1] && t[j] == s[j + 1]);
            }
        }
        lemma_insert_sorted(t, x, key);
        lemma_insert_contents(t, x, key);
        let u = insert_by_key(t, x, key);
        assert forall|i: int, j: int| 0 <= i < j < r.len() implies path_compare(
            key(r[i]),
            key(r[j]),
        ) <= 0 by {
            if i > 0 {
                assert(r[i] == u[i - 1] && r[j] == u[j - 1]);
            } else {
                assert(r[j] == u[j - 1]);
                assert(u.contains(u[j - 1]));
                if u[j - 1] != x {
                    let m = choose|m: int| 0 <= m < t.len() && t[m] == u[j - 1];
                    assert(s[m + 1] == t[m]);
                }
            }
        }
    } else {
        lemma_path_compare_antisym(key(s[0]), key(x));
        assert forall|i: int, j: int| 0 <= i < j < r.len() implies path_compare(
            key(r[i]),
            key(r[j]),
        ) <= 0 by {
            if i > 0 {
                assert(r[i] == s[i - 1] && r[j] == s[j - 1]);
            } else {
                assert(r[j] == s[j - 1]);
                lemma_path_compare_trans(key(x), key(s[0]), key(s[j - 1]));
            }
        }
    }
}

/// The stable sort is sorted, as long as the input, and a permutation of it.
pub proof fn lemma_sort_by_key<T>(s: Seq<T>, key: spec_fn(T) -> Seq<Seq<char>>)
    ensures
        sorted_by_key(sort_by_key(s, key), key),
        sort_by_key(s, key).len() == s.len(),
        sort_by_key(s, key).to_multiset() =~= s.to_multiset(),
    decreases s.len(),
{
    broadcast use vstd::seq_lib::group_to_multiset_ensures;

    if s.len() > 0 {
        lemma_sort_by_key(s.drop_last(), key);
        lemma_insert_sorted(sort_by_key(s.drop_last(), key), s.last(), key);
        lemma_insert_contents(sort_by_key(s.drop_last(), key), s.last(), key);
        assert(s =~= s.drop_last().push(s.last()));
    } else {
        assert(s =~= Seq::<T>::empty());
    }
}

/// Sorting what is already sorted changes nothing.
pub proof fn lemma_sort_of_sorted<T>(s: Seq<T>, key: spec_fn(T) -> Seq<Seq<char>>)
    requires
        sorted_by_key(s, key),
    ensures
        sort_by_key(s, key) == s,
    decreases s.len(),
{
    if s.len() > 0 {
        let rest = s.drop_last();
        assert(sorted_by_key(rest, key)) by {
            assert forall|i: int, j: int| 0 <= i < j < rest.len() implies path_compare(
                key(rest[i]),
                key(rest[j]),
            ) <= 0 by {
                assert(rest[i] == s[i] && rest[j] == s[j]);
            }
        }
        lemma_sort_of_sorted(rest, key);
        assert forall|i: int| 0 <= i < rest.len() implies path_compare(
            key(rest[i]),
            key(s.last()),
        ) <= 0 by {
            assert(rest[i] == s[i]);
        }
        lemma_insert_at(rest, s.last(), key, rest.len() as int);
        assert(rest.insert(rest.len() as int, s.last()) =~= s);
    } else {
        assert(s =~= Seq::<T>::empty());
    }
}

/// Inserting into a sorted sequence is the stable sort of the sequence with
/// the new item last.
pub proof fn law_insert_is_stable_sort<T>(s: Seq<T>, x: T, key: spec_fn(T) -> Seq<Seq<char>>)
    requires
        sorted_by_key(s, key),
    ensures
        insert_by_key(s, x, key) == sort_by_key(s.push(x), key),
{
    lemma_sort_of_sorted(s, key);
    assert(s.push(x).drop_last() =~= s);
}

} // verus!
