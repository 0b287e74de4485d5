//! Sequences of key/value pairs seen as mathematical maps.
//!
//! Both tables of the bridge core — the registry's handle table and each
//! job's port table — hold their entries in a vector of pairs with unique
//! keys. This module gives such a sequence its map abstraction and proves
//! how the abstraction moves under push, update and removal.

use vstd::prelude::*;

verus! {

/// The map that a sequence of (key, value) pairs stands for, each value
/// taken through its own abstraction. Later pairs would win, but the
/// tables of this crate keep their keys unique.
pub open spec fn assoc_view<K, V: View>(s: Seq<(K, V)>) -> Map<K, <V as View>::V>
    decreases s.len(),
{
    if s.len() == 0 {
        Map::empty()
    } else {
        assoc_view(s.drop_last()).insert(s.last().0, s.last().1@)
    }
}

/// Every key occurs in at most one pair.
pub open spec fn unique_keys<K, V>(s: Seq<(K, V)>) -> bool {
    forall|i: int, j: int| 0 <= i < j < s.len() ==> s[i].0 != s[j].0
}

/// A key is in the map exactly when some pair carries it.
pub proof fn lemma_assoc_view_dom<K, V: View>(s: Seq<(K, V)>, k: K)
    ensures
        assoc_view(s).dom().contains(k) <==> exists|i: int| 0 <= i < s.len() && s[i].0 == k,
    decreases s.len(),
{
    if s.len() > 0 {
        let dl = s.drop_last();
        lemma_assoc_view_dom(dl, k);
        if k == s.last().0 {
            assert(s[s.len() - 1].0 == k);
        } else {
            if assoc_view(s).dom().contains(k) {
                let i = choose|i: int| 0 <= i < dl.len() && dl[i].0 == k;
                assert(s[i].0 == k);
            }
            if exists|i: int| 0 <= i < s.len() && s[i].0 == k {
                let i = choose|i: int| 0 <= i < s.len() && s[i].0 == k;
                assert(i < s.len() - 1);
                assert(dl[i].0 == k);
            }
        }
    }
}

/// With unique keys, the pair at position `i` gives the map's value at
/// its key.
pub proof fn lemma_assoc_view_index<K, V: View>(s: Seq<(K, V)>, i: int)
    requires
        unique_keys(s),
        0 <= i < s.len(),
    ensures
        assoc_view(s).dom().contains(s[i].0),
        assoc_view(s)[s[i].0] == s[i].1@,
    decreases s.len(),
{
    let dl = s.drop_last();
    if i == s.len() - 1 {
        assert(assoc_view(s) == assoc_view(dl).insert(s.last().0, s.last().1@));
    } else {
        assert(unique_keys(dl));
        lemma_assoc_view_index(dl, i);
        assert(s[i].0 != s.last().0);
    }
}

/// Appending a pair inserts its key.
pub proof fn lemma_assoc_view_push<K, V: View>(s: Seq<(K, V)>, k: K, v: V)
    ensures
        assoc_view(s.push((k, v))) == assoc_view(s).insert(k, v@),
{
    let p = s.push((k, v));
    assert(p.drop_last() =~= s);
    assert(p.last() == (k, v));
}

/// Appending a pair with a key no pair carries keeps the keys unique.
pub proof fn lemma_unique_keys_push<K, V>(s: Seq<(K, V)>, k: K, v: V)
    requires
        unique_keys(s),
        forall|i: int| 0 <= i < s.len() ==> s[i].0 != k,
    ensures
        unique_keys(s.push((k, v))),
{
    let p = s.push((k, v));
    assert forall|i: int, j: int| 0 <= i < j < p.len() implies p[i].0 != p[j].0 by {
        if j < s.len() {
            assert(s[i].0 != s[j].0);
        } else {
            assert(s[i].0 != k);
        }
    }
}

/// With unique keys, replacing the value at position `i` updates the map
/// at that pair's key and keeps the keys unique.
pub proof fn lemma_assoc_view_update<K, V: View>(s: Seq<(K, V)>, i: int, v: V)
    requires
        unique_keys(s),
        0 <= i < s.len(),
    ensures
        assoc_view(s.update(i, (s[i].0, v))) == assoc_view(s).insert(s[i].0, v@),
        unique_keys(s.update(i, (s[i].0, v))),
    decreases s.len(),
{
    let u = s.update(i, (s[i].0, v));
    assert(unique_keys(u)) by {
        assert forall|p: int, q: int| 0 <= p < q < u.len() implies u[p].0 != u[q].0 by {
            assert(s[p].0 != s[q].0);
        }
    }
    if i == s.len() - 1 {
        assert(u.drop_last() =~= s.drop_last());
        assert(u.last() == (s[i].0, v));
        assert(assoc_view(u) == assoc_view(s.drop_last()).insert(s[i].0, v@));
        assert(assoc_view(s).insert(s[i].0, v@) =~= assoc_view(s.drop_last()).insert(s[i].0, v@));
    } else {
        let dl = s.drop_last();
        assert(unique_keys(dl));
        lemma_assoc_view_update(dl, i, v);
        assert(u.drop_last() =~= dl.update(i, (s[i].0, v)));
        assert(u.last() == s.last());
        assert(assoc_view(u) == assoc_view(dl).insert(s[i].0, v@).insert(s.last().0, s.last().1@));
        assert(s[i].0 != s.last().0);
        assert(assoc_view(dl).insert(s[i].0, v@).insert(s.last().0, s.last().1@) =~= assoc_view(
            dl,
        ).insert(s.last().0, s.last().1@).insert(s[i].0, v@));
    }
}

/// With unique keys, removing the pair at position `i` removes exactly
/// that pair's key from the map and keeps the keys unique.
pub proof fn lemma_assoc_view_remove<K, V: View>(s: Seq<(K, V)>, i: int)
    requires
        unique_keys(s),
        0 <= i < s.len(),
    ensures
        assoc_view(s.remove(i)) == assoc_view(s).remove(s[i].0),
        unique_keys(s.remove(i)),
    decreases s.len(),
{
    let r = s.remove(i);
    assert(unique_keys(r)) by {
        assert forall|p: int, q: int| 0 <= p < q < r.len() implies r[p].0 != r[q].0 by {
            let p0: int = if p < i {
                p
            } else {
                p + 1
            };
            let q0: int = if q < i {
                q
            } else {
                q + 1
            };
            assert(r[p] == s[p0] && r[q] == s[q0]);
            assert(s[p0].0 != s[q0].0);
        }
    }
    if i == s.len() - 1 {
        assert(r =~= s.drop_last());
        lemma_assoc_view_dom(s.drop_last(), s[i].0);
        assert(forall|j: int| 0 <= j < s.len() - 1 ==> s[j].0 != s[i].0);
        assert(!assoc_view(s.drop_last()).dom().contains(s[i].0));
        assert(assoc_view(s).remove(s[i].0) =~= assoc_view(s.drop_last()));
    } else {
        let dl = s.drop_last();
        assert(unique_keys(dl));
        lemma_assoc_view_remove(dl, i);
        assert(r.last() == s.last());
        assert(r.drop_last() =~= dl.remove(i));
        assert(assoc_view(r) == assoc_view(dl.remove(i)).insert(s.last().0, s.last().1@));
        assert(s[i].0 != s.last().0);
        assert(assoc_view(dl).remove(s[i].0).insert(s.last().0, s.last().1@) =~= assoc_view(
            dl,
        ).insert(s.last().0, s.last().1@).remove(s[i].0));
    }
}

} // verus!
