//! Association lists: lists of (key, value) entries whose keys are
//! pairwise different, and the maps they stand for. The header map and
//! the runner registry both keep their contents this way.

use vstd::prelude::*;

verus! {

/// The keys of the entries are pairwise different.
pub open spec fn distinct_firsts<K, V>(s: Seq<(K, V)>) -> bool {
    forall|i: int, j: int| 0 <= i < s.len() && 0 <= j < s.len() && i != j ==> #[trigger] s[i].0 != #[trigger] s[j].0
}

/// The map a list of entries with distinct keys stands for.
pub open spec fn pairs_map<K, V>(s: Seq<(K, V)>) -> Map<K, V> {
    Map::new(
        |k: K| exists|i: int| 0 <= i < s.len() && #[trigger] s[i].0 == k,
        |k: K| s[choose|i: int| 0 <= i < s.len() && #[trigger] s[i].0 == k].1,
    )
}

/// In a list with distinct keys, the entry at `i` is the one the map
/// reads under its key.
pub proof fn lemma_lookup_at<K, V>(s: Seq<(K, V)>, i: int)
    requires
        distinct_firsts(s),
        0 <= i < s.len(),
    ensures
        pairs_map(s).contains_key(s[i].0),
        pairs_map(s)[s[i].0] == s[i].1,
{
    let c = choose|j: int| 0 <= j < s.len() && #[trigger] s[j].0 == s[i].0;
    assert(s[i].0 == s[i].0);
    assert(c == i);
}

/// Overwriting the entry of an existing key keeps the keys distinct and
/// sets that key in the map.
pub proof fn lemma_replace_at<K, V>(s: Seq<(K, V)>, i: int, k: K, v: V)
    requires
        distinct_firsts(s),
        0 <= i < s.len(),
        s[i].0 == k,
    ensures
        distinct_firsts(s.update(i, (k, v))),
        pairs_map(s.update(i, (k, v))) == pairs_map(s).insert(k, v),
{
    let t = s.update(i, (k, v));
    assert forall|a: int, b: int| 0 <= a < t.len() && 0 <= b < t.len() && a != b implies #[trigger] t[a].0 != #[trigger] t[b].0 by {
        assert(s[a].0 != s[b].0);
    }
    assert forall|q: K| #[trigger] pairs_map(t).contains_key(q) implies pairs_map(t)[q] == pairs_map(s).insert(k, v)[q] by {
        let c = choose|j: int| 0 <= j < t.len() && #[trigger] t[j].0 == q;
        if q != k {
            let c2 = choose|j: int| 0 <= j < s.len() && #[trigger] s[j].0 == q;
            assert(c == c2);
        }
    }
    assert forall|q: K| #[trigger] pairs_map(s).insert(k, v).contains_key(q) implies pairs_map(t).contains_key(q) by {
        if q != k {
            let c2 = choose|j: int| 0 <= j < s.len() && #[trigger] s[j].0 == q;
            assert(t[c2].0 == q);
        } else {
            assert(t[i].0 == q);
        }
    }
    assert(pairs_map(t) =~= pairs_map(s).insert(k, v));
}

/// Appending an entry for a new key keeps the keys distinct and sets
/// that key in the map.
pub proof fn lemma_push_new<K, V>(s: Seq<(K, V)>, k: K, v: V)
    requires
        distinct_firsts(s),
        forall|i: int| 0 <= i < s.len() ==> #[trigger] s[i].0 != k,
    ensures
        distinct_firsts(s.push((k, v))),
        pairs_map(s.push((k, v))) == pairs_map(s).insert(k, v),
{
    let t = s.push((k, v));
    let n = s.len() as int;
    assert forall|a: int, b: int| 0 <= a < t.len() && 0 <= b < t.len() && a != b implies #[trigger] t[a].0 != #[trigger] t[b].0 by {
        if a < n && b < n {
            assert(s[a].0 != s[b].0);
        } else if a < n {
            assert(s[a].0 != k);
        } else {
            assert(s[b].0 != k);
        }
    }
    assert forall|q: K| #[trigger] pairs_map(t).contains_key(q) implies pairs_map(t)[q] == pairs_map(s).insert(k, v)[q] by {
        let c = choose|j: int| 0 <= j < t.len() && #[trigger] t[j].0 == q;
        if q != k {
            assert(c < n);
            assert(s[c].0 == q);
            let c2 = choose|j: int| 0 <= j < s.len() && #[trigger] s[j].0 == q;
            assert(c == c2);
        } else {
            assert(c == n);
        }
    }
    assert forall|q: K| #[trigger] pairs_map(s).insert(k, v).contains_key(q) implies pairs_map(t).contains_key(q) by {
        if q != k {
            let c2 = choose|j: int| 0 <= j < s.len() && #[trigger] s[j].0 == q;
            assert(t[c2].0 == q);
        } else {
            assert(t[n].0 == q);
        }
    }
    assert(pairs_map(t) =~= pairs_map(s).insert(k, v));
}

} // verus!
