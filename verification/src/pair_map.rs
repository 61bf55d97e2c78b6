//! Maps held as lists of key-value pairs with distinct keys.
//!
//! The list is the executable form; `pairs_to_map` is its model.
use vstd::prelude::*;

verus! {

/// The map that a list of pairs stands for (a later pair wins over an earlier one).
pub open spec fn pairs_to_map<K, V>(s: Seq<(K, V)>) -> Map<K, V>
    decreases s.len(),
{
    if s.len() == 0 {
        Map::empty()
    } else {
        pairs_to_map(s.drop_last()).insert(s.last().0, s.last().1)
    }
}

/// No key occurs twice in the list.
pub open spec fn keys_unique<K, V>(s: Seq<(K, V)>) -> bool {
    forall|i: int, j: int| 0 <= i < s.len() && 0 <= j < s.len() && i != j ==> s[i].0 != s[j].0
}

/// The index of the pair with key `k`, if any.
pub open spec fn key_index<K, V>(s: Seq<(K, V)>, k: K) -> Option<int> {
    if exists|i: int| 0 <= i < s.len() && s[i].0 == k {
        Some(choose|i: int| 0 <= i < s.len() && s[i].0 == k)
    } else {
        None
    }
}

/// The map holds exactly the keys of the list.
pub proof fn lemma_pairs_contains<K, V>(s: Seq<(K, V)>, k: K)
    ensures
        pairs_to_map(s).contains_key(k) <==> exists|i: int| 0 <= i < s.len() && s[i].0 == k,
    decreases s.len(),
{
    if s.len() > 0 {
        lemma_pairs_contains(s.drop_last(), k);
        if pairs_to_map(s.drop_last()).contains_key(k) {
            let i = choose|i: int| 0 <= i < s.drop_last().len() && s.drop_last()[i].0 == k;
            assert(s[i].0 == k);
        }
        if exists|i: int| 0 <= i < s.len() && s[i].0 == k {
            let i = choose|i: int| 0 <= i < s.len() && s[i].0 == k;
            if i < s.len() - 1 {
                assert(s.drop_last()[i].0 == k);
            }
        }
    }
}

/// With distinct keys, the map gives each pair's value under its key.
pub proof fn lemma_pairs_index<K, V>(s: Seq<(K, V)>, i: int)
    requires
        keys_unique(s),
        0 <= i < s.len(),
    ensures
        pairs_to_map(s).contains_key(s[i].0),
        pairs_to_map(s)[s[i].0] == s[i].1,
    decreases s.len(),
{
    if i < s.len() - 1 {
        let t = s.drop_last();
        assert(keys_unique(t));
        lemma_pairs_index(t, i);
        assert(t[i] == s[i]);
        assert(s.last().0 != s[i].0);
    }
}

/// The map's keys are those of the list, and each key gives the value of its pair.
pub proof fn lemma_pairs_lookup<K, V>(s: Seq<(K, V)>, k: K)
    requires
        keys_unique(s),
    ensures
        pairs_to_map(s).contains_key(k) <==> key_index(s, k) is Some,
        key_index(s, k) matches Some(i) ==> 0 <= i < s.len() && s[i].0 == k && pairs_to_map(s)[k]
            == s[i].1,
{
    lemma_pairs_contains(s, k);
    if key_index(s, k) is Some {
        let i = key_index(s, k)->0;
        lemma_pairs_index(s, i);
    }
}

/// Appending a pair with a new key keeps the keys distinct.
pub proof fn lemma_pairs_push<K, V>(s: Seq<(K, V)>, k: K, v: V)
    requires
        keys_unique(s),
        !pairs_to_map(s).contains_key(k),
    ensures
        keys_unique(s.push((k, v))),
        pairs_to_map(s.push((k, v))) == pairs_to_map(s).insert(k, v),
{
    lemma_pairs_contains(s, k);
    assert(s.push((k, v)).drop_last() =~= s);
    assert forall|i: int, j: int|
        0 <= i < s.len() + 1 && 0 <= j < s.len() + 1 && i != j implies s.push((k, v))[i].0 != s.push(
        (k, v),
    )[j].0 by {
        if i < s.len() && j < s.len() {
        } else if i == s.len() {
            assert(s[j].0 != k);
        } else {
            assert(s[i].0 != k);
        }
    }
}

/// Replacing the value of a pair replaces the value under its key.
pub proof fn lemma_pairs_update<K, V>(s: Seq<(K, V)>, i: int, v: V)
    requires
        keys_unique(s),
        0 <= i < s.len(),
    ensures
        keys_unique(s.update(i, (s[i].0, v))),
        pairs_to_map(s.update(i, (s[i].0, v))) == pairs_to_map(s).insert(s[i].0, v),
    decreases s.len(),
{
    let t = s.update(i, (s[i].0, v));
    assert(keys_unique(t)) by {
        assert forall|a: int, b: int| 0 <= a < t.len() && 0 <= b < t.len() && a != b implies t[a].0
            != t[b].0 by {
            assert(t[a].0 == s[a].0);
            assert(t[b].0 == s[b].0);
        }
    }
    if i == s.len() - 1 {
        assert(t.drop_last() =~= s.drop_last());
        assert(pairs_to_map(t) =~= pairs_to_map(s).insert(s[i].0, v));
    } else {
        let sd = s.drop_last();
        assert(keys_unique(sd));
        lemma_pairs_update(sd, i, v);
        assert(t.drop_last() =~= sd.update(i, (sd[i].0, v)));
        assert(s.last().0 != s[i].0);
        assert(pairs_to_map(t) =~= pairs_to_map(s).insert(s[i].0, v));
    }
}

/// The pairs of a list whose keys satisfy `keep`, in order.
pub open spec fn filter_keys<K, V>(s: Seq<(K, V)>, keep: spec_fn(K) -> bool) -> Seq<(K, V)>
    decreases s.len(),
{
    if s.len() == 0 {
        Seq::empty()
    } else {
        let rest = filter_keys(s.drop_last(), keep);
        if keep(s.last().0) {
            rest.push(s.last())
        } else {
            rest
        }
    }
}

/// Filtering the pairs by key restricts the map to the kept keys.
pub proof fn lemma_filter_keys<K, V>(s: Seq<(K, V)>, keep: spec_fn(K) -> bool)
    requires
        keys_unique(s),
    ensures
        keys_unique(filter_keys(s, keep)),
        forall|k: K|
            #![trigger pairs_to_map(filter_keys(s, keep)).contains_key(k)]
            pairs_to_map(filter_keys(s, keep)).contains_key(k) <==> (keep(k) && pairs_to_map(
                s,
            ).contains_key(k)),
        forall|k: K|
            #![trigger pairs_to_map(filter_keys(s, keep))[k]]
            pairs_to_map(filter_keys(s, keep)).contains_key(k) ==> pairs_to_map(filter_keys(s, keep))[k]
                == pairs_to_map(s)[k],
    decreases s.len(),
{
    if s.len() > 0 {
        let sd = s.drop_last();
        assert(keys_unique(sd));
        lemma_filter_keys(sd, keep);
        let rest = filter_keys(sd, keep);
        let last = s.last();
        lemma_pairs_contains(sd, last.0);
        if pairs_to_map(sd).contains_key(last.0) {
            let j = choose|j: int| 0 <= j < sd.len() && sd[j].0 == last.0;
            assert(s[j].0 == s[s.len() - 1].0);
        }
        if keep(last.0) {
            lemma_pairs_push(rest, last.0, last.1);
            assert(rest.push(last) == rest.push((last.0, last.1)));
        }
    }
}

/// Removing a pair removes its key from the map.
pub proof fn lemma_pairs_remove<K, V>(s: Seq<(K, V)>, i: int)
    requires
        keys_unique(s),
        0 <= i < s.len(),
    ensures
        keys_unique(s.remove(i)),
        pairs_to_map(s.remove(i)) == pairs_to_map(s).remove(s[i].0),
    decreases s.len(),
{
    let t = s.remove(i);
    assert(keys_unique(t)) by {
        assert forall|a: int, b: int| 0 <= a < t.len() && 0 <= b < t.len() && a != b implies t[a].0
            != t[b].0 by {
            let sa = if a < i {
                a
            } else {
                a + 1
            };
            let sb = if b < i {
                b
            } else {
                b + 1
            };
            assert(t[a] == s[sa]);
            assert(t[b] == s[sb]);
        }
    }
    let k = s[i].0;
    let sd = s.drop_last();
    assert(keys_unique(sd));
    if i == s.len() - 1 {
        assert(t =~= sd);
        lemma_pairs_contains(sd, k);
        assert forall|j: int| 0 <= j < sd.len() implies sd[j].0 != k by {
            assert(s[j].0 != s[i].0);
        }
        assert(pairs_to_map(t) =~= pairs_to_map(s).remove(k));
    } else {
        lemma_pairs_remove(sd, i);
        assert(t.drop_last() =~= sd.remove(i));
        assert(t.last() == s.last());
        assert(s.last().0 != k);
        assert(pairs_to_map(t) =~= pairs_to_map(s).remove(k));
    }
}

/// The map of a list of pairs has finitely many keys.
pub proof fn lemma_pairs_finite<K, V>(s: Seq<(K, V)>)
    ensures
        pairs_to_map(s).dom().finite(),
    decreases s.len(),
{
    if s.len() > 0 {
        lemma_pairs_finite(s.drop_last());
    }
}

} // verus!
