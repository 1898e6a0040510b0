//! Keyed records held as a list of `(key, value)` pairs without repeated keys,
//! and the map that such a list stands for.
use vstd::prelude::*;

verus! {

/// No key occurs twice in the list.
pub open spec fn keys_unique<K, V>(s: Seq<(K, V)>) -> bool {
    forall|i: int, j: int| 0 <= i < j < s.len() ==> s[i].0 != s[j].0
}

/// The map that a list of entries stands for: a later entry for a key replaces an earlier one.
pub open spec fn entries_map<K, V>(s: Seq<(K, V)>) -> Map<K, V>
    decreases s.len(),
{
    if s.len() == 0 {
        Map::empty()
    } else {
        entries_map(s.drop_last()).insert(s.last().0, s.last().1)
    }
}

/// A key is in the map exactly when some entry carries it.
pub proof fn lemma_entries_map_domain<K, V>(s: Seq<(K, V)>, k: K)
    ensures
        entries_map(s).contains_key(k) <==> exists|i: int| 0 <= i < s.len() && s[i].0 == k,
    decreases s.len(),
{
    if s.len() > 0 {
        let p = s.drop_last();
        lemma_entries_map_domain(p, k);
        if entries_map(s).contains_key(k) && s.last().0 != k {
            let i = choose|i: int| 0 <= i < p.len() && p[i].0 == k;
            assert(s[i].0 == k);
        }
        if exists|i: int| 0 <= i < s.len() && s[i].0 == k {
            let i = choose|i: int| 0 <= i < s.len() && s[i].0 == k;
            if i < s.len() - 1 {
                assert(p[i].0 == k);
            }
        }
    }
}

/// In a list without repeated keys, each entry gives the map's value at its key.
pub proof fn lemma_entries_map_index<K, V>(s: Seq<(K, V)>, j: int)
    requires
        keys_unique(s),
        0 <= j < s.len(),
    ensures
        entries_map(s).contains_key(s[j].0),
        entries_map(s)[s[j].0] == s[j].1,
    decreases s.len(),
{
    if j < s.len() - 1 {
        let p = s.drop_last();
        assert(keys_unique(p));
        assert(p[j] == s[j]);
        lemma_entries_map_index(p, j);
        assert(s.last().0 != s[j].0);
    }
}

/// Overwriting the entry of a key overwrites that key in the map.
pub proof fn lemma_entries_map_update<K, V>(s: Seq<(K, V)>, j: int, e: (K, V))
    requires
        keys_unique(s),
        0 <= j < s.len(),
        s[j].0 == e.0,
    ensures
        keys_unique(s.update(j, e)),
        entries_map(s.update(j, e)) == entries_map(s).insert(e.0, e.1),
    decreases s.len(),
{
    let t = s.update(j, e);
    let p = s.drop_last();
    assert(keys_unique(t)) by {
        assert forall|a: int, b: int| 0 <= a < b < t.len() implies t[a].0 != t[b].0 by {
            assert(s[a].0 != s[b].0);
        }
    }
    if j == s.len() - 1 {
        assert(t.drop_last() =~= p);
        assert(entries_map(t) =~= entries_map(s).insert(e.0, e.1));
    } else {
        assert(keys_unique(p));
        assert(t.drop_last() =~= p.update(j, e));
        lemma_entries_map_update(p, j, e);
        assert(s.last().0 != e.0);
        assert(entries_map(t) =~= entries_map(s).insert(e.0, e.1));
    }
}

/// Appending an entry for a new key adds that key to the map.
pub proof fn lemma_entries_map_push<K, V>(s: Seq<(K, V)>, e: (K, V))
    requires
        keys_unique(s),
        forall|i: int| 0 <= i < s.len() ==> s[i].0 != e.0,
    ensures
        keys_unique(s.push(e)),
        entries_map(s.push(e)) == entries_map(s).insert(e.0, e.1),
{
    assert(s.push(e).drop_last() =~= s);
}

/// A key that no entry carries is not in the map.
pub proof fn lemma_entries_map_absent<K, V>(s: Seq<(K, V)>, k: K)
    requires
        forall|i: int| 0 <= i < s.len() ==> s[i].0 != k,
    ensures
        !entries_map(s).contains_key(k),
{
    lemma_entries_map_domain(s, k);
}

/// The sum of the amounts that a list of entries holds.
pub open spec fn entries_sum<K>(s: Seq<(K, i128)>) -> int
    decreases s.len(),
{
    if s.len() == 0 {
        0
    } else {
        entries_sum(s.drop_last()) + s.last().1
    }
}

/// Overwriting one entry changes the sum by the difference of the two amounts.
pub proof fn lemma_entries_sum_update<K>(s: Seq<(K, i128)>, j: int, e: (K, i128))
    requires
        0 <= j < s.len(),
    ensures
        entries_sum(s.update(j, e)) == entries_sum(s) - s[j].1 + e.1,
    decreases s.len(),
{
    let t = s.update(j, e);
    if j == s.len() - 1 {
        assert(t.drop_last() =~= s.drop_last());
    } else {
        assert(t.drop_last() =~= s.drop_last().update(j, e));
        lemma_entries_sum_update(s.drop_last(), j, e);
    }
}

/// Appending an entry adds its amount to the sum.
pub proof fn lemma_entries_sum_push<K>(s: Seq<(K, i128)>, e: (K, i128))
    ensures
        entries_sum(s.push(e)) == entries_sum(s) + e.1,
{
    assert(s.push(e).drop_last() =~= s);
}

} // verus!
