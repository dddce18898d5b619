//! Association lists: sequences of key-value pairs read as a map in which a later
//! pair overrides an earlier one with the same key.

use vstd::prelude::*;

verus! {

/// The map that a list of pairs denotes.
pub open spec fn kv_map<K, V>(s: Seq<(K, V)>) -> Map<K, V>
    decreases s.len(),
{
    if s.len() == 0 {
        Map::empty()
    } else {
        kv_map(s.drop_last()).insert(s.last().0, s.last().1)
    }
}

/// No key occurs twice in the list.
pub open spec fn kv_keys_unique<K, V>(s: Seq<(K, V)>) -> bool {
    forall|i: int, j: int| 0 <= i < j < s.len() ==> #[trigger] s[i].0 != #[trigger] s[j].0
}

/// Appending a pair inserts it.
pub proof fn lemma_kv_push<K, V>(s: Seq<(K, V)>, e: (K, V))
    ensures
        kv_map(s.push(e)) == kv_map(s).insert(e.0, e.1),
{
    assert(s.push(e).drop_last() =~= s);
}

/// The keys of the map are the keys of the list.
pub proof fn lemma_kv_dom<K, V>(s: Seq<(K, V)>, k: K)
    ensures
        kv_map(s).dom().contains(k) <==> exists|i: int| 0 <= i < s.len() && #[trigger] s[i].0 == k,
    decreases s.len(),
{
    if s.len() > 0 {
        lemma_kv_dom(s.drop_last(), k);
        if kv_map(s).dom().contains(k) && k != s.last().0 {
            let i = choose|i: int| 0 <= i < s.drop_last().len() && #[trigger] s.drop_last()[i].0 == k;
            assert(s[i].0 == k);
        }
        if exists|i: int| 0 <= i < s.len() && #[trigger] s[i].0 == k {
            let i = choose|i: int| 0 <= i < s.len() && #[trigger] s[i].0 == k;
            if i < s.len() - 1 {
                assert(s.drop_last()[i].0 == k);
            }
        }
    }
}

/// With unique keys, each pair of the list is an entry of the map.
pub proof fn lemma_kv_index<K, V>(s: Seq<(K, V)>, i: int)
    requires
        kv_keys_unique(s),
        0 <= i < s.len(),
    ensures
        kv_map(s).dom().contains(s[i].0),
        kv_map(s)[s[i].0] == s[i].1,
    decreases s.len(),
{
    if i < s.len() - 1 {
        let t = s.drop_last();
        assert(kv_keys_unique(t));
        assert(t[i] == s[i]);
        lemma_kv_index(t, i);
        assert(s[i].0 != s[s.len() - 1].0);
    }
}

/// With unique keys, overwriting the value of a pair is an insert into the map.
pub proof fn lemma_kv_update<K, V>(s: Seq<(K, V)>, i: int, v: V)
    requires
        kv_keys_unique(s),
        0 <= i < s.len(),
    ensures
        kv_map(s.update(i, (s[i].0, v))) == kv_map(s).insert(s[i].0, v),
        kv_keys_unique(s.update(i, (s[i].0, v))),
    decreases s.len(),
{
    let u = s.update(i, (s[i].0, v));
    if i == s.len() - 1 {
        assert(u.drop_last() =~= s.drop_last());
        assert(kv_map(u) =~= kv_map(s).insert(s[i].0, v));
    } else {
        let t = s.drop_last();
        assert(kv_keys_unique(t));
        assert(u.drop_last() =~= t.update(i, (t[i].0, v)));
        lemma_kv_update(t, i, v);
        assert(s[i].0 != s.last().0);
        assert(kv_map(u) =~= kv_map(s).insert(s[i].0, v));
    }
    assert forall|a: int, b: int| 0 <= a < b < u.len() implies #[trigger] u[a].0 != #[trigger] u[b].0 by {
        assert(u[a].0 == s[a].0 && u[b].0 == s[b].0);
    }
}

/// With unique keys, dropping a pair removes its key from the map.
pub proof fn lemma_kv_remove<K, V>(s: Seq<(K, V)>, i: int)
    requires
        kv_keys_unique(s),
        0 <= i < s.len(),
    ensures
        kv_map(s.remove(i)) == kv_map(s).remove(s[i].0),
        kv_keys_unique(s.remove(i)),
    decreases s.len(),
{
    let r = s.remove(i);
    if i == s.len() - 1 {
        assert(r =~= s.drop_last());
        lemma_kv_dom(s.drop_last(), s[i].0);
        assert(!kv_map(s.drop_last()).dom().contains(s[i].0)) by {
            if kv_map(s.drop_last()).dom().contains(s[i].0) {
                let j = choose|j: int|
                    0 <= j < s.drop_last().len() && #[trigger] s.drop_last()[j].0 == s[i].0;
                assert(s[j].0 == s[i].0);
            }
        }
        assert(kv_map(r) =~= kv_map(s).remove(s[i].0));
    } else {
        let t = s.drop_last();
        assert(kv_keys_unique(t));
        assert(r.drop_last() =~= t.remove(i));
        assert(r.last() == s.last());
        lemma_kv_remove(t, i);
        assert(s[i].0 != s.last().0);
        assert(kv_map(r) =~= kv_map(s).remove(s[i].0));
    }
    assert forall|a: int, b: int| 0 <= a < b < r.len() implies #[trigger] r[a].0 != #[trigger] r[b].0 by {
        let a0 = if a < i { a } else { a + 1 };
        let b0 = if b < i { b } else { b + 1 };
        assert(r[a] == s[a0] && r[b] == s[b0]);
    }
}

} // verus!
