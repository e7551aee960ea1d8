//! Sequences of records with unique keys, seen as maps from key to record.

use vstd::prelude::*;

use crate::types::TaskId;

verus! {

/// No two positions of `s` hold the same key.
pub open spec fn unique_keys<T>(s: Seq<T>, key: spec_fn(T) -> TaskId) -> bool {
    forall|i: int, j: int|
        0 <= i < s.len() && 0 <= j < s.len() && i != j ==> key(#[trigger] s[i]) != key(#[trigger] s[j])
}

/// The map from each key to the (last) record of `s` that holds it.
pub open spec fn keyed<T>(s: Seq<T>, key: spec_fn(T) -> TaskId) -> Map<TaskId, T>
    decreases s.len(),
{
    if s.len() == 0 {
        Map::empty()
    } else {
        keyed(s.drop_last(), key).insert(key(s.last()), s.last())
    }
}

/// The keys of `keyed(s)` are exactly the keys held in `s`.
pub proof fn lemma_keyed_dom<T>(s: Seq<T>, key: spec_fn(T) -> TaskId, k: TaskId)
    ensures
        keyed(s, key).contains_key(k) <==> exists|i: int| 0 <= i < s.len() && key(s[i]) == k,
    decreases s.len(),
{
    if s.len() > 0 {
        lemma_keyed_dom(s.drop_last(), key, k);
        if keyed(s, key).contains_key(k) {
            if key(s.last()) != k {
                let i = choose|i: int| 0 <= i < s.len() - 1 && key(s.drop_last()[i]) == k;
                assert(key(s[i]) == k);
            }
        } else {
            assert forall|i: int| 0 <= i < s.len() implies key(s[i]) != k by {
                if i < s.len() - 1 {
                    assert(s.drop_last()[i] == s[i]);
                }
            }
        }
    }
}

/// With unique keys, the record at each position is the one its key maps to.
pub proof fn lemma_keyed_index<T>(s: Seq<T>, key: spec_fn(T) -> TaskId, i: int)
    requires
        unique_keys(s, key),
        0 <= i < s.len(),
    ensures
        keyed(s, key).contains_key(key(s[i])),
        keyed(s, key)[key(s[i])] == s[i],
    decreases s.len(),
{
    if i < s.len() - 1 {
        assert(s.drop_last()[i] == s[i]);
        assert(unique_keys(s.drop_last(), key)) by {
            assert forall|a: int, b: int|
                0 <= a < s.len() - 1 && 0 <= b < s.len() - 1 && a != b implies
                key(#[trigger] s.drop_last()[a]) != key(#[trigger] s.drop_last()[b]) by {
                assert(s.drop_last()[a] == s[a]);
                assert(s.drop_last()[b] == s[b]);
            }
        }
        lemma_keyed_index(s.drop_last(), key, i);
        assert(key(s[s.len() - 1]) != key(s[i]));
    }
}

/// A key that no record holds is not in the map.
pub proof fn lemma_keyed_absent<T>(s: Seq<T>, key: spec_fn(T) -> TaskId, k: TaskId)
    requires
        forall|i: int| 0 <= i < s.len() ==> key(#[trigger] s[i]) != k,
    ensures
        !keyed(s, key).contains_key(k),
{
    lemma_keyed_dom(s, key, k);
}

/// Appending a record under a new key adds that key to the map.
pub proof fn lemma_keyed_push<T>(s: Seq<T>, key: spec_fn(T) -> TaskId, v: T)
    requires
        unique_keys(s, key),
        !keyed(s, key).contains_key(key(v)),
    ensures
        unique_keys(s.push(v), key),
        keyed(s.push(v), key) == keyed(s, key).insert(key(v), v),
{
    assert(s.push(v).drop_last() =~= s);
    assert forall|i: int| 0 <= i < s.len() implies key(#[trigger] s[i]) != key(v) by {
        lemma_keyed_index(s, key, i);
    }
    assert forall|i: int, j: int|
        0 <= i < s.push(v).len() && 0 <= j < s.push(v).len() && i != j implies
        key(#[trigger] s.push(v)[i]) != key(#[trigger] s.push(v)[j]) by {
        if i < s.len() && j < s.len() {
            assert(s.push(v)[i] == s[i] && s.push(v)[j] == s[j]);
        } else if i < s.len() {
            assert(s.push(v)[i] == s[i]);
        } else {
            assert(s.push(v)[j] == s[j]);
        }
    }
}

/// Replacing a record by one with the same key replaces it in the map.
pub proof fn lemma_keyed_update<T>(s: Seq<T>, key: spec_fn(T) -> TaskId, i: int, v: T)
    requires
        unique_keys(s, key),
        0 <= i < s.len(),
        key(v) == key(s[i]),
    ensures
        unique_keys(s.update(i, v), key),
        keyed(s.update(i, v), key) == keyed(s, key).insert(key(v), v),
    decreases s.len(),
{
    let t = s.update(i, v);
    assert forall|a: int, b: int|
        0 <= a < t.len() && 0 <= b < t.len() && a != b implies key(#[trigger] t[a]) != key(#[trigger] t[b]) by {
        if a != i && b != i {
            assert(t[a] == s[a] && t[b] == s[b]);
        } else if a == i {
            assert(t[b] == s[b]);
        } else {
            assert(t[a] == s[a]);
        }
    }
    if i == s.len() - 1 {
        assert(t.drop_last() =~= s.drop_last());
        assert(keyed(t, key) =~= keyed(s, key).insert(key(v), v)) by {
            let m = keyed(s.drop_last(), key);
            assert(keyed(s, key) == m.insert(key(s.last()), s.last()));
            assert(keyed(t, key) == m.insert(key(v), v));
        }
    } else {
        let sd = s.drop_last();
        assert(t.drop_last() =~= sd.update(i, v));
        assert(unique_keys(sd, key)) by {
            assert forall|a: int, b: int|
                0 <= a < sd.len() && 0 <= b < sd.len() && a != b implies
                key(#[trigger] sd[a]) != key(#[trigger] sd[b]) by {
                assert(sd[a] == s[a] && sd[b] == s[b]);
            }
        }
        assert(sd[i] == s[i]);
        lemma_keyed_update(sd, key, i, v);
        assert(t.last() == s.last());
        assert(key(s.last()) != key(v));
        assert(keyed(t, key) =~= keyed(s, key).insert(key(v), v));
    }
}

/// Removing a record removes its key from the map.
pub proof fn lemma_keyed_remove<T>(s: Seq<T>, key: spec_fn(T) -> TaskId, i: int)
    requires
        unique_keys(s, key),
        0 <= i < s.len(),
    ensures
        unique_keys(s.remove(i), key),
        keyed(s.remove(i), key) == keyed(s, key).remove(key(s[i])),
    decreases s.len(),
{
    let t = s.remove(i);
    assert forall|a: int, b: int|
        0 <= a < t.len() && 0 <= b < t.len() && a != b implies key(#[trigger] t[a]) != key(#[trigger] t[b]) by {
        let a2 = if a < i { a } else { a + 1 };
        let b2 = if b < i { b } else { b + 1 };
        assert(t[a] == s[a2] && t[b] == s[b2]);
    }
    if i == s.len() - 1 {
        assert(t =~= s.drop_last());
        assert forall|j: int| 0 <= j < t.len() implies key(#[trigger] t[j]) != key(s[i]) by {
            assert(t[j] == s[j]);
        }
        lemma_keyed_absent(t, key, key(s[i]));
        assert(keyed(t, key) =~= keyed(s, key).remove(key(s[i])));
    } else {
        let sd = s.drop_last();
        assert(t.drop_last() =~= sd.remove(i));
        assert(unique_keys(sd, key)) by {
            assert forall|a: int, b: int|
                0 <= a < sd.len() && 0 <= b < sd.len() && a != b implies
                key(#[trigger] sd[a]) != key(#[trigger] sd[b]) by {
                assert(sd[a] == s[a] && sd[b] == s[b]);
            }
        }
        assert(sd[i] == s[i]);
        lemma_keyed_remove(sd, key, i);
        assert(t.last() == s.last());
        assert(key(s.last()) != key(s[i]));
        assert(keyed(t, key) =~= keyed(s, key).remove(key(s[i])));
    }
}

/// Filtering keeps keys unique.
pub proof fn lemma_filter_unique<T>(s: Seq<T>, key: spec_fn(T) -> TaskId, pred: spec_fn(T) -> bool)
    requires
        unique_keys(s, key),
    ensures
        unique_keys(s.filter(pred), key),
        forall|k: int| 0 <= k < s.filter(pred).len() ==> s.contains(#[trigger] s.filter(pred)[k]),
    decreases s.len(),
{
    reveal(Seq::filter);
    if s.len() > 0 {
        let d = s.drop_last();
        assert(unique_keys(d, key)) by {
            assert forall|a: int, b: int|
                0 <= a < d.len() && 0 <= b < d.len() && a != b implies key(#[trigger] d[a]) != key(#[trigger] d[b]) by {
                assert(d[a] == s[a] && d[b] == s[b]);
            }
        }
        lemma_filter_unique(d, key, pred);
        let f = d.filter(pred);
        assert forall|k: int| 0 <= k < f.len() implies s.contains(#[trigger] f[k]) by {
            let j = choose|j: int| 0 <= j < d.len() && d[j] == f[k];
            assert(s[j] == d[j]);
        }
        if pred(s.last()) {
            let g = f.push(s.last());
            assert(s.filter(pred) == g);
            assert forall|a: int, b: int|
                0 <= a < g.len() && 0 <= b < g.len() && a != b implies key(#[trigger] g[a]) != key(#[trigger] g[b]) by {
                if a < f.len() && b < f.len() {
                    assert(g[a] == f[a] && g[b] == f[b]);
                } else {
                    let x = if a < f.len() { a } else { b };
                    assert(g[x] == f[x]);
                    assert(d.contains(f[x]));
                    let j = choose|j: int| 0 <= j < d.len() && d[j] == f[x];
                    assert(d[j] == s[j]);
                    assert(key(s[j]) != key(s[s.len() - 1]));
                }
            }
            assert forall|k: int| 0 <= k < g.len() implies s.contains(#[trigger] g[k]) by {
                if k < f.len() {
                    assert(g[k] == f[k]);
                } else {
                    assert(g[k] == s[s.len() - 1]);
                }
            }
        }
    }
}

/// Filtering a prefix one element longer.
pub proof fn lemma_filter_step<T>(s: Seq<T>, pred: spec_fn(T) -> bool, i: int)
    requires
        0 <= i < s.len(),
    ensures
        s.subrange(0, i + 1).filter(pred) == if pred(s[i]) {
            s.subrange(0, i).filter(pred).push(s[i])
        } else {
            s.subrange(0, i).filter(pred)
        },
{
    reveal(Seq::filter);
    let p = s.subrange(0, i + 1);
    assert(p.drop_last() =~= s.subrange(0, i));
    assert(p.last() == s[i]);
}

} // verus!
