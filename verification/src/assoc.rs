//! Association lists: a sequence of key-value pairs with no key twice, read
//! as the map it stands for.
use vstd::prelude::*;

verus! {

/// No key occurs twice.
pub open spec fn distinct_keys<K, V>(pairs: Seq<(K, V)>) -> bool {
    forall|i: int, j: int| 0 <= i < j < pairs.len() ==> pairs[i].0 != pairs[j].0
}

/// Whether `at` is a place where `key` stands.
pub open spec fn key_at<K, V>(pairs: Seq<(K, V)>, key: K, at: int) -> bool {
    0 <= at < pairs.len() && pairs[at].0 == key
}

/// Whether a key occurs.
pub open spec fn has_key<K, V>(pairs: Seq<(K, V)>, key: K) -> bool {
    exists|at: int| key_at(pairs, key, at)
}

/// A place where a key stands, if it occurs.
pub open spec fn place_of<K, V>(pairs: Seq<(K, V)>, key: K) -> int {
    choose|at: int| key_at(pairs, key, at)
}

/// The map that a list of pairs stands for.
pub open spec fn as_map<K, V>(pairs: Seq<(K, V)>) -> Map<K, V> {
    Map::new(|key: K| has_key(pairs, key), |key: K| pairs[place_of(pairs, key)].1)
}

/// Each pair of a list without repeated keys is an entry of its map.
pub proof fn lemma_entry<K, V>(pairs: Seq<(K, V)>, at: int)
    requires
        distinct_keys(pairs),
        0 <= at < pairs.len(),
    ensures
        as_map(pairs).contains_key(pairs[at].0),
        as_map(pairs)[pairs[at].0] == pairs[at].1,
        place_of(pairs, pairs[at].0) == at,
{
    let key = pairs[at].0;
    assert(key_at(pairs, key, at));
    let found = place_of(pairs, key);
    assert(key_at(pairs, key, found));
    if found < at {
        assert(pairs[found].0 != pairs[at].0);
    } else if at < found {
        assert(pairs[at].0 != pairs[found].0);
    }
}

/// The empty list stands for the empty map.
pub proof fn lemma_empty<K, V>()
    ensures
        distinct_keys(Seq::<(K, V)>::empty()),
        as_map(Seq::<(K, V)>::empty()) == Map::<K, V>::empty(),
{
    let pairs = Seq::<(K, V)>::empty();
    assert forall|key: K| !has_key(pairs, key) by {
        if has_key(pairs, key) {
            let at = place_of(pairs, key);
            assert(key_at(pairs, key, at));
        }
    }
    assert(as_map(pairs) =~= Map::<K, V>::empty());
}

/// Appending a pair under a new key inserts it into the map.
pub proof fn lemma_push<K, V>(pairs: Seq<(K, V)>, key: K, value: V)
    requires
        distinct_keys(pairs),
        !has_key(pairs, key),
    ensures
        distinct_keys(pairs.push((key, value))),
        as_map(pairs.push((key, value))) == as_map(pairs).insert(key, value),
{
    let after = pairs.push((key, value));
    assert forall|i: int, j: int| 0 <= i < j < after.len() implies after[i].0 != after[j].0 by {
        if j == pairs.len() {
            assert(!key_at(pairs, key, i));
        }
    }
    assert forall|k: K| #[trigger]
        as_map(after).contains_key(k) == as_map(pairs).insert(key, value).contains_key(k) by {
        if has_key(after, k) {
            let at = place_of(after, k);
            assert(key_at(after, k, at));
            if at < pairs.len() {
                assert(key_at(pairs, k, at));
            }
        }
        if has_key(pairs, k) {
            let at = place_of(pairs, k);
            assert(key_at(pairs, k, at));
            assert(key_at(after, k, at));
        }
        if k == key {
            assert(key_at(after, k, pairs.len() as int));
        }
    }
    assert forall|k: K| #[trigger] as_map(after).contains_key(k) implies as_map(after)[k]
        == as_map(pairs).insert(key, value)[k] by {
        let at = place_of(after, k);
        assert(key_at(after, k, at));
        lemma_entry(after, at);
        if at < pairs.len() {
            assert(key_at(pairs, k, at));
            lemma_entry(pairs, at);
        }
    }
    assert(as_map(after) =~= as_map(pairs).insert(key, value));
}

/// Replacing the value at a place replaces it in the map.
pub proof fn lemma_update<K, V>(pairs: Seq<(K, V)>, at: int, value: V)
    requires
        distinct_keys(pairs),
        0 <= at < pairs.len(),
    ensures
        distinct_keys(pairs.update(at, (pairs[at].0, value))),
        as_map(pairs.update(at, (pairs[at].0, value))) == as_map(pairs).insert(pairs[at].0, value),
{
    let key = pairs[at].0;
    let after = pairs.update(at, (key, value));
    assert forall|i: int, j: int| 0 <= i < j < after.len() implies after[i].0 != after[j].0 by {
        assert(pairs[i].0 != pairs[j].0);
    }
    assert forall|k: K| #[trigger]
        as_map(after).contains_key(k) == as_map(pairs).insert(key, value).contains_key(k) by {
        if has_key(after, k) {
            let i = place_of(after, k);
            assert(key_at(after, k, i));
            assert(key_at(pairs, k, i));
        }
        if has_key(pairs, k) {
            let i = place_of(pairs, k);
            assert(key_at(pairs, k, i));
            assert(key_at(after, k, i));
        }
        if k == key {
            assert(key_at(after, k, at));
        }
    }
    assert forall|k: K| #[trigger] as_map(after).contains_key(k) implies as_map(after)[k]
        == as_map(pairs).insert(key, value)[k] by {
        let i = place_of(after, k);
        assert(key_at(after, k, i));
        lemma_entry(after, i);
        lemma_entry(pairs, i);
    }
    assert(as_map(after) =~= as_map(pairs).insert(key, value));
}

/// Taking a pair out of the list removes its key from the map.
pub proof fn lemma_remove<K, V>(pairs: Seq<(K, V)>, at: int)
    requires
        distinct_keys(pairs),
        0 <= at < pairs.len(),
    ensures
        distinct_keys(pairs.remove(at)),
        as_map(pairs.remove(at)) == as_map(pairs).remove(pairs[at].0),
{
    let key = pairs[at].0;
    let after = pairs.remove(at);
    assert forall|i: int, j: int| 0 <= i < j < after.len() implies after[i].0 != after[j].0 by {
        let from_i = if i < at {
            i
        } else {
            i + 1
        };
        let from_j = if j < at {
            j
        } else {
            j + 1
        };
        assert(pairs[from_i].0 != pairs[from_j].0);
    }
    assert forall|k: K| #[trigger]
        as_map(after).contains_key(k) == as_map(pairs).remove(key).contains_key(k) by {
        if has_key(after, k) {
            let i = place_of(after, k);
            assert(key_at(after, k, i));
            let from = if i < at {
                i
            } else {
                i + 1
            };
            assert(key_at(pairs, k, from));
            if from < at {
                assert(pairs[from].0 != pairs[at].0);
            } else {
                assert(pairs[at].0 != pairs[from].0);
            }
        }
        if has_key(pairs, k) && k != key {
            let i = place_of(pairs, k);
            assert(key_at(pairs, k, i));
            let to = if i < at {
                i
            } else {
                i - 1
            };
            assert(key_at(after, k, to));
        }
    }
    assert forall|k: K| #[trigger] as_map(after).contains_key(k) implies as_map(after)[k]
        == as_map(pairs).remove(key)[k] by {
        let i = place_of(after, k);
        assert(key_at(after, k, i));
        lemma_entry(after, i);
        let from = if i < at {
            i
        } else {
            i + 1
        };
        lemma_entry(pairs, from);
    }
    assert(as_map(after) =~= as_map(pairs).remove(key));
}

/// Changing every value by one rule, keys left alone, changes the map's
/// values by that rule.
pub proof fn lemma_map_values<K, V>(pairs: Seq<(K, V)>, after: Seq<(K, V)>, rule: spec_fn(V) -> V)
    requires
        distinct_keys(pairs),
        after.len() == pairs.len(),
        forall|i: int| 0 <= i < pairs.len() ==> #[trigger] after[i] == (pairs[i].0, rule(pairs[i].1)),
    ensures
        distinct_keys(after),
        as_map(after) == as_map(pairs).map_values(rule),
{
    assert forall|i: int, j: int| 0 <= i < j < after.len() implies after[i].0 != after[j].0 by {
        assert(pairs[i].0 != pairs[j].0);
    }
    assert forall|k: K| #[trigger]
        as_map(after).contains_key(k) == as_map(pairs).map_values(rule).contains_key(k) by {
        if has_key(after, k) {
            let i = place_of(after, k);
            assert(key_at(after, k, i));
            assert(key_at(pairs, k, i));
        }
        if has_key(pairs, k) {
            let i = place_of(pairs, k);
            assert(key_at(pairs, k, i));
            assert(key_at(after, k, i));
        }
    }
    assert forall|k: K| #[trigger] as_map(after).contains_key(k) implies as_map(after)[k]
        == as_map(pairs).map_values(rule)[k] by {
        let i = place_of(after, k);
        assert(key_at(after, k, i));
        lemma_entry(after, i);
        lemma_entry(pairs, i);
    }
    assert(as_map(after) =~= as_map(pairs).map_values(rule));
}

} // verus!
