//! Sequences whose items carry distinct string keys, seen as maps from key
//! to value.

use vstd::prelude::*;

verus! {

/// No two items of `s` have the same key.
pub open spec fn unique_keys<T>(s: Seq<T>, key: spec_fn(T) -> Seq<char>) -> bool {
    forall|i: int, j: int|
        0 <= i < s.len() && 0 <= j < s.len() && i != j ==> #[trigger] key(s[i]) != #[trigger] key(
            s[j],
        )
}

/// Some item of `s` has key `k`.
pub open spec fn has_key<T>(s: Seq<T>, key: spec_fn(T) -> Seq<char>, k: Seq<char>) -> bool {
    exists|i: int| 0 <= i < s.len() && #[trigger] key(s[i]) == k
}

/// The position of an item of `s` with key `k`.
pub open spec fn key_index<T>(s: Seq<T>, key: spec_fn(T) -> Seq<char>, k: Seq<char>) -> int {
    choose|i: int| 0 <= i < s.len() && #[trigger] key(s[i]) == k
}

/// The map from each key of `s` to the value of its item.
pub open spec fn keyed<T, V>(s: Seq<T>, key: spec_fn(T) -> Seq<char>, val: spec_fn(T) -> V) -> Map<
    Seq<char>,
    V,
> {
    Map::new(|k: Seq<char>| has_key(s, key, k), |k: Seq<char>| val(s[key_index(s, key, k)]))
}

/// The item at `i` is what the map holds under its key.
pub proof fn lemma_keyed_index<T, V>(
    s: Seq<T>,
    key: spec_fn(T) -> Seq<char>,
    val: spec_fn(T) -> V,
    i: int,
)
    requires
        unique_keys(s, key),
        0 <= i < s.len(),
    ensures
        keyed(s, key, val).dom().contains(key(s[i])),
        keyed(s, key, val)[key(s[i])] == val(s[i]),
{
    let k = key(s[i]);
    assert(has_key(s, key, k));
    let j = key_index(s, key, k);
    assert(key(s[j]) == key(s[i]));
}

/// A map holds no key that no item has.
pub proof fn lemma_keyed_absent<T, V>(
    s: Seq<T>,
    key: spec_fn(T) -> Seq<char>,
    val: spec_fn(T) -> V,
    k: Seq<char>,
)
    requires
        forall|i: int| 0 <= i < s.len() ==> key(s[i]) != k,
    ensures
        !keyed(s, key, val).dom().contains(k),
{
}

/// An empty sequence is the empty map.
pub proof fn lemma_keyed_empty<T, V>(s: Seq<T>, key: spec_fn(T) -> Seq<char>, val: spec_fn(T) -> V)
    requires
        s.len() == 0,
    ensures
        unique_keys(s, key),
        keyed(s, key, val) =~= Map::empty(),
{
}

/// A map is empty exactly when its sequence is.
pub proof fn lemma_keyed_is_empty<T, V>(s: Seq<T>, key: spec_fn(T) -> Seq<char>, val: spec_fn(T) -> V)
    ensures
        (keyed(s, key, val).dom() == Set::<Seq<char>>::empty()) <==> s.len() == 0,
{
    if s.len() > 0 {
        assert(has_key(s, key, key(s[0])));
        assert(keyed(s, key, val).dom().contains(key(s[0])));
    } else {
        assert(keyed(s, key, val).dom() =~= Set::<Seq<char>>::empty());
    }
}

/// Appending an item with a new key inserts it into the map.
pub proof fn lemma_keyed_push<T, V>(
    s: Seq<T>,
    key: spec_fn(T) -> Seq<char>,
    val: spec_fn(T) -> V,
    x: T,
)
    requires
        unique_keys(s, key),
        !has_key(s, key, key(x)),
    ensures
        unique_keys(s.push(x), key),
        keyed(s.push(x), key, val) =~= keyed(s, key, val).insert(key(x), val(x)),
{
    let t = s.push(x);
    assert forall|i: int, j: int|
        0 <= i < t.len() && 0 <= j < t.len() && i != j implies #[trigger] key(t[i]) != #[trigger] key(
            t[j],
        ) by {
        if i == s.len() {
            assert(key(s[j]) != key(x));
        } else if j == s.len() {
            assert(key(s[i]) != key(x));
        } else {
            assert(t[i] == s[i] && t[j] == s[j]);
        }
    }
    let m = keyed(t, key, val);
    let n = keyed(s, key, val).insert(key(x), val(x));
    assert forall|k: Seq<char>| m.dom().contains(k) <==> n.dom().contains(k) by {
        if has_key(t, key, k) {
            let i = choose|i: int| 0 <= i < t.len() && #[trigger] key(t[i]) == k;
            if i < s.len() {
                assert(key(s[i]) == k);
            }
        }
        if has_key(s, key, k) {
            let i = choose|i: int| 0 <= i < s.len() && #[trigger] key(s[i]) == k;
            assert(key(t[i]) == k);
        }
        if k == key(x) {
            assert(key(t[s.len() as int]) == k);
        }
    }
    assert forall|k: Seq<char>| #[trigger] m.dom().contains(k) implies m[k] == n[k] by {
        let j = key_index(t, key, k);
        assert(0 <= j < t.len() && key(t[j]) == k);
        if k == key(x) {
            assert(key(t[s.len() as int]) == k);
            assert(j == s.len());
        } else {
            assert(j < s.len());
            assert(key(s[j]) == k);
            lemma_keyed_index(s, key, val, j);
        }
    }
}

/// Replacing an item by one with the same key replaces its value.
pub proof fn lemma_keyed_update<T, V>(
    s: Seq<T>,
    key: spec_fn(T) -> Seq<char>,
    val: spec_fn(T) -> V,
    i: int,
    x: T,
)
    requires
        unique_keys(s, key),
        0 <= i < s.len(),
        key(x) == key(s[i]),
    ensures
        unique_keys(s.update(i, x), key),
        keyed(s.update(i, x), key, val) =~= keyed(s, key, val).insert(key(x), val(x)),
{
    let t = s.update(i, x);
    assert forall|a: int, b: int|
        0 <= a < t.len() && 0 <= b < t.len() && a != b implies #[trigger] key(t[a]) != #[trigger] key(
            t[b],
        ) by {
        assert(key(t[a]) == key(s[a]));
        assert(key(t[b]) == key(s[b]));
    }
    let m = keyed(t, key, val);
    let n = keyed(s, key, val).insert(key(x), val(x));
    assert forall|k: Seq<char>| m.dom().contains(k) <==> n.dom().contains(k) by {
        if has_key(t, key, k) {
            let a = choose|a: int| 0 <= a < t.len() && #[trigger] key(t[a]) == k;
            assert(key(s[a]) == k);
        }
        if has_key(s, key, k) {
            let a = choose|a: int| 0 <= a < s.len() && #[trigger] key(s[a]) == k;
            assert(key(t[a]) == k);
        }
        if k == key(x) {
            assert(key(t[i]) == k);
        }
    }
    assert forall|k: Seq<char>| #[trigger] m.dom().contains(k) implies m[k] == n[k] by {
        let j = key_index(t, key, k);
        assert(0 <= j < t.len() && key(t[j]) == k);
        if k == key(x) {
            assert(key(t[i]) == k);
            assert(j == i);
        } else {
            assert(j != i);
            assert(key(s[j]) == k);
            lemma_keyed_index(s, key, val, j);
        }
    }
}

/// Removing an item removes its key from the map.
pub proof fn lemma_keyed_remove<T, V>(
    s: Seq<T>,
    key: spec_fn(T) -> Seq<char>,
    val: spec_fn(T) -> V,
    i: int,
)
    requires
        unique_keys(s, key),
        0 <= i < s.len(),
    ensures
        unique_keys(s.remove(i), key),
        keyed(s.remove(i), key, val) =~= keyed(s, key, val).remove(key(s[i])),
{
    let t = s.remove(i);
    assert forall|a: int| 0 <= a < t.len() implies #[trigger] t[a] == s[if a < i {
        a
    } else {
        a + 1
    }] by {}
    assert forall|a: int, b: int|
        0 <= a < t.len() && 0 <= b < t.len() && a != b implies #[trigger] key(t[a]) != #[trigger] key(
            t[b],
        ) by {
        let a2 = if a < i {
            a
        } else {
            a + 1
        };
        let b2 = if b < i {
            b
        } else {
            b + 1
        };
        assert(t[a] == s[a2] && t[b] == s[b2]);
        assert(key(s[a2]) != key(s[b2]));
    }
    let m = keyed(t, key, val);
    let n = keyed(s, key, val).remove(key(s[i]));
    assert forall|k: Seq<char>| m.dom().contains(k) <==> n.dom().contains(k) by {
        if has_key(t, key, k) {
            let a = choose|a: int| 0 <= a < t.len() && #[trigger] key(t[a]) == k;
            let a2 = if a < i {
                a
            } else {
                a + 1
            };
            assert(t[a] == s[a2]);
            assert(key(s[a2]) == k);
            assert(a2 != i);
            assert(key(s[a2]) != key(s[i]));
        }
        if has_key(s, key, k) && k != key(s[i]) {
            let a = choose|a: int| 0 <= a < s.len() && #[trigger] key(s[a]) == k;
            assert(a != i);
            let a1 = if a < i {
                a
            } else {
                a - 1
            };
            assert(t[a1] == s[a]);
            assert(key(t[a1]) == k);
        }
    }
    assert forall|k: Seq<char>| #[trigger] m.dom().contains(k) implies m[k] == n[k] by {
        let j = key_index(t, key, k);
        assert(0 <= j < t.len() && key(t[j]) == k);
        let j2 = if j < i {
            j
        } else {
            j + 1
        };
        assert(t[j] == s[j2]);
        assert(key(s[j2]) == k);
        lemma_keyed_index(s, key, val, j2);
    }
}

} // verus!
