use vstd::prelude::*;

verus! {

/// `s[i]` is the element of `s` whose key is `k`.
pub open spec fn key_at<T, K>(s: Seq<T>, key: spec_fn(T) -> K, k: K, i: int) -> bool {
    0 <= i < s.len() && key(s[i]) == k
}

/// No two elements of `s` share a key.
pub open spec fn keys_unique<T, K>(s: Seq<T>, key: spec_fn(T) -> K) -> bool {
    forall|i: int, j: int|
        #![trigger key(s[i]), key(s[j])]
        0 <= i < s.len() && 0 <= j < s.len() && key(s[i]) == key(s[j]) ==> i == j
}

/// The map from each key occurring in `s` to the element carrying it.
pub open spec fn keyed<T, K>(s: Seq<T>, key: spec_fn(T) -> K) -> Map<K, T> {
    Map::new(
        |k: K| exists|i: int| key_at(s, key, k, i),
        |k: K| s[choose|i: int| key_at(s, key, k, i)],
    )
}

/// The element found at index `i` is the one the map gives for its key.
pub proof fn lemma_keyed_at<T, K>(s: Seq<T>, key: spec_fn(T) -> K, k: K, i: int)
    requires
        keys_unique(s, key),
        key_at(s, key, k, i),
    ensures
        keyed(s, key).contains_key(k),
        keyed(s, key)[k] == s[i],
{
    let c = choose|j: int| key_at(s, key, k, j);
    assert(key_at(s, key, k, c));
    assert(key(s[c]) == key(s[i]));
}

/// Appending an element under a fresh key adds exactly that entry.
pub proof fn lemma_keyed_push<T, K>(s: Seq<T>, key: spec_fn(T) -> K, x: T)
    requires
        keys_unique(s, key),
        !keyed(s, key).contains_key(key(x)),
    ensures
        keys_unique(s.push(x), key),
        keyed(s.push(x), key) == keyed(s, key).insert(key(x), x),
{
    let t = s.push(x);
    assert forall|i: int, j: int|
        0 <= i < t.len() && 0 <= j < t.len() && key(t[i]) == key(t[j]) implies i == j by {
        if i < s.len() && j == s.len() {
            assert(key_at(s, key, key(x), i));
        }
        if j < s.len() && i == s.len() {
            assert(key_at(s, key, key(x), j));
        }
        if i < s.len() && j < s.len() {
            assert(key(s[i]) == key(s[j]));
        }
    }
    let m = keyed(s, key).insert(key(x), x);
    assert forall|k: K| #[trigger] keyed(t, key).contains_key(k) == m.contains_key(k) by {
        if keyed(s, key).contains_key(k) {
            let i = choose|i: int| key_at(s, key, k, i);
            assert(key_at(t, key, k, i));
        }
        if k == key(x) {
            assert(key_at(t, key, k, s.len() as int));
        }
        if keyed(t, key).contains_key(k) && k != key(x) {
            let i = choose|i: int| key_at(t, key, k, i);
            assert(key_at(s, key, k, i));
        }
    }
    assert forall|k: K| #[trigger] keyed(t, key).contains_key(k) implies keyed(t, key)[k] == m[k] by {
        if k == key(x) {
            lemma_keyed_at(t, key, k, s.len() as int);
        } else {
            let i = choose|i: int| key_at(t, key, k, i);
            assert(key_at(s, key, k, i));
            lemma_keyed_at(t, key, k, i);
            lemma_keyed_at(s, key, k, i);
        }
    }
    assert(keyed(t, key) =~= m);
}

/// Replacing an element by one with the same key replaces that entry.
pub proof fn lemma_keyed_update<T, K>(s: Seq<T>, key: spec_fn(T) -> K, i: int, x: T)
    requires
        keys_unique(s, key),
        0 <= i < s.len(),
        key(x) == key(s[i]),
    ensures
        keys_unique(s.update(i, x), key),
        keyed(s.update(i, x), key) == keyed(s, key).insert(key(x), x),
{
    let t = s.update(i, x);
    assert forall|a: int, b: int|
        0 <= a < t.len() && 0 <= b < t.len() && key(t[a]) == key(t[b]) implies a == b by {
        assert(key(t[a]) == key(s[a]));
        assert(key(t[b]) == key(s[b]));
    }
    let m = keyed(s, key).insert(key(x), x);
    assert forall|k: K| #[trigger] keyed(t, key).contains_key(k) == m.contains_key(k) by {
        if keyed(s, key).contains_key(k) {
            let j = choose|j: int| key_at(s, key, k, j);
            assert(key_at(t, key, k, j));
        }
        if k == key(x) {
            assert(key_at(t, key, k, i));
        }
        if keyed(t, key).contains_key(k) {
            let j = choose|j: int| key_at(t, key, k, j);
            assert(key_at(s, key, k, j));
        }
    }
    assert forall|k: K| #[trigger] keyed(t, key).contains_key(k) implies keyed(t, key)[k] == m[k] by {
        let j = choose|j: int| key_at(t, key, k, j);
        assert(key_at(s, key, k, j));
        lemma_keyed_at(t, key, k, j);
        if k != key(x) {
            lemma_keyed_at(s, key, k, j);
        } else {
            assert(key(s[j]) == key(s[i]));
        }
    }
    assert(keyed(t, key) =~= m);
}

/// Removing the element at `i` removes exactly its entry.
pub proof fn lemma_keyed_remove<T, K>(s: Seq<T>, key: spec_fn(T) -> K, i: int)
    requires
        keys_unique(s, key),
        0 <= i < s.len(),
    ensures
        keys_unique(s.remove(i), key),
        keyed(s.remove(i), key) == keyed(s, key).remove(key(s[i])),
{
    let t = s.remove(i);
    let ki = key(s[i]);
    assert forall|a: int, b: int|
        0 <= a < t.len() && 0 <= b < t.len() && key(t[a]) == key(t[b]) implies a == b by {
        let a2 = if a < i { a } else { a + 1 };
        let b2 = if b < i { b } else { b + 1 };
        assert(t[a] == s[a2]);
        assert(t[b] == s[b2]);
        assert(key(s[a2]) == key(s[b2]));
    }
    let m = keyed(s, key).remove(ki);
    assert forall|k: K| #[trigger] keyed(t, key).contains_key(k) == m.contains_key(k) by {
        if m.contains_key(k) {
            let j = choose|j: int| key_at(s, key, k, j);
            assert(j != i);
            let j2 = if j < i { j } else { j - 1 };
            assert(t[j2] == s[j]);
            assert(key_at(t, key, k, j2));
        }
        if keyed(t, key).contains_key(k) {
            let j = choose|j: int| key_at(t, key, k, j);
            let j2 = if j < i { j } else { j + 1 };
            assert(t[j] == s[j2]);
            assert(key_at(s, key, k, j2));
            assert(key(s[j2]) != ki);
        }
    }
    assert forall|k: K| #[trigger] keyed(t, key).contains_key(k) implies keyed(t, key)[k] == m[k] by {
        let j = choose|j: int| key_at(t, key, k, j);
        let j2 = if j < i { j } else { j + 1 };
        assert(t[j] == s[j2]);
        assert(key_at(s, key, k, j2));
        lemma_keyed_at(t, key, k, j);
        lemma_keyed_at(s, key, k, j2);
    }
    assert(keyed(t, key) =~= m);
}

/// A sequence with unique keys has as many entries as elements.
pub proof fn lemma_keyed_len<T, K>(s: Seq<T>, key: spec_fn(T) -> K)
    requires
        keys_unique(s, key),
    ensures
        keyed(s, key).len() == s.len(),
        keyed(s, key).dom().finite(),
    decreases s.len(),
{
    if s.len() == 0 {
        assert(keyed(s, key).dom() =~= Set::empty());
    } else {
        let p = s.drop_last();
        assert(keys_unique(p, key)) by {
            assert forall|i: int, j: int|
                0 <= i < p.len() && 0 <= j < p.len() && key(p[i]) == key(p[j]) implies i == j by {
                assert(p[i] == s[i] && p[j] == s[j]);
                assert(key(s[i]) == key(s[j]));
            }
        }
        lemma_keyed_len(p, key);
        assert(!keyed(p, key).contains_key(key(s.last()))) by {
            if keyed(p, key).contains_key(key(s.last())) {
                let i = choose|i: int| #[trigger] key_at(p, key, key(s.last()), i);
                assert(key(s[i]) == key(s[s.len() - 1]));
            }
        }
        lemma_keyed_push(p, key, s.last());
        assert(p.push(s.last()) =~= s);
    }
}

} // verus!
