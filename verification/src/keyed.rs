//! Lists of entries with distinct keys, read as maps.
//!
//! Several tables of the library (response headers, OpenAPI operations, JSON
//! capacity hints) are small vectors of entries, each with a key that occurs at
//! most once. These lemmas relate such a list to the map it stands for.
use vstd::prelude::*;

verus! {

/// No two entries share a key.
pub open spec fn keys_distinct<E, K>(s: Seq<E>, key: spec_fn(E) -> K) -> bool {
    forall|i: int, j: int| 0 <= i < j < s.len() ==> #[trigger] key(s[i]) != #[trigger] key(s[j])
}

/// Whether some entry has key `k`.
pub open spec fn has_key<E, K>(s: Seq<E>, key: spec_fn(E) -> K, k: K) -> bool {
    exists|i: int| 0 <= i < s.len() && #[trigger] key(s[i]) == k
}

/// The map a list stands for: each key to the value of its entry.
pub open spec fn keyed_map<E, K, W>(s: Seq<E>, key: spec_fn(E) -> K, val: spec_fn(E) -> W) -> Map<
    K,
    W,
> {
    Map::new(
        |k: K| has_key(s, key, k),
        |k: K| val(s[choose|i: int| 0 <= i < s.len() && #[trigger] key(s[i]) == k]),
    )
}

/// The entry at `i` of a distinct-keyed list is what its map holds for that key.
pub proof fn lemma_keyed_at<E, K, W>(s: Seq<E>, key: spec_fn(E) -> K, val: spec_fn(E) -> W, i: int)
    requires
        keys_distinct(s, key),
        0 <= i < s.len(),
    ensures
        keyed_map(s, key, val).contains_key(key(s[i])),
        keyed_map(s, key, val)[key(s[i])] == val(s[i]),
{
    let k = key(s[i]);
    assert(has_key(s, key, k));
    let j = choose|j: int| 0 <= j < s.len() && #[trigger] key(s[j]) == k;
    if j != i {
        if j < i {
            assert(key(s[j]) != key(s[i]));
        } else {
            assert(key(s[i]) != key(s[j]));
        }
    }
}

/// Replacing an entry by one with the same key keeps keys distinct and updates the map.
pub proof fn lemma_keyed_update<E, K, W>(
    s: Seq<E>,
    key: spec_fn(E) -> K,
    val: spec_fn(E) -> W,
    i: int,
    e: E,
)
    requires
        keys_distinct(s, key),
        0 <= i < s.len(),
        key(e) == key(s[i]),
    ensures
        keys_distinct(s.update(i, e), key),
        keyed_map(s.update(i, e), key, val) == keyed_map(s, key, val).insert(key(e), val(e)),
{
    let t = s.update(i, e);
    assert forall|a: int, b: int| 0 <= a < b < t.len() implies #[trigger] key(t[a]) != #[trigger] key(
        t[b],
    ) by {
        assert(key(s[a]) != key(s[b]));
    }
    let m1 = keyed_map(t, key, val);
    let m2 = keyed_map(s, key, val).insert(key(e), val(e));
    assert forall|k: K| #[trigger] m2.contains_key(k) implies m1.contains_key(k) by {
        if k == key(e) {
            assert(t[i] == e);
            assert(key(t[i]) == k);
        } else {
            let j = choose|j: int| 0 <= j < s.len() && #[trigger] key(s[j]) == k;
            assert(j != i);
            assert(t[j] == s[j]);
            assert(key(t[j]) == k);
        }
    }
    assert forall|k: K| #[trigger] m1.contains_key(k) implies m2.contains_key(k) by {
        let j = choose|j: int| 0 <= j < t.len() && #[trigger] key(t[j]) == k;
        if j != i {
            assert(t[j] == s[j]);
            assert(key(s[j]) == k);
        }
    }
    assert forall|k: K| #[trigger] m1.contains_key(k) implies m1[k] == m2[k] by {
        let j = choose|j: int| 0 <= j < t.len() && #[trigger] key(t[j]) == k;
        lemma_keyed_at(t, key, val, j);
        if j != i {
            assert(s[j] == t[j]);
            lemma_keyed_at(s, key, val, j);
        }
    }
    assert(m1 =~= m2);
}

/// Appending an entry with a new key keeps keys distinct and inserts into the map.
pub proof fn lemma_keyed_push<E, K, W>(s: Seq<E>, key: spec_fn(E) -> K, val: spec_fn(E) -> W, e: E)
    requires
        keys_distinct(s, key),
        forall|i: int| 0 <= i < s.len() ==> #[trigger] key(s[i]) != key(e),
    ensures
        keys_distinct(s.push(e), key),
        keyed_map(s.push(e), key, val) == keyed_map(s, key, val).insert(key(e), val(e)),
{
    let t = s.push(e);
    assert forall|a: int, b: int| 0 <= a < b < t.len() implies #[trigger] key(t[a]) != #[trigger] key(
        t[b],
    ) by {
        if b < s.len() {
            assert(key(s[a]) != key(s[b]));
        } else {
            assert(t[a] == s[a]);
        }
    }
    let m1 = keyed_map(t, key, val);
    let m2 = keyed_map(s, key, val).insert(key(e), val(e));
    assert forall|k: K| #[trigger] m2.contains_key(k) implies m1.contains_key(k) by {
        if k == key(e) {
            let last = s.len() as int;
            assert(t[last] == e);
            assert(key(t[last]) == k);
        } else {
            let j = choose|j: int| 0 <= j < s.len() && #[trigger] key(s[j]) == k;
            assert(t[j] == s[j]);
            assert(key(t[j]) == k);
        }
    }
    assert forall|k: K| #[trigger] m1.contains_key(k) implies m2.contains_key(k) by {
        let j = choose|j: int| 0 <= j < t.len() && #[trigger] key(t[j]) == k;
        if j < s.len() {
            assert(t[j] == s[j]);
            assert(key(s[j]) == k);
        }
    }
    assert forall|k: K| #[trigger] m1.contains_key(k) implies m1[k] == m2[k] by {
        let j = choose|j: int| 0 <= j < t.len() && #[trigger] key(t[j]) == k;
        lemma_keyed_at(t, key, val, j);
        if j < s.len() {
            assert(s[j] == t[j]);
            lemma_keyed_at(s, key, val, j);
        }
    }
    assert(m1 =~= m2);
}

/// Two lists with the same keys and values position by position stand for the same map.
pub proof fn lemma_keyed_same<E, F, K, W>(
    a: Seq<E>,
    ka: spec_fn(E) -> K,
    va: spec_fn(E) -> W,
    b: Seq<F>,
    kb: spec_fn(F) -> K,
    vb: spec_fn(F) -> W,
)
    requires
        a.len() == b.len(),
        keys_distinct(b, kb),
        forall|j: int| 0 <= j < a.len() ==> ka(#[trigger] a[j]) == kb(b[j]) && va(a[j]) == vb(b[j]),
    ensures
        keys_distinct(a, ka),
        keyed_map(a, ka, va) == keyed_map(b, kb, vb),
{
    assert forall|x: int, y: int| 0 <= x < y < a.len() implies #[trigger] ka(a[x]) != #[trigger] ka(
        a[y],
    ) by {
        assert(kb(b[x]) != kb(b[y]));
    }
    let m1 = keyed_map(a, ka, va);
    let m2 = keyed_map(b, kb, vb);
    assert forall|k: K| #[trigger] m1.contains_key(k) implies m2.contains_key(k) by {
        let j = choose|j: int| 0 <= j < a.len() && #[trigger] ka(a[j]) == k;
        assert(kb(b[j]) == k);
    }
    assert forall|k: K| #[trigger] m2.contains_key(k) implies m1.contains_key(k) by {
        let j = choose|j: int| 0 <= j < b.len() && #[trigger] kb(b[j]) == k;
        assert(ka(a[j]) == k);
    }
    assert forall|k: K| #[trigger] m1.contains_key(k) implies m1[k] == m2[k] by {
        let j = choose|j: int| 0 <= j < a.len() && #[trigger] ka(a[j]) == k;
        lemma_keyed_at(a, ka, va, j);
        assert(kb(b[j]) == k);
        lemma_keyed_at(b, kb, vb, j);
    }
    assert(m1 =~= m2);
}

/// The map of a distinct-keyed list has one key per entry.
pub proof fn lemma_keyed_dom_len<E, K, W>(s: Seq<E>, key: spec_fn(E) -> K, val: spec_fn(E) -> W)
    requires
        keys_distinct(s, key),
    ensures
        keyed_map(s, key, val).dom().finite(),
        keyed_map(s, key, val).dom().len() == s.len(),
    decreases s.len(),
{
    if s.len() == 0 {
        assert(keyed_map(s, key, val).dom() =~= Set::<K>::empty());
    } else {
        let p = s.drop_last();
        let e = s.last();
        assert forall|x: int, y: int| 0 <= x < y < p.len() implies #[trigger] key(p[x])
            != #[trigger] key(p[y]) by {
            assert(key(s[x]) != key(s[y]));
        }
        assert forall|i: int| 0 <= i < p.len() implies #[trigger] key(p[i]) != key(e) by {
            assert(key(s[i]) != key(s[s.len() - 1]));
        }
        lemma_keyed_dom_len(p, key, val);
        lemma_keyed_push(p, key, val, e);
        assert(p.push(e) =~= s);
        assert(!keyed_map(p, key, val).dom().contains(key(e)));
    }
}

} // verus!
