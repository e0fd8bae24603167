use vstd::prelude::*;

verus! {

/// An ordered list of keyed entries, as the maps of this crate are seen in
/// their contracts.
pub type Entries<V> = Seq<(Seq<char>, V)>;

/// No key occurs twice.
pub open spec fn keys_unique<V>(s: Entries<V>) -> bool {
    forall|i: int, j: int| 0 <= i < j < s.len() ==> s[i].0 != s[j].0
}

pub open spec fn has_key<V>(s: Entries<V>, k: Seq<char>) -> bool {
    exists|i: int| 0 <= i < s.len() && s[i].0 == k
}

/// The position of key `k`, where it occurs.
pub open spec fn key_index<V>(s: Entries<V>, k: Seq<char>) -> int {
    choose|i: int| 0 <= i < s.len() && s[i].0 == k
}

/// The value stored under `k`.
pub open spec fn lookup<V>(s: Entries<V>, k: Seq<char>) -> Option<V> {
    if has_key(s, k) {
        Some(s[key_index(s, k)].1)
    } else {
        None
    }
}

/// Stores `v` under `k`: in place where `k` is present, else at the end.
pub open spec fn insert<V>(s: Entries<V>, k: Seq<char>, v: V) -> Entries<V> {
    if has_key(s, k) {
        s.update(key_index(s, k), (k, v))
    } else {
        s.push((k, v))
    }
}

/// Takes the entry of `k` out, keeping the order of the others.
pub open spec fn remove<V>(s: Entries<V>, k: Seq<char>) -> Entries<V> {
    if has_key(s, k) {
        s.remove(key_index(s, k))
    } else {
        s
    }
}

/// The keys, in order.
pub open spec fn keys<V>(s: Entries<V>) -> Seq<Seq<char>> {
    s.map_values(|e: (Seq<char>, V)| e.0)
}

/// Where keys are unique, the position of a key is the one where it stands.
pub proof fn lemma_key_index<V>(s: Entries<V>, i: int)
    requires
        keys_unique(s),
        0 <= i < s.len(),
    ensures
        has_key(s, s[i].0),
        key_index(s, s[i].0) == i,
        lookup(s, s[i].0) == Some(s[i].1),
{
    assert(0 <= i < s.len() && s[i].0 == s[i].0);
    let j = key_index(s, s[i].0);
    if j != i {
        if j < i {
            assert(s[j].0 != s[i].0);
        } else {
            assert(s[i].0 != s[j].0);
        }
    }
}

/// Inserting keeps keys unique.
pub proof fn lemma_insert_unique<V>(s: Entries<V>, k: Seq<char>, v: V)
    requires
        keys_unique(s),
    ensures
        keys_unique(insert(s, k, v)),
        has_key(insert(s, k, v), k),
        lookup(insert(s, k, v), k) == Some(v),
{
    let t = insert(s, k, v);
    if has_key(s, k) {
        let i = key_index(s, k);
        assert(0 <= i < s.len() && s[i].0 == k);
        assert(t[i].0 == k);
        lemma_key_index(t, i);
    } else {
        assert(t[s.len() as int].0 == k);
        lemma_key_index(t, s.len() as int);
    }
}

/// Removing keeps keys unique, and the key is then absent.
pub proof fn lemma_remove_unique<V>(s: Entries<V>, k: Seq<char>)
    requires
        keys_unique(s),
    ensures
        keys_unique(remove(s, k)),
        !has_key(remove(s, k), k),
{
    let t = remove(s, k);
    if has_key(s, k) {
        let i = key_index(s, k);
        assert(0 <= i < s.len() && s[i].0 == k);
        assert forall|a: int, b: int| 0 <= a < b < t.len() implies t[a].0 != t[b].0 by {
            let a2 = if a < i { a } else { a + 1 };
            let b2 = if b < i { b } else { b + 1 };
            assert(t[a] == s[a2] && t[b] == s[b2]);
        }
        if has_key(t, k) {
            let j = choose|j: int| 0 <= j < t.len() && t[j].0 == k;
            let j2 = if j < i { j } else { j + 1 };
            assert(t[j] == s[j2]);
            if j2 < i {
                assert(s[j2].0 != s[i].0);
            } else {
                assert(s[i].0 != s[j2].0);
            }
        }
    }
}

} // verus!
