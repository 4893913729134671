//! Lists of (key, value) entries with distinct string keys, read as maps:
//! lookup, insertion that replaces, and removal.

use vstd::prelude::*;

verus! {

/// Some entry of `s` has key `k`.
pub open spec fn kv_has<V>(s: Seq<(String, V)>, k: Seq<char>) -> bool {
    exists|i: int| 0 <= i < s.len() && (#[trigger] s[i]).0@ == k
}

/// Position of an entry of `s` with key `k`.
pub open spec fn kv_index<V>(s: Seq<(String, V)>, k: Seq<char>) -> int {
    choose|i: int| 0 <= i < s.len() && (#[trigger] s[i]).0@ == k
}

/// The map that a list of entries stands for.
pub open spec fn kv_map<V>(s: Seq<(String, V)>) -> Map<Seq<char>, V> {
    Map::new(|k: Seq<char>| kv_has(s, k), |k: Seq<char>| s[kv_index(s, k)].1)
}

/// No two entries have the same key.
pub open spec fn kv_unique<V>(s: Seq<(String, V)>) -> bool {
    forall|i: int, j: int| 0 <= i < s.len() && 0 <= j < s.len() && i != j ==> s[i].0@ != s[j].0@
}

/// With distinct keys, the entry at `i` is the one its key finds.
pub proof fn lemma_kv_index_unique<V>(s: Seq<(String, V)>, i: int)
    requires
        kv_unique(s),
        0 <= i < s.len(),
    ensures
        kv_has(s, s[i].0@),
        kv_index(s, s[i].0@) == i,
        kv_map(s).contains_key(s[i].0@),
        kv_map(s)[s[i].0@] == s[i].1,
{
    assert(kv_has(s, s[i].0@));
}

proof fn lemma_kv_map_ext<V>(t: Seq<(String, V)>, m: Map<Seq<char>, V>)
    requires
        forall|k: Seq<char>| #[trigger] kv_has(t, k) <==> m.contains_key(k),
        forall|k: Seq<char>| #[trigger] kv_has(t, k) ==> t[kv_index(t, k)].1 == m[k],
    ensures
        kv_map(t) == m,
{
    assert(kv_map(t) =~= m);
}

/// Position of the entry with key `key`, if any.
pub fn kv_find<V>(entries: &Vec<(String, V)>, key: &str) -> (r: Option<usize>)
    ensures
        r matches Some(i) ==> i < entries@.len() && entries@[i as int].0@ == key@,
        r is None ==> !kv_has(entries@, key@),
{
    let k = key.to_owned();
    let mut i: usize = 0;
    while i < entries.len()
        invariant
            i <= entries.len(),
            k@ == key@,
            forall|j: int| 0 <= j < i ==> (#[trigger] entries@[j]).0@ != key@,
        decreases entries.len() - i,
    {
        if entries[i].0.eq(&k) {
            return Some(i);
        }
        i = i + 1;
    }
    None
}

/// Replaces the value of the entry at `i`, keeping its key.
pub fn kv_set<V>(entries: &mut Vec<(String, V)>, i: usize, value: V)
    requires
        kv_unique(old(entries)@),
        i < old(entries)@.len(),
    ensures
        kv_unique(final(entries)@),
        final(entries)@.len() == old(entries)@.len(),
        final(entries)@[i as int].0 == old(entries)@[i as int].0,
        kv_map(final(entries)@) == kv_map(old(entries)@).insert(old(entries)@[i as int].0@, value),
{
    let ghost s = entries@;
    let ghost key = s[i as int].0@;
    let k = entries[i].0.clone();
    entries.set(i, (k, value));
    proof {
        let t = entries@;
        assert(keys_kept(s, t)) by {
            assert forall|a: int| 0 <= a < t.len() implies t[a].0@ == s[a].0@ by {}
        }
        lemma_kv_unique_kept(s, t);
        let m = kv_map(s).insert(key, value);
        assert forall|k: Seq<char>| #[trigger] kv_has(t, k) <==> m.contains_key(k)
            && (kv_has(t, k) ==> t[kv_index(t, k)].1 == m[k]) by {
            lemma_kv_index_unique(t, i as int);
            if k != key {
                if kv_has(s, k) {
                    let j = kv_index(s, k);
                    lemma_kv_index_unique(s, j);
                    assert(t[j] == s[j]);
                    lemma_kv_index_unique(t, j);
                }
                if kv_has(t, k) {
                    let j = kv_index(t, k);
                    assert(t[j] == s[j]);
                }
            }
        }
        lemma_kv_map_ext(t, m);
    }
}

spec fn keys_kept<V>(s: Seq<(String, V)>, t: Seq<(String, V)>) -> bool {
    s.len() == t.len() && forall|a: int| 0 <= a < t.len() ==> t[a].0@ == s[a].0@
}

proof fn lemma_kv_unique_kept<V>(s: Seq<(String, V)>, t: Seq<(String, V)>)
    requires
        kv_unique(s),
        keys_kept(s, t),
    ensures
        kv_unique(t),
{
    assert forall|a: int, b: int| 0 <= a < t.len() && 0 <= b < t.len() && a != b implies t[a].0@ != t[b].0@ by {
        assert(t[a].0@ == s[a].0@ && t[b].0@ == s[b].0@);
    }
}

/// Sets the value of `key`, replacing an entry with that key or adding one.
pub fn kv_put<V>(entries: &mut Vec<(String, V)>, key: &str, value: V)
    requires
        kv_unique(old(entries)@),
    ensures
        kv_unique(final(entries)@),
        kv_map(final(entries)@) == kv_map(old(entries)@).insert(key@, value),
{
    match kv_find(entries, key) {
        Some(i) => {
            kv_set(entries, i, value);
        },
        None => {
            let ghost s = entries@;
            entries.push((key.to_owned(), value));
            proof {
                let t = entries@;
                assert(kv_unique(t)) by {
                    assert forall|a: int, b: int| 0 <= a < t.len() && 0 <= b < t.len() && a != b implies t[a].0@ != t[b].0@ by {
                        if a < s.len() && b < s.len() {
                            assert(t[a] == s[a] && t[b] == s[b]);
                        } else if a < s.len() {
                            assert(t[a] == s[a]);
                        } else {
                            assert(t[b] == s[b]);
                        }
                    }
                }
                let m = kv_map(s).insert(key@, value);
                assert forall|k: Seq<char>| #[trigger] kv_has(t, k) <==> m.contains_key(k)
                    && (kv_has(t, k) ==> t[kv_index(t, k)].1 == m[k]) by {
                    lemma_kv_index_unique(t, s.len() as int);
                    if k != key@ {
                        if kv_has(s, k) {
                            let j = kv_index(s, k);
                            lemma_kv_index_unique(s, j);
                            assert(t[j] == s[j]);
                            lemma_kv_index_unique(t, j);
                        }
                        if kv_has(t, k) {
                            let j = kv_index(t, k);
                            if j < s.len() {
                                assert(t[j] == s[j]);
                            }
                        }
                    }
                }
                lemma_kv_map_ext(t, m);
            }
        },
    }
}

/// Removes the entry with key `key` and gives its value, if there was one.
pub fn kv_remove<V>(entries: &mut Vec<(String, V)>, key: &str) -> (r: Option<V>)
    requires
        kv_unique(old(entries)@),
    ensures
        kv_unique(final(entries)@),
        kv_map(final(entries)@) == kv_map(old(entries)@).remove(key@),
        r is Some <==> kv_map(old(entries)@).contains_key(key@),
        r matches Some(v) ==> v == kv_map(old(entries)@)[key@],
{
    let ghost s = entries@;
    match kv_find(entries, key) {
        Some(i) => {
            proof {
                lemma_kv_index_unique(s, i as int);
            }
            let (_, v) = entries.remove(i);
            proof {
                let t = entries@;
                assert(forall|a: int| 0 <= a < i ==> t[a] == s[a]);
                assert(forall|a: int| i <= a < t.len() ==> t[a] == s[a + 1]);
                assert(kv_unique(t)) by {
                    assert forall|a: int, b: int| 0 <= a < t.len() && 0 <= b < t.len() && a != b implies t[a].0@ != t[b].0@ by {
                        let a2 = if a < i { a } else { a + 1 };
                        let b2 = if b < i { b } else { b + 1 };
                        assert(t[a] == s[a2] && t[b] == s[b2]);
                    }
                }
                let m = kv_map(s).remove(key@);
                assert forall|k: Seq<char>| #[trigger] kv_has(t, k) <==> m.contains_key(k)
                    && (kv_has(t, k) ==> t[kv_index(t, k)].1 == m[k]) by {
                    if k == key@ {
                        if kv_has(t, k) {
                            let j = kv_index(t, k);
                            let j2 = if j < i { j } else { j + 1 };
                            assert(t[j] == s[j2]);
                        }
                    } else {
                        if kv_has(s, k) {
                            let j = kv_index(s, k);
                            lemma_kv_index_unique(s, j);
                            let j2 = if j < i { j } else { j - 1 };
                            assert(t[j2] == s[j]);
                            lemma_kv_index_unique(t, j2);
                        }
                        if kv_has(t, k) {
                            let j = kv_index(t, k);
                            let j2 = if j < i { j } else { j + 1 };
                            assert(t[j] == s[j2]);
                        }
                    }
                }
                lemma_kv_map_ext(t, m);
            }
            Some(v)
        },
        None => {
            assert(kv_map(s) =~= kv_map(s).remove(key@));
            None
        },
    }
}

} // verus!
