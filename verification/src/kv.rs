//! Association lists keyed by `String`, compared by character content.
//! The cache and the configuration tables are stored this way so that
//! lookups and updates can be reasoned about at the sequence level.
//! A lookup always means the first entry that carries the key.

use vstd::prelude::*;

verus! {

/// No two entries share a key (by character content).
pub open spec fn keys_distinct<V>(s: Seq<(String, V)>) -> bool {
    forall|i: int, j: int| 0 <= i < j < s.len() ==> s[i].0@ != s[j].0@
}

/// Some entry carries the key `k`.
pub open spec fn has_key<V>(s: Seq<(String, V)>, k: Seq<char>) -> bool {
    exists|i: int| 0 <= i < s.len() && s[i].0@ == k
}

/// The index of the first entry carrying `k` (meaningful when `has_key`
/// holds).
pub open spec fn key_index<V>(s: Seq<(String, V)>, k: Seq<char>) -> int {
    choose|i: int|
        0 <= i < s.len() && s[i].0@ == k && (forall|j: int| 0 <= j < i ==> s[j].0@ != k)
}

/// The value stored under `k`.
pub open spec fn assoc_get<V>(s: Seq<(String, V)>, k: Seq<char>) -> V {
    s[key_index(s, k)].1
}

/// An entry that carries `k` and is preceded by none that does is the
/// entry `key_index` and `assoc_get` speak of.
pub proof fn lemma_key_index<V>(s: Seq<(String, V)>, k: Seq<char>, i: int)
    requires
        0 <= i < s.len(),
        s[i].0@ == k,
        forall|j: int| 0 <= j < i ==> s[j].0@ != k,
    ensures
        has_key(s, k),
        key_index(s, k) == i,
        assoc_get(s, k) == s[i].1,
{
    assert(has_key(s, k));
    assert(0 <= i < s.len() && s[i].0@ == k && (forall|j: int| 0 <= j < i ==> s[j].0@ != k));
    let c = key_index(s, k);
    assert(0 <= c < s.len() && s[c].0@ == k && (forall|j: int| 0 <= j < c ==> s[j].0@ != k));
    if c < i {
        assert(s[c].0@ != k);
    } else if i < c {
        assert(s[i].0@ != k);
    }
}

/// With distinct keys, any entry that carries `k` is the entry
/// `assoc_get` speaks of.
pub proof fn lemma_assoc_get<V>(s: Seq<(String, V)>, k: Seq<char>, i: int)
    requires
        keys_distinct(s),
        0 <= i < s.len(),
        s[i].0@ == k,
    ensures
        has_key(s, k),
        key_index(s, k) == i,
        assoc_get(s, k) == s[i].1,
{
    assert forall|j: int| 0 <= j < i implies s[j].0@ != k by {
        assert(s[j].0@ != s[i].0@);
    }
    lemma_key_index(s, k, i);
}

/// A key that occurs at all has a first occurrence.
pub proof fn lemma_first_exists<V>(s: Seq<(String, V)>, k: Seq<char>)
    requires
        has_key(s, k),
    ensures
        exists|i: int|
            0 <= i < s.len() && s[i].0@ == k && (forall|j: int| 0 <= j < i ==> s[j].0@ != k),
    decreases s.len(),
{
    let w = choose|i: int| 0 <= i < s.len() && s[i].0@ == k;
    if s[0].0@ == k {
        assert(0 <= 0 < s.len() && s[0].0@ == k && (forall|j: int| 0 <= j < 0 ==> s[j].0@ != k));
    } else {
        let s1 = s.drop_first();
        assert(0 <= w - 1 < s1.len() && s1[w - 1].0@ == k);
        lemma_first_exists(s1, k);
        let i1 = choose|i: int|
            0 <= i < s1.len() && s1[i].0@ == k && (forall|j: int| 0 <= j < i ==> s1[j].0@ != k);
        assert forall|j: int| 0 <= j < i1 + 1 implies s[j].0@ != k by {
            if j > 0 {
                assert(s1[j - 1].0@ != k);
                assert(s[j] == s1[j - 1]);
            }
        }
        assert(s[i1 + 1] == s1[i1]);
    }
}

/// What `key_index` denotes, whenever the key occurs at all.
pub proof fn lemma_key_index_props<V>(s: Seq<(String, V)>, k: Seq<char>)
    requires
        has_key(s, k),
    ensures
        0 <= key_index(s, k) < s.len(),
        s[key_index(s, k)].0@ == k,
        forall|j: int| 0 <= j < key_index(s, k) ==> s[j].0@ != k,
{
    lemma_first_exists(s, k);
}

/// Replacing the value at the first occurrence of `k` changes the list
/// under `k` alone.
pub proof fn lemma_assoc_update<V>(s: Seq<(String, V)>, i: int, v: V)
    requires
        0 <= i < s.len(),
        forall|j: int| 0 <= j < i ==> s[j].0@ != s[i].0@,
    ensures
        ({
            let k = s[i].0@;
            let t = s.update(i, (s[i].0, v));
            &&& forall|k2: Seq<char>| has_key(t, k2) <==> has_key(s, k2)
            &&& forall|k2: Seq<char>|
                has_key(s, k2) && k2 != k ==> #[trigger] assoc_get(t, k2) == assoc_get(s, k2)
            &&& has_key(t, k)
            &&& assoc_get(t, k) == v
            &&& keys_distinct(s) ==> keys_distinct(t)
        }),
{
    let k = s[i].0@;
    let t = s.update(i, (s[i].0, v));
    assert(forall|j: int| 0 <= j < t.len() ==> t[j].0@ == s[j].0@);
    assert forall|k2: Seq<char>| has_key(t, k2) <==> has_key(s, k2) by {
        if has_key(t, k2) {
            let j = choose|j: int| 0 <= j < t.len() && t[j].0@ == k2;
            assert(s[j].0@ == k2);
        }
        if has_key(s, k2) {
            let j = choose|j: int| 0 <= j < s.len() && s[j].0@ == k2;
            assert(t[j].0@ == k2);
        }
    }
    lemma_key_index(t, k, i);
    assert forall|k2: Seq<char>| has_key(s, k2) && k2 != k implies #[trigger] assoc_get(t, k2)
        == assoc_get(s, k2) by {
        lemma_key_index_props(s, k2);
        let j = key_index(s, k2);
        assert forall|j2: int| 0 <= j2 < j implies t[j2].0@ != k2 by {
            assert(s[j2].0@ != k2);
        }
        lemma_key_index(t, k2, j);
        assert(j != i);
        assert(t[j] == s[j]);
    }
}

/// Appending an entry with a fresh key changes the list under that key
/// alone.
pub proof fn lemma_assoc_push<V>(s: Seq<(String, V)>, p: (String, V))
    requires
        !has_key(s, p.0@),
    ensures
        ({
            let t = s.push(p);
            &&& forall|k2: Seq<char>| has_key(t, k2) <==> has_key(s, k2) || k2 == p.0@
            &&& forall|k2: Seq<char>|
                has_key(s, k2) ==> #[trigger] assoc_get(t, k2) == assoc_get(s, k2)
            &&& has_key(t, p.0@)
            &&& assoc_get(t, p.0@) == p.1
            &&& keys_distinct(s) ==> keys_distinct(t)
        }),
{
    let t = s.push(p);
    assert(t[s.len() as int] == p);
    assert forall|k2: Seq<char>| has_key(t, k2) <==> has_key(s, k2) || k2 == p.0@ by {
        if has_key(t, k2) {
            let j = choose|j: int| 0 <= j < t.len() && t[j].0@ == k2;
            if j < s.len() {
                assert(s[j].0@ == k2);
            }
        }
        if has_key(s, k2) {
            let j = choose|j: int| 0 <= j < s.len() && s[j].0@ == k2;
            assert(t[j].0@ == k2);
        }
    }
    assert forall|k2: Seq<char>| has_key(s, k2) implies #[trigger] assoc_get(t, k2) == assoc_get(
        s,
        k2,
    ) by {
        lemma_key_index_props(s, k2);
        let j = key_index(s, k2);
        assert forall|j2: int| 0 <= j2 < j implies t[j2].0@ != k2 by {
            assert(s[j2].0@ != k2);
        }
        lemma_key_index(t, k2, j);
        assert(t[j] == s[j]);
    }
    assert forall|j2: int| 0 <= j2 < s.len() implies t[j2].0@ != p.0@ by {
        assert(s[j2].0@ != p.0@);
    }
    lemma_key_index(t, p.0@, s.len() as int);
    if keys_distinct(s) {
        assert forall|i: int, j: int| 0 <= i < j < t.len() implies t[i].0@ != t[j].0@ by {
            if j < s.len() {
                assert(s[i].0@ != s[j].0@);
            } else {
                assert(s[i].0@ != p.0@);
            }
        }
    }
}

/// Index of the first entry carrying `k`, or `None` when no entry does.
pub fn find_key<V>(v: &Vec<(String, V)>, k: &String) -> (r: Option<usize>)
    ensures
        match r {
            Some(i) => {
                &&& i < v.len()
                &&& v@[i as int].0@ == k@
                &&& forall|j: int| 0 <= j < i ==> v@[j].0@ != k@
                &&& key_index(v@, k@) == i
                &&& has_key(v@, k@)
            },
            None => !has_key(v@, k@),
        },
{
    let mut i: usize = 0;
    while i < v.len()
        invariant
            i <= v.len(),
            forall|j: int| 0 <= j < i ==> v@[j].0@ != k@,
        decreases v.len() - i,
    {
        if v[i].0.eq(k) {
            proof {
                lemma_key_index(v@, k@, i as int);
            }
            return Some(i);
        }
        i += 1;
    }
    None
}

} // verus!
