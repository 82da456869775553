//! Association lists: sequences of key and value that stand for a map, the
//! store that the cache and the guild members are kept in.

use vstd::prelude::*;

verus! {

/// The map that a sequence of entries stands for; a later entry hides an
/// earlier one with the same key.
pub open spec fn assoc_map<K: View, V>(s: Seq<(K, V)>) -> Map<K::V, V>
    decreases s.len(),
{
    if s.len() == 0 {
        Map::empty()
    } else {
        assoc_map(s.drop_last()).insert(s.last().0@, s.last().1)
    }
}

/// No two entries have the same key.
pub open spec fn keys_unique<K: View, V>(s: Seq<(K, V)>) -> bool {
    forall|i: int, j: int| 0 <= i < j < s.len() ==> s[i].0@ != s[j].0@
}

pub proof fn lemma_assoc_contains<K: View, V>(s: Seq<(K, V)>, k: K::V)
    ensures
        assoc_map(s).contains_key(k) <==> exists|i: int| 0 <= i < s.len() && #[trigger] s[i].0@ == k,
    decreases s.len(),
{
    if s.len() > 0 {
        let t = s.drop_last();
        lemma_assoc_contains(t, k);
        if assoc_map(s).contains_key(k) {
            if s.last().0@ == k {
                assert(s[s.len() - 1].0@ == k);
            } else {
                let i = choose|i: int| 0 <= i < t.len() && #[trigger] t[i].0@ == k;
                assert(s[i] == t[i]);
            }
        }
        if exists|i: int| 0 <= i < s.len() && #[trigger] s[i].0@ == k {
            let i = choose|i: int| 0 <= i < s.len() && #[trigger] s[i].0@ == k;
            if i < t.len() {
                assert(t[i] == s[i]);
            }
        }
    }
}

pub proof fn lemma_assoc_value<K: View, V>(s: Seq<(K, V)>, i: int)
    requires
        keys_unique(s),
        0 <= i < s.len(),
    ensures
        assoc_map(s).contains_key(s[i].0@),
        assoc_map(s)[s[i].0@] == s[i].1,
    decreases s.len(),
{
    let t = s.drop_last();
    if i < s.len() - 1 {
        assert(keys_unique(t));
        assert(t[i] == s[i]);
        lemma_assoc_value(t, i);
    }
}

pub proof fn lemma_assoc_len<K: View, V>(s: Seq<(K, V)>)
    requires
        keys_unique(s),
    ensures
        assoc_map(s).dom().finite(),
        assoc_map(s).len() == s.len(),
    decreases s.len(),
{
    if s.len() > 0 {
        let t = s.drop_last();
        assert(keys_unique(t));
        lemma_assoc_len(t);
        lemma_assoc_contains(t, s.last().0@);
        if assoc_map(t).contains_key(s.last().0@) {
            let i = choose|i: int| 0 <= i < t.len() && #[trigger] t[i].0@ == s.last().0@;
            assert(s[i] == t[i]);
        }
    }
}

pub proof fn lemma_assoc_update<K: View, V>(s: Seq<(K, V)>, i: int, e: (K, V))
    requires
        keys_unique(s),
        0 <= i < s.len(),
        e.0@ == s[i].0@,
    ensures
        keys_unique(s.update(i, e)),
        assoc_map(s.update(i, e)) == assoc_map(s).insert(e.0@, e.1),
{
    let u = s.update(i, e);
    assert(keys_unique(u));
    assert forall|k: K::V| #[trigger] assoc_map(u).contains_key(k) <==> assoc_map(s).insert(e.0@, e.1).contains_key(k) by {
        lemma_assoc_contains(u, k);
        lemma_assoc_contains(s, k);
        if exists|j: int| 0 <= j < s.len() && #[trigger] s[j].0@ == k {
            let j = choose|j: int| 0 <= j < s.len() && #[trigger] s[j].0@ == k;
            if j != i {
                assert(u[j] == s[j]);
            } else {
                assert(u[i].0@ == k);
            }
        }
        if exists|j: int| 0 <= j < u.len() && #[trigger] u[j].0@ == k {
            let j = choose|j: int| 0 <= j < u.len() && #[trigger] u[j].0@ == k;
            if j != i {
                assert(u[j] == s[j]);
            }
        }
    }
    assert forall|k: K::V| #[trigger] assoc_map(u).contains_key(k) implies assoc_map(u)[k] == assoc_map(s).insert(e.0@, e.1)[k] by {
        lemma_assoc_contains(u, k);
        let j = choose|j: int| 0 <= j < u.len() && #[trigger] u[j].0@ == k;
        lemma_assoc_value(u, j);
        if j != i {
            assert(u[j] == s[j]);
            lemma_assoc_value(s, j);
        }
    }
    assert(assoc_map(u) =~= assoc_map(s).insert(e.0@, e.1));
}

pub proof fn lemma_assoc_remove<K: View, V>(s: Seq<(K, V)>, i: int)
    requires
        keys_unique(s),
        0 <= i < s.len(),
    ensures
        keys_unique(s.remove(i)),
        assoc_map(s.remove(i)) == assoc_map(s).remove(s[i].0@),
{
    let u = s.remove(i);
    let k0 = s[i].0@;
    assert forall|a: int, b: int| 0 <= a < b < u.len() implies u[a].0@ != u[b].0@ by {
        let sa = if a < i { a } else { a + 1 };
        let sb = if b < i { b } else { b + 1 };
        assert(u[a] == s[sa]);
        assert(u[b] == s[sb]);
    }
    assert forall|k: K::V| #[trigger] assoc_map(u).contains_key(k) <==> assoc_map(s).remove(k0).contains_key(k) by {
        lemma_assoc_contains(u, k);
        lemma_assoc_contains(s, k);
        if exists|j: int| 0 <= j < s.len() && #[trigger] s[j].0@ == k {
            let j = choose|j: int| 0 <= j < s.len() && #[trigger] s[j].0@ == k;
            if j < i {
                assert(u[j] == s[j]);
            } else if j > i {
                assert(u[j - 1] == s[j]);
            }
        }
        if exists|j: int| 0 <= j < u.len() && #[trigger] u[j].0@ == k {
            let j = choose|j: int| 0 <= j < u.len() && #[trigger] u[j].0@ == k;
            if j < i {
                assert(u[j] == s[j]);
            } else {
                assert(u[j] == s[j + 1]);
            }
        }
    }
    assert forall|k: K::V| #[trigger] assoc_map(u).contains_key(k) implies assoc_map(u)[k] == assoc_map(s).remove(k0)[k] by {
        lemma_assoc_contains(u, k);
        let j = choose|j: int| 0 <= j < u.len() && #[trigger] u[j].0@ == k;
        lemma_assoc_value(u, j);
        let sj = if j < i { j } else { j + 1 };
        assert(u[j] == s[sj]);
        lemma_assoc_value(s, sj);
    }
    assert(assoc_map(u) =~= assoc_map(s).remove(k0));
}

/// Pushing an entry adds its key to the map.
pub proof fn lemma_assoc_push<K: View, V>(s: Seq<(K, V)>, e: (K, V))
    ensures
        assoc_map(s.push(e)) == assoc_map(s).insert(e.0@, e.1),
{
    assert(s.push(e).drop_last() =~= s);
}

/// The map that a sequence of entries stands for when the first entry of
/// a key is the one that counts.
pub open spec fn first_map<K: View, V>(s: Seq<(K, V)>) -> Map<K::V, V>
    decreases s.len(),
{
    if s.len() == 0 {
        Map::empty()
    } else {
        first_map(s.drop_first()).insert(s[0].0@, s[0].1)
    }
}

/// No entry before position `i` has the key `k`.
pub open spec fn key_absent_before<K: View, V>(s: Seq<(K, V)>, k: K::V, i: int) -> bool {
    forall|j: int| 0 <= j < i ==> #[trigger] s[j].0@ != k
}

pub proof fn lemma_first_contains<K: View, V>(s: Seq<(K, V)>, k: K::V)
    ensures
        first_map(s).contains_key(k) <==> exists|i: int| 0 <= i < s.len() && #[trigger] s[i].0@ == k,
    decreases s.len(),
{
    if s.len() > 0 {
        let t = s.drop_first();
        lemma_first_contains(t, k);
        if first_map(s).contains_key(k) && s[0].0@ != k {
            let i = choose|i: int| 0 <= i < t.len() && #[trigger] t[i].0@ == k;
            assert(s[i + 1] == t[i]);
        }
        if exists|i: int| 0 <= i < s.len() && #[trigger] s[i].0@ == k {
            let i = choose|i: int| 0 <= i < s.len() && #[trigger] s[i].0@ == k;
            if i > 0 {
                assert(t[i - 1] == s[i]);
            }
        }
    }
}

pub proof fn lemma_first_value<K: View, V>(s: Seq<(K, V)>, i: int)
    requires
        0 <= i < s.len(),
        key_absent_before(s, s[i].0@, i),
    ensures
        first_map(s).contains_key(s[i].0@),
        first_map(s)[s[i].0@] == s[i].1,
    decreases s.len(),
{
    if i > 0 {
        let t = s.drop_first();
        assert(t[i - 1] == s[i]);
        assert forall|j: int| 0 <= j < i - 1 implies #[trigger] t[j].0@ != t[i - 1].0@ by {
            assert(t[j] == s[j + 1]);
        }
        lemma_first_value(t, i - 1);
        assert(s[0].0@ != s[i].0@);
    }
}

pub proof fn lemma_first_update<K: View, V>(s: Seq<(K, V)>, i: int, e: (K, V))
    requires
        0 <= i < s.len(),
        e.0@ == s[i].0@,
        key_absent_before(s, e.0@, i),
    ensures
        first_map(s.update(i, e)) == first_map(s).insert(e.0@, e.1),
    decreases s.len(),
{
    let u = s.update(i, e);
    let t = s.drop_first();
    if i == 0 {
        assert(u.drop_first() =~= t);
        assert(first_map(u) =~= first_map(s).insert(e.0@, e.1));
    } else {
        assert(u.drop_first() =~= t.update(i - 1, e));
        assert forall|j: int| 0 <= j < i - 1 implies #[trigger] t[j].0@ != e.0@ by {
            assert(t[j] == s[j + 1]);
        }
        lemma_first_update(t, i - 1, e);
        assert(s[0].0@ != e.0@);
        assert(u[0] == s[0]);
        assert(first_map(u) =~= first_map(s).insert(e.0@, e.1));
    }
}

pub proof fn lemma_first_push<K: View, V>(s: Seq<(K, V)>, e: (K, V))
    requires
        !first_map(s).contains_key(e.0@),
    ensures
        first_map(s.push(e)) == first_map(s).insert(e.0@, e.1),
    decreases s.len(),
{
    let u = s.push(e);
    if s.len() == 0 {
        assert(u.drop_first() =~= Seq::<(K, V)>::empty());
        assert(first_map(u.drop_first()) == Map::<K::V, V>::empty());
        assert(first_map(s) == Map::<K::V, V>::empty());
        assert(first_map(u) =~= first_map(s).insert(e.0@, e.1));
    } else {
        let t = s.drop_first();
        assert(u.drop_first() =~= t.push(e));
        lemma_first_push(t, e);
        assert(u[0] == s[0]);
        assert(first_map(u) =~= first_map(s).insert(e.0@, e.1));
    }
}

/// The position of the first entry with the key of `key`, if any.
pub fn find_first<K: View + crate::cache::CacheKey, V>(s: &Vec<(K, V)>, key: &K) -> (r: Option<usize>)
    ensures
        match r {
            Some(i) => i < s@.len() && s@[i as int].0@ == key@ && key_absent_before(s@, key@, i as int),
            None => forall|j: int| 0 <= j < s@.len() ==> #[trigger] s@[j].0@ != key@,
        },
{
    let mut i: usize = 0;
    while i < s.len()
        invariant
            i <= s@.len(),
            key_absent_before(s@, key@, i as int),
        decreases s@.len() - i,
    {
        if s[i].0.same_key(key) {
            return Some(i);
        }
        i += 1;
    }
    None
}

} // verus!
