//! Texts under names, as a list of pairs in which a name counts where it
//! first occurs: a map of texts that keeps the order in which the names
//! came.

use vstd::prelude::*;
use crate::text::str_eq;

verus! {

/// The names and texts of a list of pairs, taken as characters.
pub open spec fn pairs_view(s: Seq<(String, String)>) -> Seq<(Seq<char>, Seq<char>)> {
    Seq::new(s.len(), |i: int| (s[i].0@, s[i].1@))
}

/// Whether `i` is where the name `k` first occurs in `s`.
pub open spec fn first_occurrence(s: Seq<(Seq<char>, Seq<char>)>, k: Seq<char>, i: int) -> bool {
    &&& 0 <= i < s.len()
    &&& s[i].0 == k
    &&& forall|j: int| 0 <= j < i ==> #[trigger] s[j].0 != k
}

/// Whether no name occurs twice in `s`.
pub open spec fn names_unique(s: Seq<(Seq<char>, Seq<char>)>) -> bool {
    forall|i: int, j: int| 0 <= i < j < s.len() ==> #[trigger] s[i].0 != #[trigger] s[j].0
}

/// The text under the name `k`, where it first occurs.
pub open spec fn text_of(s: Seq<(Seq<char>, Seq<char>)>, k: Seq<char>) -> Option<Seq<char>> {
    if exists|i: int| first_occurrence(s, k, i) {
        Some(s[choose|i: int| first_occurrence(s, k, i)].1)
    } else {
        None
    }
}

/// The details after giving the text `v` to the name `k`: the value of
/// its first occurrence is replaced, or the pair comes last.
pub open spec fn with_text(s: Seq<(Seq<char>, Seq<char>)>, k: Seq<char>, v: Seq<char>) -> Seq<(Seq<char>, Seq<char>)> {
    if exists|i: int| first_occurrence(s, k, i) {
        s.update(choose|i: int| first_occurrence(s, k, i), (k, v))
    } else {
        s.push((k, v))
    }
}

pub proof fn lemma_first_occurrence_unique(s: Seq<(Seq<char>, Seq<char>)>, k: Seq<char>, i: int, j: int)
    requires
        first_occurrence(s, k, i),
        first_occurrence(s, k, j),
    ensures
        i == j,
{
    if i < j {
        assert(s[i].0 != k);
    } else if j < i {
        assert(s[j].0 != k);
    }
}

pub proof fn lemma_some_first_occurrence(s: Seq<(Seq<char>, Seq<char>)>, k: Seq<char>, i: int)
    requires
        0 <= i < s.len(),
        s[i].0 == k,
    ensures
        exists|c: int| first_occurrence(s, k, c),
    decreases i,
{
    if forall|j: int| 0 <= j < i ==> #[trigger] s[j].0 != k {
        assert(first_occurrence(s, k, i));
    } else {
        let j = choose|j: int| 0 <= j < i && #[trigger] s[j].0 == k;
        lemma_some_first_occurrence(s, k, j);
    }
}

/// Gives the text `v` to the name `k` in a list of pairs.
pub fn set_text(pairs: &mut Vec<(String, String)>, k: &str, v: &str)
    ensures
        pairs_view(final(pairs)@) == with_text(pairs_view(old(pairs)@), k@, v@),
{
    let ghost before = pairs_view(pairs@);
    let mut i: usize = 0;
    while i < pairs.len()
        invariant
            i <= pairs.len(),
            pairs_view(pairs@) == before,
            before == pairs_view(old(pairs)@),
            forall|j: int| 0 <= j < i ==> #[trigger] before[j].0 != k@,
        decreases pairs.len() - i,
    {
        if str_eq(pairs[i].0.as_str(), k) {
            proof {
                assert(first_occurrence(before, k@, i as int));
                let c = choose|c: int| first_occurrence(before, k@, c);
                lemma_first_occurrence_unique(before, k@, i as int, c);
            }
            pairs.set(i, (String::from_str(k), String::from_str(v)));
            assert(pairs_view(pairs@) =~= with_text(before, k@, v@));
            return;
        }
        i = i + 1;
    }
    proof {
        assert forall|c: int| !first_occurrence(before, k@, c) by {
            if 0 <= c < before.len() {
                assert(before[c].0 != k@);
            }
        }
    }
    pairs.push((String::from_str(k), String::from_str(v)));
    assert(pairs_view(pairs@) =~= with_text(before, k@, v@));
}

/// Giving a text to a name makes it the text of that name, and leaves the
/// text of every other name as it was; no name comes to occur twice.
pub proof fn law_with_text(s: Seq<(Seq<char>, Seq<char>)>, k: Seq<char>, v: Seq<char>, other: Seq<char>)
    requires
        other != k,
    ensures
        text_of(with_text(s, k, v), k) == Some(v),
        text_of(with_text(s, k, v), other) == text_of(s, other),
        names_unique(s) ==> names_unique(with_text(s, k, v)),
{
    let r = with_text(s, k, v);
    if exists|i: int| first_occurrence(s, k, i) {
        let i = choose|i: int| first_occurrence(s, k, i);
        assert(first_occurrence(r, k, i));
        let c = choose|c: int| first_occurrence(r, k, c);
        lemma_first_occurrence_unique(r, k, i, c);
        assert forall|j: int| first_occurrence(r, other, j) <==> first_occurrence(s, other, j) by {
            if 0 <= j < s.len() {
                if first_occurrence(s, other, j) {
                    assert forall|m: int| 0 <= m < j implies #[trigger] r[m].0 != other by {
                        assert(s[m].0 != other);
                    }
                }
                if first_occurrence(r, other, j) {
                    assert forall|m: int| 0 <= m < j implies #[trigger] s[m].0 != other by {
                        assert(r[m].0 != other);
                    }
                }
            }
        }
        if names_unique(s) {
            assert forall|a: int, b: int| 0 <= a < b < r.len() implies #[trigger] r[a].0 != #[trigger] r[b].0 by {
                assert(s[a].0 != s[b].0);
            }
        }
    } else {
        let n = s.len() as int;
        assert forall|j: int| 0 <= j < n implies #[trigger] r[j].0 != k by {
            if r[j].0 == k {
                lemma_some_first_occurrence(s, k, j);
            }
        }
        assert(first_occurrence(r, k, n));
        let c = choose|c: int| first_occurrence(r, k, c);
        lemma_first_occurrence_unique(r, k, n, c);
        assert forall|j: int| first_occurrence(r, other, j) <==> first_occurrence(s, other, j) by {
            if 0 <= j < n {
                if first_occurrence(s, other, j) {
                    assert forall|m: int| 0 <= m < j implies #[trigger] r[m].0 != other by {
                        assert(s[m].0 != other);
                    }
                }
                if first_occurrence(r, other, j) {
                    assert forall|m: int| 0 <= m < j implies #[trigger] s[m].0 != other by {
                        assert(r[m].0 != other);
                    }
                }
            }
        }
        if names_unique(s) {
            assert forall|a: int, b: int| 0 <= a < b < r.len() implies #[trigger] r[a].0 != #[trigger] r[b].0 by {
                if b < n {
                    assert(s[a].0 != s[b].0);
                } else {
                    assert(r[a].0 != k);
                }
            }
        }
    }
}

} // verus!
