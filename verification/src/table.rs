//! Lookup in ordered tables keyed by strings.

use vstd::prelude::*;
use crate::text::str_eq;

verus! {

/// The value of the first entry of `t` whose key is `k`.
pub open spec fn assoc<V>(t: Seq<(Seq<char>, V)>, k: Seq<char>) -> Option<V>
    decreases t.len(),
{
    if t.len() == 0 {
        None
    } else if t[0].0 == k {
        Some(t[0].1)
    } else {
        assoc(t.drop_first(), k)
    }
}

/// `k` when `t` has no entry for it, else the value of its first entry.
pub open spec fn rename(t: Seq<(Seq<char>, Seq<char>)>, k: Seq<char>) -> Seq<char> {
    match assoc(t, k) {
        Some(v) => v,
        None => k,
    }
}

/// The spec view of a table of string keys and viewable values.
pub open spec fn table_view<V: View>(t: Seq<(&str, V)>) -> Seq<(Seq<char>, V::V)> {
    t.map_values(|e: (&str, V)| (e.0@, e.1@))
}

/// The spec view of a list of strings.
pub open spec fn list_view(t: Seq<&str>) -> Seq<Seq<char>> {
    t.map_values(|s: &str| s@)
}

/// Some word of `words` occurs in `s`.
pub open spec fn has_any_substring(s: Seq<char>, words: Seq<Seq<char>>) -> bool {
    exists|i: int| 0 <= i < words.len() && crate::text::has_substring(s, #[trigger] words[i])
}

/// Looks `k` up in `t`: the value of the first entry whose key is `k`.
pub fn assoc_exec<V: View + Copy>(t: &[(&str, V)], k: &str) -> (r: Option<V>)
    ensures
        match r {
            Some(v) => assoc(table_view(t@), k@) == Some(v@),
            None => assoc(table_view(t@), k@) is None,
        },
{
    let n = t.len();
    let mut i: usize = 0;
    assert(table_view(t@).skip(0) =~= table_view(t@));
    while i < n
        invariant
            n == t@.len(),
            i <= n,
            assoc(table_view(t@), k@) == assoc(table_view(t@).skip(i as int), k@),
        decreases n - i,
    {
        let e = t[i];
        assert(table_view(t@).skip(i as int)[0] == (e.0@, e.1@));
        if str_eq(e.0, k) {
            return Some(e.1);
        }
        assert(table_view(t@).skip(i as int).drop_first() =~= table_view(t@).skip(i + 1));
        i += 1;
    }
    None
}

/// Looks `k` up in `t` and gives the value as an owned string, or `k` itself when absent.
pub fn rename_exec(t: &[(&str, &str)], k: &str) -> (r: String)
    ensures
        r@ == rename(table_view(t@), k@),
{
    match assoc_exec(t, k) {
        Some(v) => v.to_owned(),
        None => k.to_owned(),
    }
}

/// Whether `k` is one of the strings of `t`.
pub fn list_contains(t: &[&str], k: &str) -> (r: bool)
    ensures
        r == list_view(t@).contains(k@),
{
    let n = t.len();
    let mut i: usize = 0;
    while i < n
        invariant
            n == t@.len(),
            i <= n,
            forall|j: int| 0 <= j < i ==> list_view(t@)[j] != k@,
        decreases n - i,
    {
        if str_eq(t[i], k) {
            assert(list_view(t@)[i as int] == k@);
            return true;
        }
        i += 1;
    }
    false
}

/// Whether some string of `words` occurs in `s`.
pub fn contains_any(s: &str, words: &[&str]) -> (r: bool)
    ensures
        r == has_any_substring(s@, list_view(words@)),
{
    let n = words.len();
    let mut i: usize = 0;
    while i < n
        invariant
            n == words@.len(),
            i <= n,
            forall|j: int|
                0 <= j < i ==> !crate::text::has_substring(s@, #[trigger] list_view(words@)[j]),
        decreases n - i,
    {
        if crate::text::contains(s, words[i]) {
            assert(crate::text::has_substring(s@, list_view(words@)[i as int]));
            return true;
        }
        i += 1;
    }
    false
}

} // verus!

verus! {

/// Looks the ASCII lower-casing of `k` up in `t`.
pub fn assoc_lower_exec<V: View + Copy>(t: &[(&str, V)], k: &str) -> (r: Option<V>)
    ensures
        match r {
            Some(v) => assoc(table_view(t@), crate::text::ascii_lowercase(k@)) == Some(v@),
            None => assoc(table_view(t@), crate::text::ascii_lowercase(k@)) is None,
        },
{
    let ghost lk = crate::text::ascii_lowercase(k@);
    let n = t.len();
    let mut i: usize = 0;
    assert(table_view(t@).skip(0) =~= table_view(t@));
    while i < n
        invariant
            n == t@.len(),
            i <= n,
            lk == crate::text::ascii_lowercase(k@),
            assoc(table_view(t@), lk) == assoc(table_view(t@).skip(i as int), lk),
        decreases n - i,
    {
        let e = t[i];
        assert(table_view(t@).skip(i as int)[0] == (e.0@, e.1@));
        if crate::text::ascii_lower_eq(k, e.0) {
            return Some(e.1);
        }
        assert(table_view(t@).skip(i as int).drop_first() =~= table_view(t@).skip(i + 1));
        i += 1;
    }
    None
}

} // verus!

verus! {

/// The entry at `i` decides a lookup when it is the first entry with key `k`.
pub proof fn lemma_assoc_at<V>(t: Seq<(Seq<char>, V)>, k: Seq<char>, i: int)
    requires
        0 <= i < t.len(),
        t[i].0 == k,
        forall|j: int| 0 <= j < i ==> t[j].0 != k,
    ensures
        assoc(t, k) == Some(t[i].1),
    decreases i,
{
    if i > 0 {
        assert(t.drop_first()[i - 1] == t[i]);
        assert forall|j: int| 0 <= j < i - 1 implies t.drop_first()[j].0 != k by {
            assert(t.drop_first()[j] == t[j + 1]);
        }
        lemma_assoc_at(t.drop_first(), k, i - 1);
    }
}

} // verus!

verus! {

/// The value of the last entry of `t` whose key is `k` (later entries override
/// earlier ones, as in a map filled in order).
pub open spec fn rassoc<K, V>(t: Seq<(K, V)>, k: K) -> Option<V>
    decreases t.len(),
{
    if t.len() == 0 {
        None
    } else if t.last().0 == k {
        Some(t.last().1)
    } else {
        rassoc(t.drop_last(), k)
    }
}

/// A value that a lookup finds is the value of some entry with that key.
pub proof fn lemma_assoc_found<V>(t: Seq<(Seq<char>, V)>, k: Seq<char>)
    ensures
        assoc(t, k) matches Some(v) ==> exists|j: int| 0 <= j < t.len() && #[trigger] t[j] == (k, v),
    decreases t.len(),
{
    if t.len() > 0 && t[0].0 != k {
        lemma_assoc_found(t.drop_first(), k);
        if assoc(t, k) is Some {
            let v = assoc(t, k).unwrap();
            let j = choose|j: int| 0 <= j < t.drop_first().len() && #[trigger] t.drop_first()[j] == (k, v);
            assert(t[j + 1] == (k, v));
        }
    } else if t.len() > 0 {
        assert(t[0] == (k, t[0].1));
    }
}

/// A value that a last-entry lookup finds is the value of some entry with that key.
pub proof fn lemma_rassoc_found<K, V>(t: Seq<(K, V)>, k: K)
    ensures
        rassoc(t, k) matches Some(v) ==> exists|j: int| 0 <= j < t.len() && #[trigger] t[j] == (k, v),
    decreases t.len(),
{
    if t.len() > 0 && t.last().0 != k {
        lemma_rassoc_found(t.drop_last(), k);
        if rassoc(t, k) is Some {
            let v = rassoc(t, k).unwrap();
            let j = choose|j: int| 0 <= j < t.drop_last().len() && #[trigger] t.drop_last()[j] == (k, v);
            assert(t[j] == (k, v));
        }
    } else if t.len() > 0 {
        assert(t[t.len() - 1] == (k, t.last().1));
    }
}

} // verus!

verus! {

/// When entry `i` has key `k`, a lookup of `k` succeeds at some entry `j <= i`.
pub proof fn lemma_assoc_first_at_most<V>(t: Seq<(Seq<char>, V)>, k: Seq<char>, i: int)
    requires
        0 <= i < t.len(),
        t[i].0 == k,
    ensures
        exists|j: int| 0 <= j <= i && #[trigger] t[j].0 == k && assoc(t, k) == Some(t[j].1),
    decreases i,
{
    if t[0].0 == k {
        assert(t[0].0 == k && assoc(t, k) == Some(t[0].1));
    } else {
        assert(t.drop_first()[i - 1] == t[i]);
        lemma_assoc_first_at_most(t.drop_first(), k, i - 1);
        let j = choose|j: int| 0 <= j <= i - 1 && #[trigger] t.drop_first()[j].0 == k && assoc(t.drop_first(), k) == Some(t.drop_first()[j].1);
        assert(t[j + 1] == t.drop_first()[j]);
        assert(t[j + 1].0 == k && assoc(t, k) == Some(t[j + 1].1));
    }
}

} // verus!
