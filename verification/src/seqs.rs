//! Sequence helpers for the collection rules (removal of a first occurrence,
//! views of string lists).

use vstd::prelude::*;

verus! {

/// `s` with its first occurrence of `x` removed (unchanged when `x` does not occur).
pub open spec fn remove_first<A>(s: Seq<A>, x: A) -> Seq<A>
    decreases s.len(),
{
    if s.len() == 0 {
        s
    } else if s[0] == x {
        s.drop_first()
    } else {
        seq![s[0]] + remove_first(s.drop_first(), x)
    }
}

/// Removing at the first occurrence is removing the first occurrence.
pub proof fn lemma_remove_first_at<A>(s: Seq<A>, x: A, i: int)
    requires
        0 <= i < s.len(),
        s[i] == x,
        forall|j: int| 0 <= j < i ==> s[j] != x,
    ensures
        remove_first(s, x) == s.remove(i),
    decreases i,
{
    if i == 0 {
        assert(s.drop_first() =~= s.remove(0));
    } else {
        lemma_remove_first_at(s.drop_first(), x, i - 1);
        assert(seq![s[0]] + s.drop_first().remove(i - 1) =~= s.remove(i));
    }
}

/// The views of a list of strings.
pub open spec fn views(s: Seq<String>) -> Seq<Seq<char>> {
    s.map_values(|x: String| x@)
}

/// No element occurs twice.
pub open spec fn no_dups<A>(s: Seq<A>) -> bool {
    forall|i: int, j: int| 0 <= i < s.len() && 0 <= j < s.len() && i != j ==> s[i] != s[j]
}

/// The value of the first pair whose key is `key` (a map kept as a list of pairs).
pub open spec fn lookup<V>(pairs: Seq<(String, V)>, key: Seq<char>) -> Option<V>
    decreases pairs.len(),
{
    if pairs.len() == 0 {
        None
    } else if pairs[0].0@ == key {
        Some(pairs[0].1)
    } else {
        lookup(pairs.drop_first(), key)
    }
}

/// A list of pairs read as a map takes the first pair with the key: where a key is
/// listed twice, the later value is never seen.
pub proof fn law_lookup_takes_first<V>(pairs: Seq<(String, V)>, key: Seq<char>, i: int)
    requires
        0 <= i < pairs.len(),
        pairs[i].0@ == key,
        forall|j: int| 0 <= j < i ==> (#[trigger] pairs[j]).0@ != key,
    ensures
        lookup(pairs, key) == Some(pairs[i].1),
    decreases i,
{
    if i > 0 {
        assert forall|j: int| 0 <= j < i - 1 implies (#[trigger] pairs.drop_first()[j]).0@ != key by {
            assert(pairs.drop_first()[j] == pairs[j + 1]);
        }
        assert(pairs[0].0@ != key);
        law_lookup_takes_first(pairs.drop_first(), key, i - 1);
    }
}

/// A key finds nothing exactly when no pair has it.
pub proof fn law_lookup_absent<V>(pairs: Seq<(String, V)>, key: Seq<char>)
    ensures
        lookup(pairs, key) is None <==> forall|j: int| 0 <= j < pairs.len() ==> (#[trigger] pairs[j]).0@ != key,
    decreases pairs.len(),
{
    if pairs.len() > 0 {
        law_lookup_absent(pairs.drop_first(), key);
        if pairs[0].0@ != key {
            assert forall|j: int| 0 <= j < pairs.len() && (forall|m: int| 0 <= m < pairs.len() - 1 ==> (#[trigger] pairs.drop_first()[m]).0@ != key) implies (#[trigger] pairs[j]).0@ != key by {
                if j > 0 {
                    assert(pairs.drop_first()[j - 1] == pairs[j]);
                }
            }
            assert forall|m: int| 0 <= m < pairs.len() - 1 && (forall|j: int| 0 <= j < pairs.len() ==> (#[trigger] pairs[j]).0@ != key) implies (#[trigger] pairs.drop_first()[m]).0@ != key by {
                assert(pairs.drop_first()[m] == pairs[m + 1]);
            }
        }
    }
}

/// The position of the first pair whose key is `key`.
pub fn find_key<V>(pairs: &[(String, V)], key: &str) -> (r: Option<usize>)
    ensures
        match r {
            Some(i) => i < pairs@.len() && lookup(pairs@, key@) == Some(pairs@[i as int].1),
            None => lookup(pairs@, key@) is None,
        },
{
    let mut i: usize = 0;
    assert(pairs@.skip(0) == pairs@);
    while i < pairs.len()
        invariant
            i <= pairs.len(),
            lookup(pairs@, key@) == lookup(pairs@.skip(i as int), key@),
        decreases pairs.len() - i,
    {
        if crate::text::str_eq(pairs[i].0.as_str(), key) {
            assert(pairs@.skip(i as int)[0] == pairs@[i as int]);
            return Some(i);
        }
        assert(pairs@.skip(i as int).drop_first() == pairs@.skip(i + 1));
        i += 1;
    }
    None
}

} // verus!
