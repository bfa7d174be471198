//! Stable ordering of items by a key made of a number and a text: the number
//! first, then the text by code point.

use vstd::prelude::*;

use crate::filter::is_permutation;
use crate::text::{char_order, lemma_text_order, text_order};

verus! {

/// Three-way comparison of two keys: the number first, then the text.
pub open spec fn key_order(a: (int, Seq<char>), b: (int, Seq<char>)) -> int {
    if a.0 < b.0 {
        -1
    } else if a.0 > b.0 {
        1
    } else {
        text_order(a.1, b.1)
    }
}

/// Item `i` goes before item `j`: a smaller key, or an equal key and an earlier place.
pub open spec fn key_before(keys: Seq<(int, Seq<char>)>, i: int, j: int) -> bool {
    key_order(keys[i], keys[j]) < 0 || (key_order(keys[i], keys[j]) == 0 && i < j)
}

/// `p` lists the items in the stable order of their keys.
pub open spec fn sorts_stably(p: Seq<int>, keys: Seq<(int, Seq<char>)>) -> bool {
    &&& is_permutation(p, keys.len() as int)
    &&& forall|k: int, l: int| 0 <= k < l < keys.len() ==> key_before(keys, #[trigger] p[k], #[trigger] p[l])
}

/// The keys of the items: `ranks[i]` and `texts[i]`.
pub open spec fn keys_of(ranks: Seq<i64>, texts: Seq<Vec<char>>) -> Seq<(int, Seq<char>)> {
    Seq::new(ranks.len(), |i: int| (ranks[i] as int, texts[i]@))
}

/// The key comparison is antisymmetric and transitive.
pub proof fn lemma_key_order(a: (int, Seq<char>), b: (int, Seq<char>), c: (int, Seq<char>))
    ensures
        key_order(a, b) == -key_order(b, a),
        key_order(a, b) <= 0 && key_order(b, c) <= 0 ==> key_order(a, c) <= 0,
        key_order(a, b) < 0 && key_order(b, c) <= 0 ==> key_order(a, c) < 0,
        key_order(a, b) <= 0 && key_order(b, c) < 0 ==> key_order(a, c) < 0,
{
    lemma_text_order(a.1, b.1, c.1);
    lemma_text_order(c.1, b.1, a.1);
}

/// Compares the keys of items `i` and `j`.
fn compare_keys(ranks: &Vec<i64>, texts: &Vec<Vec<char>>, i: usize, j: usize) -> (r: i8)
    requires
        ranks.len() == texts.len(),
        i < ranks.len(),
        j < ranks.len(),
    ensures
        r as int == key_order(keys_of(ranks@, texts@)[i as int], keys_of(ranks@, texts@)[j as int]),
{
    if ranks[i] < ranks[j] {
        -1
    } else if ranks[i] > ranks[j] {
        1
    } else {
        let t = char_order(&texts[i], &texts[j]);
        proof {
            lemma_text_order(texts@[i as int]@, texts@[j as int]@, texts@[j as int]@);
        }
        if t < 0 {
            -1
        } else if t == 0 {
            0
        } else {
            1
        }
    }
}

/// The positions of the items in the stable order of their keys (an insertion sort).
pub fn stable_order(ranks: &Vec<i64>, texts: &Vec<Vec<char>>) -> (idx: Vec<usize>)
    requires
        ranks.len() == texts.len(),
    ensures
        idx.len() == ranks.len(),
        forall|k: int| 0 <= k < idx.len() ==> #[trigger] idx@[k] < ranks.len(),
        sorts_stably(idx@.map_values(|x: usize| x as int), keys_of(ranks@, texts@)),
{
    let ghost keys = keys_of(ranks@, texts@);
    let n = ranks.len();
    let mut idx: Vec<usize> = Vec::new();
    let mut k: usize = 0;
    while k < n
        invariant
            k <= n == ranks.len() == texts.len(),
            keys == keys_of(ranks@, texts@),
            idx.len() == k,
            forall|a: int| 0 <= a < k ==> #[trigger] idx@[a] < k,
            forall|a: int, b: int| 0 <= a < k && 0 <= b < k && a != b ==> idx@[a] != idx@[b],
            forall|a: int, b: int|
                0 <= a < b < k ==> key_before(keys, #[trigger] idx@[a] as int, #[trigger] idx@[b] as int),
        decreases n - k,
    {
        let mut p: usize = 0;
        while p < idx.len() && compare_keys(ranks, texts, k, idx[p]) >= 0
            invariant
                p <= idx.len() == k < n == ranks.len() == texts.len(),
                keys == keys_of(ranks@, texts@),
                forall|a: int| 0 <= a < k ==> #[trigger] idx@[a] < k,
                forall|a: int| 0 <= a < p ==> key_order(keys[k as int], keys[#[trigger] idx@[a] as int]) >= 0,
            decreases idx.len() - p,
        {
            p += 1;
        }
        let ghost old_idx = idx@;
        proof {
            assert forall|a: int| 0 <= a < p implies key_before(keys, #[trigger] old_idx[a] as int, k as int) by {
                lemma_key_order(keys[k as int], keys[old_idx[a] as int], keys[k as int]);
            }
            if p < k {
                assert forall|b: int| p <= b < k implies key_before(keys, k as int, #[trigger] old_idx[b] as int) by {
                    lemma_key_order(keys[k as int], keys[old_idx[p as int] as int], keys[old_idx[b] as int]);
                    if b > p {
                        assert(key_before(keys, old_idx[p as int] as int, old_idx[b] as int));
                    }
                }
            }
        }
        idx.insert(p, k);
        proof {
            let ni = idx@;
            assert(ni == old_idx.insert(p as int, k));
            assert forall|a: int| 0 <= a < k + 1 implies #[trigger] ni[a] < k + 1 by {
                if a < p {
                    assert(ni[a] == old_idx[a]);
                } else if a > p {
                    assert(ni[a] == old_idx[a - 1]);
                }
            }
            assert forall|a: int, b: int| 0 <= a < k + 1 && 0 <= b < k + 1 && a != b implies ni[a] != ni[b] by {
                let a2 = if a < p { a } else { a - 1 };
                let b2 = if b < p { b } else { b - 1 };
                if a != p as int && b != p as int {
                    assert(ni[a] == old_idx[a2]);
                    assert(ni[b] == old_idx[b2]);
                } else if a == p as int {
                    assert(ni[b] == old_idx[b2]);
                } else {
                    assert(ni[a] == old_idx[a2]);
                }
            }
            assert forall|a: int, b: int| 0 <= a < b < k + 1 implies key_before(keys, #[trigger] ni[a] as int, #[trigger] ni[b] as int) by {
                if b < p {
                    assert(ni[a] == old_idx[a] && ni[b] == old_idx[b]);
                } else if b == p as int {
                    assert(ni[a] == old_idx[a]);
                } else if a < p {
                    assert(ni[a] == old_idx[a] && ni[b] == old_idx[b - 1]);
                } else if a == p as int {
                    assert(ni[b] == old_idx[b - 1]);
                } else {
                    assert(ni[a] == old_idx[a - 1] && ni[b] == old_idx[b - 1]);
                }
            }
        }
        k += 1;
    }
    proof {
        let p = idx@.map_values(|x: usize| x as int);
        assert(keys.len() == n);
        assert(is_permutation(p, keys.len() as int));
        assert forall|a: int, b: int| 0 <= a < b < keys.len() implies key_before(keys, #[trigger] p[a], #[trigger] p[b]) by {
            assert(key_before(keys, idx@[a] as int, idx@[b] as int));
        }
    }
    idx
}

/// An arrangement of `0..n` reaches every index.
pub proof fn lemma_permutation_onto(p: Seq<int>, n: int, j: int)
    requires
        is_permutation(p, n),
        0 <= j < n,
    ensures
        exists|k: int| 0 <= k < n && p[k] == j,
{
    let dom = vstd::set_lib::set_int_range(0, n);
    let f = |k: int| p[k];
    vstd::set_lib::lemma_int_range(0, n);
    assert(vstd::relations::injective_on(f, dom));
    let img = dom.map(f);
    vstd::set_lib::lemma_map_size(dom, img, f);
    assert(img.subset_of(dom)) by {
        assert forall|x: int| img.contains(x) implies dom.contains(x) by {
            let k = choose|k: int| dom.contains(k) && f(k) == x;
        }
    }
    vstd::set_lib::lemma_subset_equality(img, dom);
    assert(dom.contains(j));
    assert(img.contains(j));
    let k = choose|k: int| dom.contains(k) && f(k) == j;
    assert(0 <= k < n && p[k] == j);
}

/// `result` is `items` in the stable order of `keys` (the key of `items[i]` is `keys[i]`).
pub open spec fn arranged_stably<A>(result: Seq<A>, items: Seq<A>, keys: Seq<(int, Seq<char>)>) -> bool {
    exists|p: Seq<int>|
        #![trigger sorts_stably(p, keys)]
        sorts_stably(p, keys) && result.len() == items.len() && forall|k: int|
            0 <= k < items.len() ==> result[k] == items[#[trigger] p[k]]
}

} // verus!
