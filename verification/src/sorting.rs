//! A stable sort by precomputed keys: a rank first, then a character
//! sequence in code-point order. Used for directory listings (folders
//! before files, then by lowercase name) and for preset lists.
use vstd::prelude::*;

use crate::text::{chars_less, chars_lt, lemma_chars_lt_irreflexive, lemma_chars_lt_total, lemma_chars_lt_transitive};

verus! {

broadcast use vstd::seq_lib::group_seq_properties;

/// A sort key: items of lower rank come first; within one rank, items are
/// ordered by `text`.
pub struct SortKey {
    pub rank: u8,
    pub text: Vec<char>,
}

impl View for SortKey {
    type V = (int, Seq<char>);

    open spec fn view(&self) -> (int, Seq<char>) {
        (self.rank as int, self.text@)
    }
}

/// Strict order of keys.
pub open spec fn key_lt(a: (int, Seq<char>), b: (int, Seq<char>)) -> bool {
    a.0 < b.0 || (a.0 == b.0 && chars_lt(a.1, b.1))
}

/// `a` may stand before `b`.
pub open spec fn key_le(a: (int, Seq<char>), b: (int, Seq<char>)) -> bool {
    !key_lt(b, a)
}

pub proof fn lemma_key_lt_irreflexive(a: (int, Seq<char>))
    ensures
        !key_lt(a, a),
{
    lemma_chars_lt_irreflexive(a.1);
}

pub proof fn lemma_key_lt_transitive(a: (int, Seq<char>), b: (int, Seq<char>), c: (int, Seq<char>))
    requires
        key_lt(a, b),
        key_lt(b, c),
    ensures
        key_lt(a, c),
{
    if a.0 == b.0 && b.0 == c.0 {
        lemma_chars_lt_transitive(a.1, b.1, c.1);
    }
}

pub proof fn lemma_key_lt_total(a: (int, Seq<char>), b: (int, Seq<char>))
    requires
        a != b,
    ensures
        key_lt(a, b) || key_lt(b, a),
{
    if a.0 == b.0 {
        lemma_chars_lt_total(a.1, b.1);
    }
}

pub proof fn lemma_key_le_transitive(a: (int, Seq<char>), b: (int, Seq<char>), c: (int, Seq<char>))
    requires
        key_le(a, b),
        key_le(b, c),
    ensures
        key_le(a, c),
{
    if key_lt(c, a) {
        if a == b {
        } else {
            lemma_key_lt_total(a, b);
            if key_lt(a, b) {
                lemma_key_lt_transitive(c, a, b);
            }
        }
    }
}

/// Whether key `a` comes strictly before key `b`.
pub fn key_less(a: &SortKey, b: &SortKey) -> (r: bool)
    ensures
        r == key_lt(a@, b@),
{
    if a.rank != b.rank {
        a.rank < b.rank
    } else {
        chars_less(&a.text, &b.text)
    }
}

/// `s` is in key order.
pub open spec fn sorted_by<T>(s: Seq<T>, key: spec_fn(T) -> (int, Seq<char>)) -> bool {
    forall|i: int, j: int| 0 <= i < j < s.len() ==> key_le(#[trigger] key(s[i]), #[trigger] key(s[j]))
}

/// The predicate "has key `k`".
pub open spec fn has_key<T>(key: spec_fn(T) -> (int, Seq<char>), k: (int, Seq<char>)) -> spec_fn(T) -> bool {
    |x: T| key(x) == k
}

/// For every key, the items of `r` with that key are those of `s` with that
/// key, in the same order: `r` rearranges `s` and keeps ties in their order.
pub open spec fn same_ties<T>(r: Seq<T>, s: Seq<T>, key: spec_fn(T) -> (int, Seq<char>)) -> bool {
    forall|k: (int, Seq<char>)| #[trigger] r.filter(has_key(key, k)) == s.filter(has_key(key, k))
}

proof fn lemma_filter_none<T>(s: Seq<T>, p: spec_fn(T) -> bool)
    requires
        forall|i: int| 0 <= i < s.len() ==> !p(s[i]),
    ensures
        s.filter(p) == Seq::<T>::empty(),
    decreases s.len(),
{
    reveal(Seq::filter);
    if s.len() > 0 {
        lemma_filter_none(s.drop_last(), p);
    }
}

/// A stable insertion sort of `items` by the keys in `keys` (`keys[i]` is
/// the key of `items[i]`).
pub fn stable_sort<T>(items: Vec<T>, keys: Vec<SortKey>, Ghost(key): Ghost<spec_fn(T) -> (int, Seq<char>)>) -> (r: Vec<T>)
    requires
        items.len() == keys.len(),
        forall|i: int| 0 <= i < items.len() ==> #[trigger] keys@[i]@ == key(items@[i]),
    ensures
        sorted_by(r@, key),
        same_ties(r@, items@, key),
        r.len() == items.len(),
{
    let ghost orig = items@;
    let mut items = items;
    let mut keys = keys;
    let mut out: Vec<T> = Vec::new();
    let mut out_keys: Vec<SortKey> = Vec::new();
    assert(orig.skip(orig.len() as int) =~= Seq::<T>::empty());
    assert(orig.take(orig.len() as int) =~= orig);
    while items.len() > 0
        invariant
            items.len() == keys.len(),
            items.len() <= orig.len(),
            items@ == orig.take(items.len() as int),
            forall|i: int| 0 <= i < items.len() ==> #[trigger] keys@[i]@ == key(items@[i]),
            out.len() == out_keys.len(),
            out.len() + items.len() == orig.len(),
            forall|i: int| 0 <= i < out.len() ==> #[trigger] out_keys@[i]@ == key(out@[i]),
            sorted_by(out@, key),
            same_ties(out@, orig.skip(items.len() as int), key),
        decreases items.len(),
    {
        let ghost n = items.len();
        let ghost old_out = out@;
        let ghost old_out_keys = out_keys@;
        let x = items.pop().unwrap();
        let kx = keys.pop().unwrap();
        assert(x == orig[n - 1]);
        assert(kx@ == key(x));
        assert(items@ =~= orig.take(items.len() as int));
        let mut p: usize = 0;
        while p < out.len() && key_less(&out_keys[p], &kx)
            invariant
                p <= out.len(),
                out.len() == out_keys.len(),
                out@ == old_out,
                out_keys@ == old_out_keys,
                forall|i: int| 0 <= i < out.len() ==> #[trigger] out_keys@[i]@ == key(out@[i]),
                forall|j: int| 0 <= j < p ==> key_lt(#[trigger] key(out@[j]), kx@),
            decreases out.len() - p,
        {
            p = p + 1;
        }
        proof {
            assert forall|j: int| p <= j < old_out.len() implies key_le(kx@, #[trigger] key(old_out[j])) by {
                assert(key_le(kx@, key(old_out[p as int])));
                if j > p {
                    assert(key_le(key(old_out[p as int]), key(old_out[j])));
                    lemma_key_le_transitive(kx@, key(old_out[p as int]), key(old_out[j]));
                }
            }
        }
        out.insert(p, x);
        out_keys.insert(p, kx);
        proof {
            let pre = old_out.subrange(0, p as int);
            let post = old_out.subrange(p as int, old_out.len() as int);
            assert(out@ =~= pre + seq![x] + post);
            assert(old_out =~= pre + post);
            assert forall|i: int, j: int| 0 <= i < j < out@.len() implies key_le(
                #[trigger] key(out@[i]),
                #[trigger] key(out@[j]),
            ) by {
                if i < p && j == p {
                    assert(key_lt(key(old_out[i]), kx@));
                    lemma_key_lt_irreflexive(kx@);
                    if key_lt(kx@, key(old_out[i])) {
                        lemma_key_lt_transitive(kx@, key(old_out[i]), kx@);
                    }
                } else if i < p && j > p {
                    assert(key_le(key(old_out[i]), key(old_out[j - 1])));
                } else if i == p && j > p {
                    assert(key_le(kx@, key(old_out[j - 1])));
                } else if i > p {
                    assert(key_le(key(old_out[i - 1]), key(old_out[j - 1])));
                } else {
                    assert(key_le(key(old_out[i]), key(old_out[j])));
                }
            }
            let suffix = orig.skip(n as int);
            let new_suffix = orig.skip(items.len() as int);
            assert(new_suffix =~= seq![x] + suffix);
            assert forall|k: (int, Seq<char>)| #[trigger] out@.filter(has_key(key, k)) == new_suffix.filter(
                has_key(key, k),
            ) by {
                let pk = has_key(key, k);
                assert(old_out.filter(pk) == suffix.filter(pk));
                Seq::filter_distributes_over_add(pre + seq![x], post, pk);
                Seq::filter_distributes_over_add(pre, seq![x], pk);
                Seq::filter_distributes_over_add(pre, post, pk);
                suffix.lemma_filter_prepend(x, pk);
                if k == key(x) {
                    assert forall|i: int| 0 <= i < pre.len() implies !pk(pre[i]) by {
                        assert(key_lt(key(old_out[i]), kx@));
                        lemma_key_lt_irreflexive(kx@);
                    }
                    lemma_filter_none(pre, pk);
                    seq![x].lemma_filter_prepend(x, pk);
                    assert(seq![x].filter(pk) =~= seq![x]) by {
                        reveal(Seq::filter);
                        assert(seq![x].drop_last() =~= Seq::<T>::empty());
                    }
                    assert(pre.filter(pk) + seq![x].filter(pk) =~= seq![x]);
                    assert(pre.filter(pk) + post.filter(pk) =~= post.filter(pk));
                } else {
                    assert(seq![x].filter(pk) =~= Seq::<T>::empty()) by {
                        lemma_filter_none(seq![x], pk);
                    }
                    assert(pre.filter(pk) + seq![x].filter(pk) =~= pre.filter(pk));
                    assert(Seq::<T>::empty() + suffix.filter(pk) =~= suffix.filter(pk));
                }
            }
            assert forall|i: int| 0 <= i < out.len() implies #[trigger] out_keys@[i]@ == key(out@[i]) by {
                if i < p {
                    assert(out_keys@[i] == old_out_keys[i]);
                } else if i > p {
                    assert(out_keys@[i] == old_out_keys[i - 1]);
                }
            }
        }
    }
    out
}

} // verus!
