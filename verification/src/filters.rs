//! Facts about filtered sequences.
//!
//! The store operations select rows by a predicate, so what they return is
//! stated with `Seq::filter`. The lemmas here say what a filter leaves where
//! it is known which elements pass.

use vstd::prelude::*;

verus! {

/// A filter that no element passes leaves nothing.
pub proof fn lemma_filter_none<A>(s: Seq<A>, pred: spec_fn(A) -> bool)
    requires
        forall|i: int| 0 <= i < s.len() ==> !pred(#[trigger] s[i]),
    ensures
        s.filter(pred) == Seq::<A>::empty(),
    decreases s.len(),
{
    reveal(Seq::filter);
    if s.len() > 0 {
        lemma_filter_none(s.drop_last(), pred);
    }
}

/// A filter that every element passes leaves the sequence as it is.
pub proof fn lemma_filter_all<A>(s: Seq<A>, pred: spec_fn(A) -> bool)
    requires
        forall|i: int| 0 <= i < s.len() ==> pred(#[trigger] s[i]),
    ensures
        s.filter(pred) == s,
    decreases s.len(),
{
    reveal(Seq::filter);
    if s.len() > 0 {
        lemma_filter_all(s.drop_last(), pred);
        assert(s.drop_last().push(s.last()) =~= s);
    }
}

/// A filter works on the part before `k`, on the element at `k` and on the
/// part behind it independently.
proof fn lemma_filter_around<A>(s: Seq<A>, pred: spec_fn(A) -> bool, k: int)
    requires
        0 <= k < s.len(),
    ensures
        s.filter(pred) == s.take(k).filter(pred) + (if pred(s[k]) {
            seq![s[k]]
        } else {
            Seq::empty()
        }) + s.skip(k + 1).filter(pred),
{
    let front = s.take(k).push(s[k]);
    let back = s.skip(k + 1);
    assert(s =~= front + back);
    Seq::filter_distributes_over_add(front, back, pred);
    s.take(k).lemma_filter_push(s[k], pred);
    if pred(s[k]) {
        assert(s.take(k).filter(pred).push(s[k]) =~= s.take(k).filter(pred) + seq![s[k]]);
    } else {
        assert(s.take(k).filter(pred) =~= s.take(k).filter(pred) + Seq::<A>::empty());
    }
}

/// Where the element at `k` is the first that passes, it is the first of
/// the filtered sequence.
pub proof fn lemma_first_hit<A>(s: Seq<A>, pred: spec_fn(A) -> bool, k: int)
    requires
        0 <= k < s.len(),
        pred(s[k]),
        forall|i: int| 0 <= i < k ==> !pred(#[trigger] s[i]),
    ensures
        s.filter(pred).len() > 0,
        s.filter(pred)[0] == s[k],
{
    lemma_filter_around(s, pred, k);
    lemma_filter_none(s.take(k), pred);
}

/// Where the element at `k` is the only one that passes, it is all that the
/// filter leaves.
pub proof fn lemma_only_hit<A>(s: Seq<A>, pred: spec_fn(A) -> bool, k: int)
    requires
        0 <= k < s.len(),
        pred(s[k]),
        forall|i: int| 0 <= i < s.len() && i != k ==> !pred(#[trigger] s[i]),
    ensures
        s.filter(pred) == seq![s[k]],
{
    lemma_filter_around(s, pred, k);
    lemma_filter_none(s.take(k), pred);
    lemma_filter_none(s.skip(k + 1), pred);
    assert(Seq::<A>::empty() + seq![s[k]] + Seq::<A>::empty() =~= seq![s[k]]);
}

/// Where the element at `k` is the only one that does not pass, the filter
/// removes it and nothing else.
pub proof fn lemma_only_miss<A>(s: Seq<A>, pred: spec_fn(A) -> bool, k: int)
    requires
        0 <= k < s.len(),
        !pred(s[k]),
        forall|i: int| 0 <= i < s.len() && i != k ==> pred(#[trigger] s[i]),
    ensures
        s.filter(pred) == s.remove(k),
{
    lemma_filter_around(s, pred, k);
    lemma_filter_all(s.take(k), pred);
    lemma_filter_all(s.skip(k + 1), pred);
    assert(s.take(k) + Seq::<A>::empty() + s.skip(k + 1) =~= s.remove(k));
}

/// An empty filter result means that no element passes.
pub proof fn lemma_no_hit<A>(s: Seq<A>, pred: spec_fn(A) -> bool)
    requires
        s.filter(pred).len() == 0,
    ensures
        forall|i: int| 0 <= i < s.len() ==> !pred(#[trigger] s[i]),
{
    assert forall|i: int| 0 <= i < s.len() implies !pred(#[trigger] s[i]) by {
        if pred(s[i]) {
            s.lemma_filter_contains(pred, i);
        }
    }
}

/// A filter sees no difference between a sequence and its image under a map
/// that leaves alone what passes and lets nothing else pass.
pub proof fn lemma_filter_of_unmoved<A>(s: Seq<A>, change: spec_fn(A) -> A, pred: spec_fn(A) -> bool)
    requires
        forall|i: int|
            0 <= i < s.len() ==> pred(change(#[trigger] s[i])) == pred(s[i]) && (pred(s[i])
                ==> change(s[i]) == s[i]),
    ensures
        s.map_values(change).filter(pred) == s.filter(pred),
    decreases s.len(),
{
    reveal(Seq::filter);
    if s.len() > 0 {
        lemma_filter_of_unmoved(s.drop_last(), change, pred);
        assert(s.map_values(change).drop_last() =~= s.drop_last().map_values(change));
        assert(s.map_values(change).last() == change(s.last()));
    } else {
        assert(s.map_values(change) =~= s);
    }
}

/// A filter put behind a weaker one selects what it selects alone.
pub proof fn lemma_filter_of_filtered<A>(s: Seq<A>, weaker: spec_fn(A) -> bool, pred: spec_fn(A) -> bool)
    requires
        forall|i: int| 0 <= i < s.len() && pred(#[trigger] s[i]) ==> weaker(s[i]),
    ensures
        s.filter(weaker).filter(pred) == s.filter(pred),
    decreases s.len(),
{
    reveal(Seq::filter);
    if s.len() > 0 {
        lemma_filter_of_filtered(s.drop_last(), weaker, pred);
        if weaker(s.last()) {
            s.drop_last().filter(weaker).lemma_filter_push(s.last(), pred);
        }
    }
}

} // verus!
