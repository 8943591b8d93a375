use vstd::prelude::*;

verus! {

broadcast use vstd::seq_lib::group_filter_ensures;

/// `a` can be obtained from `b` by deleting elements, keeping the order.
/// Matching greedily from the back is a complete test for that.
pub open spec fn is_subsequence_of<A>(a: Seq<A>, b: Seq<A>) -> bool
    decreases b.len(),
{
    if a.len() == 0 {
        true
    } else if b.len() == 0 {
        false
    } else if a.last() == b.last() {
        is_subsequence_of(a.drop_last(), b.drop_last())
    } else {
        is_subsequence_of(a, b.drop_last())
    }
}

/// Appending to the right-hand sequence preserves the relation.
pub proof fn lemma_subsequence_push<A>(a: Seq<A>, b: Seq<A>, x: A)
    requires
        is_subsequence_of(a, b),
    ensures
        is_subsequence_of(a, b.push(x)),
    decreases b.len(), 1int,
{
    if a.len() > 0 {
        assert(b.push(x).drop_last() =~= b);
        if a.last() == x {
            lemma_subsequence_drop_last(a, b);
        }
    }
}

/// Dropping the last element of the left-hand sequence preserves it.
pub proof fn lemma_subsequence_drop_last<A>(a: Seq<A>, b: Seq<A>)
    requires
        is_subsequence_of(a, b),
        a.len() > 0,
    ensures
        is_subsequence_of(a.drop_last(), b),
    decreases b.len(), 0int,
{
    if b.len() == 0 {
        // a non-empty sequence is no subsequence of the empty one
    } else if a.last() == b.last() {
        lemma_subsequence_push(a.drop_last(), b.drop_last(), b.last());
        assert(b.drop_last().push(b.last()) =~= b);
    } else {
        if a.drop_last().len() > 0 {
            lemma_subsequence_drop_last(a, b.drop_last());
            lemma_subsequence_push(a.drop_last(), b.drop_last(), b.last());
            assert(b.drop_last().push(b.last()) =~= b);
        }
    }
}

/// Filtering after appending one element.
pub proof fn lemma_filter_push<A>(s: Seq<A>, x: A, pred: spec_fn(A) -> bool)
    ensures
        pred(x) ==> s.push(x).filter(pred) == s.filter(pred).push(x),
        !pred(x) ==> s.push(x).filter(pred) == s.filter(pred),
{
    reveal(Seq::filter);
    let t = s.push(x);
    assert(t.last() == x);
    assert(t.drop_last() =~= s);
}

/// Filtering a sequence yields a subsequence of it.
pub proof fn lemma_filter_is_subsequence<A>(s: Seq<A>, pred: spec_fn(A) -> bool)
    ensures
        is_subsequence_of(s.filter(pred), s),
    decreases s.len(),
{
    reveal(Seq::filter);
    if s.len() == 0 {
        assert(s.filter(pred) =~= Seq::<A>::empty());
    } else {
        let dl = s.drop_last();
        lemma_filter_is_subsequence(dl, pred);
        if pred(s.last()) {
            assert(s.filter(pred) == dl.filter(pred).push(s.last()));
            assert(dl.filter(pred).push(s.last()).drop_last() =~= dl.filter(pred));
        } else {
            lemma_subsequence_push(dl.filter(pred), dl, s.last());
            assert(dl.push(s.last()) =~= s);
        }
    }
}

/// A filter that keeps every element returns the sequence unchanged.
pub proof fn lemma_filter_all_kept<A>(s: Seq<A>, pred: spec_fn(A) -> bool)
    requires
        forall|i: int| 0 <= i < s.len() ==> pred(#[trigger] s[i]),
    ensures
        s.filter(pred) == s,
    decreases s.len(),
{
    reveal(Seq::filter);
    if s.len() == 0 {
        assert(s.filter(pred) =~= s);
    } else {
        let dl = s.drop_last();
        assert forall|i: int| 0 <= i < dl.len() implies pred(#[trigger] dl[i]) by {
            assert(dl[i] == s[i]);
        }
        lemma_filter_all_kept(dl, pred);
        assert(pred(s.last()));
        assert(s.filter(pred) =~= s);
    }
}

/// Two predicates that agree on every element filter a sequence alike.
pub proof fn lemma_filter_agree<A>(s: Seq<A>, p: spec_fn(A) -> bool, q: spec_fn(A) -> bool)
    requires
        forall|i: int| 0 <= i < s.len() ==> (p(#[trigger] s[i]) <==> q(s[i])),
    ensures
        s.filter(p) == s.filter(q),
    decreases s.len(),
{
    reveal(Seq::filter);
    if s.len() == 0 {
        assert(s.filter(p) =~= s.filter(q));
    } else {
        let dl = s.drop_last();
        assert forall|i: int| 0 <= i < dl.len() implies (p(#[trigger] dl[i]) <==> q(dl[i])) by {
            assert(dl[i] == s[i]);
        }
        lemma_filter_agree(dl, p, q);
        assert(s.last() == s[s.len() - 1]);
    }
}

/// Filtering twice with one predicate is the same as filtering once.
pub proof fn lemma_filter_idempotent<A>(s: Seq<A>, pred: spec_fn(A) -> bool)
    ensures
        s.filter(pred).filter(pred) == s.filter(pred),
{
    lemma_filter_all_kept(s.filter(pred), pred);
}

} // verus!
