//! Small general facts about sequence filtering used by the stores.

use vstd::prelude::*;

verus! {

/// Filtering keeps a sequence intact when every element passes.
pub proof fn lemma_filter_all_pass<A>(s: Seq<A>, pred: spec_fn(A) -> bool)
    requires
        forall|i: int| 0 <= i < s.len() ==> pred(#[trigger] s[i]),
    ensures
        s.filter(pred) == s,
    decreases s.len(),
{
    reveal(Seq::filter);
    if s.len() > 0 {
        lemma_filter_all_pass(s.drop_last(), pred);
        assert(s.filter(pred) =~= s);
    } else {
        assert(s.filter(pred) =~= s);
    }
}

/// Removing the one failing element is the same as filtering, when
/// every other element passes.
pub proof fn lemma_filter_drops_one<A>(s: Seq<A>, pred: spec_fn(A) -> bool, i: int)
    requires
        0 <= i < s.len(),
        !pred(s[i]),
        forall|j: int| 0 <= j < s.len() && j != i ==> pred(#[trigger] s[j]),
    ensures
        s.filter(pred) == s.remove(i),
{
    let front = s.subrange(0, i);
    let mid = s.subrange(i, i + 1);
    let back = s.subrange(i + 1, s.len() as int);
    assert(s =~= front + mid + back);
    Seq::filter_distributes_over_add(front + mid, back, pred);
    Seq::filter_distributes_over_add(front, mid, pred);
    lemma_filter_all_pass(front, pred);
    lemma_filter_all_pass(back, pred);
    assert(mid.filter(pred) =~= Seq::<A>::empty()) by {
        reveal_with_fuel(Seq::filter, 3);
        assert(mid.drop_last() =~= Seq::<A>::empty());
        assert(mid.last() == s[i]);
    }
    assert((front + mid + back).filter(pred) == front.filter(pred) + mid.filter(pred)
        + back.filter(pred));
    assert(s.filter(pred) =~= s.remove(i));
}

} // verus!
