//! Facts about filtered sequences that the loops over records rest on.

use vstd::prelude::*;

verus! {

/// Filtering one element more of a sequence either appends that element
/// or changes nothing.
pub proof fn lemma_filter_step<A>(s: Seq<A>, pred: spec_fn(A) -> bool, i: int)
    requires
        0 <= i < s.len(),
    ensures
        s.take(i + 1).filter(pred) == if pred(s[i]) {
            s.take(i).filter(pred).push(s[i])
        } else {
            s.take(i).filter(pred)
        },
{
    reveal(Seq::filter);
    assert(s.take(i + 1).drop_last() == s.take(i));
}

/// An element that fails the test can be removed from a sequence without
/// changing what the filter keeps.
pub proof fn lemma_filter_remove<A>(s: Seq<A>, pred: spec_fn(A) -> bool, i: int)
    requires
        0 <= i < s.len(),
        !pred(s[i]),
    ensures
        s.remove(i).filter(pred) == s.filter(pred),
{
    let front = s.take(i);
    let back = s.skip(i + 1);
    assert(s == (front + seq![s[i]]) + back);
    assert(s.remove(i) == front + back);
    assert(seq![s[i]].filter(pred) == Seq::<A>::empty()) by {
        reveal_with_fuel(Seq::filter, 2);
    }
    Seq::filter_distributes_over_add(front, seq![s[i]], pred);
    Seq::filter_distributes_over_add(front + seq![s[i]], back, pred);
    Seq::filter_distributes_over_add(front, back, pred);
    assert(front.filter(pred) + Seq::<A>::empty() == front.filter(pred));
}

} // verus!
