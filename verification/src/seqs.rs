//! Facts about filtered sequences that the loops of this crate rest on.

use vstd::prelude::*;

verus! {

/// Filtering one element more keeps what was kept and appends the new
/// element when the predicate holds of it.
pub proof fn filter_take_step<A>(s: Seq<A>, pred: spec_fn(A) -> bool, i: int)
    requires
        0 <= i < s.len(),
    ensures
        s.take(i + 1).filter(pred) == if pred(s[i]) {
            s.take(i).filter(pred).push(s[i])
        } else {
            s.take(i).filter(pred)
        },
{
    reveal(Seq::filter);
    assert(s.take(i + 1).drop_last() =~= s.take(i));
    assert(s.take(i + 1).last() == s[i]);
}

/// Nothing is kept of an empty sequence.
pub proof fn filter_of_none<A>(s: Seq<A>, pred: spec_fn(A) -> bool)
    requires
        s.len() == 0,
    ensures
        s.filter(pred) == Seq::<A>::empty(),
{
    reveal(Seq::filter);
    assert(s =~= Seq::<A>::empty());
}

/// What a filter keeps stood in the sequence and meets the predicate.
pub proof fn filter_keeps_members<A>(s: Seq<A>, pred: spec_fn(A) -> bool, k: int) -> (i: int)
    requires
        0 <= k < s.filter(pred).len(),
    ensures
        0 <= i < s.len(),
        s[i] == s.filter(pred)[k],
        pred(s[i]),
    decreases s.len(),
{
    reveal(Seq::filter);
    let rest = s.drop_last().filter(pred);
    if k < rest.len() {
        filter_keeps_members(s.drop_last(), pred, k)
    } else {
        s.len() - 1
    }
}

} // verus!
