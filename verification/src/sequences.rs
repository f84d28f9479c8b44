//! Facts about filtered sequences.

use vstd::prelude::*;

verus! {

/// A filter decides on the last item of a sequence by itself: what it keeps
/// of the whole is what it keeps of the rest, followed by the last item
/// where the filter keeps it.
pub proof fn lemma_filter_last<A>(items: Seq<A>, keep: spec_fn(A) -> bool)
    requires
        items.len() > 0,
    ensures
        items.filter(keep) == if keep(items.last()) {
            items.drop_last().filter(keep).push(items.last())
        } else {
            items.drop_last().filter(keep)
        },
{
    reveal(Seq::filter);
}

/// A filter keeps nothing of the empty sequence.
pub proof fn lemma_filter_empty<A>(keep: spec_fn(A) -> bool)
    ensures
        Seq::<A>::empty().filter(keep) == Seq::<A>::empty(),
{
    reveal(Seq::filter);
}

/// A filter that goes over the first `i + 1` items of a sequence goes over
/// the first `i` items and then decides on the item at `i`.
pub proof fn lemma_filter_take<A>(items: Seq<A>, keep: spec_fn(A) -> bool, i: int)
    requires
        0 <= i < items.len(),
    ensures
        items.take(i + 1).filter(keep) == if keep(items[i]) {
            items.take(i).filter(keep).push(items[i])
        } else {
            items.take(i).filter(keep)
        },
{
    assert(items.take(i + 1).drop_last() == items.take(i));
    assert(items.take(i + 1).last() == items[i]);
    lemma_filter_last(items.take(i + 1), keep);
}

/// Two filters that agree on every item of a sequence keep the same items.
pub proof fn lemma_filter_agree<A>(items: Seq<A>, one: spec_fn(A) -> bool, other: spec_fn(A) -> bool)
    requires
        forall|i: int| 0 <= i < items.len() ==> one(#[trigger] items[i]) == other(items[i]),
    ensures
        items.filter(one) == items.filter(other),
    decreases items.len(),
{
    reveal(Seq::filter);
    if items.len() > 0 {
        let rest = items.drop_last();
        assert forall|i: int| 0 <= i < rest.len() implies one(#[trigger] rest[i]) == other(
            rest[i],
        ) by {
            assert(rest[i] == items[i]);
        }
        lemma_filter_agree(rest, one, other);
        assert(one(items.last()) == other(items.last()));
    }
}

} // verus!
