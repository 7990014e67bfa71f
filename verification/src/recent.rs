//! Keeping the most recent elements of a growing sequence: what a bounded
//! window, or a ring that overwrites, holds.

use vstd::prelude::*;

verus! {

/// The last `capacity` elements of `s`, or all of them if there are no more
/// than that.
pub open spec fn kept_last<T>(s: Seq<T>, capacity: int) -> Seq<T> {
    if s.len() <= capacity {
        s
    } else {
        s.subrange(s.len() - capacity, s.len() as int)
    }
}

/// What is held after `items` have come in one by one, each time keeping the
/// last `capacity`.
pub open spec fn fed<T>(held: Seq<T>, items: Seq<T>, capacity: int) -> Seq<T>
    decreases items.len(),
{
    if items.len() == 0 {
        held
    } else {
        kept_last(fed(held, items.drop_last(), capacity).push(items.last()), capacity)
    }
}

/// What is kept does not depend on how the arrivals were cut: taking two
/// batches one after the other leaves what taking them as one leaves.
pub proof fn lemma_kept_last_composes<T>(held: Seq<T>, first: Seq<T>, second: Seq<T>, capacity: int)
    requires
        0 <= capacity,
    ensures
        kept_last(kept_last(held + first, capacity) + second, capacity) == kept_last(
            held + first + second,
            capacity,
        ),
{
    let left = kept_last(kept_last(held + first, capacity) + second, capacity);
    let right = kept_last(held + first + second, capacity);
    assert(left.len() == right.len());
    assert forall|k: int| 0 <= k < left.len() implies left[k] == right[k] by {}
    assert(left =~= right);
}

/// Feeding one by one leaves the last `capacity` of everything that came,
/// provided no more than that was held to begin with.
pub proof fn lemma_fed_keeps_last<T>(held: Seq<T>, items: Seq<T>, capacity: int)
    requires
        1 <= capacity,
        held.len() <= capacity,
    ensures
        fed(held, items, capacity) == kept_last(held + items, capacity),
    decreases items.len(),
{
    if items.len() == 0 {
        assert(held + items == held);
    } else {
        let front = items.drop_last();
        lemma_fed_keeps_last(held, front, capacity);
        lemma_kept_last_composes(held, front, seq![items.last()], capacity);
        assert(front + seq![items.last()] == items);
        assert(held + front + seq![items.last()] == held + items);
        assert(kept_last(held + front, capacity).push(items.last()) == kept_last(
            held + front,
            capacity,
        ) + seq![items.last()]);
    }
}

/// Feeding in two batches leaves what feeding in one leaves.
pub proof fn lemma_fed_composes<T>(held: Seq<T>, first: Seq<T>, second: Seq<T>, capacity: int)
    ensures
        fed(fed(held, first, capacity), second, capacity) == fed(held, first + second, capacity),
    decreases second.len(),
{
    if second.len() == 0 {
        assert(first + second == first);
    } else {
        lemma_fed_composes(held, first, second.drop_last(), capacity);
        assert((first + second).drop_last() == first + second.drop_last());
        assert((first + second).last() == second.last());
    }
}

} // verus!
