//! Removing from a sequence every element that a predicate hits, the way a
//! vector does it in place: the first hit is overwritten by the last element
//! and the vector shrinks by one, until nothing is hit any more.

use vstd::prelude::*;

verus! {

/// The position of the first element of `s` that `hit` accepts, or the length
/// of `s` if it accepts none.
pub open spec fn first_hit<T>(s: Seq<T>, hit: spec_fn(T) -> bool) -> int
    decreases s.len(),
{
    if s.len() == 0 {
        0
    } else if hit(s[0]) {
        0
    } else {
        1 + first_hit(s.drop_first(), hit)
    }
}

/// `s` after one in-place removal at `i`: the last element takes the place of
/// the removed one.
pub open spec fn swap_removed<T>(s: Seq<T>, i: int) -> Seq<T> {
    s.update(i, s.last()).drop_last()
}

/// What is left of `s` once every hit has been removed in place, first hit
/// first.
pub open spec fn purged<T>(s: Seq<T>, hit: spec_fn(T) -> bool) -> Seq<T>
    decreases s.len(),
{
    let i = first_hit(s, hit);
    if 0 <= i < s.len() {
        purged(swap_removed(s, i), hit)
    } else {
        s
    }
}

/// `first_hit` is in range, nothing before it is hit, and it is hit itself
/// unless it is the length.
pub proof fn lemma_first_hit<T>(s: Seq<T>, hit: spec_fn(T) -> bool)
    ensures
        0 <= first_hit(s, hit) <= s.len(),
        forall|j: int| 0 <= j < first_hit(s, hit) ==> !hit(#[trigger] s[j]),
        first_hit(s, hit) < s.len() ==> hit(s[first_hit(s, hit)]),
    decreases s.len(),
{
    if s.len() > 0 && !hit(s[0]) {
        let rest = s.drop_first();
        lemma_first_hit(rest, hit);
        assert forall|j: int| 0 <= j < first_hit(s, hit) implies !hit(#[trigger] s[j]) by {
            if j > 0 {
                assert(s[j] == rest[j - 1]);
            }
        }
    }
}

/// A position with no hit before it, which is hit itself or is the length, is
/// the first hit.
pub proof fn lemma_first_hit_is<T>(s: Seq<T>, hit: spec_fn(T) -> bool, i: int)
    requires
        0 <= i <= s.len(),
        forall|j: int| 0 <= j < i ==> !hit(#[trigger] s[j]),
        i < s.len() ==> hit(s[i]),
    ensures
        first_hit(s, hit) == i,
{
    lemma_first_hit(s, hit);
    let f = first_hit(s, hit);
    if f < i {
        assert(!hit(s[f]));
    } else if i < f {
        assert(!hit(s[i]));
    }
}

/// One in-place removal takes exactly one occurrence of the removed element
/// out of the sequence.
pub proof fn lemma_swap_removed_multiset<T>(s: Seq<T>, i: int)
    requires
        0 <= i < s.len(),
    ensures
        swap_removed(s, i).to_multiset() == s.to_multiset().remove(s[i]),
{
    broadcast use vstd::multiset::group_multiset_axioms;

    let n = s.len() as int;
    let short = s.drop_last();
    assert(short == s.remove(n - 1));
    vstd::seq_lib::to_multiset_remove(s, n - 1);
    if i == n - 1 {
        assert(swap_removed(s, i) == short);
    } else {
        vstd::seq_lib::to_multiset_remove(short, i);
        vstd::seq_lib::to_multiset_insert(short.remove(i), i, s.last());
        assert(swap_removed(s, i) == short.remove(i).insert(i, s.last()));
        assert(short[i] == s[i]);
        vstd::seq_lib::to_multiset_contains(s, s.last());
        assert(s.contains(s.last())) by {
            assert(s[n - 1] == s.last());
        }
        vstd::seq_lib::to_multiset_contains(short, s[i]);
        assert(short.contains(s[i]));
        assert(swap_removed(s, i).to_multiset() =~= s.to_multiset().remove(s[i]));
    }
}

/// What purging leaves: nothing that is hit, and every other value exactly as
/// often as it stood in the sequence before.
pub proof fn lemma_purged<T>(s: Seq<T>, hit: spec_fn(T) -> bool)
    ensures
        purged(s, hit).len() <= s.len(),
        forall|k: int| 0 <= k < purged(s, hit).len() ==> !hit(#[trigger] purged(s, hit)[k]),
        forall|v: T|
            #[trigger] purged(s, hit).to_multiset().count(v) == if hit(v) {
                0
            } else {
                s.to_multiset().count(v)
            },
    decreases s.len(),
{
    broadcast use vstd::multiset::group_multiset_axioms;

    lemma_first_hit(s, hit);
    let i = first_hit(s, hit);
    if i < s.len() {
        let next = swap_removed(s, i);
        lemma_purged(next, hit);
        lemma_swap_removed_multiset(s, i);
    } else {
        assert forall|v: T| hit(v) implies s.to_multiset().count(v) == 0 by {
            vstd::seq_lib::to_multiset_contains(s, v);
            if s.contains(v) {
                let k = choose|k: int| 0 <= k < s.len() && s[k] == v;
                assert(!hit(s[k]));
            }
        }
    }
}

} // verus!
