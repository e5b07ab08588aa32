//! FIFO buffer model shared by the relay channel and the persistence
//! pipeline.
//!
//! Both components queue values the same way: an accepted push appends at the
//! end, a pop takes the head. [`after_pushes`] and [`after_pops`] are those
//! transitions iterated, in exactly the shape the components' `ensures`
//! clauses use; the two lemmas reduce them to sequence concatenation and
//! suffix, which is what the ordering laws of both components rest on.

use vstd::prelude::*;

verus! {

/// The buffer after the values of `xs` are pushed, oldest first, onto a
/// buffer holding `q`: each push appends.
pub open spec fn after_pushes<T>(q: Seq<T>, xs: Seq<T>) -> Seq<T>
    decreases xs.len(),
{
    if xs.len() == 0 {
        q
    } else {
        after_pushes(q.push(xs.first()), xs.drop_first())
    }
}

/// The buffer after `k` pops from a buffer holding `q`: each pop takes the
/// head and leaves the rest.
pub open spec fn after_pops<T>(q: Seq<T>, k: int) -> Seq<T>
    decreases k,
{
    if k <= 0 {
        q
    } else {
        after_pops(q, k - 1).remove(0)
    }
}

/// Pushing is appending: the buffer after pushing `xs` onto `q` is `q`
/// followed by `xs`.
pub proof fn lemma_pushes_append<T>(q: Seq<T>, xs: Seq<T>)
    ensures
        after_pushes(q, xs) == q + xs,
    decreases xs.len(),
{
    if xs.len() == 0 {
        assert(q + xs =~= q);
    } else {
        lemma_pushes_append(q.push(xs.first()), xs.drop_first());
        assert(q.push(xs.first()) + xs.drop_first() =~= q + xs);
    }
}

/// Popping takes a prefix away: after `k` pops of a buffer `q`, what remains
/// is `q` without its first `k` values.
pub proof fn lemma_pops_skip<T>(q: Seq<T>, k: int)
    requires
        0 <= k <= q.len(),
    ensures
        after_pops(q, k) == q.skip(k),
    decreases k,
{
    if k == 0 {
        assert(q.skip(0) =~= q);
    } else {
        lemma_pops_skip(q, k - 1);
        assert(q.skip(k - 1).remove(0) =~= q.skip(k));
    }
}

} // verus!
