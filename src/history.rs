//! Bounded histories: append at the back, evict the oldest beyond capacity.
use vstd::prelude::*;

verus! {

/// Capacity of the log and latency histories.
pub const HISTORY_CAPACITY: usize = 50;

/// One push onto a bounded history: the oldest entry leaves once the
/// history would exceed its capacity.
pub open spec fn bounded_push<T>(s: Seq<T>, x: T) -> Seq<T> {
    let t = s.push(x);
    if t.len() > HISTORY_CAPACITY {
        t.subrange(1, t.len() as int)
    } else {
        t
    }
}

/// The history after pushing each of `xs` in turn.
pub open spec fn push_all<T>(s: Seq<T>, xs: Seq<T>) -> Seq<T>
    decreases xs.len(),
{
    if xs.len() == 0 {
        s
    } else {
        bounded_push(push_all(s, xs.drop_last()), xs.last())
    }
}

/// The newest `HISTORY_CAPACITY` entries of `t` (all of them if fewer).
pub open spec fn newest<T>(t: Seq<T>) -> Seq<T> {
    if t.len() > HISTORY_CAPACITY {
        t.subrange(t.len() - HISTORY_CAPACITY, t.len() as int)
    } else {
        t
    }
}

/// Whatever sequence of samples is pushed onto a history that starts
/// within capacity, it stays within capacity and holds exactly the newest
/// entries in arrival order: the oldest are evicted first.
pub proof fn lemma_history_bounded<T>(s: Seq<T>, xs: Seq<T>)
    requires
        s.len() <= HISTORY_CAPACITY,
    ensures
        push_all(s, xs) == newest(s + xs),
        push_all(s, xs).len() <= HISTORY_CAPACITY,
    decreases xs.len(),
{
    if xs.len() == 0 {
        assert(s + xs =~= s);
    } else {
        let init = xs.drop_last();
        lemma_history_bounded(s, init);
        let t = s + init;
        assert(t.push(xs.last()) =~= s + xs);
        let p = newest(t);
        if t.len() > HISTORY_CAPACITY {
            assert(bounded_push(p, xs.last()) =~= newest(t.push(xs.last())));
        } else {
            assert(bounded_push(p, xs.last()) =~= newest(t.push(xs.last())));
        }
    }
}

/// The latency history of a fresh session: `HISTORY_CAPACITY` zeros.
pub open spec fn zero_history() -> Seq<u64> {
    Seq::new(HISTORY_CAPACITY as nat, |i: int| 0u64)
}

/// From the zero-filled history of a fresh session, any sequence of pushed
/// samples leaves exactly `HISTORY_CAPACITY` samples: the zeros followed by
/// the samples, of which the newest window is kept, newest last.
pub proof fn lemma_fresh_history(xs: Seq<u64>)
    ensures
        push_all(zero_history(), xs) == (zero_history() + xs).subrange(
            xs.len() as int,
            xs.len() + HISTORY_CAPACITY,
        ),
        push_all(zero_history(), xs).len() == HISTORY_CAPACITY,
{
    lemma_history_bounded(zero_history(), xs);
    let t = zero_history() + xs;
    if xs.len() == 0 {
        assert(t.subrange(0, HISTORY_CAPACITY as int) =~= t);
    }
}

} // verus!
