//! Whole-transfer laws of the read engine.
//!
//! One logical read spans a sequence of hardware transactions; every
//! completed transaction is observed by [`crate::channel::Channel::poll_read`]
//! as a poll-to-`Disabled` transition, and the per-poll contract decides,
//! through [`crate::channel::read_finishes`], whether the read ends there or
//! re-arms. The lemmas here lift that per-poll decision to the whole
//! packet sequence.

use vstd::prelude::*;
use crate::channel::read_finishes;

verus! {

/// The total byte count of a sequence of packet lengths.
pub open spec fn sum_bytes(ns: Seq<int>) -> int
    decreases ns.len(),
{
    if ns.len() == 0 {
        0
    } else {
        sum_bytes(ns.drop_last()) + ns.last()
    }
}

/// Extending a prefix by one packet adds that packet's length to its sum.
pub proof fn lemma_sum_take_succ(ns: Seq<int>, k: int)
    requires
        0 <= k < ns.len(),
    ensures
        sum_bytes(ns.take(k + 1)) == sum_bytes(ns.take(k)) + ns[k],
{
    assert(ns.take(k + 1).drop_last() =~= ns.take(k));
    assert(ns.take(k + 1).last() == ns[k]);
}

/// A prefix of a sequence whose remaining packets all carry at least one
/// byte falls short of the whole sum by at least one byte per remaining
/// packet.
pub proof fn lemma_sum_take_bound(ns: Seq<int>, m: int)
    requires
        0 <= m <= ns.len(),
        forall|j: int| m <= j < ns.len() ==> ns[j] >= 1,
    ensures
        sum_bytes(ns.take(m)) + (ns.len() - m) <= sum_bytes(ns),
    decreases ns.len() - m,
{
    if m == ns.len() {
        assert(ns.take(m) =~= ns);
    } else {
        lemma_sum_take_succ(ns, m);
        lemma_sum_take_bound(ns, m + 1);
    }
}

/// The sum of a prefix made of full-size packets.
pub proof fn lemma_sum_full_prefix(ns: Seq<int>, mps: int, m: int)
    requires
        0 <= m <= ns.len(),
        forall|j: int| 0 <= j < m ==> ns[j] == mps,
    ensures
        sum_bytes(ns.take(m)) == mps * m,
    decreases m,
{
    if m == 0 {
        assert(ns.take(0) =~= Seq::<int>::empty());
        assert(mps * 0 == 0) by (nonlinear_arith);
    } else {
        lemma_sum_full_prefix(ns, mps, m - 1);
        lemma_sum_take_succ(ns, m - 1);
        assert(mps * (m - 1) + mps == mps * m) by (nonlinear_arith);
    }
}

/// A read whose hardware answers with packets `ns` — every one before the
/// last full-size, the last one short but not empty, and the whole fitting
/// the caller's buffer — finishes at exactly the last packet: no earlier
/// completed transaction ends the read (each re-arms the channel instead),
/// the short one does end it, and the bytes returned are the sum of every
/// packet's length.
pub proof fn lemma_read_ends_at_short_packet(ns: Seq<int>, limit: int, mps: int)
    requires
        ns.len() >= 1,
        forall|j: int| 0 <= j < ns.len() - 1 ==> ns[j] == mps,
        1 <= ns.last() < mps,
        sum_bytes(ns) <= limit,
    ensures
        forall|j: int|
            0 <= j < ns.len() - 1 ==> !read_finishes(
                sum_bytes(ns.take(j + 1)),
                limit,
                ns[j],
                mps,
            ),
        read_finishes(sum_bytes(ns), limit, ns.last(), mps),
        sum_bytes(ns) == mps * (ns.len() - 1) + ns.last(),
{
    let len = ns.len() as int;
    lemma_sum_full_prefix(ns, mps, len - 1);
    lemma_sum_take_succ(ns, len - 1);
    assert(ns.take(len) =~= ns);
    assert forall|j: int| 0 <= j < len - 1 implies !read_finishes(
        sum_bytes(ns.take(j + 1)),
        limit,
        ns[j],
        mps,
    ) by {
        assert forall|t: int| j + 1 <= t < len implies ns[t] >= 1 by {
            if t < len - 1 {
                assert(ns[t] == mps);
                assert(mps > ns.last() >= 1);
            } else {
                assert(ns[t] == ns.last());
            }
        }
        lemma_sum_take_bound(ns, j + 1);
        assert(sum_bytes(ns.take(j + 1)) < limit);
        assert(ns[j] == mps);
    }
}

} // verus!
