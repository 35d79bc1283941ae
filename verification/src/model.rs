//! The mathematical model of the sliding window and the imbalance sums, with
//! the laws that hold of them.
//!
//! A window is a `Seq<i64>` of per-bucket volumes; the buy-side portions form
//! a second, index-aligned sequence. The toxicity ratio returned by the
//! analyzer is `imbalance_of / sum_of` (and `0` on an empty or zero-volume
//! window).

use vstd::prelude::*;

verus! {

/// Total volume of a window: the sum of its entries.
pub open spec fn sum_of(s: Seq<i64>) -> int
    decreases s.len(),
{
    if s.len() == 0 {
        0
    } else {
        sum_of(s.drop_last()) + s.last()
    }
}

/// Order imbalance contributed by one bucket: `|buy - sell|` where
/// `sell = vol - buy`, that is `|2*buy - vol|`.
pub open spec fn bucket_imbalance(vol: int, buy: int) -> int {
    vstd::math::abs(2 * buy - vol) as int
}

/// Sum of per-bucket imbalances over two index-aligned windows.
pub open spec fn imbalance_of(vols: Seq<i64>, buys: Seq<i64>) -> int
    decreases vols.len(),
{
    if vols.len() == 0 {
        0
    } else {
        imbalance_of(vols.drop_last(), buys.drop_last()) + bucket_imbalance(
            vols.last() as int,
            buys.last() as int,
        )
    }
}

/// The two windows have the same length and every buy-side entry lies
/// between zero and the matching total entry.
pub open spec fn aligned(vols: Seq<i64>, buys: Seq<i64>) -> bool {
    &&& vols.len() == buys.len()
    &&& forall|i: int| 0 <= i < vols.len() ==> 0 <= #[trigger] buys[i] <= vols[i]
}

/// One sliding step on a window that was just extended with its newest
/// bucket: evict the oldest bucket when the capacity is exceeded.
pub open spec fn slide<A>(w: Seq<A>, max: int) -> Seq<A> {
    if w.len() > max {
        w.drop_first()
    } else {
        w
    }
}

/// The volume window obtained by recording the given tick volumes, in order,
/// starting from an empty window of capacity `max`.
pub open spec fn window_after(ticks: Seq<i64>, max: int) -> Seq<i64>
    decreases ticks.len(),
{
    if ticks.len() == 0 {
        Seq::empty()
    } else {
        slide(window_after(ticks.drop_last(), max).push(ticks.last()), max)
    }
}

/// Window bound: however many ticks have been recorded, the window holds
/// exactly `min(number of ticks, capacity)` buckets.
pub proof fn lemma_window_bound(ticks: Seq<i64>, max: int)
    requires
        max >= 1,
    ensures
        window_after(ticks, max).len() == vstd::math::min(ticks.len() as int, max),
    decreases ticks.len(),
{
    if ticks.len() > 0 {
        lemma_window_bound(ticks.drop_last(), max);
    }
}

/// Bounded output: over aligned windows the imbalance sum lies between zero
/// and the total volume, so the toxicity ratio lies in `[0, 1]`.
pub proof fn lemma_imbalance_bounded(vols: Seq<i64>, buys: Seq<i64>)
    requires
        aligned(vols, buys),
    ensures
        0 <= imbalance_of(vols, buys) <= sum_of(vols),
    decreases vols.len(),
{
    if vols.len() > 0 {
        assert(aligned(vols.drop_last(), buys.drop_last()));
        lemma_imbalance_bounded(vols.drop_last(), buys.drop_last());
        assert(0 <= buys[vols.len() - 1] <= vols[vols.len() - 1]);
    }
}

/// All-buy saturation: when every bucket of the window is pure buy volume,
/// the imbalance sum equals the total volume, so any window with positive
/// total volume scores exactly `1`.
pub proof fn lemma_all_buy_saturates(vols: Seq<i64>, buys: Seq<i64>)
    requires
        aligned(vols, buys),
        forall|i: int| 0 <= i < vols.len() ==> #[trigger] buys[i] == vols[i],
    ensures
        imbalance_of(vols, buys) == sum_of(vols),
    decreases vols.len(),
{
    if vols.len() > 0 {
        assert(aligned(vols.drop_last(), buys.drop_last()));
        lemma_all_buy_saturates(vols.drop_last(), buys.drop_last());
        assert(buys[vols.len() - 1] == vols[vols.len() - 1]);
        assert(0 <= buys[vols.len() - 1]);
    }
}

/// All-sell saturation: when every bucket of the window is pure sell volume,
/// the imbalance sum equals the total volume as well — pure one-sided flow
/// is maximally toxic regardless of direction.
pub proof fn lemma_all_sell_saturates(vols: Seq<i64>, buys: Seq<i64>)
    requires
        aligned(vols, buys),
        forall|i: int| 0 <= i < vols.len() ==> #[trigger] buys[i] == 0,
    ensures
        imbalance_of(vols, buys) == sum_of(vols),
    decreases vols.len(),
{
    if vols.len() > 0 {
        assert(aligned(vols.drop_last(), buys.drop_last()));
        lemma_all_sell_saturates(vols.drop_last(), buys.drop_last());
        assert(buys[vols.len() - 1] == 0);
        assert(0 <= vols[vols.len() - 1]);
    }
}

/// Perfect balance: when exactly half of every bucket's volume is buy-side,
/// every per-bucket imbalance vanishes and the window scores `0`.
pub proof fn lemma_balanced_window_zero(vols: Seq<i64>, buys: Seq<i64>)
    requires
        vols.len() == buys.len(),
        forall|i: int| 0 <= i < vols.len() ==> 2 * #[trigger] buys[i] == vols[i],
    ensures
        imbalance_of(vols, buys) == 0,
    decreases vols.len(),
{
    if vols.len() > 0 {
        lemma_balanced_window_zero(vols.drop_last(), buys.drop_last());
        assert(2 * buys[vols.len() - 1] == vols[vols.len() - 1]);
    }
}

/// Extending both windows by one index extends the imbalance sum by that
/// bucket's imbalance.
pub proof fn lemma_imbalance_prefix_step(vols: Seq<i64>, buys: Seq<i64>, i: int)
    requires
        0 <= i < vols.len(),
        i < buys.len(),
    ensures
        imbalance_of(vols.subrange(0, i + 1), buys.subrange(0, i + 1)) == imbalance_of(
            vols.subrange(0, i),
            buys.subrange(0, i),
        ) + bucket_imbalance(vols[i] as int, buys[i] as int),
{
    assert(vols.subrange(0, i + 1).drop_last() =~= vols.subrange(0, i));
    assert(buys.subrange(0, i + 1).drop_last() =~= buys.subrange(0, i));
    assert(vols.subrange(0, i + 1).last() == vols[i]);
    assert(buys.subrange(0, i + 1).last() == buys[i]);
}

/// Extending a window by one index extends its volume sum by that entry.
pub proof fn lemma_sum_prefix_step(s: Seq<i64>, i: int)
    requires
        0 <= i < s.len(),
    ensures
        sum_of(s.subrange(0, i + 1)) == sum_of(s.subrange(0, i)) + s[i],
{
    assert(s.subrange(0, i + 1).drop_last() =~= s.subrange(0, i));
    assert(s.subrange(0, i + 1).last() == s[i]);
}

} // verus!
