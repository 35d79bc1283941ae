//! The streaming analyzer: two parallel bounded windows of per-bucket
//! volumes, updated once per trade tick, and the toxicity ratio recomputed
//! over them after every update.

use crate::model::aligned;
use crate::model::bucket_imbalance;
use crate::model::imbalance_of;
use crate::model::lemma_imbalance_prefix_step;
use crate::model::lemma_sum_prefix_step;
use crate::model::slide;
use crate::model::sum_of;
use vstd::prelude::*;

verus! {

/// Aggressor direction of a trade tick.
#[derive(Clone, Copy, PartialEq, Eq, Structural, Debug)]
pub enum Side {
    Buy,
    Sell,
}

/// Rejected calls: a bad configuration at construction, or a bad tick.
#[derive(Clone, Copy, PartialEq, Eq, Structural, Debug)]
pub enum AnalyzerError {
    /// `max_buckets` was zero or `bucket_size` negative at construction.
    InvalidConfiguration,
    /// A tick carried a negative volume.
    InvalidInput,
}

/// The toxicity score as an exact rational. The score is
/// `imbalance / total_volume` when `total_volume > 0`, and `0` otherwise
/// (empty window, or only zero-volume buckets). Under the analyzer's
/// invariant `imbalance <= total_volume`, so the score lies in `[0, 1]`.
#[derive(Clone, Copy, PartialEq, Eq, Structural, Debug)]
pub struct VpinScore {
    /// Sum of per-bucket order imbalances `|buy - sell|` over the window.
    pub imbalance: u128,
    /// Sum of per-bucket total volumes over the window.
    pub total_volume: u128,
}

/// The buy-side portion of a tick: its whole volume on a buy, zero on a sell.
pub open spec fn buy_portion(volume: i64, side: Side) -> i64 {
    if side == Side::Buy {
        volume
    } else {
        0i64
    }
}

/// A bounded-memory streaming accumulator for a VPIN-style order-flow
/// toxicity ratio. One instance tracks one symbol/stream; each recorded tick
/// becomes one bucket of a sliding window of at most `max_buckets` buckets.
#[derive(Debug)]
pub struct MicrostructureAnalyzer {
    /// Total volume of each bucket, oldest first.
    pub volume_buckets: Vec<i64>,
    /// Buy-side volume of each bucket, index-aligned with `volume_buckets`.
    pub buy_volume_buckets: Vec<i64>,
    /// Target volume per bucket. Stored for future aggregation semantics;
    /// the current ratio treats every tick as one full bucket.
    pub bucket_size: i64,
    /// Window capacity in buckets; always at least one.
    pub max_buckets: usize,
}

impl MicrostructureAnalyzer {
    /// The analyzer's invariant: a positive capacity, a non-negative bucket
    /// size, a window within capacity, and index-aligned non-negative
    /// buy-side portions.
    pub open spec fn wf(self) -> bool {
        &&& self.max_buckets >= 1
        &&& self.bucket_size >= 0
        &&& self.volume_buckets@.len() <= self.max_buckets
        &&& aligned(self.volume_buckets@, self.buy_volume_buckets@)
    }

    /// Creates an analyzer with empty windows, rejecting a configuration
    /// with no room for any bucket or a negative target bucket volume.
    pub fn new(bucket_size: i64, max_buckets: usize) -> (r: Result<Self, AnalyzerError>)
        ensures
            r is Ok <==> bucket_size >= 0 && max_buckets >= 1,
            r is Err ==> r->Err_0 == AnalyzerError::InvalidConfiguration,
            r is Ok ==> {
                &&& r->Ok_0.wf()
                &&& r->Ok_0.volume_buckets@.len() == 0
                &&& r->Ok_0.buy_volume_buckets@.len() == 0
                &&& r->Ok_0.bucket_size == bucket_size
                &&& r->Ok_0.max_buckets == max_buckets
            },
    {
        if bucket_size < 0 || max_buckets == 0 {
            return Err(AnalyzerError::InvalidConfiguration);
        }
        Ok(MicrostructureAnalyzer {
            volume_buckets: Vec::with_capacity(max_buckets),
            buy_volume_buckets: Vec::with_capacity(max_buckets),
            bucket_size,
            max_buckets,
        })
    }

    /// Recomputes the toxicity ratio over the current window without
    /// mutating it: the exact pair of imbalance sum and total volume.
    pub fn current_vpin(&self) -> (r: VpinScore)
        requires
            self.wf(),
        ensures
            r.imbalance == imbalance_of(self.volume_buckets@, self.buy_volume_buckets@),
            r.total_volume == sum_of(self.volume_buckets@),
            r.imbalance <= r.total_volume,
    {
        let n: usize = self.volume_buckets.len();
        let mut total: u128 = 0;
        let mut imbalance: u128 = 0;
        let mut i: usize = 0;
        while i < n
            invariant
                self.wf(),
                n == self.volume_buckets@.len(),
                i <= n,
                total == sum_of(self.volume_buckets@.subrange(0, i as int)),
                imbalance == imbalance_of(
                    self.volume_buckets@.subrange(0, i as int),
                    self.buy_volume_buckets@.subrange(0, i as int),
                ),
                imbalance <= total,
                total <= i as int * (i64::MAX as int),
            decreases n - i,
        {
            let v: i64 = self.volume_buckets[i];
            let b: i64 = self.buy_volume_buckets[i];
            proof {
                assert(0 <= self.buy_volume_buckets@[i as int] <= self.volume_buckets@[i as int]);
            }
            let sell: i64 = v - b;
            let d: i64 = if b >= sell {
                b - sell
            } else {
                sell - b
            };
            proof {
                lemma_sum_prefix_step(self.volume_buckets@, i as int);
                lemma_imbalance_prefix_step(self.volume_buckets@, self.buy_volume_buckets@, i as int);
                assert(d == bucket_imbalance(v as int, b as int));
                assert((i as int + 1) * (i64::MAX as int) == i as int * (i64::MAX as int)
                    + i64::MAX as int) by (nonlinear_arith);
                assert((n as int) * (i64::MAX as int) < u128::MAX as int) by (nonlinear_arith)
                    requires
                        n as int <= 0x1_0000_0000_0000_0000int,
                ;
                assert((i as int + 1) * (i64::MAX as int) <= (n as int) * (i64::MAX as int))
                    by (nonlinear_arith)
                    requires
                        i as int + 1 <= n as int,
                ;
            }
            total = total + (v as u128);
            imbalance = imbalance + (d as u128);
            i = i + 1;
        }
        proof {
            assert(self.volume_buckets@.subrange(0, n as int) =~= self.volume_buckets@);
            assert(self.buy_volume_buckets@.subrange(0, n as int) =~= self.buy_volume_buckets@);
        }
        VpinScore { imbalance, total_volume: total }
    }

    /// Records one trade tick and returns the toxicity score over the
    /// updated window.
    ///
    /// The tick's volume is appended as a new bucket (its buy-side portion
    /// alongside), the oldest bucket is evicted if the window now exceeds
    /// its capacity, and the ratio is recomputed. A negative volume is
    /// rejected atomically: the window is left unchanged. `_price` is
    /// accepted for interface stability and does not influence the score.
    pub fn calculate_vpin(&mut self, _price: i64, volume: i64, side: Side) -> (r: Result<
        VpinScore,
        AnalyzerError,
    >)
        requires
            old(self).wf(),
        ensures
            final(self).wf(),
            final(self).bucket_size == old(self).bucket_size,
            final(self).max_buckets == old(self).max_buckets,
            volume < 0 ==> {
                &&& r is Err
                &&& r->Err_0 == AnalyzerError::InvalidInput
                &&& *final(self) == *old(self)
            },
            volume >= 0 ==> {
                &&& r is Ok
                &&& final(self).volume_buckets@.len() == vstd::math::min(
                    old(self).volume_buckets@.len() as int + 1,
                    old(self).max_buckets as int,
                )
                &&& final(self).volume_buckets@ == slide(
                    old(self).volume_buckets@.push(volume),
                    old(self).max_buckets as int,
                )
                &&& final(self).buy_volume_buckets@ == slide(
                    old(self).buy_volume_buckets@.push(buy_portion(volume, side)),
                    old(self).max_buckets as int,
                )
                &&& r->Ok_0.imbalance == imbalance_of(
                    final(self).volume_buckets@,
                    final(self).buy_volume_buckets@,
                )
                &&& r->Ok_0.total_volume == sum_of(final(self).volume_buckets@)
                &&& r->Ok_0.imbalance <= r->Ok_0.total_volume
            },
    {
        if volume < 0 {
            return Err(AnalyzerError::InvalidInput);
        }
        let ghost vols0 = self.volume_buckets@;
        let ghost buys0 = self.buy_volume_buckets@;
        let buy_volume: i64 = if side == Side::Buy {
            volume
        } else {
            0
        };
        self.volume_buckets.push(volume);
        self.buy_volume_buckets.push(buy_volume);
        if self.volume_buckets.len() > self.max_buckets {
            self.volume_buckets.remove(0);
            self.buy_volume_buckets.remove(0);
            proof {
                assert(self.volume_buckets@ =~= vols0.push(volume).drop_first());
                assert(self.buy_volume_buckets@ =~= buys0.push(buy_volume).drop_first());
            }
        }
        proof {
            let vols1 = self.volume_buckets@;
            let buys1 = self.buy_volume_buckets@;
            assert(vols1 == slide(vols0.push(volume), self.max_buckets as int));
            assert(buys1 == slide(buys0.push(buy_volume), self.max_buckets as int));
            assert forall|i: int| 0 <= i < vols1.len() implies 0 <= #[trigger] buys1[i]
                <= vols1[i] by {
                if vols1.len() == vols0.len() + 1 {
                    assert(buys1[i] == buys0.push(buy_volume)[i]);
                } else {
                    assert(buys1[i] == buys0.push(buy_volume)[i + 1]);
                }
            }
        }
        Ok(self.current_vpin())
    }
}

/// Idempotent read: the score is a pure function of the window state. Any
/// two scores whose fields equal the window's imbalance sum and total
/// volume — as every score returned over an unchanged window does — are
/// identical.
pub proof fn lemma_score_read_idempotent(
    s1: VpinScore,
    s2: VpinScore,
    vols: Seq<i64>,
    buys: Seq<i64>,
)
    requires
        s1.imbalance == imbalance_of(vols, buys),
        s1.total_volume == sum_of(vols),
        s2.imbalance == imbalance_of(vols, buys),
        s2.total_volume == sum_of(vols),
    ensures
        s1 == s2,
{
}

} // verus!
