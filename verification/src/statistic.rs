//! Per-session trading statistics, built incrementally as positions close.

use vstd::prelude::*;

use crate::fixed::{AMOUNT_LIMIT, PNL_LIMIT, RESULT_LIMIT};
use crate::position::Position;

verus! {

/// Configuration of a session's statistics.
#[derive(Clone, Copy, PartialEq, Debug)]
pub struct StatisticConfig {
    /// Equity the session starts with, micro-units.
    pub starting_equity: i64,
}

impl StatisticConfig {
    pub open spec fn wf(self) -> bool {
        0 <= self.starting_equity <= AMOUNT_LIMIT
    }
}

/// Sum of the realised profit and loss over a sequence of positions.
pub open spec fn sum_realised_pnl(positions: Seq<Position>) -> int
    decreases positions.len(),
{
    if positions.len() == 0 {
        0
    } else {
        sum_realised_pnl(positions.drop_last()) + positions.last().realised_pnl
    }
}

/// Running aggregate of a session's closed positions: counts, total
/// realised profit and loss, the running peak, and the deepest drawdown
/// from that peak.
#[derive(Clone, Copy, PartialEq, Debug)]
pub struct TradingSummary {
    /// When the session started, Unix milliseconds.
    pub starting_time: i64,
    /// Closed positions counted so far.
    pub trades: u64,
    /// Closed positions with positive realised profit.
    pub wins: u64,
    /// Closed positions with zero or negative realised profit.
    pub losses: u64,
    /// Sum of realised profit and loss, micro-units.
    pub total_pnl: i64,
    /// Running maximum of `total_pnl`.
    pub peak_pnl: i64,
    /// Largest observed drop of `total_pnl` below `peak_pnl`.
    pub max_drawdown: i64,
}

impl TradingSummary {
    /// Summary invariant: counts are consistent and the aggregates are
    /// bounded.
    pub open spec fn wf(self) -> bool {
        &&& self.trades == self.wins + self.losses
        &&& -RESULT_LIMIT <= self.total_pnl <= RESULT_LIMIT
        &&& 0 <= self.peak_pnl <= RESULT_LIMIT
        &&& self.total_pnl <= self.peak_pnl
        &&& 0 <= self.max_drawdown <= 2 * RESULT_LIMIT
    }

    /// A fresh summary for a session starting at the given time.
    pub fn init(_config: StatisticConfig, starting_time: i64) -> (r: TradingSummary)
        ensures
            r == TradingSummary::spec_init(starting_time),
            r.wf(),
    {
        TradingSummary {
            starting_time,
            trades: 0,
            wins: 0,
            losses: 0,
            total_pnl: 0,
            peak_pnl: 0,
            max_drawdown: 0,
        }
    }

    pub open spec fn spec_init(starting_time: i64) -> TradingSummary {
        TradingSummary {
            starting_time,
            trades: 0,
            wins: 0,
            losses: 0,
            total_pnl: 0,
            peak_pnl: 0,
            max_drawdown: 0,
        }
    }

    /// The summary after counting one more closed position: one trade,
    /// a win exactly when its realised profit is positive, the total moved
    /// by the realised profit, and peak and drawdown re-taken.
    pub open spec fn spec_update(self, position: Position) -> TradingSummary {
        let total = self.total_pnl + position.realised_pnl;
        let peak = if total > self.peak_pnl {
            total
        } else {
            self.peak_pnl as int
        };
        let drawdown = if peak - total > self.max_drawdown {
            peak - total
        } else {
            self.max_drawdown as int
        };
        TradingSummary {
            starting_time: self.starting_time,
            trades: (self.trades + 1) as u64,
            wins: if position.realised_pnl > 0 {
                (self.wins + 1) as u64
            } else {
                self.wins
            },
            losses: if position.realised_pnl > 0 {
                self.losses
            } else {
                (self.losses + 1) as u64
            },
            total_pnl: total as i64,
            peak_pnl: peak as i64,
            max_drawdown: drawdown as i64,
        }
    }

    /// Whether counting a position keeps the aggregates in bounds.
    pub open spec fn update_fits(self, position: Position) -> bool {
        &&& self.trades < u64::MAX
        &&& -RESULT_LIMIT <= self.total_pnl + position.realised_pnl <= RESULT_LIMIT
    }

    /// Count one closed position into the summary.
    pub fn update(&mut self, position: &Position)
        requires
            old(self).wf(),
            old(self).update_fits(*position),
            -PNL_LIMIT <= position.realised_pnl <= PNL_LIMIT,
        ensures
            *final(self) == old(self).spec_update(*position),
            final(self).wf(),
            final(self).total_pnl == old(self).total_pnl + position.realised_pnl,
    {
        let total = self.total_pnl + position.realised_pnl;
        let peak = if total > self.peak_pnl {
            total
        } else {
            self.peak_pnl
        };
        let drawdown = if peak - total > self.max_drawdown {
            peak - total
        } else {
            self.max_drawdown
        };
        self.trades = self.trades + 1;
        if position.realised_pnl > 0 {
            self.wins = self.wins + 1;
        } else {
            self.losses = self.losses + 1;
        }
        self.total_pnl = total;
        self.peak_pnl = peak;
        self.max_drawdown = drawdown;
    }

    /// The summary after counting a whole sequence of closed positions in
    /// order.
    pub open spec fn spec_fold(self, positions: Seq<Position>) -> TradingSummary
        decreases positions.len(),
    {
        if positions.len() == 0 {
            self
        } else {
            self.spec_fold(positions.drop_last()).spec_update(positions.last())
        }
    }

    /// Whether counting a whole sequence keeps every intermediate summary
    /// in bounds.
    pub open spec fn fold_fits(self, positions: Seq<Position>) -> bool
        decreases positions.len(),
    {
        if positions.len() == 0 {
            true
        } else {
            self.fold_fits(positions.drop_last()) && self.spec_fold(
                positions.drop_last(),
            ).update_fits(positions.last())
        }
    }

    /// Aggregate a session's exited positions into this summary.
    pub fn generate_summary(&mut self, positions: &Vec<Position>)
        requires
            old(self).wf(),
            old(self).fold_fits(positions@),
            forall|i: int|
                0 <= i < positions@.len() ==> -PNL_LIMIT <= (#[trigger] positions@[i]).realised_pnl
                    <= PNL_LIMIT,
        ensures
            *final(self) == old(self).spec_fold(positions@),
            final(self).wf(),
    {
        let n = positions.len();
        let ghost start = *self;
        for i in 0..n
            invariant
                n == positions@.len(),
                start.wf(),
                start.fold_fits(positions@),
                forall|k: int|
                    0 <= k < positions@.len() ==> -PNL_LIMIT <= (
                    #[trigger] positions@[k]).realised_pnl <= PNL_LIMIT,
                *self == start.spec_fold(positions@.take(i as int)),
                self.wf(),
        {
            proof {
                lemma_fold_fits_prefix(start, positions@, i as int);
                assert(positions@.take(i + 1).drop_last() =~= positions@.take(i as int));
                assert(positions@.take(i + 1).last() == positions@[i as int]);
            }
            self.update(&positions[i]);
        }
        proof {
            assert(positions@.take(n as int) =~= positions@);
        }
    }
}

/// If folding a whole sequence stays in bounds, so does every prefix, and
/// the fold of a prefix accepts the next element.
proof fn lemma_fold_fits_prefix(start: TradingSummary, positions: Seq<Position>, i: int)
    requires
        start.fold_fits(positions),
        0 <= i < positions.len(),
    ensures
        start.spec_fold(positions.take(i)).update_fits(positions[i]),
    decreases positions.len(),
{
    if i == positions.len() - 1 {
        assert(positions.drop_last() =~= positions.take(i));
    } else {
        lemma_fold_fits_prefix(start, positions.drop_last(), i);
        assert(positions.drop_last().take(i) =~= positions.take(i));
    }
}

} // verus!
