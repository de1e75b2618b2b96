//! Positions: the record of one instrument's exposure from entry fill to
//! exit fill.

use vstd::prelude::*;

use crate::assets::{MarketEvent, MarketEventDetail, Pair, Side};
use crate::execution::FillEvent;
use crate::fixed::{abs_of, scaled_div, scaled_mul, scaled_mul_signed};
use crate::fixed::{abs_amount, div_scaled, mul_scaled, mul_scaled_signed};
use crate::fixed::{AMOUNT_LIMIT, FEES_LIMIT, PNL_LIMIT, RESULT_LIMIT};
use crate::portfolio::PortfolioError;
use crate::strategy::Decision;

verus! {

/// Key of an open position: one session holds at most one open position per
/// instrument, so the session id and the instrument identify it.
#[derive(Clone, Copy, PartialEq, Eq, Structural, Debug, Hash)]
pub struct PositionId {
    pub core_id: u128,
    pub pair: Pair,
}

/// The key under which a session's open position on an instrument is stored.
pub fn determine_position_id(core_id: u128, pair: Pair) -> (r: PositionId)
    ensures
        r == (PositionId { core_id, pair }),
{
    PositionId { core_id, pair }
}

/// Key of the list of positions a session has exited.
#[derive(Clone, Copy, PartialEq, Eq, Structural, Debug, Hash)]
pub struct ExitedPositionsId {
    pub core_id: u128,
}

/// The key under which a session's exited positions are stored.
pub fn determine_exited_positions_id(core_id: u128) -> (r: ExitedPositionsId)
    ensures
        r == (ExitedPositionsId { core_id }),
{
    ExitedPositionsId { core_id }
}

/// `determine_position_id` maps distinct inputs to distinct keys.
pub proof fn lemma_position_id_injective(a_core: u128, a_pair: Pair, b_core: u128, b_pair: Pair)
    ensures
        (PositionId { core_id: a_core, pair: a_pair }) == (PositionId {
            core_id: b_core,
            pair: b_pair,
        }) ==> a_core == b_core && a_pair == b_pair,
{
}

/// `determine_exited_positions_id` maps distinct inputs to distinct keys.
pub proof fn lemma_exited_positions_id_injective(a_core: u128, b_core: u128)
    ensures
        (ExitedPositionsId { core_id: a_core }) == (ExitedPositionsId { core_id: b_core })
            ==> a_core == b_core,
{
}

/// Bookkeeping attached to a position.
#[derive(Clone, Copy, PartialEq, Debug)]
pub struct PositionMeta {
    /// Time of the last market, fill or exit update applied, Unix
    /// milliseconds.
    pub update_time: i64,
}

/// Exposure on one instrument from entry fill to exit fill. Monetary fields
/// are micro-units; `quantity` is signed (positive for a Long entry).
#[derive(Clone, Copy, PartialEq, Debug)]
pub struct Position {
    pub position_id: PositionId,
    pub core_id: u128,
    pub asset: Pair,
    /// `Buy` when entered Long, `Sell` when entered Short.
    pub side: Side,
    pub quantity: i64,
    pub enter_time: i64,
    pub enter_fees_total: i64,
    pub enter_value_gross: i64,
    pub enter_avg_price_gross: i64,
    pub current_symbol_price: i64,
    pub current_value_gross: i64,
    pub unrealised_pnl: i64,
    pub realised_pnl: i64,
    pub exit_fees_total: Option<i64>,
    pub exit_value_gross: Option<i64>,
    pub exit_avg_price_gross: Option<i64>,
    pub exit_time: Option<i64>,
    pub meta: PositionMeta,
}

impl Position {
    /// Position invariant: the key matches the fields, the quantity is a
    /// non-zero bounded amount, monetary fields are bounded, and the exit
    /// fields are set together.
    pub open spec fn wf(self) -> bool {
        &&& self.position_id == (PositionId { core_id: self.core_id, pair: self.asset })
        &&& self.quantity != 0
        &&& -AMOUNT_LIMIT <= self.quantity <= AMOUNT_LIMIT
        &&& 0 <= self.enter_fees_total <= FEES_LIMIT
        &&& 0 <= self.enter_value_gross <= AMOUNT_LIMIT
        &&& 0 <= self.enter_avg_price_gross <= AMOUNT_LIMIT
        &&& 0 <= self.current_symbol_price <= AMOUNT_LIMIT
        &&& 0 <= self.current_value_gross <= RESULT_LIMIT
        &&& -PNL_LIMIT <= self.unrealised_pnl <= PNL_LIMIT
        &&& -PNL_LIMIT <= self.realised_pnl <= PNL_LIMIT
        &&& (self.exit_time is Some <==> self.exit_fees_total is Some)
        &&& (self.exit_time is Some <==> self.exit_value_gross is Some)
        &&& (self.exit_time is Some <==> self.exit_avg_price_gross is Some)
        &&& (self.exit_fees_total matches Some(f) ==> 0 <= f <= FEES_LIMIT)
        &&& (self.exit_value_gross matches Some(v) ==> 0 <= v <= AMOUNT_LIMIT)
        &&& (self.exit_avg_price_gross matches Some(p) ==> 0 <= p <= AMOUNT_LIMIT)
    }

    /// A position is closed once its exit fields are set.
    pub open spec fn is_closed(self) -> bool {
        self.exit_time is Some
    }

    /// +1 for a Long position, -1 for a Short one: the direction in which
    /// price movement is profit.
    pub open spec fn sign(self) -> int {
        if self.side is Buy {
            1int
        } else {
            -1int
        }
    }

    /// The decision that closes this position.
    pub open spec fn spec_exit_decision(self) -> Decision {
        if self.side is Buy {
            Decision::CloseLong
        } else {
            Decision::CloseShort
        }
    }

    /// The decision that closes this position: `CloseLong` for a position
    /// entered Long, `CloseShort` for one entered Short.
    pub fn determine_exit_decision(&self) -> (r: Decision)
        ensures
            r == self.spec_exit_decision(),
    {
        match self.side {
            Side::Buy => Decision::CloseLong,
            Side::Sell => Decision::CloseShort,
        }
    }

    /// The position an entry fill opens.
    pub open spec fn spec_enter(core_id: u128, fill: FillEvent) -> Position {
        let enter_avg = scaled_div(fill.fill_value_gross as int, abs_of(fill.quantity as int));
        let fees = fill.fees.spec_total_fees(fill.fill_value_gross as int);
        Position {
            position_id: PositionId { core_id, pair: fill.asset },
            core_id,
            asset: fill.asset,
            side: if fill.decision is Long {
                Side::Buy
            } else {
                Side::Sell
            },
            quantity: fill.quantity,
            enter_time: fill.time,
            enter_fees_total: fees as i64,
            enter_value_gross: fill.fill_value_gross,
            enter_avg_price_gross: enter_avg as i64,
            current_symbol_price: enter_avg as i64,
            current_value_gross: fill.fill_value_gross as i64,
            unrealised_pnl: (-2 * fees) as i64,
            realised_pnl: 0,
            exit_fees_total: None,
            exit_value_gross: None,
            exit_avg_price_gross: None,
            exit_time: None,
            meta: PositionMeta { update_time: fill.time },
        }
    }

    /// Open a position from an entry fill. Succeeds exactly when the fill's
    /// decision is an entry and its quantity is not zero.
    pub fn enter(core_id: u128, fill: &FillEvent) -> (r: Result<Position, PortfolioError>)
        requires
            fill.wf(),
        ensures
            r is Ok <==> fill.decision.spec_is_entry() && fill.quantity != 0,
            r is Err ==> r == Err::<Position, PortfolioError>(
                PortfolioError::CannotEnterPositionWithExitFill,
            ),
            r matches Ok(p) ==> p == Position::spec_enter(core_id, *fill) && p.wf()
                && !p.is_closed(),
    {
        if !fill.decision.is_entry() || fill.quantity == 0 {
            return Err(PortfolioError::CannotEnterPositionWithExitFill);
        }
        let abs_qty = abs_amount(fill.quantity);
        let enter_avg = div_scaled(fill.fill_value_gross, abs_qty);
        let fees = fill.fees.calculate_total_fees(fill.fill_value_gross);
        let side = if fill.decision.is_long() {
            Side::Buy
        } else {
            Side::Sell
        };
        Ok(
            Position {
                position_id: determine_position_id(core_id, fill.asset),
                core_id,
                asset: fill.asset,
                side,
                quantity: fill.quantity,
                enter_time: fill.time,
                enter_fees_total: fees,
                enter_value_gross: fill.fill_value_gross,
                enter_avg_price_gross: enter_avg,
                current_symbol_price: enter_avg,
                current_value_gross: fill.fill_value_gross,
                unrealised_pnl: -2 * fees,
                realised_pnl: 0,
                exit_fees_total: None,
                exit_value_gross: None,
                exit_avg_price_gross: None,
                exit_time: None,
                meta: PositionMeta { update_time: fill.time },
            },
        )
    }

    /// The realised profit of closing at `exit_avg` with `exit_fees`:
    /// sign x (exit average - enter average) x |quantity| minus both fee
    /// totals.
    pub open spec fn spec_realised_pnl(self, exit_avg: int, exit_fees: int) -> int {
        self.sign() * scaled_mul_signed(
            exit_avg - self.enter_avg_price_gross,
            abs_of(self.quantity as int),
        ) - self.enter_fees_total - exit_fees
    }

    /// The position as it stands after being closed by an exit fill.
    pub open spec fn spec_exit(self, fill: FillEvent) -> Position {
        let exit_avg = scaled_div(fill.fill_value_gross as int, abs_of(fill.quantity as int));
        let exit_fees = fill.fees.spec_total_fees(fill.fill_value_gross as int);
        Position {
            current_symbol_price: exit_avg as i64,
            realised_pnl: self.spec_realised_pnl(exit_avg, exit_fees) as i64,
            exit_fees_total: Some(exit_fees as i64),
            exit_value_gross: Some(fill.fill_value_gross),
            exit_avg_price_gross: Some(exit_avg as i64),
            exit_time: Some(fill.time),
            meta: PositionMeta { update_time: fill.time },
            ..self
        }
    }

    /// Close this position with an exit fill, recording exit value, fees,
    /// average price and the realised profit and loss.
    pub fn exit(&mut self, fill: &FillEvent) -> (r: Result<(), PortfolioError>)
        requires
            old(self).wf(),
            !old(self).is_closed(),
            fill.wf(),
            fill.quantity != 0,
        ensures
            r is Ok,
            *final(self) == old(self).spec_exit(*fill),
            final(self).wf(),
            final(self).is_closed(),
    {
        let abs_fill_qty = abs_amount(fill.quantity);
        let exit_value = fill.fill_value_gross;
        let exit_avg = div_scaled(exit_value, abs_fill_qty);
        let exit_fees = fill.fees.calculate_total_fees(exit_value);
        let abs_qty = abs_amount(self.quantity);
        let diff = exit_avg - self.enter_avg_price_gross;
        let moved = mul_scaled_signed(diff, abs_qty);
        let signed_move = if matches!(self.side, Side::Buy) {
            moved
        } else {
            -moved
        };
        let realised = signed_move - self.enter_fees_total - exit_fees;
        self.current_symbol_price = exit_avg;
        self.realised_pnl = realised;
        self.exit_fees_total = Some(exit_fees);
        self.exit_value_gross = Some(exit_value);
        self.exit_avg_price_gross = Some(exit_avg);
        self.exit_time = Some(fill.time);
        self.meta = PositionMeta { update_time: fill.time };
        Ok(())
    }

    /// What a market update reports about an open position's change.
    pub open spec fn spec_update_result(self, market: MarketEvent) -> Option<(
        Position,
        PositionUpdate,
    )> {
        match market.detail {
            MarketEventDetail::Candle(candle) => Some(self.spec_apply_price(candle.close as int, market.time)),
            MarketEventDetail::BacktestCandle(candle, _) => Some(
                self.spec_apply_price(candle.close as int, market.time),
            ),
            _ => None,
        }
    }

    /// The position and the update event after marking at a new close price.
    pub open spec fn spec_apply_price(self, close: int, time: i64) -> (Position, PositionUpdate) {
        let value = scaled_mul(close, abs_of(self.quantity as int));
        let unrealised = self.sign() * (value - self.enter_value_gross) - 2 * self.enter_fees_total;
        let updated = Position {
            current_symbol_price: close as i64,
            current_value_gross: value as i64,
            unrealised_pnl: unrealised as i64,
            meta: PositionMeta { update_time: time },
            ..self
        };
        let update = PositionUpdate {
            position_id: self.position_id,
            update_time: time,
            current_symbol_price: close as i64,
            current_value_gross: value as i64,
            unrealised_pnl: unrealised as i64,
        };
        (updated, update)
    }

    /// Mark the position at the close price a market event carries;
    /// `None` when the event carries no candle, leaving the position as it
    /// was.
    pub fn update(&mut self, market: &MarketEvent) -> (r: Option<PositionUpdate>)
        requires
            old(self).wf(),
            market.wf(),
        ensures
            final(self).wf(),
            match old(self).spec_update_result(*market) {
                Some((p, u)) => *final(self) == p && r == Some(u),
                None => *final(self) == *old(self) && r is None,
            },
    {
        let close: i64 = match &market.detail {
            MarketEventDetail::Candle(candle) => candle.close,
            MarketEventDetail::BacktestCandle(candle, _) => candle.close,
            _ => {
                return None;
            },
        };
        let abs_qty = abs_amount(self.quantity);
        let value = mul_scaled(close, abs_qty);
        let gain = value - self.enter_value_gross;
        let signed_gain = if matches!(self.side, Side::Buy) {
            gain
        } else {
            -gain
        };
        let unrealised = signed_gain - 2 * self.enter_fees_total;
        self.current_symbol_price = close;
        self.current_value_gross = value;
        self.unrealised_pnl = unrealised;
        self.meta = PositionMeta { update_time: market.time };
        Some(
            PositionUpdate {
                position_id: self.position_id,
                update_time: market.time,
                current_symbol_price: close,
                current_value_gross: value,
                unrealised_pnl: unrealised,
            },
        )
    }
}

/// The delta a market update made to an open position.
#[derive(Clone, Copy, PartialEq, Debug)]
pub struct PositionUpdate {
    pub position_id: PositionId,
    pub update_time: i64,
    pub current_symbol_price: i64,
    pub current_value_gross: i64,
    pub unrealised_pnl: i64,
}

} // verus!
