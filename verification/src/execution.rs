//! Execution stage: turn an order into a fill.
//!
//! In a backtest the fill is simulated at the order's candle close price; in
//! live trading the exchange reports the executed quantity and price, which
//! `Execution::generate_fill_live` converts into a fill event.

use vstd::prelude::*;

use crate::assets::{MarketMeta, Pair};
use crate::exchange::ExchangeFill;
use crate::fixed::{abs_of, scaled_div, scaled_mul, AMOUNT_LIMIT, FEES_LIMIT, SCALE};
use crate::fixed::{abs_amount, mul_scaled};
use crate::fixed::{lemma_scaled_div_of_scaled_mul_le, lemma_scaled_mul_rate_le};
use crate::strategy::Decision;
use crate::trader::TraderError;
use crate::portfolio::OrderEvent;

verus! {

/// A fee amount or rate in micro-units.
pub type FeeAmount = i64;

/// Fee schedule attached to a fill: a proportional exchange rate and a flat
/// slippage amount.
#[derive(Clone, Copy, PartialEq, Debug)]
pub struct Fees {
    /// Proportional exchange fee rate; `SCALE` is one hundred percent.
    pub exchange: FeeAmount,
    /// Flat slippage charge in micro-units.
    pub slippage: FeeAmount,
}

impl Fees {
    /// Fee schedule invariant: the rate is at most one hundred percent and
    /// the slippage is a bounded amount.
    pub open spec fn wf(self) -> bool {
        &&& 0 <= self.exchange <= SCALE
        &&& 0 <= self.slippage <= AMOUNT_LIMIT
    }

    /// Total fees on a gross value: rate times gross, plus slippage.
    pub open spec fn spec_total_fees(self, gross: int) -> int {
        scaled_mul(self.exchange as int, gross) + self.slippage
    }

    /// Compute the total fees charged on a gross fill value.
    pub fn calculate_total_fees(&self, gross: i64) -> (r: i64)
        requires
            self.wf(),
            0 <= gross <= AMOUNT_LIMIT,
        ensures
            r == self.spec_total_fees(gross as int),
            0 <= r <= FEES_LIMIT,
    {
        proof {
            lemma_scaled_mul_rate_le(self.exchange as int, gross as int);
        }
        let proportional = mul_scaled(self.exchange, gross);
        proportional + self.slippage
    }
}

impl Default for Fees {
    /// No fees.
    fn default() -> (r: Fees)
        ensures
            r.exchange == 0 && r.slippage == 0,
    {
        Fees { exchange: 0, slippage: 0 }
    }
}

/// The result of executing an order: the quantity actually traded, the
/// gross value exchanged, and the fee schedule applied.
#[derive(Clone, Copy, PartialEq, Debug)]
pub struct FillEvent {
    pub time: i64,
    pub asset: Pair,
    pub market_meta: MarketMeta,
    pub decision: Decision,
    pub quantity: i64,
    /// `|quantity| * fill_price`, excluding fees.
    pub fill_value_gross: i64,
    pub fees: Fees,
}

impl FillEvent {
    /// Fill invariant: bounded quantity and gross value, a well-formed fee
    /// schedule, and an average price within bounds.
    pub open spec fn wf(self) -> bool {
        &&& -AMOUNT_LIMIT <= self.quantity <= AMOUNT_LIMIT
        &&& 0 <= self.fill_value_gross <= AMOUNT_LIMIT
        &&& self.fees.wf()
        &&& (self.quantity != 0 ==> scaled_div(
            self.fill_value_gross as int,
            abs_of(self.quantity as int),
        ) <= AMOUNT_LIMIT)
    }

    pub fn builder() -> (r: FillEventBuilder)
        ensures
            r == FillEventBuilder::spec_new(),
    {
        FillEventBuilder::new()
    }
}

/// Accumulates the fields of a fill event; `build` succeeds once every
/// field has been supplied.
#[derive(Clone, Copy, PartialEq, Debug)]
pub struct FillEventBuilder {
    pub time: Option<i64>,
    pub asset: Option<Pair>,
    pub decision: Option<Decision>,
    pub quantity: Option<i64>,
    pub fill_value_gross: Option<i64>,
    pub fees: Option<Fees>,
    pub market_meta: Option<MarketMeta>,
}

impl FillEventBuilder {
    pub open spec fn spec_new() -> FillEventBuilder {
        FillEventBuilder {
            time: None,
            asset: None,
            decision: None,
            quantity: None,
            fill_value_gross: None,
            fees: None,
            market_meta: None,
        }
    }

    /// Every field has been supplied.
    pub open spec fn complete(self) -> bool {
        &&& self.time is Some
        &&& self.asset is Some
        &&& self.decision is Some
        &&& self.quantity is Some
        &&& self.fill_value_gross is Some
        &&& self.fees is Some
        &&& self.market_meta is Some
    }

    pub fn new() -> (r: FillEventBuilder)
        ensures
            r == FillEventBuilder::spec_new(),
    {
        FillEventBuilder {
            time: None,
            asset: None,
            decision: None,
            quantity: None,
            fill_value_gross: None,
            fees: None,
            market_meta: None,
        }
    }

    pub fn time(self, value: i64) -> (r: FillEventBuilder)
        ensures
            r == (FillEventBuilder { time: Some(value), ..self }),
    {
        FillEventBuilder { time: Some(value), ..self }
    }

    pub fn asset(self, value: Pair) -> (r: FillEventBuilder)
        ensures
            r == (FillEventBuilder { asset: Some(value), ..self }),
    {
        FillEventBuilder { asset: Some(value), ..self }
    }

    pub fn decision(self, value: Decision) -> (r: FillEventBuilder)
        ensures
            r == (FillEventBuilder { decision: Some(value), ..self }),
    {
        FillEventBuilder { decision: Some(value), ..self }
    }

    pub fn quantity(self, value: i64) -> (r: FillEventBuilder)
        ensures
            r == (FillEventBuilder { quantity: Some(value), ..self }),
    {
        FillEventBuilder { quantity: Some(value), ..self }
    }

    pub fn fill_value_gross(self, value: i64) -> (r: FillEventBuilder)
        ensures
            r == (FillEventBuilder { fill_value_gross: Some(value), ..self }),
    {
        FillEventBuilder { fill_value_gross: Some(value), ..self }
    }

    pub fn fees(self, value: Fees) -> (r: FillEventBuilder)
        ensures
            r == (FillEventBuilder { fees: Some(value), ..self }),
    {
        FillEventBuilder { fees: Some(value), ..self }
    }

    pub fn market_meta(self, value: MarketMeta) -> (r: FillEventBuilder)
        ensures
            r == (FillEventBuilder { market_meta: Some(value), ..self }),
    {
        FillEventBuilder { market_meta: Some(value), ..self }
    }

    /// Assemble the fill event. Succeeds exactly when every field was
    /// supplied, and returns the event made of those fields.
    pub fn build(self) -> (r: Result<FillEvent, TraderError>)
        ensures
            r is Ok <==> self.complete(),
            r is Err ==> r == Err::<FillEvent, TraderError>(
                TraderError::FillBuilderIncomplete(
                    if self.time is None {
                        "time"
                    } else if self.asset is None {
                        "asset"
                    } else if self.decision is None {
                        "decision"
                    } else if self.quantity is None {
                        "quantity"
                    } else if self.fill_value_gross is None {
                        "fill_value_gross"
                    } else if self.fees is None {
                        "fees"
                    } else {
                        "market_meta"
                    },
                ),
            ),
            r matches Ok(f) ==> {
                &&& Some(f.time) == self.time
                &&& Some(f.asset) == self.asset
                &&& Some(f.decision) == self.decision
                &&& Some(f.quantity) == self.quantity
                &&& Some(f.fill_value_gross) == self.fill_value_gross
                &&& Some(f.fees) == self.fees
                &&& Some(f.market_meta) == self.market_meta
            },
    {
        let time = match self.time {
            Some(v) => v,
            None => {
                return Err(TraderError::FillBuilderIncomplete("time"));
            },
        };
        let asset = match self.asset {
            Some(v) => v,
            None => {
                return Err(TraderError::FillBuilderIncomplete("asset"));
            },
        };
        let decision = match self.decision {
            Some(v) => v,
            None => {
                return Err(TraderError::FillBuilderIncomplete("decision"));
            },
        };
        let quantity = match self.quantity {
            Some(v) => v,
            None => {
                return Err(TraderError::FillBuilderIncomplete("quantity"));
            },
        };
        let fill_value_gross = match self.fill_value_gross {
            Some(v) => v,
            None => {
                return Err(TraderError::FillBuilderIncomplete("fill_value_gross"));
            },
        };
        let fees = match self.fees {
            Some(v) => v,
            None => {
                return Err(TraderError::FillBuilderIncomplete("fees"));
            },
        };
        let market_meta = match self.market_meta {
            Some(v) => v,
            None => {
                return Err(TraderError::FillBuilderIncomplete("market_meta"));
            },
        };
        Ok(FillEvent { time, asset, market_meta, decision, quantity, fill_value_gross, fees })
    }
}

/// Execution stage configuration: the exchange fee rate charged on every
/// fill.
#[derive(Clone, Copy, PartialEq, Debug)]
pub struct Execution {
    pub exchange_fee: FeeAmount,
}

impl Execution {
    /// Execution invariant: the fee rate is a valid proportional rate.
    pub open spec fn wf(self) -> bool {
        0 <= self.exchange_fee <= SCALE
    }

    pub fn new(exchange_fee: FeeAmount) -> (r: Execution)
        ensures
            r == (Execution { exchange_fee }),
    {
        Execution { exchange_fee }
    }

    /// The simulated fill of an order: executed at the candle close the
    /// order carries, stamped with the order's own time.
    pub open spec fn spec_simulated_fill(self, order: OrderEvent) -> FillEvent {
        FillEvent {
            time: order.time,
            asset: order.pair,
            market_meta: order.market_meta,
            decision: order.decision,
            quantity: order.quantity,
            fill_value_gross: scaled_mul(
                abs_of(order.quantity as int),
                order.market_meta.close as int,
            ) as i64,
            fees: Fees { exchange: self.exchange_fee, slippage: 0 },
        }
    }

    /// Simulate the fill of an order at its candle close price, as the
    /// backtest mode does.
    pub fn generate_fill(&self, order: &OrderEvent) -> (r: FillEvent)
        requires
            self.wf(),
            order.wf(),
        ensures
            r == self.spec_simulated_fill(*order),
            r.wf(),
    {
        proof {
            if order.quantity != 0 {
                lemma_scaled_div_of_scaled_mul_le(
                    abs_of(order.quantity as int),
                    order.market_meta.close as int,
                );
            }
        }
        let abs_qty = abs_amount(order.quantity);
        let gross = mul_scaled(abs_qty, order.market_meta.close);
        FillEvent {
            time: order.time,
            asset: order.pair,
            market_meta: order.market_meta,
            decision: order.decision,
            quantity: order.quantity,
            fill_value_gross: gross,
            fees: Fees { exchange: self.exchange_fee, slippage: 0 },
        }
    }

    /// The fill of an order as the exchange executed it: the exchange's
    /// quantity and weighted price, stamped with the exchange's transaction
    /// time.
    pub open spec fn spec_live_fill(self, order: OrderEvent, exchange_fill: ExchangeFill) -> FillEvent {
        FillEvent {
            time: exchange_fill.updated_at,
            asset: order.pair,
            market_meta: order.market_meta,
            decision: order.decision,
            quantity: exchange_fill.qty,
            fill_value_gross: scaled_mul(
                abs_of(exchange_fill.qty as int),
                exchange_fill.price as int,
            ) as i64,
            fees: Fees { exchange: self.exchange_fee, slippage: 0 },
        }
    }

    /// Convert an exchange execution report into a fill event. The exchange
    /// call itself happens outside the library; this takes its parsed
    /// result.
    pub fn generate_fill_live(&self, order: &OrderEvent, exchange_fill: &ExchangeFill) -> (r:
        FillEvent)
        requires
            self.wf(),
            exchange_fill.wf(),
        ensures
            r == self.spec_live_fill(*order, *exchange_fill),
            r.wf(),
    {
        proof {
            if exchange_fill.qty != 0 {
                lemma_scaled_div_of_scaled_mul_le(
                    abs_of(exchange_fill.qty as int),
                    exchange_fill.price as int,
                );
            }
        }
        let abs_qty = abs_amount(exchange_fill.qty);
        let gross = mul_scaled(abs_qty, exchange_fill.price);
        FillEvent {
            time: exchange_fill.updated_at,
            asset: order.pair,
            market_meta: order.market_meta,
            decision: order.decision,
            quantity: exchange_fill.qty,
            fill_value_gross: gross,
            fees: Fees { exchange: self.exchange_fee, slippage: 0 },
        }
    }
}

} // verus!
