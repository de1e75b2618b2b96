//! Market data model: instruments, candles, market events and the feed
//! polling protocol.

use vstd::prelude::*;

use crate::fixed::{scaled_mul, AMOUNT_LIMIT};
use crate::fixed::{div_scaled, mul_scaled};
use crate::strategy::Signal;

verus! {

/// Enumerated instrument identifier; serializes as its symbol string.
#[derive(Clone, Copy, PartialEq, Eq, Structural, Debug, Hash)]
pub enum Pair {
    BTCUSDT,
    ETHBTC,
}

impl Pair {
    /// The exchange symbol for this instrument.
    pub fn symbol(&self) -> (r: String)
        ensures
            self is BTCUSDT ==> r@ == "BTCUSDT"@,
            self is ETHBTC ==> r@ == "ETHBTC"@,
    {
        match self {
            Pair::BTCUSDT => String::from_str("BTCUSDT"),
            Pair::ETHBTC => String::from_str("ETHBTC"),
        }
    }

    /// The instrument a symbol string names, if any.
    pub open spec fn spec_of_symbol(s: Seq<char>) -> Option<Pair> {
        if s == "BTCUSDT"@ {
            Some(Pair::BTCUSDT)
        } else if s == "ETHBTC"@ {
            Some(Pair::ETHBTC)
        } else {
            None
        }
    }

    /// Parse an exchange symbol; `None` for a symbol no variant carries.
    pub fn from_symbol(s: &String) -> (r: Option<Pair>)
        ensures
            r == Pair::spec_of_symbol(s@),
    {
        proof {
            reveal_strlit("BTCUSDT");
            reveal_strlit("ETHBTC");
        }
        if s.eq(&String::from_str("BTCUSDT")) {
            Some(Pair::BTCUSDT)
        } else if s.eq(&String::from_str("ETHBTC")) {
            Some(Pair::ETHBTC)
        } else {
            None
        }
    }
}

/// Direction of an executed trade or held position.
#[derive(Clone, Copy, PartialEq, Eq, Structural, Debug, Hash)]
pub enum Side {
    Buy,
    Sell,
}

impl Side {
    /// The side string the exchange order endpoint expects.
    pub fn to_binance_side(&self) -> (r: String)
        ensures
            self is Buy ==> r@ == "BUY"@,
            self is Sell ==> r@ == "SELL"@,
    {
        match self {
            Side::Buy => String::from_str("BUY"),
            Side::Sell => String::from_str("SELL"),
        }
    }
}

/// One fixed-interval OHLCV bar. Times are Unix milliseconds; prices and
/// volume are micro-units.
#[derive(Clone, Copy, PartialEq, Debug)]
pub struct Candle {
    pub open_time: i64,
    pub close_time: i64,
    pub open: i64,
    pub high: i64,
    pub low: i64,
    pub close: i64,
    pub volume: i64,
    pub trade_count: i64,
}

impl Candle {
    /// The candle a kline frame denotes.
    pub open spec fn spec_from_kline(detail: KlineDetail) -> Candle {
        Candle {
            open_time: detail.open_time,
            close_time: detail.close_time,
            open: detail.open_price,
            high: detail.high_price,
            low: detail.low_price,
            close: detail.close_price,
            volume: detail.base_volume,
            trade_count: detail.trade_count,
        }
    }

    /// Candle invariant: times ordered, prices non-negative and bounded,
    /// low and high bracket open and close.
    pub open spec fn wf(self) -> bool {
        &&& 0 <= self.open_time < self.close_time
        &&& 0 <= self.low <= self.open <= self.high <= AMOUNT_LIMIT
        &&& self.low <= self.close <= self.high
        &&& 0 <= self.volume <= AMOUNT_LIMIT
        &&& 0 <= self.trade_count
    }

    /// Runtime check of the candle invariant, for callers that receive
    /// candles from outside the library.
    pub fn is_wf(&self) -> (r: bool)
        ensures
            r == self.wf(),
    {
        0 <= self.open_time && self.open_time < self.close_time && 0 <= self.low
            && self.low <= self.open && self.open <= self.high && self.high <= AMOUNT_LIMIT
            && self.low <= self.close && self.close <= self.high && 0 <= self.volume
            && self.volume <= AMOUNT_LIMIT && 0 <= self.trade_count
    }
}

/// Closing price and time of the candle a signal or order was derived from.
#[derive(Clone, Copy, PartialEq, Debug)]
pub struct MarketMeta {
    /// Close price in micro-units.
    pub close: i64,
    /// Time of the originating candle, Unix milliseconds.
    pub time: i64,
}

/// One price level of an order book.
#[derive(Clone, Copy, PartialEq, Debug)]
pub struct Level {
    pub price: i64,
    pub amount: i64,
}

/// Best bid and ask of an order book.
#[derive(Clone, Copy, PartialEq, Debug)]
pub struct OrderBookL1 {
    pub last_update_time: i64,
    pub best_bid: Level,
    pub best_ask: Level,
}

impl OrderBookL1 {
    /// Arithmetic midpoint of best bid and best ask.
    pub fn mid_price(&self) -> (r: i64)
        requires
            0 <= self.best_bid.price <= AMOUNT_LIMIT,
            0 <= self.best_ask.price <= AMOUNT_LIMIT,
        ensures
            r == (self.best_bid.price + self.best_ask.price) / 2,
    {
        (self.best_bid.price + self.best_ask.price) / 2
    }

    /// Midpoint weighted by the amount resting at each side.
    pub fn volume_weighted_mid_price(&self) -> (r: i64)
        requires
            0 <= self.best_bid.price <= AMOUNT_LIMIT,
            0 <= self.best_ask.price <= AMOUNT_LIMIT,
            0 <= self.best_bid.amount <= AMOUNT_LIMIT,
            0 <= self.best_ask.amount <= AMOUNT_LIMIT,
            0 < self.best_bid.amount + self.best_ask.amount <= AMOUNT_LIMIT,
            scaled_mul(self.best_bid.price as int, self.best_bid.amount as int) + scaled_mul(
                self.best_ask.price as int,
                self.best_ask.amount as int,
            ) <= AMOUNT_LIMIT,
        ensures
            r == crate::fixed::scaled_div(
                scaled_mul(self.best_bid.price as int, self.best_bid.amount as int) + scaled_mul(
                    self.best_ask.price as int,
                    self.best_ask.amount as int,
                ),
                self.best_bid.amount + self.best_ask.amount,
            ),
    {
        let bid_value = mul_scaled(self.best_bid.price, self.best_bid.amount);
        let ask_value = mul_scaled(self.best_ask.price, self.best_ask.amount);
        div_scaled(bid_value + ask_value, self.best_bid.amount + self.best_ask.amount)
    }
}

/// A public trade print.
#[derive(PartialEq, Debug)]
pub struct PublicTrade {
    pub id: String,
    pub price: i64,
    pub amount: i64,
    pub side: Side,
}

/// A forced liquidation print.
#[derive(Clone, Copy, PartialEq, Debug)]
pub struct Liquidation {
    pub side: Side,
    pub price: i64,
    pub quantity: i64,
    pub time: i64,
}

/// Payload of a market event. Only `Candle` and `BacktestCandle` drive the
/// pipeline; the other kinds are reserved.
#[derive(PartialEq, Debug)]
pub enum MarketEventDetail {
    Trade(PublicTrade),
    OrderBookL1(OrderBookL1),
    Candle(Candle),
    /// A replayed candle together with the signal precomputed for it.
    BacktestCandle(Candle, Option<Signal>),
}

impl MarketEventDetail {
    /// Every price and amount the payload carries is non-negative and
    /// bounded.
    pub open spec fn wf(self) -> bool {
        match self {
            MarketEventDetail::Candle(c) => c.wf(),
            MarketEventDetail::BacktestCandle(c, _) => c.wf(),
            MarketEventDetail::Trade(t) => 0 <= t.price <= AMOUNT_LIMIT && 0 <= t.amount
                <= AMOUNT_LIMIT,
            MarketEventDetail::OrderBookL1(b) => {
                &&& 0 <= b.best_bid.price <= AMOUNT_LIMIT
                &&& 0 <= b.best_ask.price <= AMOUNT_LIMIT
                &&& 0 <= b.best_bid.amount <= AMOUNT_LIMIT
                &&& 0 <= b.best_ask.amount <= AMOUNT_LIMIT
            },
        }
    }
}

/// One item of the unified market event sequence for a single instrument.
#[derive(PartialEq, Debug)]
pub struct MarketEvent {
    pub time: i64,
    pub pair: Pair,
    pub detail: MarketEventDetail,
}

impl MarketEvent {
    /// Event invariant: a non-negative timestamp and a bounded payload.
    pub open spec fn wf(self) -> bool {
        0 <= self.time && self.detail.wf()
    }
}

/// Result of one non-blocking poll of a market feed. `Empty` is a
/// cooperative yield signal, not end-of-stream; `Finished` means the
/// producer closed; `Unhealthy` means the feed was never started.
#[derive(PartialEq, Debug)]
pub enum Feed {
    Next(MarketEvent),
    Empty,
    Unhealthy,
    Finished,
}

/// One kline frame of the exchange's websocket stream, parsed to plain
/// values: times in Unix milliseconds, prices and volumes in micro-units.
/// The frame decoding itself happens outside the library.
#[derive(Clone, Copy, PartialEq, Debug)]
pub struct KlineDetail {
    pub open_time: i64,
    pub close_time: i64,
    pub open_price: i64,
    pub close_price: i64,
    pub high_price: i64,
    pub low_price: i64,
    pub base_volume: i64,
    pub trade_count: i64,
    pub is_closed: bool,
}

/// A kline stream event: the event time, the instrument symbol and the
/// frame.
#[derive(Clone, PartialEq, Debug)]
pub struct KlineEvent {
    pub event_time: i64,
    pub symbol: String,
    pub detail: KlineDetail,
}

impl Candle {
    /// The candle a kline frame denotes, field for field.
    pub fn from_kline(detail: &KlineDetail) -> (r: Candle)
        ensures
            r == (Candle {
                open_time: detail.open_time,
                close_time: detail.close_time,
                open: detail.open_price,
                high: detail.high_price,
                low: detail.low_price,
                close: detail.close_price,
                volume: detail.base_volume,
                trade_count: detail.trade_count,
            }),
    {
        Candle {
            open_time: detail.open_time,
            close_time: detail.close_time,
            open: detail.open_price,
            high: detail.high_price,
            low: detail.low_price,
            close: detail.close_price,
            volume: detail.base_volume,
            trade_count: detail.trade_count,
        }
    }
}

/// The market event a kline stream frame denotes, for the pair its symbol
/// names; `None` when no instrument carries the symbol.
pub fn kline_to_market_event(event: &KlineEvent) -> (r: Option<MarketEvent>)
    ensures
        match Pair::spec_of_symbol(event.symbol@) {
            Some(pair) => r == Some(
                MarketEvent {
                    time: event.event_time,
                    pair,
                    detail: MarketEventDetail::Candle(Candle::spec_from_kline(event.detail)),
                },
            ),
            None => r is None,
        },
{
    let pair = match Pair::from_symbol(&event.symbol) {
        Some(p) => p,
        None => {
            return None;
        },
    };
    Some(
        MarketEvent {
            time: event.event_time,
            pair,
            detail: MarketEventDetail::Candle(Candle::from_kline(&event.detail)),
        },
    )
}

/// The suffix a backtest keeps: the last `last_n` stored candles, or all
/// of them when fewer are stored.
pub fn trim_to_last_n(candles: &Vec<Candle>, last_n: usize) -> (r: Vec<Candle>)
    ensures
        r@ == candles@.skip(
            if candles@.len() <= last_n {
                0
            } else {
                candles@.len() - last_n
            },
        ),
{
    let len = candles.len();
    let start = if len <= last_n {
        0
    } else {
        len - last_n
    };
    let mut out: Vec<Candle> = Vec::new();
    for i in start..len
        invariant
            len == candles@.len(),
            start <= len,
            out@ == candles@.subrange(start as int, i as int),
    {
        proof {
            assert(candles@.subrange(start as int, i + 1) =~= candles@.subrange(
                start as int,
                i as int,
            ).push(candles@[i as int]));
        }
        out.push(candles[i]);
    }
    proof {
        assert(candles@.subrange(start as int, len as int) =~= candles@.skip(start as int));
    }
    out
}

/// Assemble the backtest feed: one market event per candle after the
/// model's warm-up prefix, each carrying its own precomputed signal and
/// stamped with its close time.
pub fn build_backtest_events(
    candles: &Vec<Candle>,
    signals: &Vec<Option<Signal>>,
    pair: Pair,
    buffer_n_of_candles: usize,
) -> (r: Vec<MarketEvent>)
    requires
        candles@.len() == signals@.len(),
    ensures
        r@.len() == if candles@.len() <= buffer_n_of_candles {
            0int
        } else {
            candles@.len() - buffer_n_of_candles
        },
        forall|i: int|
            0 <= i < r@.len() ==> #[trigger] r@[i] == (MarketEvent {
                time: candles@[buffer_n_of_candles + i].close_time,
                pair,
                detail: MarketEventDetail::BacktestCandle(
                    candles@[buffer_n_of_candles + i],
                    signals@[buffer_n_of_candles + i],
                ),
            }),
{
    let len = candles.len();
    let start = if len <= buffer_n_of_candles {
        len
    } else {
        buffer_n_of_candles
    };
    let mut out: Vec<MarketEvent> = Vec::new();
    for i in start..len
        invariant
            len == candles@.len(),
            candles@.len() == signals@.len(),
            start <= len,
            start == if candles@.len() <= buffer_n_of_candles {
                candles@.len() as int
            } else {
                buffer_n_of_candles as int
            },
            out@.len() == i - start,
            forall|k: int|
                0 <= k < out@.len() ==> #[trigger] out@[k] == (MarketEvent {
                    time: candles@[start + k].close_time,
                    pair,
                    detail: MarketEventDetail::BacktestCandle(
                        candles@[start + k],
                        signals@[start + k],
                    ),
                }),
    {
        out.push(
            MarketEvent {
                time: candles[i].close_time,
                pair,
                detail: MarketEventDetail::BacktestCandle(candles[i], signals[i]),
            },
        );
    }
    out
}

impl Clone for PublicTrade {
    /// An exact copy.
    fn clone(&self) -> (res: Self)
        ensures
            res == *self,
    {
        PublicTrade { id: self.id.clone(), price: self.price, amount: self.amount, side: self.side }
    }
}

impl Clone for MarketEventDetail {
    /// An exact copy.
    fn clone(&self) -> (res: Self)
        ensures
            res == *self,
    {
        match self {
            MarketEventDetail::Trade(t) => MarketEventDetail::Trade(t.clone()),
            MarketEventDetail::OrderBookL1(b) => MarketEventDetail::OrderBookL1(*b),
            MarketEventDetail::Candle(c) => MarketEventDetail::Candle(*c),
            MarketEventDetail::BacktestCandle(c, sig) => MarketEventDetail::BacktestCandle(
                *c,
                *sig,
            ),
        }
    }
}

impl Clone for MarketEvent {
    /// An exact copy.
    fn clone(&self) -> (res: Self)
        ensures
            res == *self,
    {
        MarketEvent { time: self.time, pair: self.pair, detail: self.detail.clone() }
    }
}

impl Clone for Feed {
    /// An exact copy.
    fn clone(&self) -> (res: Self)
        ensures
            res == *self,
    {
        match self {
            Feed::Next(event) => Feed::Next(event.clone()),
            Feed::Empty => Feed::Empty,
            Feed::Unhealthy => Feed::Unhealthy,
            Feed::Finished => Feed::Finished,
        }
    }
}

} // verus!
