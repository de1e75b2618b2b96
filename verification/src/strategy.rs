//! Strategy stage: map market events to optional signals.
//!
//! The external model adapter labels a candle `buy`, `sell` or `hold`; the
//! strategy turns that label into a signal map. For backtest events the
//! signal was precomputed and is returned verbatim. The adapter itself is an
//! external collaborator: callers hand its reply in as a [`ModelLabel`].

use vstd::prelude::*;

use crate::assets::{Candle, MarketEvent, MarketEventDetail, MarketMeta, Pair};
use crate::fixed::SCALE;

verus! {

/// Trading decision a signal can recommend.
#[derive(Clone, Copy, PartialEq, Eq, Structural, Debug, Hash)]
pub enum Decision {
    Long,
    CloseLong,
    Short,
    CloseShort,
}

impl Decision {
    pub open spec fn spec_is_long(self) -> bool {
        self is Long
    }

    pub open spec fn spec_is_short(self) -> bool {
        self is Short
    }

    pub open spec fn spec_is_entry(self) -> bool {
        self is Long || self is Short
    }

    pub open spec fn spec_is_exit(self) -> bool {
        self is CloseLong || self is CloseShort
    }

    pub fn is_long(&self) -> (r: bool)
        ensures
            r == self.spec_is_long(),
    {
        matches!(self, Decision::Long)
    }

    pub fn is_short(&self) -> (r: bool)
        ensures
            r == self.spec_is_short(),
    {
        matches!(self, Decision::Short)
    }

    pub fn is_entry(&self) -> (r: bool)
        ensures
            r == self.spec_is_entry(),
    {
        matches!(self, Decision::Long | Decision::Short)
    }

    pub fn is_exit(&self) -> (r: bool)
        ensures
            r == self.spec_is_exit(),
    {
        matches!(self, Decision::CloseLong | Decision::CloseShort)
    }
}

/// Strength of a recommendation, in micro-units of the interval [0, 1];
/// `SCALE` is full strength.
#[derive(Clone, Copy, PartialEq, Eq, Structural, Debug)]
pub struct SignalStrength(pub i64);

/// A finite mapping from decisions to strengths, with at most one entry per
/// decision.
#[derive(Clone, Copy, PartialEq, Debug)]
pub struct SignalMap {
    pub long: Option<SignalStrength>,
    pub close_long: Option<SignalStrength>,
    pub short: Option<SignalStrength>,
    pub close_short: Option<SignalStrength>,
}

impl SignalMap {
    /// The entry recorded for a decision.
    pub open spec fn spec_get(self, d: Decision) -> Option<SignalStrength> {
        match d {
            Decision::Long => self.long,
            Decision::CloseLong => self.close_long,
            Decision::Short => self.short,
            Decision::CloseShort => self.close_short,
        }
    }

    pub open spec fn spec_is_empty(self) -> bool {
        self.long is None && self.close_long is None && self.short is None
            && self.close_short is None
    }

    /// The map with no entries.
    pub fn empty() -> (r: SignalMap)
        ensures
            r.spec_is_empty(),
            forall|d: Decision| r.spec_get(d) is None,
    {
        SignalMap { long: None, close_long: None, short: None, close_short: None }
    }

    pub fn get(&self, d: Decision) -> (r: Option<SignalStrength>)
        ensures
            r == self.spec_get(d),
    {
        match d {
            Decision::Long => self.long,
            Decision::CloseLong => self.close_long,
            Decision::Short => self.short,
            Decision::CloseShort => self.close_short,
        }
    }

    pub fn is_empty(&self) -> (r: bool)
        ensures
            r == self.spec_is_empty(),
    {
        self.long.is_none() && self.close_long.is_none() && self.short.is_none()
            && self.close_short.is_none()
    }
}

/// Reply of the external model adapter for one candle.
#[derive(Clone, Copy, PartialEq, Eq, Structural, Debug)]
pub enum ModelLabel {
    Buy,
    Sell,
    Hold,
}

/// Parse the adapter's reply string; anything but `buy` or `sell` counts as
/// `hold`.
pub fn parse_model_label(model_output: &String) -> (r: ModelLabel)
    ensures
        model_output@ == "buy"@ ==> r == ModelLabel::Buy,
        model_output@ == "sell"@ ==> r == ModelLabel::Sell,
        model_output@ != "buy"@ && model_output@ != "sell"@ ==> r == ModelLabel::Hold,
{
    proof {
        reveal_strlit("buy");
        reveal_strlit("sell");
        assert("buy"@.len() == 3);
        assert("sell"@.len() == 4);
    }
    if model_output.eq(&String::from_str("buy")) {
        ModelLabel::Buy
    } else if model_output.eq(&String::from_str("sell")) {
        ModelLabel::Sell
    } else {
        ModelLabel::Hold
    }
}

/// The signal map a model label denotes: `buy` recommends entering Long at
/// full strength, `sell` recommends closing a Long at full strength, `hold`
/// recommends nothing.
pub open spec fn signals_of_label(label: ModelLabel) -> SignalMap {
    match label {
        ModelLabel::Buy => SignalMap {
            long: Some(SignalStrength(SCALE)),
            close_long: None,
            short: None,
            close_short: None,
        },
        ModelLabel::Sell => SignalMap {
            long: None,
            close_long: Some(SignalStrength(SCALE)),
            short: None,
            close_short: None,
        },
        ModelLabel::Hold => SignalMap { long: None, close_long: None, short: None, close_short: None },
    }
}

/// Build the signal map for a model label.
pub fn generate_signals_map(label: ModelLabel) -> (r: SignalMap)
    ensures
        r == signals_of_label(label),
{
    match label {
        ModelLabel::Buy => SignalMap {
            long: Some(SignalStrength(SCALE)),
            close_long: None,
            short: None,
            close_short: None,
        },
        ModelLabel::Sell => SignalMap {
            long: None,
            close_long: Some(SignalStrength(SCALE)),
            short: None,
            close_short: None,
        },
        ModelLabel::Hold => SignalMap { long: None, close_long: None, short: None, close_short: None },
    }
}

/// The strategy's recommendation derived from one market event.
#[derive(Clone, Copy, PartialEq, Debug)]
pub struct Signal {
    pub time: i64,
    pub pair: Pair,
    pub market_meta: MarketMeta,
    pub signals: SignalMap,
}

impl SignalMap {
    /// Every recorded strength lies in the unit interval.
    pub open spec fn strengths_wf(self) -> bool {
        &&& (self.long matches Some(s) ==> 0 <= s.0 <= SCALE)
        &&& (self.close_long matches Some(s) ==> 0 <= s.0 <= SCALE)
        &&& (self.short matches Some(s) ==> 0 <= s.0 <= SCALE)
        &&& (self.close_short matches Some(s) ==> 0 <= s.0 <= SCALE)
    }
}

impl Signal {
    /// Signal invariant: a positive bounded close price and strengths in
    /// the unit interval.
    pub open spec fn wf(self) -> bool {
        &&& 0 < self.market_meta.close <= crate::fixed::AMOUNT_LIMIT
        &&& self.signals.strengths_wf()
    }
}

/// Per-instrument strategy: holds the instrument and the name of the model
/// the adapter should run.
#[derive(Clone, PartialEq, Debug)]
pub struct Strategy {
    pub pair: Pair,
    pub model_name: String,
}

/// What `generate_signal` returns for an event, given the adapter's label
/// for a live candle and the current time.
pub open spec fn spec_generate_signal(
    pair: Pair,
    event: MarketEvent,
    label: ModelLabel,
    time_now: i64,
) -> Option<Signal> {
    match event.detail {
        MarketEventDetail::BacktestCandle(_, precomputed) => precomputed,
        MarketEventDetail::Candle(candle) => {
            let signals = signals_of_label(label);
            if signals.spec_is_empty() {
                None
            } else {
                Some(
                    Signal {
                        time: time_now,
                        pair,
                        market_meta: MarketMeta { close: candle.close, time: time_now },
                        signals,
                    },
                )
            }
        },
        _ => None,
    }
}

impl Strategy {
    pub fn new(pair: Pair, model_name: String) -> (r: Strategy)
        ensures
            r.pair == pair,
            r.model_name == model_name,
    {
        Strategy { pair, model_name }
    }

    /// Map a market event to an optional signal. A backtest candle carries
    /// its precomputed signal and returns it verbatim; a live candle is
    /// judged by the model adapter, whose label the caller supplies along
    /// with the current time; any other event yields nothing.
    pub fn generate_signal(
        &self,
        market_event: &MarketEvent,
        model_output: ModelLabel,
        time_now: i64,
    ) -> (r: Option<Signal>)
        ensures
            r == spec_generate_signal(self.pair, *market_event, model_output, time_now),
    {
        match &market_event.detail {
            MarketEventDetail::BacktestCandle(_, precomputed) => *precomputed,
            MarketEventDetail::Candle(candle) => {
                let signals = generate_signals_map(model_output);
                if signals.is_empty() {
                    None
                } else {
                    Some(
                        Signal {
                            time: time_now,
                            pair: self.pair,
                            market_meta: MarketMeta { close: candle.close, time: time_now },
                            signals,
                        },
                    )
                }
            },
            _ => None,
        }
    }
}

/// The label recorded for a given candle open time: the first entry of the
/// model's batch output whose time matches, `Hold` when none does.
pub open spec fn label_at(outputs: Seq<(ModelLabel, i64)>, open_time: i64) -> ModelLabel
    decreases outputs.len(),
{
    if outputs.len() == 0 {
        ModelLabel::Hold
    } else if outputs[0].1 == open_time {
        outputs[0].0
    } else {
        label_at(outputs.drop_first(), open_time)
    }
}

proof fn lemma_label_at_skip(outputs: Seq<(ModelLabel, i64)>, open_time: i64, j: int)
    requires
        0 <= j <= outputs.len(),
        forall|k: int| 0 <= k < j ==> (#[trigger] outputs[k]).1 != open_time,
    ensures
        label_at(outputs, open_time) == label_at(outputs.skip(j), open_time),
    decreases j,
{
    if j > 0 {
        assert(outputs.skip(1) =~= outputs.drop_first());
        lemma_label_at_skip(outputs.drop_first(), open_time, j - 1);
        assert(outputs.drop_first().skip(j - 1) =~= outputs.skip(j));
    } else {
        assert(outputs.skip(0) =~= outputs);
    }
}

/// Find the model's label for a candle open time.
pub fn label_for_time(outputs: &Vec<(ModelLabel, i64)>, open_time: i64) -> (r: ModelLabel)
    ensures
        r == label_at(outputs@, open_time),
{
    let n = outputs.len();
    for j in 0..n
        invariant
            n == outputs@.len(),
            forall|k: int| 0 <= k < j ==> (#[trigger] outputs@[k]).1 != open_time,
    {
        if outputs[j].1 == open_time {
            proof {
                lemma_label_at_skip(outputs@, open_time, j as int);
                assert(outputs@.skip(j as int)[0] == outputs@[j as int]);
            }
            return outputs[j].0;
        }
    }
    proof {
        lemma_label_at_skip(outputs@, open_time, n as int);
        assert(outputs@.skip(n as int) =~= Seq::<(ModelLabel, i64)>::empty());
    }
    ModelLabel::Hold
}

/// The signal precomputed for one candle of a backtest: the model's label
/// for the candle's open time, stamped with the candle's close time and
/// close price; `None` when the label recommends nothing.
pub open spec fn spec_backtest_signal(
    candle: Candle,
    outputs: Seq<(ModelLabel, i64)>,
    pair: Pair,
) -> Option<Signal> {
    let signals = signals_of_label(label_at(outputs, candle.open_time));
    if signals.spec_is_empty() {
        None
    } else {
        Some(
            Signal {
                time: candle.close_time,
                pair,
                market_meta: MarketMeta { close: candle.close, time: candle.close_time },
                signals,
            },
        )
    }
}

/// Precompute the signal vector for a backtest in one batch: one slot per
/// candle, aligned by open time with the model's batch output.
pub fn generate_backtest_signals(
    candles: &Vec<Candle>,
    outputs: &Vec<(ModelLabel, i64)>,
    pair: Pair,
) -> (r: Vec<Option<Signal>>)
    ensures
        r@.len() == candles@.len(),
        forall|i: int|
            0 <= i < candles@.len() ==> r@[i] == spec_backtest_signal(candles@[i], outputs@, pair),
{
    let mut result: Vec<Option<Signal>> = Vec::new();
    let n = candles.len();
    for i in 0..n
        invariant
            n == candles@.len(),
            result@.len() == i,
            forall|k: int|
                0 <= k < i ==> result@[k] == spec_backtest_signal(candles@[k], outputs@, pair),
    {
        let candle = candles[i];
        let label = label_for_time(outputs, candle.open_time);
        let signals = generate_signals_map(label);
        if signals.is_empty() {
            result.push(None);
        } else {
            result.push(
                Some(
                    Signal {
                        time: candle.close_time,
                        pair,
                        market_meta: MarketMeta { close: candle.close, time: candle.close_time },
                        signals,
                    },
                ),
            );
        }
    }
    result
}

/// Identity of a generated model.
#[derive(Clone, PartialEq, Debug)]
pub struct ModelId {
    pub name: String,
    pub uuid: u128,
    pub pair: Pair,
}

/// Metadata recorded beside a generated model.
#[derive(Clone, PartialEq, Debug)]
pub struct ModelMetadata {
    /// When the model was created, Unix milliseconds.
    pub created_at: i64,
    pub pair: Pair,
    pub is_finished: bool,
    pub error: String,
    pub name: String,
    pub uuid: u128,
}

impl ModelMetadata {
    /// Metadata for a freshly generated model, under a random name and a
    /// fresh identifier. Nothing is promised of the name or the
    /// identifier; the recorded fields are exactly the arguments.
    pub fn new(created_at: i64, pair: Pair, is_finished: bool, error: String) -> (r:
        ModelMetadata)
        ensures
            r.created_at == created_at,
            r.pair == pair,
            r.is_finished == is_finished,
            r.error == error,
    {
        let name = match crate::utils::generate_petname() {
            Some(n) => n,
            None => String::new(),
        };
        let uuid = crate::utils::generate_uuid();
        ModelMetadata { created_at, pair, is_finished, error, name, uuid }
    }

    /// The identity this metadata names.
    pub fn to_model_id(&self) -> (r: ModelId)
        ensures
            r.name@ == self.name@,
            r.uuid == self.uuid,
            r.pair == self.pair,
    {
        ModelId { name: self.name.clone(), uuid: self.uuid, pair: self.pair }
    }
}

} // verus!
