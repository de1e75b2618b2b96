//! Per-instrument trader: the event loop driving Market -> Signal ->
//! Order -> Fill for one pair.

use vstd::prelude::*;

use crate::assets::{MarketEvent, Pair};
use crate::balance::BalanceId;
use crate::database::{Database, DbModel};
use crate::engine::Command;
use crate::events::{event_stage, Event};
use crate::exchange::ExchangeError;
use crate::execution::Execution;
use crate::fixed::{abs_of, scaled_mul, AMOUNT_LIMIT};
use crate::portfolio::{equity_invariant, Portfolio, PortfolioError};
use crate::position::PositionId;
use crate::strategy::{spec_generate_signal, ModelLabel, Signal, Strategy};

verus! {

/// A synthetic signal requesting immediate closure of any open position on
/// a pair.
#[derive(Clone, Copy, PartialEq, Debug)]
pub struct SignalForceExit {
    pub time: i64,
    pub asset: Pair,
}

impl SignalForceExit {
    /// Build a force-exit signal for a pair, stamped with the given time.
    pub fn from(asset: Pair, time: i64) -> (r: SignalForceExit)
        ensures
            r == (SignalForceExit { time, asset }),
    {
        SignalForceExit { time, asset }
    }
}

/// Errors of the trader layer.
#[derive(Clone, PartialEq, Debug)]
pub enum TraderError {
    /// A builder was asked to build before every field was supplied.
    BuilderIncomplete,
    /// A fill event builder was missing a field; the payload names the
    /// first missing one.
    FillBuilderIncomplete(&'static str),
    /// The portfolio could not serve an operation.
    RepositoryInteraction(PortfolioError),
    /// The exchange failed to fill an order.
    ExchangeError(ExchangeError),
}

/// The per-instrument trader: its identity, policy objects and mode. The
/// shared database is handed to each operation by the caller, which owns
/// the locking discipline.
#[derive(Clone, PartialEq, Debug)]
pub struct Trader {
    pub core_id: u128,
    pub pair: Pair,
    pub portfolio: Portfolio,
    pub strategy: Strategy,
    pub execution: Execution,
    pub trading_is_live: bool,
}

/// What a trader does with one remote command.
#[derive(Clone, Copy, PartialEq, Debug)]
pub enum CommandOutcome {
    /// Break out of the event loop.
    Terminate,
    /// Enqueue a force-exit signal for a pair.
    ForceExit(SignalForceExit),
    /// Nothing; the command is not addressed to a trader.
    Ignore,
}

impl Trader {
    /// Trader invariant: its policy objects are well-formed and the
    /// strategy serves this trader's instrument.
    pub open spec fn wf(self) -> bool {
        &&& self.portfolio.wf()
        &&& self.execution.wf()
        &&& self.strategy.pair == self.pair
    }

    pub fn builder() -> (r: TraderBuilder)
        ensures
            r == TraderBuilder::spec_new(),
    {
        TraderBuilder::new()
    }

    /// Interpret one remote command: terminate on `Terminate`, enqueue a
    /// force-exit signal stamped with the given time on `ExitPosition`,
    /// and ignore anything else.
    pub fn apply_command(&self, command: &Command, time_now: i64) -> (r: CommandOutcome)
        ensures
            command is Terminate ==> r is Terminate,
            (command matches Command::ExitPosition(p) ==> r == CommandOutcome::ForceExit(
                SignalForceExit { time: time_now, asset: *p },
            )),
            command is ExitAllPositions ==> r is Ignore,
    {
        match command {
            Command::Terminate(_) => CommandOutcome::Terminate,
            Command::ExitPosition(asset) => CommandOutcome::ForceExit(
                SignalForceExit { time: time_now, asset: *asset },
            ),
            Command::ExitAllPositions => CommandOutcome::Ignore,
        }
    }

    /// The model and emissions of processing one market event through the
    /// whole pipeline in backtest mode: the market event itself, the
    /// signal it produces, the mark of any open position, and the order,
    /// fill and bookkeeping records that follow.
    pub open spec fn spec_market_step(
        self,
        m: DbModel,
        market: MarketEvent,
        label: ModelLabel,
        time_now: i64,
    ) -> (DbModel, Seq<Event>) {
        let sig = if market.pair == self.pair {
            spec_generate_signal(self.pair, market, label, time_now)
        } else {
            None
        };
        let sig_events: Seq<Event> = match sig {
            Some(sv) => seq![Event::Signal(sv)],
            None => Seq::empty(),
        };
        let after_market = Portfolio::model_after_market(m, self.core_id, market);
        let pu_events: Seq<Event> = match after_market.1 {
            Some(u) => seq![Event::PositionUpdate(u)],
            None => Seq::empty(),
        };
        let head = seq![Event::Market(market)] + sig_events + pu_events;
        match sig {
            None => (after_market.0, head),
            Some(sv) => {
                match self.portfolio.spec_generate_order(after_market.0, self.core_id, sv, sv.time) {
                    None => (after_market.0, head),
                    Some(order) => {
                        let fill = self.execution.spec_simulated_fill(order);
                        let after_fill = Portfolio::model_after_fill(
                            after_market.0,
                            self.core_id,
                            fill,
                        );
                        (
                            after_fill.0,
                            head + seq![Event::Order(order)] + seq![Event::Fill(fill)]
                                + after_fill.1,
                        )
                    },
                }
            },
        }
    }

    /// Machine bounds under which one market step can run: the session has
    /// balance and statistics records, any precomputed signal is
    /// well-formed, and the allocated order and its fill stay in bounds.
    pub open spec fn spec_market_step_fits(
        self,
        m: DbModel,
        market: MarketEvent,
        label: ModelLabel,
        time_now: i64,
    ) -> bool {
        let sig = if market.pair == self.pair {
            spec_generate_signal(self.pair, market, label, time_now)
        } else {
            None
        };
        let after_market = Portfolio::model_after_market(m, self.core_id, market);
        &&& m.balances.contains_key((BalanceId { core_id: self.core_id }))
        &&& m.stats.contains_key(self.core_id)
        &&& match sig {
            None => true,
            Some(sv) => {
                &&& sv.wf()
                &&& self.portfolio.spec_order_fits(after_market.0, self.core_id, sv)
                &&& match self.portfolio.spec_generate_order(
                    after_market.0,
                    self.core_id,
                    sv,
                    sv.time,
                ) {
                    None => true,
                    Some(order) => {
                        let fill = self.execution.spec_simulated_fill(order);
                        &&& order.quantity != 0
                        &&& Portfolio::spec_fill_fits(after_market.0, self.core_id, fill)
                    },
                }
            },
        }
    }

    /// Process one market event through the whole pipeline in backtest
    /// mode and return everything emitted, in order.
    pub fn process_market_event(
        &self,
        db: &mut Database,
        market: &MarketEvent,
        model_output: ModelLabel,
        time_now: i64,
    ) -> (emitted: Vec<Event>)
        requires
            old(db).wf(),
            self.wf(),
            market.wf(),
            !self.trading_is_live,
            self.spec_market_step_fits(old(db).model(), *market, model_output, time_now),
        ensures
            final(db).wf(),
            final(db).model() == self.spec_market_step(
                old(db).model(),
                *market,
                model_output,
                time_now,
            ).0,
            emitted@ == self.spec_market_step(old(db).model(), *market, model_output, time_now).1,
            forall|c: u128, eq: int|
                equity_invariant(*old(db), c, eq) ==> #[trigger] equity_invariant(
                    *final(db),
                    c,
                    eq,
                ),
    {
        let ghost m0 = old(db).model();
        let mut emitted: Vec<Event> = Vec::new();
        emitted.push(Event::Market(market.clone()));
        let signal_opt: Option<Signal> = if self.pair == market.pair {
            self.strategy.generate_signal(market, model_output, time_now)
        } else {
            None
        };
        if let Some(sv) = signal_opt {
            emitted.push(Event::Signal(sv));
        }
        let update_res = self.portfolio.update_from_market(db, self.core_id, market);
        match update_res {
            Ok(Some(u)) => {
                emitted.push(Event::PositionUpdate(u));
            },
            _ => {},
        }
        proof {
            assert(db.model() =~= Portfolio::model_after_market(m0, self.core_id, *market).0);
        }
        let sv = match signal_opt {
            None => {
                return emitted;
            },
            Some(sv) => sv,
        };
        proof {
            assert(db.model().balances =~= m0.balances);
        }
        let order_res = self.portfolio.generate_order(db, self.core_id, &sv, false);
        let order = match order_res {
            Ok(Some(order)) => order,
            Ok(None) => {
                return emitted;
            },
            Err(_) => {
                proof {
                    assert(false);
                }
                return emitted;
            },
        };
        emitted.push(Event::Order(order));
        let fill = self.execution.generate_fill(&order);
        emitted.push(Event::Fill(fill));
        proof {
            let after_market = Portfolio::model_after_market(m0, self.core_id, *market);
            let key = PositionId { core_id: self.core_id, pair: fill.asset };
            if !after_market.0.open.contains_key(key) {
                assert(fill.decision.spec_is_entry());
            }
            assert(db.model().stats =~= m0.stats);
        }
        let mut fill_events = match self.portfolio.update_from_fill(db, self.core_id, &fill) {
            Ok(v) => v,
            Err(_) => {
                proof {
                    assert(false);
                }
                Vec::new()
            },
        };
        emitted.append(&mut fill_events);
        proof {
            assert(db.model() =~= self.spec_market_step(m0, *market, model_output, time_now).0);
            assert(emitted@ =~= self.spec_market_step(m0, *market, model_output, time_now).1);
        }
        emitted
    }

    /// The model and emissions of processing one force-exit signal in
    /// backtest mode: the closing order, its fill and the bookkeeping
    /// records, or nothing when no position is open on the pair.
    pub open spec fn spec_force_exit_step(self, m: DbModel, signal: SignalForceExit) -> (
        DbModel,
        Seq<Event>,
    ) {
        match Portfolio::spec_exit_order(m, self.core_id, signal, signal.time) {
            None => (m, Seq::empty()),
            Some(order) => {
                let fill = self.execution.spec_simulated_fill(order);
                let after_fill = Portfolio::model_after_fill(m, self.core_id, fill);
                (after_fill.0, seq![Event::Order(order)] + seq![Event::Fill(fill)] + after_fill.1)
            },
        }
    }

    /// Machine bounds under which one force-exit step can run.
    pub open spec fn spec_force_exit_fits(self, m: DbModel, signal: SignalForceExit) -> bool {
        let key = PositionId { core_id: self.core_id, pair: signal.asset };
        &&& m.balances.contains_key((BalanceId { core_id: self.core_id }))
        &&& m.stats.contains_key(self.core_id)
        &&& (m.open.contains_key(key) ==> {
            let p = m.open[key];
            let order = Portfolio::spec_exit_order(m, self.core_id, signal, signal.time);
            &&& scaled_mul(abs_of(p.quantity as int), p.current_symbol_price as int)
                <= AMOUNT_LIMIT
            &&& match order {
                Some(o) => Portfolio::spec_fill_fits(
                    m,
                    self.core_id,
                    self.execution.spec_simulated_fill(o),
                ),
                None => true,
            }
        })
    }

    /// Close any open position on a pair at its last known price, in
    /// backtest mode, and return everything emitted, in order.
    pub fn process_force_exit(&self, db: &mut Database, signal: SignalForceExit) -> (emitted: Vec<
        Event,
    >)
        requires
            old(db).wf(),
            self.wf(),
            !self.trading_is_live,
            self.spec_force_exit_fits(old(db).model(), signal),
        ensures
            final(db).wf(),
            final(db).model() == self.spec_force_exit_step(old(db).model(), signal).0,
            emitted@ == self.spec_force_exit_step(old(db).model(), signal).1,
            forall|c: u128, eq: int|
                equity_invariant(*old(db), c, eq) ==> #[trigger] equity_invariant(
                    *final(db),
                    c,
                    eq,
                ),
    {
        let ghost m0 = old(db).model();
        let mut emitted: Vec<Event> = Vec::new();
        let order_res = self.portfolio.generate_exit_order(db, self.core_id, signal, false);
        let order = match order_res {
            Ok(Some(order)) => order,
            _ => {
                return emitted;
            },
        };
        emitted.push(Event::Order(order));
        let fill = self.execution.generate_fill(&order);
        emitted.push(Event::Fill(fill));
        proof {
            let key = PositionId { core_id: self.core_id, pair: signal.asset };
            crate::database::lemma_open_map_key_matches(*db, key);
            assert(fill.quantity != 0);
        }
        let mut fill_events = match self.portfolio.update_from_fill(db, self.core_id, &fill) {
            Ok(v) => v,
            Err(_) => {
                proof {
                    assert(false);
                }
                Vec::new()
            },
        };
        emitted.append(&mut fill_events);
        proof {
            assert(db.model() =~= self.spec_force_exit_step(m0, signal).0);
            assert(emitted@ =~= self.spec_force_exit_step(m0, signal).1);
        }
        emitted
    }

    /// The model and emissions of replaying a whole event sequence, in
    /// order.
    pub open spec fn spec_run_events(self, m: DbModel, events: Seq<MarketEvent>) -> (
        DbModel,
        Seq<Event>,
    )
        decreases events.len(),
    {
        if events.len() == 0 {
            (m, Seq::empty())
        } else {
            let first = self.spec_market_step(m, events[0], ModelLabel::Hold, 0);
            let rest = self.spec_run_events(first.0, events.drop_first());
            (rest.0, first.1 + rest.1)
        }
    }

    /// Machine bounds under which a whole event sequence can be replayed.
    pub open spec fn spec_run_events_fits(self, m: DbModel, events: Seq<MarketEvent>) -> bool
        decreases events.len(),
    {
        events.len() == 0 || {
            &&& self.spec_market_step_fits(m, events[0], ModelLabel::Hold, 0)
            &&& self.spec_run_events_fits(
                self.spec_market_step(m, events[0], ModelLabel::Hold, 0).0,
                events.drop_first(),
            )
        }
    }

    /// The feed-finished step: if a position is still open on this
    /// trader's pair, it is force-closed with a signal stamped at the
    /// position's last update time.
    pub open spec fn spec_finish(self, m: DbModel) -> (DbModel, Seq<Event>) {
        let key = PositionId { core_id: self.core_id, pair: self.pair };
        if m.open.contains_key(key) {
            self.spec_force_exit_step(
                m,
                SignalForceExit { time: m.open[key].meta.update_time, asset: self.pair },
            )
        } else {
            (m, Seq::empty())
        }
    }

    /// The model and emissions of one whole backtest run: every event in
    /// order, then the feed-finished force exit.
    pub open spec fn spec_run_backtest(self, m: DbModel, events: Seq<MarketEvent>) -> (
        DbModel,
        Seq<Event>,
    ) {
        let replay = self.spec_run_events(m, events);
        let finish = self.spec_finish(replay.0);
        (finish.0, replay.1 + finish.1)
    }

    /// Machine bounds under which one whole backtest run fits.
    pub open spec fn spec_run_backtest_fits(self, m: DbModel, events: Seq<MarketEvent>) -> bool {
        let replay = self.spec_run_events(m, events);
        let key = PositionId { core_id: self.core_id, pair: self.pair };
        &&& self.spec_run_events_fits(m, events)
        &&& (replay.0.open.contains_key(key) ==> self.spec_force_exit_fits(
            replay.0,
            SignalForceExit { time: replay.0.open[key].meta.update_time, asset: self.pair },
        ))
    }

    /// Replay a stored event sequence through the whole pipeline and
    /// force-close any position still open when the feed finishes. Backtest
    /// events carry their precomputed signals, so the model adapter is
    /// never consulted. The outcome is a function of the store's model, the
    /// event sequence and this trader's configuration alone; everything
    /// emitted is returned in order.
    pub fn run_backtest(&self, db: &mut Database, events: &Vec<MarketEvent>) -> (emitted: Vec<
        Event,
    >)
        requires
            old(db).wf(),
            self.wf(),
            !self.trading_is_live,
            forall|i: int| 0 <= i < events@.len() ==> (#[trigger] events@[i]).wf(),
            self.spec_run_backtest_fits(old(db).model(), events@),
        ensures
            final(db).wf(),
            final(db).model() == self.spec_run_backtest(old(db).model(), events@).0,
            emitted@ == self.spec_run_backtest(old(db).model(), events@).1,
            forall|c: u128, eq: int|
                equity_invariant(*old(db), c, eq) ==> #[trigger] equity_invariant(
                    *final(db),
                    c,
                    eq,
                ),
    {
        let ghost m0 = old(db).model();
        let mut emitted: Vec<Event> = Vec::new();
        let n = events.len();
        for i in 0..n
            invariant
                n == events@.len(),
                self.wf(),
                !self.trading_is_live,
                forall|k: int| 0 <= k < events@.len() ==> (#[trigger] events@[k]).wf(),
                db.wf(),
                m0 == old(db).model(),
                self.spec_run_backtest_fits(m0, events@),
                db.model() == self.spec_run_events(m0, events@.take(i as int)).0,
                emitted@ == self.spec_run_events(m0, events@.take(i as int)).1,
                forall|c: u128, eq: int|
                    equity_invariant(*old(db), c, eq) ==> #[trigger] equity_invariant(
                        *db,
                        c,
                        eq,
                    ),
        {
            proof {
                lemma_run_events_fits_prefix(*self, m0, events@, i as int);
                lemma_run_events_take_snoc(*self, m0, events@, i as int);
            }
            let mut step_events = self.process_market_event(
                db,
                &events[i],
                ModelLabel::Hold,
                0,
            );
            emitted.append(&mut step_events);
        }
        proof {
            assert(events@.take(n as int) =~= events@);
        }
        let key = crate::position::determine_position_id(self.core_id, self.pair);
        let open = match db.get_open_position(&key) {
            Ok(o) => o,
            Err(_) => {
                proof {
                    assert(false);
                }
                None
            },
        };
        match open {
            Some(position) => {
                let signal = SignalForceExit {
                    time: position.meta.update_time,
                    asset: self.pair,
                };
                let mut finish_events = self.process_force_exit(db, signal);
                emitted.append(&mut finish_events);
            },
            None => {},
        }
        emitted
    }
}

/// Replaying a prefix and then one more event is the same as replaying the
/// longer prefix.
proof fn lemma_run_events_take_snoc(t: Trader, m: DbModel, events: Seq<MarketEvent>, i: int)
    requires
        0 <= i < events.len(),
    ensures
        ({
            let before = t.spec_run_events(m, events.take(i));
            let step = t.spec_market_step(before.0, events[i], ModelLabel::Hold, 0);
            t.spec_run_events(m, events.take(i + 1)) == (step.0, before.1 + step.1)
        }),
    decreases i,
{
    if i == 0 {
        assert(events.take(0) =~= Seq::<MarketEvent>::empty());
        assert(events.take(1)[0] == events[0]);
        assert(events.take(1).drop_first() =~= Seq::<MarketEvent>::empty());
        assert(events.take(1).len() == 1);
        let step = t.spec_market_step(m, events[0], ModelLabel::Hold, 0);
        let run = t.spec_run_events(m, events.take(1));
        assert(t.spec_run_events(step.0, Seq::<MarketEvent>::empty()) == (
            step.0,
            Seq::<Event>::empty(),
        ));
        assert(run.0 == step.0);
        assert(run.1 == step.1 + Seq::<Event>::empty());
        assert(t.spec_run_events(m, events.take(0)) == (m, Seq::<Event>::empty()));
        assert(run.1 =~= t.spec_run_events(m, events.take(0)).1 + step.1);
    } else {
        let first = t.spec_market_step(m, events[0], ModelLabel::Hold, 0);
        lemma_run_events_take_snoc(t, first.0, events.drop_first(), i - 1);
        assert(events.take(i)[0] == events[0]);
        assert(events.take(i).drop_first() =~= events.drop_first().take(i - 1));
        assert(events.take(i + 1)[0] == events[0]);
        assert(events.take(i + 1).drop_first() =~= events.drop_first().take(i));
        assert(events.drop_first()[i - 1] == events[i]);
        let before_rest = t.spec_run_events(first.0, events.drop_first().take(i - 1));
        let step = t.spec_market_step(before_rest.0, events[i], ModelLabel::Hold, 0);
        assert(first.1 + (before_rest.1 + step.1) =~= (first.1 + before_rest.1) + step.1);
    }
}

/// If a whole replay fits, then after any fitting prefix the next step
/// fits too.
proof fn lemma_run_events_fits_prefix(t: Trader, m: DbModel, events: Seq<MarketEvent>, i: int)
    requires
        t.spec_run_events_fits(m, events),
        0 <= i < events.len(),
    ensures
        t.spec_market_step_fits(
            t.spec_run_events(m, events.take(i)).0,
            events[i],
            ModelLabel::Hold,
            0,
        ),
    decreases i,
{
    if i == 0 {
        assert(events.take(0) =~= Seq::<MarketEvent>::empty());
    } else {
        let first = t.spec_market_step(m, events[0], ModelLabel::Hold, 0);
        lemma_run_events_fits_prefix(t, first.0, events.drop_first(), i - 1);
        assert(events.take(i)[0] == events[0]);
        assert(events.take(i).drop_first() =~= events.drop_first().take(i - 1));
        assert(events.drop_first()[i - 1] == events[i]);
    }
}

/// Replaying the same stored events against stores with the same model,
/// with the same trader configuration, yields the same closed positions,
/// balances, statistics and emitted events: a backtest re-run is
/// bit-identical.
pub proof fn lemma_backtest_deterministic(
    t: Trader,
    db1: Database,
    db2: Database,
    events: Seq<MarketEvent>,
)
    requires
        db1.model() == db2.model(),
    ensures
        t.spec_run_backtest(db1.model(), events) == t.spec_run_backtest(db2.model(), events),
{
}

/// A finished backtest leaves no open position on the trader's pair: the
/// feed-finished step force-closes whatever was still open.
pub proof fn lemma_backtest_leaves_no_open_position(t: Trader, m: DbModel, events: Seq<MarketEvent>)
    ensures
        !t.spec_run_backtest(m, events).0.open.contains_key(
            (PositionId { core_id: t.core_id, pair: t.pair }),
        ),
{
    let key = PositionId { core_id: t.core_id, pair: t.pair };
    let replay = t.spec_run_events(m, events);
    if replay.0.open.contains_key(key) {
        let signal = SignalForceExit {
            time: replay.0.open[key].meta.update_time,
            asset: t.pair,
        };
        let order = Portfolio::spec_exit_order(replay.0, t.core_id, signal, signal.time);
        assert(order is Some);
    }
}

/// Per-trader event order: the events emitted for one market event start
/// with the market event itself, contain no other market event, and never
/// step backwards through the pipeline: any signal comes before any order,
/// any order before any fill, and any fill before the bookkeeping records
/// it causes.
pub proof fn lemma_market_step_pipeline_order(
    t: Trader,
    m: DbModel,
    market: MarketEvent,
    label: ModelLabel,
    time_now: i64,
)
    ensures
        ({
            let es = t.spec_market_step(m, market, label, time_now).1;
            &&& es.len() >= 1
            &&& es[0] == Event::Market(market)
            &&& (forall|i: int, j: int|
                0 <= i < j < es.len() ==> event_stage(#[trigger] es[i]) < event_stage(
                    #[trigger] es[j],
                ))
            &&& (forall|i: int| 0 < i < es.len() ==> !(#[trigger] es[i] is Market))
        }),
{
    let es = t.spec_market_step(m, market, label, time_now).1;
    let sig = if market.pair == t.pair {
        spec_generate_signal(t.pair, market, label, time_now)
    } else {
        None
    };
    let sig_events: Seq<Event> = match sig {
        Some(sv) => seq![Event::Signal(sv)],
        None => Seq::empty(),
    };
    let after_market = Portfolio::model_after_market(m, t.core_id, market);
    let pu_events: Seq<Event> = match after_market.1 {
        Some(u) => seq![Event::PositionUpdate(u)],
        None => Seq::empty(),
    };
    let head = seq![Event::Market(market)] + sig_events + pu_events;
    assert(forall|i: int| 0 < i < head.len() ==> 0 < event_stage(#[trigger] head[i]) <= 2);
    assert(forall|i: int, j: int|
        0 <= i < j < head.len() ==> event_stage(#[trigger] head[i]) < event_stage(
            #[trigger] head[j],
        ));
    match sig {
        None => {
            assert(es == head);
        },
        Some(sv) => {
            match t.portfolio.spec_generate_order(after_market.0, t.core_id, sv, sv.time) {
                None => {
                    assert(es == head);
                },
                Some(order) => {
                    let fill = t.execution.spec_simulated_fill(order);
                    let after_fill = Portfolio::model_after_fill(after_market.0, t.core_id, fill);
                    let tail = seq![Event::Order(order)] + seq![Event::Fill(fill)] + after_fill.1;
                    assert(after_fill.1.len() == 2);
                    assert(event_stage(after_fill.1[0]) == 5);
                    assert(event_stage(after_fill.1[1]) == 6);
                    assert(tail[0] == Event::Order(order));
                    assert(tail[1] == Event::Fill(fill));
                    assert(tail[2] == after_fill.1[0]);
                    assert(tail[3] == after_fill.1[1]);
                    assert(forall|i: int, j: int|
                        0 <= i < j < tail.len() ==> event_stage(#[trigger] tail[i]) < event_stage(
                            #[trigger] tail[j],
                        ));
                    assert(forall|i: int| 0 <= i < tail.len() ==> 3 <= event_stage(#[trigger] tail[i]));
                    assert(es == head + tail);
                    assert(forall|i: int|
                        0 <= i < es.len() ==> #[trigger] es[i] == if i < head.len() {
                            head[i]
                        } else {
                            tail[i - head.len()]
                        });
                },
            }
        },
    }
}

/// Accumulates the parts of a trader; `build` succeeds once every part was
/// supplied.
#[derive(Clone, PartialEq, Debug)]
pub struct TraderBuilder {
    pub core_id: Option<u128>,
    pub pair: Option<Pair>,
    pub portfolio: Option<Portfolio>,
    pub strategy: Option<Strategy>,
    pub execution: Option<Execution>,
    pub trading_is_live: Option<bool>,
}

impl TraderBuilder {
    pub open spec fn spec_new() -> TraderBuilder {
        TraderBuilder {
            core_id: None,
            pair: None,
            portfolio: None,
            strategy: None,
            execution: None,
            trading_is_live: None,
        }
    }

    pub open spec fn complete(self) -> bool {
        &&& self.core_id is Some
        &&& self.pair is Some
        &&& self.portfolio is Some
        &&& self.strategy is Some
        &&& self.execution is Some
        &&& self.trading_is_live is Some
    }

    pub fn new() -> (r: TraderBuilder)
        ensures
            r == TraderBuilder::spec_new(),
    {
        TraderBuilder {
            core_id: None,
            pair: None,
            portfolio: None,
            strategy: None,
            execution: None,
            trading_is_live: None,
        }
    }

    pub fn core_id(self, value: u128) -> (r: TraderBuilder)
        ensures
            r == (TraderBuilder { core_id: Some(value), ..self }),
    {
        TraderBuilder { core_id: Some(value), ..self }
    }

    pub fn pair(self, value: Pair) -> (r: TraderBuilder)
        ensures
            r == (TraderBuilder { pair: Some(value), ..self }),
    {
        TraderBuilder { pair: Some(value), ..self }
    }

    pub fn portfolio(self, value: Portfolio) -> (r: TraderBuilder)
        ensures
            r == (TraderBuilder { portfolio: Some(value), ..self }),
    {
        TraderBuilder { portfolio: Some(value), ..self }
    }

    pub fn strategy(self, value: Strategy) -> (r: TraderBuilder)
        ensures
            r == (TraderBuilder { strategy: Some(value), ..self }),
    {
        TraderBuilder { strategy: Some(value), ..self }
    }

    pub fn execution(self, value: Execution) -> (r: TraderBuilder)
        ensures
            r == (TraderBuilder { execution: Some(value), ..self }),
    {
        TraderBuilder { execution: Some(value), ..self }
    }

    pub fn trading_is_live(self, value: bool) -> (r: TraderBuilder)
        ensures
            r == (TraderBuilder { trading_is_live: Some(value), ..self }),
    {
        TraderBuilder { trading_is_live: Some(value), ..self }
    }

    /// Assemble the trader. Succeeds exactly when every part was supplied.
    pub fn build(self) -> (r: Result<Trader, TraderError>)
        ensures
            r is Ok <==> self.complete(),
            r is Err ==> r == Err::<Trader, TraderError>(TraderError::BuilderIncomplete),
            r matches Ok(t) ==> {
                &&& Some(t.core_id) == self.core_id
                &&& Some(t.pair) == self.pair
                &&& Some(t.portfolio) == self.portfolio
                &&& Some(t.strategy) == self.strategy
                &&& Some(t.execution) == self.execution
                &&& Some(t.trading_is_live) == self.trading_is_live
            },
    {
        let core_id = match self.core_id {
            Some(v) => v,
            None => {
                return Err(TraderError::BuilderIncomplete);
            },
        };
        let pair = match self.pair {
            Some(v) => v,
            None => {
                return Err(TraderError::BuilderIncomplete);
            },
        };
        let portfolio = match self.portfolio {
            Some(v) => v,
            None => {
                return Err(TraderError::BuilderIncomplete);
            },
        };
        let strategy = match self.strategy {
            Some(v) => v,
            None => {
                return Err(TraderError::BuilderIncomplete);
            },
        };
        let execution = match self.execution {
            Some(v) => v,
            None => {
                return Err(TraderError::BuilderIncomplete);
            },
        };
        let trading_is_live = match self.trading_is_live {
            Some(v) => v,
            None => {
                return Err(TraderError::BuilderIncomplete);
            },
        };
        Ok(Trader { core_id, pair, portfolio, strategy, execution, trading_is_live })
    }
}

} // verus!
