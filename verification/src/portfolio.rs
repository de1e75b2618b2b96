//! Portfolio stage: turn signals into orders under allocation and risk
//! policy, and apply market and fill updates to the shared state.

use vstd::prelude::*;

use crate::assets::{MarketEvent, MarketMeta};
use crate::balance::{Balance, BalanceId};
use crate::database::{
    lemma_locked_nonneg, lemma_open_map_key_matches, locked_contribution, locked_of,
    positions_of_core, Database, DbModel,
};
use crate::events::Event;
use crate::execution::FillEvent;
use crate::fixed::{abs_of, scaled_div, scaled_mul, AMOUNT_LIMIT, RESULT_LIMIT, SCALE};
use crate::fixed::{div_scaled, mul_scaled};
use crate::fixed::{lemma_scaled_mul_of_scaled_div_le, lemma_scaled_mul_rate_le};
use crate::position::{determine_position_id, Position, PositionId, PositionUpdate};
use crate::statistic::{sum_realised_pnl, StatisticConfig, TradingSummary};
use crate::strategy::{Decision, Signal, SignalMap, SignalStrength};
use crate::trader::SignalForceExit;
use crate::utils::now_millis;

verus! {

/// Errors of the database layer.
#[derive(Clone, Copy, PartialEq, Eq, Structural, Debug)]
pub enum DatabaseError {
    /// A balance or statistics record was missing on lookup.
    DataMissing,
}

/// Errors of the portfolio layer.
#[derive(Clone, Copy, PartialEq, Eq, Structural, Debug)]
pub enum PortfolioError {
    /// A builder was asked to build before every field was supplied.
    BuilderIncomplete,
    /// The database could not serve a read or write.
    RepositoryInteraction(DatabaseError),
    /// An entry fill carried an exit decision or a zero quantity.
    CannotEnterPositionWithExitFill,
}

/// An order the execution stage should fill: positive quantity enters a
/// position, negative quantity exits one.
#[derive(Clone, Copy, PartialEq, Debug)]
pub struct OrderEvent {
    pub time: i64,
    pub pair: crate::assets::Pair,
    pub decision: Decision,
    pub market_meta: MarketMeta,
    pub quantity: i64,
}

impl OrderEvent {
    /// Order invariant: bounded quantity, a positive bounded close price,
    /// and a gross value that fits in bounds.
    pub open spec fn wf(self) -> bool {
        &&& -AMOUNT_LIMIT <= self.quantity <= AMOUNT_LIMIT
        &&& 0 <= self.market_meta.close <= AMOUNT_LIMIT
        &&& scaled_mul(abs_of(self.quantity as int), self.market_meta.close as int)
            <= AMOUNT_LIMIT
    }
}

/// The net decision a signal map yields against the current position: with
/// an open position only its matching close decision is taken; with none,
/// exactly one of Long or Short must be recommended.
pub open spec fn spec_parse_signal_decisions(position: Option<Position>, signals: SignalMap) -> Option<
    (Decision, SignalStrength),
> {
    match position {
        Some(p) => {
            if p.side is Buy {
                match signals.close_long {
                    Some(s) => Some((Decision::CloseLong, s)),
                    None => None,
                }
            } else {
                match signals.close_short {
                    Some(s) => Some((Decision::CloseShort, s)),
                    None => None,
                }
            }
        },
        None => {
            match (signals.long, signals.short) {
                (Some(s), None) => Some((Decision::Long, s)),
                (None, Some(s)) => Some((Decision::Short, s)),
                _ => None,
            }
        },
    }
}

/// Pick the net decision of a signal map given the open position, if any.
pub fn parse_signal_decisions(position: Option<&Position>, signals: &SignalMap) -> (r: Option<
    (Decision, SignalStrength),
>)
    ensures
        r == spec_parse_signal_decisions(
            match position {
                Some(p) => Some(*p),
                None => None,
            },
            *signals,
        ),
{
    match position {
        Some(p) => {
            match p.side {
                crate::assets::Side::Buy => {
                    match signals.close_long {
                        Some(s) => Some((Decision::CloseLong, s)),
                        None => None,
                    }
                },
                crate::assets::Side::Sell => {
                    match signals.close_short {
                        Some(s) => Some((Decision::CloseShort, s)),
                        None => None,
                    }
                },
            }
        },
        None => {
            match (signals.long, signals.short) {
                (Some(s), None) => Some((Decision::Long, s)),
                (None, Some(s)) => Some((Decision::Short, s)),
                _ => None,
            }
        },
    }
}

/// Allocation policy: how much of the default order value a signal commits.
#[derive(Clone, Copy, PartialEq, Debug)]
pub struct Allocator {
    /// Target gross value of one entry order, micro-units.
    pub default_order_value: i64,
}

impl Allocator {
    pub open spec fn wf(self) -> bool {
        0 < self.default_order_value <= AMOUNT_LIMIT
    }

    /// The quantity allocated to an order: an exit order reverses the open
    /// position; an entry order commits the default order value scaled by
    /// the signal strength, capped by the available balance, at the
    /// signal's close price.
    pub open spec fn spec_allocated_quantity(
        self,
        decision: Decision,
        position: Option<Position>,
        strength: SignalStrength,
        max_value: int,
        close: int,
    ) -> int {
        if decision.spec_is_exit() {
            match position {
                Some(p) => -p.quantity as int,
                None => 0,
            }
        } else {
            let desired = scaled_mul(self.default_order_value as int, strength.0 as int);
            let value = if max_value < desired {
                max_value
            } else {
                desired
            };
            scaled_div(value, close)
        }
    }

    /// Rewrite an order's placeholder quantity to the allocated quantity.
    pub fn allocate_order(
        &self,
        order: &mut OrderEvent,
        position: Option<&Position>,
        signal_strength: SignalStrength,
        max_value: i64,
    )
        requires
            self.wf(),
            0 < old(order).market_meta.close <= AMOUNT_LIMIT,
            0 <= signal_strength.0 <= SCALE,
            old(order).decision.spec_is_exit() ==> match position {
                Some(p) => p.wf() && scaled_mul(
                    abs_of(p.quantity as int),
                    old(order).market_meta.close as int,
                ) <= AMOUNT_LIMIT,
                None => true,
            },
            old(order).decision.spec_is_entry() ==> 0 <= max_value <= RESULT_LIMIT,
            old(order).decision.spec_is_entry() ==> self.spec_allocated_quantity(
                old(order).decision,
                match position {
                    Some(p) => Some(*p),
                    None => None,
                },
                signal_strength,
                max_value as int,
                old(order).market_meta.close as int,
            ) <= AMOUNT_LIMIT,
        ensures
            final(order).quantity == self.spec_allocated_quantity(
                old(order).decision,
                match position {
                    Some(p) => Some(*p),
                    None => None,
                },
                signal_strength,
                max_value as int,
                old(order).market_meta.close as int,
            ),
            *final(order) == (OrderEvent { quantity: final(order).quantity, ..*old(order) }),
            final(order).wf(),
    {
        if order.decision.is_exit() {
            match position {
                Some(p) => {
                    order.quantity = -p.quantity;
                },
                None => {
                    order.quantity = 0;
                },
            }
        } else {
            proof {
                lemma_scaled_mul_rate_le(
                    signal_strength.0 as int,
                    self.default_order_value as int,
                );
                assert(self.default_order_value as int * (signal_strength.0 as int)
                    == signal_strength.0 as int * (self.default_order_value as int))
                    by (nonlinear_arith);
            }
            let desired = mul_scaled(self.default_order_value, signal_strength.0);
            let value = if max_value < desired {
                max_value
            } else {
                desired
            };
            proof {
                lemma_scaled_mul_of_scaled_div_le(value as int, order.market_meta.close as int);
                lemma_allocated_quantity_bounded(value as int, order.market_meta.close as int);
            }
            order.quantity = div_scaled(value, order.market_meta.close);
        }
    }
}

/// An allocated quantity is a bounded amount: committing at most
/// `AMOUNT_LIMIT` of value at a price of at least one micro-unit yields at
/// most `AMOUNT_LIMIT * SCALE` micro-units of quantity, and the bound here
/// is what the order invariant needs.
proof fn lemma_allocated_quantity_bounded(value: int, close: int)
    requires
        0 <= value <= AMOUNT_LIMIT,
        0 < close <= AMOUNT_LIMIT,
        scaled_div(value, close) <= AMOUNT_LIMIT,
    ensures
        0 <= scaled_div(value, close) <= AMOUNT_LIMIT,
        scaled_mul(abs_of(scaled_div(value, close)), close) <= AMOUNT_LIMIT,
{
    lemma_scaled_mul_of_scaled_div_le(value, close);
}

/// A session's equity equation: its balance total is the starting equity
/// plus all realised profit and loss of its closed positions, and the
/// available balance is the total minus the value locked in open
/// positions. Availability below total follows, since the locked value is
/// non-negative.
pub open spec fn equity_invariant(db: Database, core_id: u128, starting_equity: int) -> bool {
    db.balance_map().contains_key((BalanceId { core_id })) ==> {
        let b = db.balance_map()[(BalanceId { core_id })];
        &&& b.total == starting_equity + sum_realised_pnl(
            positions_of_core(db.closed(), core_id),
        )
        &&& b.available + locked_of(db.open_positions@, core_id) == b.total
    }
}

/// A session's balance total equals its starting equity plus the sum of
/// the realised profit and loss of all its closed positions, whenever the
/// equity equation holds and the session has a balance record.
pub proof fn lemma_total_is_starting_equity_plus_realised(
    db: Database,
    core_id: u128,
    starting_equity: int,
)
    requires
        equity_invariant(db, core_id, starting_equity),
        db.balance_map().contains_key((BalanceId { core_id })),
    ensures
        db.balance_map()[(BalanceId { core_id })].total == starting_equity + sum_realised_pnl(
            positions_of_core(db.closed(), core_id),
        ),
{
}

/// In a session that satisfies the equity equation, the available balance
/// never exceeds the total.
pub proof fn lemma_available_le_total(db: Database, core_id: u128, starting_equity: int)
    requires
        db.wf(),
        equity_invariant(db, core_id, starting_equity),
        db.balance_map().contains_key((BalanceId { core_id })),
    ensures
        db.balance_map()[(BalanceId { core_id })].available <= db.balance_map()[(BalanceId {
            core_id,
        })].total,
{
    lemma_locked_nonneg(db.open_positions@, core_id);
}

impl Portfolio {
    /// What `generate_order` yields at a given order time: nothing when no
    /// position is open and no cash is available, or when the signal map
    /// nets to no decision; otherwise an order carrying the signal's
    /// market context and the allocated quantity.
    pub open spec fn spec_generate_order(
        self,
        m: DbModel,
        core_id: u128,
        signal: Signal,
        order_time: i64,
    ) -> Option<OrderEvent> {
        let key = PositionId { core_id, pair: signal.pair };
        let position = if m.open.contains_key(key) {
            Some(m.open[key])
        } else {
            None
        };
        let b = m.balances[(BalanceId { core_id })];
        if position is None && b.available <= 0 {
            None
        } else {
            match spec_parse_signal_decisions(position, signal.signals) {
                None => None,
                Some(ds) => Some(
                    OrderEvent {
                        time: order_time,
                        pair: signal.pair,
                        decision: ds.0,
                        market_meta: signal.market_meta,
                        quantity: self.allocation_manager.spec_allocated_quantity(
                            ds.0,
                            position,
                            ds.1,
                            b.available as int,
                            signal.market_meta.close as int,
                        ) as i64,
                    },
                ),
            }
        }
    }

    /// Machine bound under which `generate_order` can allocate: the
    /// quantity it would compute, and an exit's gross value, fit the
    /// amount bound.
    pub open spec fn spec_order_fits(self, m: DbModel, core_id: u128, signal: Signal) -> bool {
        let key = PositionId { core_id, pair: signal.pair };
        let position = if m.open.contains_key(key) {
            Some(m.open[key])
        } else {
            None
        };
        m.balances.contains_key((BalanceId { core_id })) ==> {
            let b = m.balances[(BalanceId { core_id })];
            match spec_parse_signal_decisions(position, signal.signals) {
                None => true,
                Some(ds) => {
                    if ds.0.spec_is_exit() {
                        match position {
                            Some(p) => scaled_mul(
                                abs_of(p.quantity as int),
                                signal.market_meta.close as int,
                            ) <= AMOUNT_LIMIT,
                            None => true,
                        }
                    } else {
                        self.allocation_manager.spec_allocated_quantity(
                            ds.0,
                            position,
                            ds.1,
                            b.available as int,
                            signal.market_meta.close as int,
                        ) <= AMOUNT_LIMIT
                    }
                },
            }
        }
    }

    /// Whether a session has no cash free to open a new position: a
    /// non-positive available balance counts as no cash, so the fault
    /// state of a negative balance opens nothing either. Fails exactly
    /// when the session has no balance record.
    fn no_cash_to_enter_new_position(&self, db: &Database, core_id: u128) -> (r: Result<
        bool,
        PortfolioError,
    >)
        requires
            db.wf(),
        ensures
            r is Ok <==> db.balance_map().contains_key((BalanceId { core_id })),
            r matches Ok(v) ==> v == (db.balance_map()[(BalanceId { core_id })].available <= 0),
            r is Err ==> r == Err::<bool, PortfolioError>(
                PortfolioError::RepositoryInteraction(DatabaseError::DataMissing),
            ),
    {
        match db.get_balance(core_id) {
            Ok(balance) => Ok(balance.available <= 0),
            Err(e) => Err(PortfolioError::RepositoryInteraction(e)),
        }
    }

    /// Map a signal to an order, or veto it. With no open position and a
    /// non-positive available balance the signal is dropped (a negative
    /// balance is a reportable fault state and opens nothing); otherwise
    /// the net decision of
    /// the signal map is allocated a quantity and passed through the risk
    /// policy. In a live session the order is stamped with the current
    /// time, in a backtest with the signal's own time. Fails exactly when
    /// the session has no balance record.
    pub fn generate_order(
        &self,
        db: &Database,
        core_id: u128,
        signal: &Signal,
        time_is_live: bool,
    ) -> (r: Result<Option<OrderEvent>, PortfolioError>)
        requires
            db.wf(),
            self.wf(),
            signal.wf(),
            self.spec_order_fits(db.model(), core_id, *signal),
        ensures
            r is Err <==> !db.balance_map().contains_key((BalanceId { core_id })),
            r is Err ==> r == Err::<Option<OrderEvent>, PortfolioError>(
                PortfolioError::RepositoryInteraction(DatabaseError::DataMissing),
            ),
            !time_is_live ==> (r matches Ok(o) ==> o == self.spec_generate_order(
                db.model(),
                core_id,
                *signal,
                signal.time,
            )),
            time_is_live ==> (r matches Ok(Some(o)) ==> Some(o) == self.spec_generate_order(
                db.model(),
                core_id,
                *signal,
                o.time,
            )),
            time_is_live ==> (r == Ok::<Option<OrderEvent>, PortfolioError>(None)
                ==> forall|t: i64| self.spec_generate_order(db.model(), core_id, *signal, t)
                    is None),
            r matches Ok(Some(o)) ==> o.wf(),
    {
        let key = determine_position_id(core_id, signal.pair);
        let position = match db.get_open_position(&key) {
            Ok(p) => p,
            Err(e) => {
                return Err(PortfolioError::RepositoryInteraction(e));
            },
        };
        let no_cash = match self.no_cash_to_enter_new_position(db, core_id) {
            Ok(v) => v,
            Err(e) => {
                return Err(e);
            },
        };
        if position.is_none() && no_cash {
            return Ok(None);
        }
        let balance = match db.get_balance(core_id) {
            Ok(b) => b,
            Err(e) => {
                return Err(PortfolioError::RepositoryInteraction(e));
            },
        };
        let parsed = parse_signal_decisions(position.as_ref(), &signal.signals);
        let (decision, strength) = match parsed {
            None => {
                return Ok(None);
            },
            Some(ds) => ds,
        };
        let order_time = if time_is_live {
            now_millis()
        } else {
            signal.time
        };
        let mut order = OrderEvent {
            time: order_time,
            pair: signal.pair,
            decision,
            market_meta: signal.market_meta,
            quantity: SCALE,
        };
        proof {
            if decision.spec_is_entry() {
                assert(position is None);
                assert(balance.available > 0);
            }
            if db.open_map().contains_key(key) {
                lemma_open_map_key_matches(*db, key);
            }
        }
        self.allocation_manager.allocate_order(
            &mut order,
            position.as_ref(),
            strength,
            balance.available,
        );
        Ok(self.risk_manager.evaluate_order(order))
    }

    /// Every open position a session holds.
    pub fn open_positions(&self, db: &Database, core_id: u128) -> (r: Result<
        Vec<Position>,
        PortfolioError,
    >)
        requires
            db.wf(),
        ensures
            r is Ok,
            r matches Ok(v) ==> v@ == crate::database::open_positions_of(
                db.open_positions@,
                core_id,
            ),
    {
        match db.get_all_open_positions(core_id) {
            Ok(v) => Ok(v),
            Err(e) => Err(PortfolioError::RepositoryInteraction(e)),
        }
    }

    /// What `generate_exit_order` yields at a given time: nothing when the
    /// session holds no open position on the pair, otherwise an order that
    /// reverses the position at its last known price.
    pub open spec fn spec_exit_order(
        m: DbModel,
        core_id: u128,
        signal: SignalForceExit,
        order_time: i64,
    ) -> Option<OrderEvent> {
        let key = PositionId { core_id, pair: signal.asset };
        if !m.open.contains_key(key) {
            None
        } else {
            let p = m.open[key];
            Some(
                OrderEvent {
                    time: order_time,
                    pair: signal.asset,
                    decision: p.spec_exit_decision(),
                    market_meta: MarketMeta {
                        close: p.current_symbol_price,
                        time: p.meta.update_time,
                    },
                    quantity: (0 - p.quantity) as i64,
                },
            )
        }
    }

    /// Synthesise the order that closes the open position a force-exit
    /// signal names; nothing when no position is open on that pair. In a
    /// live session the order is stamped with the current time, in a
    /// backtest with the signal's own time.
    pub fn generate_exit_order(
        &self,
        db: &Database,
        core_id: u128,
        signal: SignalForceExit,
        live_trading: bool,
    ) -> (r: Result<Option<OrderEvent>, PortfolioError>)
        requires
            db.wf(),
            ({
                let key = PositionId { core_id, pair: signal.asset };
                db.open_map().contains_key(key) ==> scaled_mul(
                    abs_of(db.open_map()[key].quantity as int),
                    db.open_map()[key].current_symbol_price as int,
                ) <= AMOUNT_LIMIT
            }),
        ensures
            r is Ok,
            !live_trading ==> r == Ok::<Option<OrderEvent>, PortfolioError>(
                Self::spec_exit_order(db.model(), core_id, signal, signal.time),
            ),
            live_trading ==> (r matches Ok(Some(o)) ==> Some(o) == Self::spec_exit_order(
                db.model(),
                core_id,
                signal,
                o.time,
            )),
            live_trading ==> (r == Ok::<Option<OrderEvent>, PortfolioError>(None)
                ==> !db.open_map().contains_key((PositionId { core_id, pair: signal.asset }))),
            r matches Ok(Some(o)) ==> o.wf(),
    {
        let key = determine_position_id(core_id, signal.asset);
        let position = match db.get_open_position(&key) {
            Ok(p) => p,
            Err(e) => {
                return Err(PortfolioError::RepositoryInteraction(e));
            },
        };
        let position = match position {
            None => {
                return Ok(None);
            },
            Some(p) => p,
        };
        let time = if live_trading {
            now_millis()
        } else {
            signal.time
        };
        proof {
            lemma_open_map_key_matches(*db, key);
        }
        Ok(
            Some(
                OrderEvent {
                    time,
                    pair: signal.asset,
                    decision: position.determine_exit_decision(),
                    market_meta: MarketMeta {
                        close: position.current_symbol_price,
                        time: position.meta.update_time,
                    },
                    quantity: 0 - position.quantity,
                },
            ),
        )
    }

    /// Mark any open position on the event's pair at the event's price.
    /// Leaves everything else unchanged and preserves every session's
    /// equity equation.
    pub fn update_from_market(&self, db: &mut Database, core_id: u128, market: &MarketEvent) -> (r:
        Result<Option<PositionUpdate>, PortfolioError>)
        requires
            old(db).wf(),
            market.wf(),
        ensures
            final(db).wf(),
            r is Ok,
            ({
                let key = PositionId { core_id, pair: market.pair };
                if old(db).open_map().contains_key(key) {
                    match old(db).open_map()[key].spec_update_result(*market) {
                        Some(pu) => {
                            &&& r == Ok::<Option<PositionUpdate>, PortfolioError>(Some(pu.1))
                            &&& final(db).open_map() == old(db).open_map().insert(key, pu.0)
                            &&& final(db).balance_map() == old(db).balance_map()
                            &&& final(db).stats_map() == old(db).stats_map()
                            &&& final(db).candle_map() == old(db).candle_map()
                            &&& final(db).closed() == old(db).closed()
                        },
                        None => r == Ok::<Option<PositionUpdate>, PortfolioError>(None)
                            && *final(db) == *old(db),
                    }
                } else {
                    r == Ok::<Option<PositionUpdate>, PortfolioError>(None)
                        && *final(db) == *old(db)
                }
            }),
            forall|c: u128, eq: int|
                equity_invariant(*old(db), c, eq) ==> #[trigger] equity_invariant(
                    *final(db),
                    c,
                    eq,
                ),
    {
        let key = determine_position_id(core_id, market.pair);
        let position = match db.get_open_position(&key) {
            Ok(p) => p,
            Err(e) => {
                return Err(PortfolioError::RepositoryInteraction(e));
            },
        };
        let mut position = match position {
            None => {
                return Ok(None);
            },
            Some(p) => p,
        };
        proof {
            lemma_open_map_key_matches(*db, key);
        }
        let ghost before = position;
        let update = position.update(market);
        match update {
            Some(position_update) => {
                proof {
                    assert(position.exit_time == before.exit_time);
                }
                let _ = db.set_open_position(position);
                proof {
                    assert forall|c: u128|
                        locked_contribution(position, c) == locked_contribution(before, c) by {}
                }
                Ok(Some(position_update))
            },
            None => Ok(None),
        }
    }

    /// The balance after an entry fill: the entry value and its fees move
    /// out of the available balance; the total is untouched.
    pub open spec fn spec_entry_balance(b: Balance, p: Position, time: i64) -> Balance {
        Balance {
            time,
            total: b.total,
            available: (b.available - p.enter_value_gross - p.enter_fees_total) as i64,
        }
    }

    /// The balance after an exit fill: the entry value and its fees come
    /// back together with the realised profit and loss, which also moves
    /// the total.
    pub open spec fn spec_exit_balance(b: Balance, p: Position, time: i64) -> Balance {
        Balance {
            time,
            total: (b.total + p.realised_pnl) as i64,
            available: (b.available + p.enter_value_gross + p.realised_pnl + p.enter_fees_total)
                as i64,
        }
    }

    /// Machine bound under which a fill can be applied: the new balance
    /// figures stay in bounds, and the session's statistics can count one
    /// more position.
    pub open spec fn spec_fill_fits(m: DbModel, core_id: u128, fill: FillEvent) -> bool {
        let key = PositionId { core_id, pair: fill.asset };
        m.balances.contains_key((BalanceId { core_id })) ==> {
            let b = m.balances[(BalanceId { core_id })];
            if m.open.contains_key(key) {
                let p = m.open[key].spec_exit(fill);
                &&& -RESULT_LIMIT <= b.total + p.realised_pnl <= RESULT_LIMIT
                &&& -RESULT_LIMIT <= b.available + p.enter_value_gross + p.realised_pnl
                    + p.enter_fees_total <= RESULT_LIMIT
                &&& (m.stats.contains_key(core_id) ==> m.stats[core_id].update_fits(
                    p,
                ))
            } else {
                let p = Position::spec_enter(core_id, fill);
                -RESULT_LIMIT <= b.available - p.enter_value_gross - p.enter_fees_total
                    <= RESULT_LIMIT
            }
        }
    }

    /// Apply a fill atomically. With no open position on the fill's pair,
    /// an entry fill opens one and locks its value and fees out of the
    /// available balance; with an open position, the fill closes it,
    /// realises its profit and loss into the balance, moves it to the
    /// exited list and counts it into the session's statistics. Both paths
    /// stamp the balance with the fill's time and emit the new position
    /// record followed by the balance record, in that order. Fails exactly
    /// when the session has no balance record, when a position must be
    /// closed but the session has no statistics record, or when there is
    /// no position to close and the fill is not an entry; a failure leaves
    /// the store untouched. Every session's equity equation is preserved.
    pub fn update_from_fill(&self, db: &mut Database, core_id: u128, fill: &FillEvent) -> (r:
        Result<Vec<Event>, PortfolioError>)
        requires
            old(db).wf(),
            fill.wf(),
            fill.quantity != 0,
            Self::spec_fill_fits(old(db).model(), core_id, *fill),
        ensures
            final(db).wf(),
            ({
                let key = PositionId { core_id, pair: fill.asset };
                let bid = BalanceId { core_id };
                let bal_present = old(db).balance_map().contains_key(bid);
                let pos_present = old(db).open_map().contains_key(key);
                let stats_present = old(db).stats_map().contains_key(core_id);
                &&& (r is Ok <==> bal_present && (pos_present ==> stats_present) && (!pos_present
                    ==> fill.decision.spec_is_entry()))
                &&& (r is Err ==> *final(db) == *old(db))
                &&& (!bal_present ==> r == Err::<Vec<Event>, PortfolioError>(
                    PortfolioError::RepositoryInteraction(DatabaseError::DataMissing),
                ))
                &&& (bal_present && pos_present && !stats_present ==> r == Err::<
                    Vec<Event>,
                    PortfolioError,
                >(PortfolioError::RepositoryInteraction(DatabaseError::DataMissing)))
                &&& (bal_present && !pos_present && !fill.decision.spec_is_entry() ==> r == Err::<
                    Vec<Event>,
                    PortfolioError,
                >(PortfolioError::CannotEnterPositionWithExitFill))
                &&& (r matches Ok(events) ==> {
                    let b = old(db).balance_map()[bid];
                    if pos_present {
                        let p = old(db).open_map()[key].spec_exit(*fill);
                        let b2 = Self::spec_exit_balance(b, p, fill.time);
                        &&& events@ == seq![Event::PositionExit(p), Event::Balance(b2)]
                        &&& final(db).open_map() == old(db).open_map().remove(key)
                        &&& final(db).closed() == old(db).closed().push(p)
                        &&& final(db).stats_map() == old(db).stats_map().insert(
                            core_id,
                            old(db).stats_map()[core_id].spec_update(p),
                        )
                        &&& final(db).balance_map() == old(db).balance_map().insert(bid, b2)
                        &&& final(db).candle_map() == old(db).candle_map()
                    } else {
                        let p = Position::spec_enter(core_id, *fill);
                        let b2 = Self::spec_entry_balance(b, p, fill.time);
                        &&& events@ == seq![Event::PositionNew(p), Event::Balance(b2)]
                        &&& final(db).open_map() == old(db).open_map().insert(key, p)
                        &&& final(db).closed() == old(db).closed()
                        &&& final(db).stats_map() == old(db).stats_map()
                        &&& final(db).balance_map() == old(db).balance_map().insert(bid, b2)
                        &&& final(db).candle_map() == old(db).candle_map()
                    }
                })
            }),
            forall|c: u128, eq: int|
                equity_invariant(*old(db), c, eq) ==> #[trigger] equity_invariant(
                    *final(db),
                    c,
                    eq,
                ),
    {
        let key = determine_position_id(core_id, fill.asset);
        let mut balance = match db.get_balance(core_id) {
            Ok(b) => b,
            Err(e) => {
                return Err(PortfolioError::RepositoryInteraction(e));
            },
        };
        balance.time = fill.time;
        let mut events: Vec<Event> = Vec::new();
        let position_peek = match db.get_open_position(&key) {
            Ok(p) => p,
            Err(e) => {
                return Err(PortfolioError::RepositoryInteraction(e));
            },
        };
        match position_peek {
            Some(_) => {
                let mut stats = match db.get_statistics(core_id) {
                    Ok(st) => st,
                    Err(e) => {
                        return Err(PortfolioError::RepositoryInteraction(e));
                    },
                };
                proof {
                    lemma_open_map_key_matches(*db, key);
                }
                let removed = match db.remove_position(&key) {
                    Ok(Some(p)) => p,
                    _ => {
                        proof {
                            assert(false);
                        }
                        return Err(PortfolioError::RepositoryInteraction(
                            DatabaseError::DataMissing,
                        ));
                    },
                };
                let mut position = removed;
                let _ = position.exit(fill);
                events.push(Event::PositionExit(position));
                balance.available = balance.available + position.enter_value_gross
                    + position.realised_pnl + position.enter_fees_total;
                balance.total = balance.total + position.realised_pnl;
                stats.update(&position);
                let _ = db.set_statistics(core_id, stats);
                let _ = db.set_exited_position(core_id, position);
                events.push(Event::Balance(balance));
                let _ = db.set_balance(core_id, balance);
                proof {
                    let p = old(db).open_map()[key].spec_exit(*fill);
                    assert(events@ =~= seq![Event::PositionExit(p), Event::Balance(balance)]);
                    assert(old(db).closed().push(p).drop_last() =~= old(db).closed());
                    assert(forall|cc: u128|
                        locked_contribution(p, cc) == locked_contribution(
                            old(db).open_map()[key],
                            cc,
                        ));
                    assert forall|c: u128, eq: int|
                        equity_invariant(*old(db), c, eq) implies #[trigger] equity_invariant(
                        *final(db),
                        c,
                        eq,
                    ) by {
                        lemma_fill_exit_preserves_equity(*old(db), *final(db), core_id, p, balance, c, eq);
                    }
                }
                Ok(events)
            },
            None => {
                let position = match Position::enter(core_id, fill) {
                    Ok(p) => p,
                    Err(e) => {
                        return Err(e);
                    },
                };
                events.push(Event::PositionNew(position));
                balance.available = balance.available - position.enter_value_gross
                    - position.enter_fees_total;
                let _ = db.set_open_position(position);
                events.push(Event::Balance(balance));
                let _ = db.set_balance(core_id, balance);
                proof {
                    assert(events@ =~= seq![Event::PositionNew(position), Event::Balance(balance)]);
                    assert forall|c: u128, eq: int|
                        equity_invariant(*old(db), c, eq) implies #[trigger] equity_invariant(
                        *final(db),
                        c,
                        eq,
                    ) by {
                        lemma_fill_entry_preserves_equity(*old(db), *final(db), core_id, position, balance, c, eq);
                    }
                }
                Ok(events)
            },
        }
    }

    /// The model after marking any open position on an event's pair at its
    /// price, paired with the update this emits.
    pub open spec fn model_after_market(m: DbModel, core_id: u128, market: MarketEvent) -> (
        DbModel,
        Option<PositionUpdate>,
    ) {
        let key = PositionId { core_id, pair: market.pair };
        if m.open.contains_key(key) {
            match m.open[key].spec_update_result(market) {
                Some(pu) => ((DbModel { open: m.open.insert(key, pu.0), ..m }), Some(pu.1)),
                None => (m, None),
            }
        } else {
            (m, None)
        }
    }

    /// The model and emissions after a fill is applied, on the paths where
    /// applying it succeeds.
    pub open spec fn model_after_fill(m: DbModel, core_id: u128, fill: FillEvent) -> (
        DbModel,
        Seq<Event>,
    ) {
        let key = PositionId { core_id, pair: fill.asset };
        let bid = BalanceId { core_id };
        if m.open.contains_key(key) {
            let p = m.open[key].spec_exit(fill);
            let b2 = Self::spec_exit_balance(m.balances[bid], p, fill.time);
            (
                (DbModel {
                    open: m.open.remove(key),
                    balances: m.balances.insert(bid, b2),
                    stats: m.stats.insert(core_id, m.stats[core_id].spec_update(p)),
                    closed: m.closed.push(p),
                    ..m
                }),
                seq![Event::PositionExit(p), Event::Balance(b2)],
            )
        } else {
            let p = Position::spec_enter(core_id, fill);
            let b2 = Self::spec_entry_balance(m.balances[bid], p, fill.time);
            (
                (DbModel {
                    open: m.open.insert(key, p),
                    balances: m.balances.insert(bid, b2),
                    ..m
                }),
                seq![Event::PositionNew(p), Event::Balance(b2)],
            )
        }
    }

    /// A session's statistics.
    pub fn get_statistics(&self, db: &Database, core_id: u128) -> (r: Result<
        TradingSummary,
        DatabaseError,
    >)
        requires
            db.wf(),
        ensures
            r is Ok <==> db.stats_map().contains_key(core_id),
            r matches Ok(st) ==> st == db.stats_map()[core_id],
    {
        db.get_statistics(core_id)
    }
}

/// Closing a position preserves the equity equation: the realised profit
/// moves total and available together, and the closed position's entry
/// value and fees leave the locked value exactly as they rejoin the
/// available balance.
proof fn lemma_fill_exit_preserves_equity(
    dbo: Database,
    dbn: Database,
    core_id: u128,
    p: Position,
    b2: Balance,
    c: u128,
    eq: int,
)
    requires
        equity_invariant(dbo, c, eq),
        dbo.balance_map().contains_key((BalanceId { core_id })),
        p.core_id == core_id,
        -RESULT_LIMIT <= dbo.balance_map()[(BalanceId { core_id })].total + p.realised_pnl
            <= RESULT_LIMIT,
        -RESULT_LIMIT <= dbo.balance_map()[(BalanceId { core_id })].available
            + p.enter_value_gross + p.realised_pnl + p.enter_fees_total <= RESULT_LIMIT,
        b2 == Portfolio::spec_exit_balance(
            dbo.balance_map()[(BalanceId { core_id })],
            p,
            b2.time,
        ),
        dbn.balance_map() == dbo.balance_map().insert((BalanceId { core_id }), b2),
        dbn.closed() == dbo.closed().push(p),
        forall|cc: u128|
            #[trigger] locked_of(dbn.open_positions@, cc) == locked_of(dbo.open_positions@, cc)
                - locked_contribution(p, cc),
    ensures
        equity_invariant(dbn, c, eq),
{
    assert(dbn.closed().drop_last() =~= dbo.closed());
    assert(sum_realised_pnl(positions_of_core(dbn.closed(), c)) == sum_realised_pnl(
        positions_of_core(dbo.closed(), c),
    ) + if p.core_id == c {
        p.realised_pnl as int
    } else {
        0
    }) by {
        assert(positions_of_core(dbn.closed(), c) == {
            let prefix = positions_of_core(dbo.closed(), c);
            if p.core_id == c {
                prefix.push(p)
            } else {
                prefix
            }
        });
        if p.core_id == c {
            assert(positions_of_core(dbo.closed(), c).push(p).drop_last() =~= positions_of_core(
                dbo.closed(),
                c,
            ));
        }
    }
    if c != core_id {
        assert((BalanceId { core_id: c }) != (BalanceId { core_id }));
        assert(locked_contribution(p, c) == 0);
    }
}

/// Opening a position preserves the equity equation: the entry value and
/// fees leave the available balance exactly as they enter the locked
/// value, and the total is untouched.
proof fn lemma_fill_entry_preserves_equity(
    dbo: Database,
    dbn: Database,
    core_id: u128,
    p: Position,
    b2: Balance,
    c: u128,
    eq: int,
)
    requires
        equity_invariant(dbo, c, eq),
        dbo.balance_map().contains_key((BalanceId { core_id })),
        p.core_id == core_id,
        -RESULT_LIMIT <= dbo.balance_map()[(BalanceId { core_id })].available
            - p.enter_value_gross - p.enter_fees_total <= RESULT_LIMIT,
        b2 == Portfolio::spec_entry_balance(
            dbo.balance_map()[(BalanceId { core_id })],
            p,
            b2.time,
        ),
        dbn.balance_map() == dbo.balance_map().insert((BalanceId { core_id }), b2),
        dbn.closed() == dbo.closed(),
        forall|cc: u128|
            #[trigger] locked_of(dbn.open_positions@, cc) == locked_of(dbo.open_positions@, cc)
                + locked_contribution(p, cc),
    ensures
        equity_invariant(dbn, c, eq),
{
    if c != core_id {
        assert((BalanceId { core_id: c }) != (BalanceId { core_id }));
        assert(locked_contribution(p, c) == 0);
    }
}

/// Risk policy: may veto an order or pass it through. The default policy
/// passes every order unchanged.
#[derive(Clone, Copy, PartialEq, Debug)]
pub struct RiskEvaluator {}

impl RiskEvaluator {
    /// Evaluate an order; the default policy returns it unchanged.
    pub fn evaluate_order(&self, order: OrderEvent) -> (r: Option<OrderEvent>)
        ensures
            r == Some(order),
    {
        Some(order)
    }
}

/// The portfolio policy object: allocation, risk and statistics
/// configuration. It is stateless; all shared state lives in the
/// [`crate::database::Database`] that its operations take.
#[derive(Clone, Copy, PartialEq, Debug)]
pub struct Portfolio {
    pub allocation_manager: Allocator,
    pub risk_manager: RiskEvaluator,
    pub statistic_config: StatisticConfig,
}

impl Portfolio {
    pub open spec fn wf(self) -> bool {
        self.allocation_manager.wf()
    }

    pub fn builder() -> (r: PortfolioBuilder)
        ensures
            r == PortfolioBuilder::spec_new(),
    {
        PortfolioBuilder::new()
    }
}

/// Accumulates the parts of a portfolio; `build` succeeds once every part
/// was supplied.
#[derive(Clone, Copy, PartialEq, Debug)]
pub struct PortfolioBuilder {
    pub allocation_manager: Option<Allocator>,
    pub risk_manager: Option<RiskEvaluator>,
    pub statistic_config: Option<StatisticConfig>,
}

impl PortfolioBuilder {
    pub open spec fn spec_new() -> PortfolioBuilder {
        PortfolioBuilder { allocation_manager: None, risk_manager: None, statistic_config: None }
    }

    pub open spec fn complete(self) -> bool {
        self.allocation_manager is Some && self.risk_manager is Some && self.statistic_config
            is Some
    }

    pub fn new() -> (r: PortfolioBuilder)
        ensures
            r == PortfolioBuilder::spec_new(),
    {
        PortfolioBuilder { allocation_manager: None, risk_manager: None, statistic_config: None }
    }

    pub fn allocation_manager(self, value: Allocator) -> (r: PortfolioBuilder)
        ensures
            r == (PortfolioBuilder { allocation_manager: Some(value), ..self }),
    {
        PortfolioBuilder { allocation_manager: Some(value), ..self }
    }

    pub fn risk_manager(self, value: RiskEvaluator) -> (r: PortfolioBuilder)
        ensures
            r == (PortfolioBuilder { risk_manager: Some(value), ..self }),
    {
        PortfolioBuilder { risk_manager: Some(value), ..self }
    }

    pub fn statistic_config(self, value: StatisticConfig) -> (r: PortfolioBuilder)
        ensures
            r == (PortfolioBuilder { statistic_config: Some(value), ..self }),
    {
        PortfolioBuilder { statistic_config: Some(value), ..self }
    }

    /// Assemble the portfolio. Succeeds exactly when every part was
    /// supplied.
    pub fn build(self) -> (r: Result<Portfolio, PortfolioError>)
        ensures
            r is Ok <==> self.complete(),
            r is Err ==> r == Err::<Portfolio, PortfolioError>(PortfolioError::BuilderIncomplete),
            r matches Ok(p) ==> {
                &&& Some(p.allocation_manager) == self.allocation_manager
                &&& Some(p.risk_manager) == self.risk_manager
                &&& Some(p.statistic_config) == self.statistic_config
            },
    {
        let allocation_manager = match self.allocation_manager {
            Some(v) => v,
            None => {
                return Err(PortfolioError::BuilderIncomplete);
            },
        };
        let risk_manager = match self.risk_manager {
            Some(v) => v,
            None => {
                return Err(PortfolioError::BuilderIncomplete);
            },
        };
        let statistic_config = match self.statistic_config {
            Some(v) => v,
            None => {
                return Err(PortfolioError::BuilderIncomplete);
            },
        };
        Ok(Portfolio { allocation_manager, risk_manager, statistic_config })
    }
}

} // verus!
