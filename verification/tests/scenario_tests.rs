//! End-to-end scenarios of the trading pipeline in backtest mode.

use meshetar::assets::{Candle, MarketEvent, MarketEventDetail, MarketMeta, Pair};
use meshetar::database::Database;
use meshetar::engine::{init_core_in_db, plan_command, Command};
use meshetar::events::Event;
use meshetar::execution::Execution;
use meshetar::portfolio::{Allocator, Portfolio, RiskEvaluator};
use meshetar::statistic::StatisticConfig;
use meshetar::strategy::{generate_signals_map, ModelLabel, Signal, Strategy};
use meshetar::trader::{CommandOutcome, SignalForceExit, Trader};

const SCALE: i64 = 1_000_000;

fn candle(open_time: i64, close: i64) -> Candle {
    Candle {
        open_time,
        close_time: open_time + 60_000,
        open: close,
        high: close,
        low: close,
        close,
        volume: SCALE,
        trade_count: 10,
    }
}

fn backtest_event(pair: Pair, c: Candle, label: Option<ModelLabel>) -> MarketEvent {
    let signal = label.map(|l| Signal {
        time: c.close_time,
        pair,
        market_meta: MarketMeta {
            close: c.close,
            time: c.close_time,
        },
        signals: generate_signals_map(l),
    });
    MarketEvent {
        time: c.close_time,
        pair,
        detail: MarketEventDetail::BacktestCandle(c, signal),
    }
}

fn make_trader(core_id: u128, fee: i64, default_order_value: i64) -> Trader {
    let portfolio = Portfolio::builder()
        .allocation_manager(Allocator { default_order_value })
        .risk_manager(RiskEvaluator {})
        .statistic_config(StatisticConfig {
            starting_equity: 1_000 * SCALE,
        })
        .build()
        .unwrap();
    Trader::builder()
        .core_id(core_id)
        .pair(Pair::BTCUSDT)
        .portfolio(portfolio)
        .strategy(Strategy::new(Pair::BTCUSDT, String::from("model")))
        .execution(Execution::new(fee))
        .trading_is_live(false)
        .build()
        .unwrap()
}

/// Clean long cycle: buy at 100, hold at 110, sell at 120 with a 0.1% fee.
#[test]
fn clean_long_cycle() {
    let core_id: u128 = 7;
    let mut db = Database::new();
    init_core_in_db(&mut db, core_id, 1_000 * SCALE, 0).unwrap();
    let trader = make_trader(core_id, 1_000, 100 * SCALE);
    let events = vec![
        backtest_event(Pair::BTCUSDT, candle(0, 100 * SCALE), Some(ModelLabel::Buy)),
        backtest_event(Pair::BTCUSDT, candle(60_000, 110 * SCALE), Some(ModelLabel::Hold)),
        backtest_event(Pair::BTCUSDT, candle(120_000, 120 * SCALE), Some(ModelLabel::Sell)),
    ];
    let emitted = trader.run_backtest(&mut db, &events);

    // The entry fill: quantity 1.0 at 100, fees 0.1.
    let entry_fill = emitted
        .iter()
        .find_map(|e| match e {
            Event::Fill(f) => Some(*f),
            _ => None,
        })
        .expect("an entry fill");
    assert_eq!(entry_fill.quantity, SCALE);
    assert_eq!(entry_fill.fill_value_gross, 100 * SCALE);

    let closed = db.get_exited_positions(core_id).unwrap();
    assert_eq!(closed.len(), 1);
    let p = &closed[0];
    assert_eq!(p.quantity, SCALE);
    assert_eq!(p.enter_avg_price_gross, 100 * SCALE);
    assert_eq!(p.enter_fees_total, 100_000);
    assert_eq!(p.exit_avg_price_gross, Some(120 * SCALE));
    assert_eq!(p.exit_fees_total, Some(120_000));
    assert_eq!(p.realised_pnl, 19_780_000);

    let balance = db.get_balance(core_id).unwrap();
    assert_eq!(balance.total, 1_019_780_000);
    assert_eq!(balance.available, 1_019_780_000);

    // No position remains open.
    assert!(db.get_open_position(&meshetar::position::determine_position_id(core_id, Pair::BTCUSDT))
        .unwrap()
        .is_none());
}

/// Per-trader event order: for the market event that opens the position,
/// Signal, Order, Fill and the bookkeeping records come after it, in
/// pipeline order, before the next market event.
#[test]
fn pipeline_event_order() {
    let core_id: u128 = 7;
    let mut db = Database::new();
    init_core_in_db(&mut db, core_id, 1_000 * SCALE, 0).unwrap();
    let trader = make_trader(core_id, 1_000, 100 * SCALE);
    let events = vec![
        backtest_event(Pair::BTCUSDT, candle(0, 100 * SCALE), Some(ModelLabel::Buy)),
        backtest_event(Pair::BTCUSDT, candle(60_000, 110 * SCALE), None),
    ];
    let emitted = trader.run_backtest(&mut db, &events);
    let stage = |e: &Event| -> u32 {
        match e {
            Event::Market(_) => 0,
            Event::Signal(_) | Event::SignalForceExit(_) => 1,
            Event::PositionUpdate(_) => 2,
            Event::Order(_) => 3,
            Event::Fill(_) => 4,
            Event::PositionNew(_) | Event::PositionExit(_) => 5,
            Event::Balance(_) => 6,
        }
    };
    // Split at the second Market event.
    let second_market = emitted
        .iter()
        .enumerate()
        .filter(|(_, e)| matches!(e, Event::Market(_)))
        .nth(1)
        .map(|(i, _)| i)
        .expect("two market events");
    let first_cascade = &emitted[..second_market];
    assert!(matches!(first_cascade[0], Event::Market(_)));
    for w in first_cascade.windows(2) {
        assert!(stage(&w[0]) < stage(&w[1]));
    }
    // The full long cycle of the first candle happened before the second
    // market event was consumed.
    assert!(first_cascade.iter().any(|e| matches!(e, Event::Fill(_))));
    assert!(first_cascade.iter().any(|e| matches!(e, Event::Balance(_))));
}

/// Veto on zero cash: with no equity, a buy signal produces no order.
#[test]
fn veto_on_zero_cash() {
    let core_id: u128 = 9;
    let mut db = Database::new();
    init_core_in_db(&mut db, core_id, 0, 0).unwrap();
    let trader = make_trader(core_id, 1_000, 100 * SCALE);
    let portfolio = trader.portfolio;
    let signal = Signal {
        time: 60_000,
        pair: Pair::BTCUSDT,
        market_meta: MarketMeta {
            close: 100 * SCALE,
            time: 60_000,
        },
        signals: generate_signals_map(ModelLabel::Buy),
    };
    let order = portfolio
        .generate_order(&db, core_id, &signal, false)
        .unwrap();
    assert!(order.is_none());
    assert!(db.get_all_open_positions(core_id).unwrap().is_empty());
}

/// Force exit on feed finish: the backtest ends while a Long entered at
/// 100 is marked at 105; the synthesised exit realises 5.0.
#[test]
fn force_exit_on_feed_finish() {
    let core_id: u128 = 11;
    let mut db = Database::new();
    init_core_in_db(&mut db, core_id, 1_000 * SCALE, 0).unwrap();
    let trader = make_trader(core_id, 0, 100 * SCALE);
    let events = vec![
        backtest_event(Pair::BTCUSDT, candle(0, 100 * SCALE), Some(ModelLabel::Buy)),
        backtest_event(Pair::BTCUSDT, candle(60_000, 105 * SCALE), None),
    ];
    let emitted = trader.run_backtest(&mut db, &events);

    let closed = db.get_exited_positions(core_id).unwrap();
    assert_eq!(closed.len(), 1);
    assert_eq!(closed[0].realised_pnl, 5 * SCALE);
    assert_eq!(closed[0].exit_avg_price_gross, Some(105 * SCALE));

    // The synthesised exit order is stamped with the position's last
    // update time: the close time of the final candle.
    let exit_order = emitted
        .iter()
        .rev()
        .find_map(|e| match e {
            Event::Order(o) => Some(*o),
            _ => None,
        })
        .expect("a forced exit order");
    assert_eq!(exit_order.time, 120_000);
    assert_eq!(exit_order.quantity, -SCALE);

    let balance = db.get_balance(core_id).unwrap();
    assert_eq!(balance.total, 1_005 * SCALE);
    assert_eq!(balance.available, 1_005 * SCALE);
}

/// Operator ExitPosition in live mode: the trader enqueues a force-exit
/// signal and the portfolio answers it with the matching close order that
/// reverses the open position.
#[test]
fn operator_exit_position() {
    let core_id: u128 = 13;
    let mut db = Database::new();
    init_core_in_db(&mut db, core_id, 1_000 * SCALE, 0).unwrap();
    // Open a Long first, through a clean buy at 100 with no fees.
    let trader = make_trader(core_id, 0, 100 * SCALE);
    let events = vec![backtest_event(
        Pair::BTCUSDT,
        candle(0, 100 * SCALE),
        Some(ModelLabel::Buy),
    )];
    // Run only the replay; the feed has not finished in live mode.
    let _ = trader.process_market_event(&mut db, &events[0], ModelLabel::Hold, 0);

    let now = 999_000;
    let outcome = trader.apply_command(&Command::ExitPosition(Pair::BTCUSDT), now);
    let sfe = match outcome {
        CommandOutcome::ForceExit(s) => s,
        _ => panic!("expected a force-exit outcome"),
    };
    assert_eq!(sfe.time, now);
    assert_eq!(sfe.asset, Pair::BTCUSDT);

    let order = trader
        .portfolio
        .generate_exit_order(&db, core_id, sfe, true)
        .unwrap()
        .expect("an exit order for the open position");
    assert_eq!(order.decision, meshetar::strategy::Decision::CloseLong);
    assert_eq!(order.quantity, -SCALE);
}

/// Terminate cascades: the engine first dispatches an exit to every
/// trader, then a terminate to every trader, and stops.
#[test]
fn terminate_cascades() {
    let pairs = vec![Pair::BTCUSDT, Pair::ETHBTC];
    let (dispatches, stop) = plan_command(&Command::Terminate(String::from("user")), &pairs);
    assert!(stop);
    assert_eq!(dispatches.len(), 4);
    assert_eq!(dispatches[0], (Pair::BTCUSDT, Command::ExitPosition(Pair::BTCUSDT)));
    assert_eq!(dispatches[1], (Pair::ETHBTC, Command::ExitPosition(Pair::ETHBTC)));
    assert_eq!(dispatches[2], (Pair::BTCUSDT, Command::Terminate(String::from("user"))));
    assert_eq!(dispatches[3], (Pair::ETHBTC, Command::Terminate(String::from("user"))));

    // A terminate command makes the trader break out of its loop.
    let trader = make_trader(1, 0, 100 * SCALE);
    assert!(matches!(
        trader.apply_command(&Command::Terminate(String::from("user")), 0),
        CommandOutcome::Terminate
    ));
    // A force-exit signal arrives first, so the trader can close its
    // position before terminating.
    assert!(matches!(
        trader.apply_command(&dispatches[0].1, 5),
        CommandOutcome::ForceExit(SignalForceExit {
            time: 5,
            asset: Pair::BTCUSDT
        })
    ));
}

/// Upsert idempotence: ingesting the same candle twice leaves exactly one
/// row, holding the latest values.
#[test]
fn upsert_idempotence() {
    let mut db = Database::new();
    let c1 = candle(0, 100 * SCALE);
    db.add_candles(Pair::BTCUSDT, &vec![c1, c1]).unwrap();
    let rows = db.fetch_all_candles(Pair::BTCUSDT).unwrap();
    assert_eq!(rows.len(), 1);
    assert_eq!(rows[0], c1);

    // A second ingest with updated values replaces the row.
    let mut c2 = c1;
    c2.close = 99 * SCALE;
    c2.low = 99 * SCALE;
    db.add_candles(Pair::BTCUSDT, &vec![c2]).unwrap();
    let rows = db.fetch_all_candles(Pair::BTCUSDT).unwrap();
    assert_eq!(rows.len(), 1);
    assert_eq!(rows[0].close, 99 * SCALE);
}

/// Candle write-then-read returns the same tuple, per pair.
#[test]
fn candle_roundtrip() {
    let mut db = Database::new();
    let c1 = candle(0, 100 * SCALE);
    let c2 = candle(60_000, 101 * SCALE);
    let other = candle(0, 5 * SCALE);
    db.add_candles(Pair::BTCUSDT, &vec![c1, c2]).unwrap();
    db.add_candles(Pair::ETHBTC, &vec![other]).unwrap();
    assert_eq!(db.fetch_all_candles(Pair::BTCUSDT).unwrap(), vec![c1, c2]);
    assert_eq!(db.fetch_all_candles(Pair::ETHBTC).unwrap(), vec![other]);
}

/// Backtest determinism: re-running the engine with the same stored
/// candles, model output and configuration produces identical closed
/// positions, balances and event streams.
#[test]
fn backtest_rerun_is_identical() {
    let run = || {
        let core_id: u128 = 7;
        let mut db = Database::new();
        init_core_in_db(&mut db, core_id, 1_000 * SCALE, 0).unwrap();
        let trader = make_trader(core_id, 1_000, 100 * SCALE);
        let events = vec![
            backtest_event(Pair::BTCUSDT, candle(0, 100 * SCALE), Some(ModelLabel::Buy)),
            backtest_event(Pair::BTCUSDT, candle(60_000, 110 * SCALE), None),
            backtest_event(Pair::BTCUSDT, candle(120_000, 120 * SCALE), Some(ModelLabel::Sell)),
        ];
        let emitted = trader.run_backtest(&mut db, &events);
        (emitted, db.get_exited_positions(core_id).unwrap(), db.get_balance(core_id).unwrap())
    };
    let first = run();
    let second = run();
    assert_eq!(first.0, second.0);
    assert_eq!(first.1, second.1);
    assert_eq!(first.2, second.2);
}

/// The equity equation across several cycles: the final total equals the
/// starting equity plus the realised profit and loss of every closed
/// position, and the available balance never exceeds the total.
#[test]
fn equity_equation_over_two_cycles() {
    let core_id: u128 = 21;
    let starting_equity = 1_000 * SCALE;
    let mut db = Database::new();
    init_core_in_db(&mut db, core_id, starting_equity, 0).unwrap();
    let trader = make_trader(core_id, 1_000, 100 * SCALE);
    let closes: [i64; 6] = [100, 120, 110, 90, 95, 130];
    let labels = [
        Some(ModelLabel::Buy),
        Some(ModelLabel::Sell),
        None,
        Some(ModelLabel::Buy),
        Some(ModelLabel::Sell),
        None,
    ];
    let events: Vec<MarketEvent> = closes
        .iter()
        .zip(labels.iter())
        .enumerate()
        .map(|(i, (c, l))| {
            backtest_event(Pair::BTCUSDT, candle((i as i64) * 60_000, c * SCALE), *l)
        })
        .collect();
    let _ = trader.run_backtest(&mut db, &events);

    let closed = db.get_exited_positions(core_id).unwrap();
    assert_eq!(closed.len(), 2);
    let realised: i64 = closed.iter().map(|p| p.realised_pnl).sum();
    let balance = db.get_balance(core_id).unwrap();
    assert_eq!(balance.total, starting_equity + realised);
    assert!(balance.available <= balance.total);
    // Everything was closed, so nothing stays locked.
    assert_eq!(balance.available, balance.total);
    let stats = db.get_statistics(core_id).unwrap();
    assert_eq!(stats.trades, 2);
    assert_eq!(stats.total_pnl, realised);
}
