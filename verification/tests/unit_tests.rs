//! Unit tests of the library's pieces: fixed-point arithmetic, signal
//! policy, allocation, fills, statistics, storage and configuration.

use meshetar::account::{ExchangeAccountBalance, RawExchangeAccount};
use meshetar::assets::{Candle, Level, OrderBookL1, Pair, Side};
use meshetar::balance::Balance;
use meshetar::config::{ExchangeConfig, UserConfig};
use meshetar::database::Database;
use meshetar::engine::{min_starting_time, plan_command, Command, Core, CoreBuilder};
use meshetar::exchange::{
    fill_order_response, next_fetch_start, truncate_order_quantity, weighted_average_price,
    ExchangeError, ExchangeFillResponse, ExchangeFillResponseFill,
};
use meshetar::execution::{Execution, Fees, FillEvent, FillEventBuilder};
use meshetar::fixed::{abs_amount, div_scaled, mul_scaled, mul_scaled_signed};
use meshetar::portfolio::{parse_signal_decisions, Allocator, OrderEvent, Portfolio, RiskEvaluator};
use meshetar::position::{
    determine_exited_positions_id, determine_position_id, Position, PositionId,
};
use meshetar::statistic::{StatisticConfig, TradingSummary};
use meshetar::strategy::{
    generate_backtest_signals, generate_signals_map, label_for_time, parse_model_label, Decision,
    ModelLabel, Signal, SignalMap, SignalStrength, Strategy,
};
use meshetar::assets::{build_backtest_events, trim_to_last_n, MarketEvent, MarketEventDetail, MarketMeta};
use meshetar::trader::TraderError;
use meshetar::utils::{generate_petname, generate_uuid, now_millis};

const SCALE: i64 = 1_000_000;

#[test]
fn fixed_point_arithmetic_is_exact() {
    // 1.5 * 2.5 == 3.75
    assert_eq!(mul_scaled(1_500_000, 2_500_000), 3_750_000);
    // 5 / 2 == 2.5
    assert_eq!(div_scaled(5_000_000, 2_000_000), 2_500_000);
    // Signed multiply truncates toward zero.
    assert_eq!(mul_scaled_signed(-1_500_000, 1_000_000), -1_500_000);
    assert_eq!(abs_amount(-42), 42);
}

#[test]
fn fees_are_rate_times_gross_plus_slippage() {
    let fees = Fees { exchange: 1_000, slippage: 7 };
    // 0.001 * 100.0 + slippage
    assert_eq!(fees.calculate_total_fees(100 * SCALE), 100_000 + 7);
    let none = Fees::default();
    assert_eq!(none.calculate_total_fees(100 * SCALE), 0);
}

#[test]
fn signal_map_of_labels() {
    let buy = generate_signals_map(ModelLabel::Buy);
    assert_eq!(buy.long, Some(SignalStrength(SCALE)));
    assert_eq!(buy.close_long, None);
    let sell = generate_signals_map(ModelLabel::Sell);
    assert_eq!(sell.close_long, Some(SignalStrength(SCALE)));
    assert_eq!(sell.long, None);
    let hold = generate_signals_map(ModelLabel::Hold);
    assert!(hold.is_empty());
}

#[test]
fn model_label_parsing() {
    assert_eq!(parse_model_label(&String::from("buy")), ModelLabel::Buy);
    assert_eq!(parse_model_label(&String::from("sell")), ModelLabel::Sell);
    assert_eq!(parse_model_label(&String::from("hold")), ModelLabel::Hold);
    assert_eq!(parse_model_label(&String::from("anything")), ModelLabel::Hold);
}

#[test]
fn decision_predicates() {
    assert!(Decision::Long.is_entry());
    assert!(Decision::Short.is_entry());
    assert!(Decision::CloseLong.is_exit());
    assert!(Decision::CloseShort.is_exit());
    assert!(Decision::Long.is_long());
    assert!(Decision::Short.is_short());
}

#[test]
fn parse_signal_decisions_nets_against_position() {
    let buy = generate_signals_map(ModelLabel::Buy);
    let sell = generate_signals_map(ModelLabel::Sell);
    // No position, a lone Long: entry taken.
    assert_eq!(
        parse_signal_decisions(None, &buy),
        Some((Decision::Long, SignalStrength(SCALE)))
    );
    // No position, no entry recommendation: nothing.
    assert_eq!(parse_signal_decisions(None, &sell), None);
    // Both Long and Short recommended: never both, nothing is taken.
    let both = SignalMap {
        long: Some(SignalStrength(SCALE)),
        close_long: None,
        short: Some(SignalStrength(SCALE)),
        close_short: None,
    };
    assert_eq!(parse_signal_decisions(None, &both), None);
    // An open Long accepts only CloseLong.
    let fill = FillEvent {
        time: 0,
        asset: Pair::BTCUSDT,
        market_meta: MarketMeta { close: 100 * SCALE, time: 0 },
        decision: Decision::Long,
        quantity: SCALE,
        fill_value_gross: 100 * SCALE,
        fees: Fees::default(),
    };
    let position = Position::enter(77, &fill).unwrap();
    assert_eq!(
        parse_signal_decisions(Some(&position), &sell),
        Some((Decision::CloseLong, SignalStrength(SCALE)))
    );
    assert_eq!(parse_signal_decisions(Some(&position), &buy), None);
}

#[test]
fn position_enter_and_exit_accounting() {
    let entry = FillEvent {
        time: 10,
        asset: Pair::BTCUSDT,
        market_meta: MarketMeta { close: 100 * SCALE, time: 10 },
        decision: Decision::Long,
        quantity: 2 * SCALE,
        fill_value_gross: 200 * SCALE,
        fees: Fees { exchange: 1_000, slippage: 0 },
    };
    let mut p = Position::enter(5, &entry).unwrap();
    assert_eq!(p.side, Side::Buy);
    assert_eq!(p.enter_avg_price_gross, 100 * SCALE);
    assert_eq!(p.enter_fees_total, 200_000);
    assert_eq!(p.realised_pnl, 0);
    assert_eq!(p.position_id, determine_position_id(5, Pair::BTCUSDT));

    // An exit fill carrying an entry decision is refused.
    assert!(Position::enter(5, &FillEvent { decision: Decision::CloseLong, ..entry }).is_err());
    assert!(Position::enter(5, &FillEvent { quantity: 0, ..entry }).is_err());

    let exit = FillEvent {
        time: 20,
        asset: Pair::BTCUSDT,
        market_meta: MarketMeta { close: 110 * SCALE, time: 20 },
        decision: Decision::CloseLong,
        quantity: -2 * SCALE,
        fill_value_gross: 220 * SCALE,
        fees: Fees { exchange: 1_000, slippage: 0 },
    };
    p.exit(&exit).unwrap();
    // (110 - 100) * 2 - 0.2 - 0.22 == 19.58
    assert_eq!(p.realised_pnl, 19_580_000);
    assert_eq!(p.exit_avg_price_gross, Some(110 * SCALE));
    assert_eq!(p.exit_time, Some(20));
}

#[test]
fn position_update_marks_price() {
    let entry = FillEvent {
        time: 10,
        asset: Pair::BTCUSDT,
        market_meta: MarketMeta { close: 100 * SCALE, time: 10 },
        decision: Decision::Long,
        quantity: SCALE,
        fill_value_gross: 100 * SCALE,
        fees: Fees::default(),
    };
    let mut p = Position::enter(5, &entry).unwrap();
    let market = MarketEvent {
        time: 70_000,
        pair: Pair::BTCUSDT,
        detail: MarketEventDetail::Candle(Candle {
            open_time: 0,
            close_time: 60_000,
            open: 100 * SCALE,
            high: 105 * SCALE,
            low: 99 * SCALE,
            close: 105 * SCALE,
            volume: SCALE,
            trade_count: 3,
        }),
    };
    let update = p.update(&market).unwrap();
    assert_eq!(update.current_symbol_price, 105 * SCALE);
    assert_eq!(update.current_value_gross, 105 * SCALE);
    assert_eq!(update.unrealised_pnl, 5 * SCALE);
    assert_eq!(p.meta.update_time, 70_000);
}

#[test]
fn allocator_caps_by_available_balance() {
    let allocator = Allocator { default_order_value: 100 * SCALE };
    let mut order = OrderEvent {
        time: 0,
        pair: Pair::BTCUSDT,
        decision: Decision::Long,
        market_meta: MarketMeta { close: 100 * SCALE, time: 0 },
        quantity: SCALE,
    };
    // Plenty of cash: the full default order value is committed.
    allocator.allocate_order(&mut order, None, SignalStrength(SCALE), 1_000 * SCALE);
    assert_eq!(order.quantity, SCALE);
    // Only 50 available: capped at 0.5.
    allocator.allocate_order(&mut order, None, SignalStrength(SCALE), 50 * SCALE);
    assert_eq!(order.quantity, SCALE / 2);
    // Half strength commits half the default value.
    allocator.allocate_order(&mut order, None, SignalStrength(SCALE / 2), 1_000 * SCALE);
    assert_eq!(order.quantity, SCALE / 2);
}

#[test]
fn risk_evaluator_passes_orders_through() {
    let order = OrderEvent {
        time: 0,
        pair: Pair::BTCUSDT,
        decision: Decision::Long,
        market_meta: MarketMeta { close: 100 * SCALE, time: 0 },
        quantity: SCALE,
    };
    assert_eq!(RiskEvaluator {}.evaluate_order(order), Some(order));
}

#[test]
fn simulated_fill_executes_at_candle_close() {
    let execution = Execution::new(1_000);
    let order = OrderEvent {
        time: 42,
        pair: Pair::BTCUSDT,
        decision: Decision::Long,
        market_meta: MarketMeta { close: 100 * SCALE, time: 41 },
        quantity: SCALE / 2,
    };
    let fill = execution.generate_fill(&order);
    assert_eq!(fill.time, 42);
    assert_eq!(fill.quantity, SCALE / 2);
    assert_eq!(fill.fill_value_gross, 50 * SCALE);
    assert_eq!(fill.fees.exchange, 1_000);
    assert_eq!(fill.fees.slippage, 0);
}

#[test]
fn weighted_average_price_is_quantity_weighted() {
    let fills = vec![
        ExchangeFillResponseFill { price: 100 * SCALE, qty: SCALE, commission: 0 },
        ExchangeFillResponseFill { price: 110 * SCALE, qty: 3 * SCALE, commission: 0 },
    ];
    // (100 * 1 + 110 * 3) / 4 == 107.5
    assert_eq!(weighted_average_price(&fills), Some(107_500_000));
    let zero = vec![ExchangeFillResponseFill { price: 100 * SCALE, qty: 0, commission: 0 }];
    assert_eq!(weighted_average_price(&zero), None);
    // The exact sums keep the mean inside the price envelope even for a
    // one-micro price at a fractional quantity.
    let tiny = vec![ExchangeFillResponseFill { price: 1, qty: 999_999, commission: 0 }];
    assert_eq!(weighted_average_price(&tiny), Some(1));
}

#[test]
fn fill_order_response_requires_filled_status() {
    let fills = vec![ExchangeFillResponseFill { price: 100 * SCALE, qty: SCALE, commission: 0 }];
    let filled = ExchangeFillResponse {
        transact_time: 123,
        executed_qty: SCALE,
        status: String::from("FILLED"),
        fills: fills.clone(),
    };
    let fill = fill_order_response(&filled).unwrap();
    assert_eq!(fill.qty, SCALE);
    assert_eq!(fill.updated_at, 123);
    assert_eq!(fill.price, 100 * SCALE);

    let rejected = ExchangeFillResponse {
        transact_time: 123,
        executed_qty: SCALE,
        status: String::from("EXPIRED"),
        fills,
    };
    assert_eq!(fill_order_response(&rejected), Err(ExchangeError::UnfilledOrder));

    let empty = ExchangeFillResponse {
        transact_time: 123,
        executed_qty: SCALE,
        status: String::from("FILLED"),
        fills: Vec::new(),
    };
    assert_eq!(fill_order_response(&empty), Err(ExchangeError::UnfilledOrder));
}

#[test]
fn order_quantity_truncates_to_five_decimals() {
    // 0.123456 truncates to 0.12345: never more than was allocated.
    assert_eq!(truncate_order_quantity(123_456), 123_450);
    assert_eq!(truncate_order_quantity(123_454), 123_450);
    // Toward zero for both signs.
    assert_eq!(truncate_order_quantity(15), 10);
    assert_eq!(truncate_order_quantity(-15), -10);
    // A multiple of ten micro-units is unchanged.
    assert_eq!(truncate_order_quantity(123_450), 123_450);
}

#[test]
fn fill_builder_requires_every_field() {
    let builder = FillEventBuilder::new()
        .time(1)
        .asset(Pair::BTCUSDT)
        .decision(Decision::Long)
        .quantity(SCALE)
        .fill_value_gross(100 * SCALE)
        .fees(Fees::default());
    // The error names the first missing field.
    assert_eq!(
        builder.build(),
        Err(TraderError::FillBuilderIncomplete("market_meta"))
    );
    assert_eq!(
        FillEventBuilder::new().build(),
        Err(TraderError::FillBuilderIncomplete("time"))
    );
    let fill = builder
        .market_meta(MarketMeta { close: 100 * SCALE, time: 0 })
        .build()
        .unwrap();
    assert_eq!(fill.quantity, SCALE);
}

#[test]
fn trading_summary_counts_and_drawdown() {
    let mut summary = TradingSummary::init(StatisticConfig { starting_equity: 0 }, 500);
    assert_eq!(summary.starting_time, 500);
    let entry = FillEvent {
        time: 10,
        asset: Pair::BTCUSDT,
        market_meta: MarketMeta { close: 100 * SCALE, time: 10 },
        decision: Decision::Long,
        quantity: SCALE,
        fill_value_gross: 100 * SCALE,
        fees: Fees::default(),
    };
    let mut win = Position::enter(5, &entry).unwrap();
    win.exit(&FillEvent {
        time: 20,
        decision: Decision::CloseLong,
        quantity: -SCALE,
        fill_value_gross: 110 * SCALE,
        ..entry
    })
    .unwrap();
    let mut loss = Position::enter(5, &entry).unwrap();
    loss.exit(&FillEvent {
        time: 30,
        decision: Decision::CloseLong,
        quantity: -SCALE,
        fill_value_gross: 96 * SCALE,
        ..entry
    })
    .unwrap();
    summary.update(&win);
    summary.update(&loss);
    assert_eq!(summary.trades, 2);
    assert_eq!(summary.wins, 1);
    assert_eq!(summary.losses, 1);
    assert_eq!(summary.total_pnl, 6 * SCALE);
    assert_eq!(summary.peak_pnl, 10 * SCALE);
    assert_eq!(summary.max_drawdown, 4 * SCALE);

    let mut folded = TradingSummary::init(StatisticConfig { starting_equity: 0 }, 500);
    folded.generate_summary(&vec![win, loss]);
    assert_eq!(folded, summary);
}

#[test]
fn database_balance_and_statistics_lookup() {
    let mut db = Database::new();
    assert!(db.get_balance(3).is_err());
    assert!(db.get_statistics(3).is_err());
    let balance = Balance { time: 1, total: 10, available: 8 };
    db.set_balance(3, balance).unwrap();
    assert_eq!(db.get_balance(3).unwrap(), balance);
    let summary = TradingSummary::init(StatisticConfig { starting_equity: 10 }, 1);
    db.set_statistics(3, summary).unwrap();
    assert_eq!(db.get_statistics(3).unwrap(), summary);
}

#[test]
fn database_open_position_index() {
    let mut db = Database::new();
    let entry = FillEvent {
        time: 10,
        asset: Pair::BTCUSDT,
        market_meta: MarketMeta { close: 100 * SCALE, time: 10 },
        decision: Decision::Long,
        quantity: SCALE,
        fill_value_gross: 100 * SCALE,
        fees: Fees::default(),
    };
    let p = Position::enter(5, &entry).unwrap();
    db.set_open_position(p).unwrap();
    let key = determine_position_id(5, Pair::BTCUSDT);
    assert_eq!(db.get_open_position(&key).unwrap(), Some(p));
    assert_eq!(db.get_all_open_positions(5).unwrap(), vec![p]);
    assert_eq!(db.get_all_open_positions(6).unwrap(), vec![]);
    assert_eq!(
        db.get_open_positions(5, &vec![Pair::BTCUSDT, Pair::ETHBTC]).unwrap(),
        vec![p]
    );
    assert_eq!(db.remove_position(&key).unwrap(), Some(p));
    assert_eq!(db.remove_position(&key).unwrap(), None);
}

#[test]
fn identifier_keys_are_injective() {
    assert_ne!(
        determine_position_id(1, Pair::BTCUSDT),
        determine_position_id(1, Pair::ETHBTC)
    );
    assert_ne!(
        determine_position_id(1, Pair::BTCUSDT),
        determine_position_id(2, Pair::BTCUSDT)
    );
    assert_eq!(
        determine_position_id(1, Pair::BTCUSDT),
        PositionId { core_id: 1, pair: Pair::BTCUSDT }
    );
    assert_ne!(determine_exited_positions_id(1), determine_exited_positions_id(2));
}

#[test]
fn pair_and_side_symbols() {
    assert_eq!(Pair::BTCUSDT.symbol(), "BTCUSDT");
    assert_eq!(Pair::ETHBTC.symbol(), "ETHBTC");
    assert_eq!(Pair::from_symbol(&String::from("BTCUSDT")), Some(Pair::BTCUSDT));
    assert_eq!(Pair::from_symbol(&String::from("ETHBTC")), Some(Pair::ETHBTC));
    assert_eq!(Pair::from_symbol(&String::from("DOGE")), None);
    assert_eq!(Side::Buy.to_binance_side(), "BUY");
    assert_eq!(Side::Sell.to_binance_side(), "SELL");
}

#[test]
fn order_book_mid_prices() {
    let book = OrderBookL1 {
        last_update_time: 0,
        best_bid: Level { price: 100 * SCALE, amount: SCALE },
        best_ask: Level { price: 102 * SCALE, amount: 3 * SCALE },
    };
    assert_eq!(book.mid_price(), 101 * SCALE);
    // (100 * 1 + 102 * 3) / 4 == 101.5
    assert_eq!(book.volume_weighted_mid_price(), 101_500_000);
}

#[test]
fn backtest_signal_alignment_by_open_time() {
    let outputs = vec![(ModelLabel::Buy, 0i64), (ModelLabel::Sell, 120_000i64)];
    assert_eq!(label_for_time(&outputs, 0), ModelLabel::Buy);
    assert_eq!(label_for_time(&outputs, 120_000), ModelLabel::Sell);
    assert_eq!(label_for_time(&outputs, 60_000), ModelLabel::Hold);

    let candles = vec![
        Candle { open_time: 0, close_time: 60_000, open: SCALE, high: SCALE, low: SCALE, close: SCALE, volume: 0, trade_count: 0 },
        Candle { open_time: 60_000, close_time: 120_000, open: SCALE, high: SCALE, low: SCALE, close: SCALE, volume: 0, trade_count: 0 },
        Candle { open_time: 120_000, close_time: 180_000, open: SCALE, high: SCALE, low: SCALE, close: SCALE, volume: 0, trade_count: 0 },
    ];
    let signals = generate_backtest_signals(&candles, &outputs, Pair::BTCUSDT);
    assert_eq!(signals.len(), 3);
    let first = signals[0].unwrap();
    assert_eq!(first.signals.long, Some(SignalStrength(SCALE)));
    assert_eq!(first.time, 60_000);
    assert!(signals[1].is_none());
    let third = signals[2].unwrap();
    assert_eq!(third.signals.close_long, Some(SignalStrength(SCALE)));
}

#[test]
fn strategy_returns_precomputed_backtest_signal_verbatim() {
    let strategy = Strategy::new(Pair::BTCUSDT, String::from("model"));
    let c = Candle { open_time: 0, close_time: 60_000, open: SCALE, high: SCALE, low: SCALE, close: SCALE, volume: 0, trade_count: 0 };
    let precomputed = Signal {
        time: 60_000,
        pair: Pair::BTCUSDT,
        market_meta: MarketMeta { close: SCALE, time: 60_000 },
        signals: generate_signals_map(ModelLabel::Buy),
    };
    let event = MarketEvent {
        time: 60_000,
        pair: Pair::BTCUSDT,
        detail: MarketEventDetail::BacktestCandle(c, Some(precomputed)),
    };
    assert_eq!(strategy.generate_signal(&event, ModelLabel::Sell, 999), Some(precomputed));

    // A live candle is judged by the adapter's label.
    let live = MarketEvent { time: 60_000, pair: Pair::BTCUSDT, detail: MarketEventDetail::Candle(c) };
    let signal = strategy.generate_signal(&live, ModelLabel::Buy, 999).unwrap();
    assert_eq!(signal.time, 999);
    assert_eq!(signal.signals.long, Some(SignalStrength(SCALE)));
    assert_eq!(strategy.generate_signal(&live, ModelLabel::Hold, 999), None);
}

#[test]
fn engine_builder_and_exit_dispatch() {
    let portfolio = Portfolio::builder()
        .allocation_manager(Allocator { default_order_value: 100 * SCALE })
        .risk_manager(RiskEvaluator {})
        .statistic_config(StatisticConfig { starting_equity: 0 })
        .build()
        .unwrap();
    assert!(CoreBuilder::new().build().is_err());
    let core = Core::builder()
        .id(1)
        .portfolio(portfolio)
        .statistics_config(StatisticConfig { starting_equity: 0 })
        .traders(Vec::new())
        .n_days_history_fetch(0)
        .build()
        .unwrap();
    assert_eq!(core.id, 1);

    let pairs = vec![Pair::BTCUSDT];
    let (dispatches, stop) = plan_command(&Command::ExitPosition(Pair::ETHBTC), &pairs);
    assert!(dispatches.is_empty());
    assert!(!stop);
    let (dispatches, stop) = plan_command(&Command::ExitAllPositions, &pairs);
    assert_eq!(dispatches, vec![(Pair::BTCUSDT, Command::ExitPosition(Pair::BTCUSDT))]);
    assert!(!stop);
}

#[test]
fn min_starting_time_finds_earliest() {
    assert_eq!(min_starting_time(&Vec::<TradingSummary>::new()), None);
    let s1 = TradingSummary::init(StatisticConfig { starting_equity: 0 }, 50);
    let s2 = TradingSummary::init(StatisticConfig { starting_equity: 0 }, 20);
    let s3 = TradingSummary::init(StatisticConfig { starting_equity: 0 }, 90);
    assert_eq!(min_starting_time(&vec![s1, s2, s3]), Some(20));
}

#[test]
fn next_fetch_start_pages_by_close_time() {
    assert_eq!(next_fetch_start(&Vec::<Candle>::new()), None);
    let page = vec![
        Candle { open_time: 0, close_time: 60_000, open: SCALE, high: SCALE, low: SCALE, close: SCALE, volume: 0, trade_count: 0 },
        Candle { open_time: 60_000, close_time: 120_000, open: SCALE, high: SCALE, low: SCALE, close: SCALE, volume: 0, trade_count: 0 },
    ];
    assert_eq!(next_fetch_start(&page), Some(120_000));
}

#[test]
fn exchange_account_conversions() {
    let row = ExchangeAccountBalance { a: String::from("BTC"), f: 3 * SCALE, l: SCALE };
    let (name, balance) = row.to_balance();
    assert_eq!(name, "BTC");
    assert_eq!(balance.total, 4 * SCALE);
    assert_eq!(balance.available, 3 * SCALE);

    let raw = RawExchangeAccount {
        maker_commission: 10,
        taker_commission: 10,
        buyer_commission: 0,
        seller_commission: 0,
        balances: vec![meshetar::account::ExchangeAccountBalanceFromRest {
            asset: String::from("BTC"),
            free: 2 * SCALE,
            locked: SCALE,
        }],
        can_trade: true,
        can_withdraw: true,
        can_deposit: true,
        brokered: false,
        require_self_trade_prevention: false,
        prevent_sor: false,
        update_time: 7,
        account_type: String::from("SPOT"),
        uid: 1,
    };
    let account = raw.to_exchange_account();
    // 10 basis points == 0.001 == 1000 micro-units.
    assert_eq!(account.maker_commission, 1_000);
    let balances = account.get_balances();
    assert_eq!(balances.len(), 1);
    assert_eq!(balances[0].0, "BTC");
    assert_eq!(balances[0].1.total, 3 * SCALE);
}

#[test]
fn exchange_balances_upsert_by_asset_name() {
    let mut db = Database::new();
    let b1 = Balance { time: 1, total: 10, available: 10 };
    let b2 = Balance { time: 2, total: 20, available: 15 };
    db.set_exchange_balances(&vec![(String::from("BTC"), b1), (String::from("ETH"), b1)]);
    db.set_exchange_balances(&vec![(String::from("BTC"), b2)]);
    let all = db.get_exchange_balances();
    assert_eq!(all.len(), 2);
    assert_eq!(all[0], (String::from("BTC"), b2));
    assert_eq!(all[1], (String::from("ETH"), b1));
}

#[test]
fn config_urls_and_conversion() {
    assert_eq!(
        ExchangeConfig::get_exchange_stream_url(true),
        "wss://testnet.binance.vision/ws"
    );
    assert_eq!(
        ExchangeConfig::get_exchange_stream_url(false),
        "wss://stream.binance.com:9443/ws"
    );
    assert_eq!(ExchangeConfig::get_exchange_url(true), "https://testnet.binance.vision");
    assert_eq!(ExchangeConfig::get_exchange_url(false), "https://api.binance.com");
    let user = UserConfig {
        binance_api_key: String::from("key"),
        binance_api_secret: String::from("secret"),
        use_testnet: true,
    };
    let config = user.to_config();
    assert_eq!(config.binance_api_key, "key");
    assert_eq!(config.binance_api_secret, "secret");
    assert!(config.use_testnet);
}

#[test]
fn outside_wrappers_answer() {
    // Nothing is promised of the clock or the random sources; the calls
    // must simply answer.
    let t = now_millis();
    assert!(t > 0);
    let a = generate_uuid();
    let b = generate_uuid();
    assert_ne!(a, b);
    let name = generate_petname();
    assert!(name.is_some());
    assert!(!name.unwrap().is_empty());
}

#[test]
fn candle_wf_check() {
    let good = Candle { open_time: 0, close_time: 60_000, open: 2, high: 3, low: 1, close: 2, volume: 5, trade_count: 1 };
    assert!(good.is_wf());
    let bad = Candle { close_time: 0, ..good };
    assert!(!bad.is_wf());
    let inverted = Candle { low: 4, ..good };
    assert!(!inverted.is_wf());
}

#[test]
fn at_most_one_open_position_per_key() {
    let mut db = Database::new();
    let entry = FillEvent {
        time: 10,
        asset: Pair::BTCUSDT,
        market_meta: MarketMeta { close: 100 * SCALE, time: 10 },
        decision: Decision::Long,
        quantity: SCALE,
        fill_value_gross: 100 * SCALE,
        fees: Fees::default(),
    };
    let first = Position::enter(5, &entry).unwrap();
    let second = Position::enter(5, &FillEvent { quantity: 2 * SCALE, fill_value_gross: 200 * SCALE, ..entry }).unwrap();
    db.set_open_position(first).unwrap();
    db.set_open_position(second).unwrap();
    // The second insert replaced the first: one position per session and pair.
    let open = db.get_all_open_positions(5).unwrap();
    assert_eq!(open.len(), 1);
    assert_eq!(open[0].quantity, 2 * SCALE);
}

#[test]
fn backtest_feed_trims_and_buffers() {
    let mk = |t: i64| Candle {
        open_time: t,
        close_time: t + 60_000,
        open: SCALE,
        high: SCALE,
        low: SCALE,
        close: SCALE,
        volume: 0,
        trade_count: 0,
    };
    let candles = vec![mk(0), mk(60_000), mk(120_000), mk(180_000)];
    let trimmed = trim_to_last_n(&candles, 2);
    assert_eq!(trimmed, vec![mk(120_000), mk(180_000)]);
    assert_eq!(trim_to_last_n(&candles, 10), candles);

    let signals: Vec<Option<Signal>> = vec![None, None, None, None];
    let events = build_backtest_events(&candles, &signals, Pair::BTCUSDT, 1);
    assert_eq!(events.len(), 3);
    assert_eq!(events[0].time, 120_000);
    assert!(matches!(
        events[0].detail,
        MarketEventDetail::BacktestCandle(c, None) if c.open_time == 60_000
    ));
}

#[test]
fn kline_frames_become_market_events() {
    let detail = meshetar::assets::KlineDetail {
        open_time: 0,
        close_time: 60_000,
        open_price: 100 * SCALE,
        close_price: 101 * SCALE,
        high_price: 102 * SCALE,
        low_price: 99 * SCALE,
        base_volume: 5 * SCALE,
        trade_count: 12,
        is_closed: true,
    };
    let event = meshetar::assets::KlineEvent {
        event_time: 60_500,
        symbol: String::from("BTCUSDT"),
        detail,
    };
    let market = meshetar::assets::kline_to_market_event(&event).unwrap();
    assert_eq!(market.time, 60_500);
    assert_eq!(market.pair, Pair::BTCUSDT);
    match market.detail {
        MarketEventDetail::Candle(c) => {
            assert_eq!(c.close, 101 * SCALE);
            assert_eq!(c.low, 99 * SCALE);
            assert!(c.is_wf());
        }
        _ => panic!("expected a candle event"),
    }
    let unknown = meshetar::assets::KlineEvent {
        event_time: 1,
        symbol: String::from("DOGE"),
        detail,
    };
    assert!(meshetar::assets::kline_to_market_event(&unknown).is_none());
}
