//! The engine: supervises the traders of one session, fans operator
//! commands out to them, seeds the session state, and finalizes the
//! session summary.

use vstd::prelude::*;

use crate::assets::Pair;
use crate::balance::{Balance, BalanceId};
use crate::database::{locked_of, positions_of_core, Database};
use crate::fixed::AMOUNT_LIMIT;
use crate::portfolio::{equity_invariant, Portfolio, PortfolioError};
use crate::position::Position;
use crate::statistic::{sum_realised_pnl, StatisticConfig, TradingSummary};
use crate::trader::Trader;

verus! {

/// An operator command addressed to the engine.
#[derive(Clone, PartialEq, Debug)]
pub enum Command {
    /// Close the open position on one instrument.
    ExitPosition(Pair),
    /// Close the open positions on every instrument.
    ExitAllPositions,
    /// Exit every position, stop every trader and end the session; the
    /// payload says why.
    Terminate(String),
}

/// A message the engine sends back to its operator.
#[derive(Clone, Copy, PartialEq, Eq, Structural, Debug)]
pub enum CoreMessage {
    Finished,
}

/// Errors of the engine layer.
#[derive(Clone, Copy, PartialEq, Eq, Structural, Debug)]
pub enum CoreError {
    /// A builder was asked to build before every field was supplied.
    BuilderIncomplete,
}

/// One engine run: the session identity, its policy objects, its traders
/// and its configuration.
#[derive(Clone, PartialEq, Debug)]
pub struct Core {
    pub id: u128,
    pub portfolio: Portfolio,
    pub statistics_config: StatisticConfig,
    pub traders: Vec<Trader>,
    pub n_days_history_fetch: i64,
}

impl Core {
    pub fn builder() -> (r: CoreBuilder)
        ensures
            r == CoreBuilder::spec_new(),
    {
        CoreBuilder::new()
    }

    /// The instruments this engine's traders serve, in trader order.
    pub fn trader_pairs(&self) -> (r: Vec<Pair>)
        ensures
            r@.len() == self.traders@.len(),
            forall|i: int| 0 <= i < r@.len() ==> r@[i] == (#[trigger] self.traders@[i]).pair,
    {
        let mut pairs: Vec<Pair> = Vec::new();
        let n = self.traders.len();
        for i in 0..n
            invariant
                n == self.traders@.len(),
                pairs@.len() == i,
                forall|k: int| 0 <= k < i ==> pairs@[k] == (#[trigger] self.traders@[k]).pair,
        {
            pairs.push(self.traders[i].pair);
        }
        pairs
    }
}

/// Seed a session in the store: a balance whose total and available both
/// equal the starting equity, stamped with the starting time, and a fresh
/// statistics record. Establishes the session's equity equation.
pub fn init_core_in_db(
    db: &mut Database,
    core_id: u128,
    starting_equity: i64,
    starting_time: i64,
) -> (r: Result<(), PortfolioError>)
    requires
        old(db).wf(),
        0 <= starting_equity <= AMOUNT_LIMIT,
        positions_of_core(old(db).closed(), core_id) == Seq::<Position>::empty(),
        forall|i: int|
            0 <= i < old(db).open_positions@.len() ==> (
            #[trigger] old(db).open_positions@[i]).0.core_id != core_id,
    ensures
        r is Ok,
        final(db).wf(),
        final(db).balance_map() == old(db).balance_map().insert(
            (BalanceId { core_id }),
            (Balance { time: starting_time, total: starting_equity, available: starting_equity }),
        ),
        final(db).stats_map() == old(db).stats_map().insert(
            core_id,
            TradingSummary::spec_init(starting_time),
        ),
        final(db).open_map() == old(db).open_map(),
        final(db).open_positions@ == old(db).open_positions@,
        final(db).candle_map() == old(db).candle_map(),
        final(db).closed() == old(db).closed(),
        equity_invariant(*final(db), core_id, starting_equity as int),
{
    let balance = Balance {
        time: starting_time,
        total: starting_equity,
        available: starting_equity,
    };
    let summary = TradingSummary::init(
        StatisticConfig { starting_equity },
        starting_time,
    );
    let set_res = db.set_balance(core_id, balance);
    if set_res.is_err() {
        proof {
            assert(false);
        }
        return Err(PortfolioError::BuilderIncomplete);
    }
    let stat_res = db.set_statistics(core_id, summary);
    if stat_res.is_err() {
        proof {
            assert(false);
        }
        return Err(PortfolioError::BuilderIncomplete);
    }
    proof {
        assert(forall|i: int|
            0 <= i < db.open_positions@.len() ==> (#[trigger] db.open_positions@[i]).1.core_id
                != core_id) by {
            assert(forall|i: int|
                0 <= i < old(db).open_positions@.len() ==> (
                #[trigger] old(db).open_positions@[i]).1.core_id != core_id);
        }
        lemma_locked_zero_without_core(db.open_positions@, core_id);
        assert(sum_realised_pnl(positions_of_core(old(db).closed(), core_id)) == 0);
    }
    Ok(())
}

/// A session with no entry in the open index has nothing locked.
proof fn lemma_locked_zero_without_core(
    entries: Seq<(crate::position::PositionId, Position)>,
    core_id: u128,
)
    requires
        forall|i: int| 0 <= i < entries.len() ==> (#[trigger] entries[i]).1.core_id != core_id,
    ensures
        locked_of(entries, core_id) == 0,
    decreases entries.len(),
{
    if entries.len() > 0 {
        assert(forall|i: int|
            0 <= i < entries.drop_last().len() ==> (#[trigger] entries.drop_last()[i]).1.core_id
                != core_id) by {
            assert(forall|i: int|
                0 <= i < entries.drop_last().len() ==> entries.drop_last()[i] == entries[i]);
        }
        lemma_locked_zero_without_core(entries.drop_last(), core_id);
        assert(entries[entries.len() - 1].1.core_id != core_id);
    }
}

/// The dispatches that ask every listed trader to exit its position, in
/// trader order.
pub open spec fn spec_exit_dispatches(pairs: Seq<Pair>) -> Seq<(Pair, Command)> {
    Seq::new(pairs.len(), |i: int| (pairs[i], Command::ExitPosition(pairs[i])))
}

/// The dispatches that ask every listed trader to terminate, in trader
/// order.
pub open spec fn spec_terminate_dispatches(pairs: Seq<Pair>, message: String) -> Seq<(
    Pair,
    Command,
)> {
    Seq::new(pairs.len(), |i: int| (pairs[i], Command::Terminate(message)))
}

/// Plan the per-trader dispatches for one operator command, and whether
/// the engine stops afterwards. `ExitPosition` goes to the addressed
/// trader alone (nowhere, if no trader serves the pair); `ExitAllPositions`
/// sends an exit to every trader; `Terminate` first sends an exit to every
/// trader, then a terminate to every trader, and stops the engine.
pub fn plan_command(command: &Command, pairs: &Vec<Pair>) -> (r: (Vec<(Pair, Command)>, bool))
    ensures
        (command matches Command::ExitPosition(p) ==> {
            &&& (pairs@.contains(*p) ==> r.0@ == seq![(*p, Command::ExitPosition(*p))])
            &&& (!pairs@.contains(*p) ==> r.0@ == Seq::<(Pair, Command)>::empty())
            &&& !r.1
        }),
        command is ExitAllPositions ==> r.0@ == spec_exit_dispatches(pairs@) && !r.1,
        (command matches Command::Terminate(message) ==> r.0@ == spec_exit_dispatches(pairs@)
            + spec_terminate_dispatches(pairs@, *message) && r.1),
{
    match command {
        Command::ExitPosition(p) => {
            let mut dispatches: Vec<(Pair, Command)> = Vec::new();
            let n = pairs.len();
            let mut found = false;
            for i in 0..n
                invariant
                    n == pairs@.len(),
                    found == pairs@.take(i as int).contains(*p),
            {
                proof {
                    assert(pairs@.take(i + 1).drop_last() =~= pairs@.take(i as int));
                    assert(pairs@.take(i + 1).last() == pairs@[i as int]);
                }
                if pairs[i] == *p {
                    found = true;
                }
            }
            proof {
                assert(pairs@.take(n as int) =~= pairs@);
            }
            if found {
                dispatches.push((*p, Command::ExitPosition(*p)));
            }
            (dispatches, false)
        },
        Command::ExitAllPositions => {
            let dispatches = exit_dispatches(pairs);
            (dispatches, false)
        },
        Command::Terminate(message) => {
            let mut dispatches = exit_dispatches(pairs);
            let n = pairs.len();
            for i in 0..n
                invariant
                    n == pairs@.len(),
                    dispatches@ == spec_exit_dispatches(pairs@) + spec_terminate_dispatches(
                        pairs@,
                        *message,
                    ).take(i as int),
            {
                proof {
                    assert(spec_terminate_dispatches(pairs@, *message).take(i + 1)
                        =~= spec_terminate_dispatches(pairs@, *message).take(i as int).push(
                        (pairs@[i as int], Command::Terminate(*message)),
                    ));
                }
                dispatches.push((pairs[i], Command::Terminate(message.clone())));
            }
            proof {
                assert(spec_terminate_dispatches(pairs@, *message).take(n as int)
                    =~= spec_terminate_dispatches(pairs@, *message));
            }
            (dispatches, true)
        },
    }
}

/// Build the exit dispatch for every listed trader.
fn exit_dispatches(pairs: &Vec<Pair>) -> (r: Vec<(Pair, Command)>)
    ensures
        r@ == spec_exit_dispatches(pairs@),
{
    let mut dispatches: Vec<(Pair, Command)> = Vec::new();
    let n = pairs.len();
    for i in 0..n
        invariant
            n == pairs@.len(),
            dispatches@.len() == i,
            forall|k: int|
                0 <= k < i ==> dispatches@[k] == (pairs@[k], Command::ExitPosition(
                    #[trigger] pairs@[k],
                )),
    {
        dispatches.push((pairs[i], Command::ExitPosition(pairs[i])));
    }
    proof {
        assert(dispatches@ =~= spec_exit_dispatches(pairs@));
    }
    dispatches
}

/// The earliest starting time among a list of statistics records; `None`
/// exactly when the list is empty.
pub fn min_starting_time(stats: &Vec<TradingSummary>) -> (r: Option<i64>)
    ensures
        r is None <==> stats@.len() == 0,
        r matches Some(t) ==> {
            &&& forall|i: int| 0 <= i < stats@.len() ==> t <= (#[trigger] stats@[i]).starting_time
            &&& exists|i: int|
                0 <= i < stats@.len() && t == (#[trigger] stats@[i]).starting_time
        },
{
    if stats.len() == 0 {
        return None;
    }
    let mut best: i64 = stats[0].starting_time;
    let n = stats.len();
    for i in 1..n
        invariant
            n == stats@.len(),
            n >= 1,
            forall|k: int| 0 <= k < i ==> best <= (#[trigger] stats@[k]).starting_time,
            exists|k: int| 0 <= k < i && best == (#[trigger] stats@[k]).starting_time,
    {
        if stats[i].starting_time < best {
            best = stats[i].starting_time;
        }
    }
    Some(best)
}

/// Aggregate a finished session: the summary folded over its exited
/// positions, together with those positions in exit order.
pub fn generate_session_summary(
    db: &Database,
    core_id: u128,
    config: StatisticConfig,
    starting_time: i64,
) -> (r: Result<(TradingSummary, Vec<Position>), PortfolioError>)
    requires
        db.wf(),
        TradingSummary::spec_init(starting_time).fold_fits(
            positions_of_core(db.closed(), core_id),
        ),
    ensures
        r is Ok,
        r matches Ok(pair) ==> {
            &&& pair.0 == TradingSummary::spec_init(starting_time).spec_fold(
                positions_of_core(db.closed(), core_id),
            )
            &&& pair.1@ == positions_of_core(db.closed(), core_id)
        },
{
    let closed = match db.get_exited_positions(core_id) {
        Ok(v) => v,
        Err(e) => {
            proof {
                assert(false);
            }
            return Err(PortfolioError::RepositoryInteraction(e));
        },
    };
    let mut summary = TradingSummary::init(config, starting_time);
    summary.generate_summary(&closed);
    Ok((summary, closed))
}

/// Accumulates the parts of an engine; `build` succeeds once every part
/// was supplied.
#[derive(Clone, PartialEq, Debug)]
pub struct CoreBuilder {
    pub id: Option<u128>,
    pub portfolio: Option<Portfolio>,
    pub statistics_config: Option<StatisticConfig>,
    pub traders: Option<Vec<Trader>>,
    pub n_days_history_fetch: Option<i64>,
}

impl CoreBuilder {
    pub open spec fn spec_new() -> CoreBuilder {
        CoreBuilder {
            id: None,
            portfolio: None,
            statistics_config: None,
            traders: None,
            n_days_history_fetch: None,
        }
    }

    pub open spec fn complete(self) -> bool {
        &&& self.id is Some
        &&& self.portfolio is Some
        &&& self.statistics_config is Some
        &&& self.traders is Some
        &&& self.n_days_history_fetch is Some
    }

    pub fn new() -> (r: CoreBuilder)
        ensures
            r == CoreBuilder::spec_new(),
    {
        CoreBuilder {
            id: None,
            portfolio: None,
            statistics_config: None,
            traders: None,
            n_days_history_fetch: None,
        }
    }

    pub fn id(self, value: u128) -> (r: CoreBuilder)
        ensures
            r == (CoreBuilder { id: Some(value), ..self }),
    {
        CoreBuilder { id: Some(value), ..self }
    }

    pub fn portfolio(self, value: Portfolio) -> (r: CoreBuilder)
        ensures
            r == (CoreBuilder { portfolio: Some(value), ..self }),
    {
        CoreBuilder { portfolio: Some(value), ..self }
    }

    pub fn statistics_config(self, value: StatisticConfig) -> (r: CoreBuilder)
        ensures
            r == (CoreBuilder { statistics_config: Some(value), ..self }),
    {
        CoreBuilder { statistics_config: Some(value), ..self }
    }

    pub fn traders(self, value: Vec<Trader>) -> (r: CoreBuilder)
        ensures
            r == (CoreBuilder { traders: Some(value), ..self }),
    {
        CoreBuilder { traders: Some(value), ..self }
    }

    pub fn n_days_history_fetch(self, value: i64) -> (r: CoreBuilder)
        ensures
            r == (CoreBuilder { n_days_history_fetch: Some(value), ..self }),
    {
        CoreBuilder { n_days_history_fetch: Some(value), ..self }
    }

    /// Assemble the engine. Succeeds exactly when every part was supplied.
    pub fn build(self) -> (r: Result<Core, CoreError>)
        ensures
            r is Ok <==> self.complete(),
            r is Err ==> r == Err::<Core, CoreError>(CoreError::BuilderIncomplete),
            r matches Ok(c) ==> {
                &&& Some(c.id) == self.id
                &&& Some(c.portfolio) == self.portfolio
                &&& Some(c.statistics_config) == self.statistics_config
                &&& Some(c.traders) == self.traders
                &&& Some(c.n_days_history_fetch) == self.n_days_history_fetch
            },
    {
        let id = match self.id {
            Some(v) => v,
            None => {
                return Err(CoreError::BuilderIncomplete);
            },
        };
        let portfolio = match self.portfolio {
            Some(v) => v,
            None => {
                return Err(CoreError::BuilderIncomplete);
            },
        };
        let statistics_config = match self.statistics_config {
            Some(v) => v,
            None => {
                return Err(CoreError::BuilderIncomplete);
            },
        };
        let traders = match self.traders {
            Some(v) => v,
            None => {
                return Err(CoreError::BuilderIncomplete);
            },
        };
        let n_days_history_fetch = match self.n_days_history_fetch {
            Some(v) => v,
            None => {
                return Err(CoreError::BuilderIncomplete);
            },
        };
        Ok(Core { id, portfolio, statistics_config, traders, n_days_history_fetch })
    }
}

} // verus!
