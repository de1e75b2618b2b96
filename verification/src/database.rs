//! The in-memory indexed store all mutable session state lives in:
//! balances, open and exited positions, statistics, and the persistent
//! candle table.
//!
//! Every index is an association list with distinct keys; contracts speak
//! of the maps those lists denote (see [`crate::store`]). The candle table
//! mirrors the on-disk store's upsert semantics: it is keyed by
//! `(pair, open_time)` and an insert replaces the row with that key.

use vstd::prelude::*;

use crate::account::ExchangeAccount;
use crate::assets::{Candle, Pair};
use crate::balance::{Balance, BalanceId};
use crate::portfolio::DatabaseError;
use crate::position::{Position, PositionId};
use crate::statistic::TradingSummary;
use crate::store::{distinct_keys, map_of};
use crate::store::{
    lemma_map_of_absent, lemma_map_of_key_occurs, lemma_map_of_present, lemma_map_of_push,
    lemma_map_of_remove, lemma_map_of_update,
};

verus! {

/// The positions of an association list of open positions that belong to a
/// session, in storage order.
pub open spec fn open_positions_of(entries: Seq<(PositionId, Position)>, core_id: u128) -> Seq<
    Position,
>
    decreases entries.len(),
{
    if entries.len() == 0 {
        Seq::empty()
    } else {
        let prefix = open_positions_of(entries.drop_last(), core_id);
        if entries.last().0.core_id == core_id {
            prefix.push(entries.last().1)
        } else {
            prefix
        }
    }
}

/// The positions of a flat list that belong to a session, in order.
pub open spec fn positions_of_core(positions: Seq<Position>, core_id: u128) -> Seq<Position>
    decreases positions.len(),
{
    if positions.len() == 0 {
        Seq::empty()
    } else {
        let prefix = positions_of_core(positions.drop_last(), core_id);
        if positions.last().core_id == core_id {
            prefix.push(positions.last())
        } else {
            prefix
        }
    }
}

/// The candles of the table that belong to a pair, in storage order.
pub open spec fn candles_of_pair(entries: Seq<((Pair, i64), Candle)>, pair: Pair) -> Seq<Candle>
    decreases entries.len(),
{
    if entries.len() == 0 {
        Seq::empty()
    } else {
        let prefix = candles_of_pair(entries.drop_last(), pair);
        if entries.last().0.0 == pair {
            prefix.push(entries.last().1)
        } else {
            prefix
        }
    }
}

/// What one open position contributes to a session's locked value: the
/// entry value plus entry fees it took out of the available balance.
pub open spec fn locked_contribution(p: Position, core_id: u128) -> int {
    if p.core_id == core_id {
        p.enter_value_gross + p.enter_fees_total
    } else {
        0
    }
}

/// The value a session has locked in open positions: the sum of entry
/// value plus entry fees over its open positions.
pub open spec fn locked_of(entries: Seq<(PositionId, Position)>, core_id: u128) -> int
    decreases entries.len(),
{
    if entries.len() == 0 {
        0
    } else {
        locked_of(entries.drop_last(), core_id) + locked_contribution(entries.last().1, core_id)
    }
}

/// Overwriting the entry at an index shifts the locked value by the
/// difference of the contributions.
proof fn lemma_locked_update(entries: Seq<(PositionId, Position)>, i: int, p: Position, core_id: u128)
    requires
        0 <= i < entries.len(),
    ensures
        locked_of(entries.update(i, (entries[i].0, p)), core_id) == locked_of(entries, core_id)
            - locked_contribution(entries[i].1, core_id) + locked_contribution(p, core_id),
    decreases entries.len(),
{
    let updated = entries.update(i, (entries[i].0, p));
    if i == entries.len() - 1 {
        assert(updated.drop_last() =~= entries.drop_last());
        assert(updated.last() == (entries[i].0, p));
    } else {
        lemma_locked_update(entries.drop_last(), i, p, core_id);
        assert(updated.drop_last() =~= entries.drop_last().update(i, (entries[i].0, p)));
        assert(updated.last() == entries.last());
    }
}

/// Removing the entry at an index removes its contribution from the locked
/// value.
proof fn lemma_locked_remove(entries: Seq<(PositionId, Position)>, i: int, core_id: u128)
    requires
        0 <= i < entries.len(),
    ensures
        locked_of(entries.remove(i), core_id) == locked_of(entries, core_id)
            - locked_contribution(entries[i].1, core_id),
    decreases entries.len(),
{
    let removed = entries.remove(i);
    if i == entries.len() - 1 {
        assert(removed =~= entries.drop_last());
    } else {
        lemma_locked_remove(entries.drop_last(), i, core_id);
        assert(removed.drop_last() =~= entries.drop_last().remove(i));
        assert(removed.last() == entries.last());
    }
}

/// The mathematical model of the store: the maps its indexes denote and
/// the exited positions in order. Two stores with the same model behave
/// identically under every operation.
#[verifier::ext_equal]
pub struct DbModel {
    pub open: Map<PositionId, Position>,
    pub balances: Map<BalanceId, Balance>,
    pub stats: Map<u128, TradingSummary>,
    pub closed: Seq<Position>,
    pub candle_table: Map<(Pair, i64), Candle>,
}

/// The asset-name-keyed view of a list of per-asset exchange balances.
pub open spec fn asset_entries_view(s: Seq<(String, Balance)>) -> Seq<(Seq<char>, Balance)> {
    Seq::new(s.len(), |i: int| (s[i].0@, s[i].1))
}

/// The exchange balance table after upserting a batch in order.
pub open spec fn spec_upsert_exchange_balances(
    m: Map<Seq<char>, Balance>,
    entries: Seq<(Seq<char>, Balance)>,
) -> Map<Seq<char>, Balance>
    decreases entries.len(),
{
    if entries.len() == 0 {
        m
    } else {
        spec_upsert_exchange_balances(m, entries.drop_last()).insert(
            entries.last().0,
            entries.last().1,
        )
    }
}

/// The in-memory indexed store owning all mutable session state.
#[derive(Clone, PartialEq, Debug)]
pub struct Database {
    pub open_positions: Vec<(PositionId, Position)>,
    pub closed_positions: Vec<Position>,
    pub current_balances: Vec<(BalanceId, Balance)>,
    pub statistics: Vec<(u128, TradingSummary)>,
    pub candles: Vec<((Pair, i64), Candle)>,
    pub exchange_balances: Vec<(String, Balance)>,
    pub exchange_account: ExchangeAccount,
}

impl Database {
    /// The map of open positions by key.
    pub open spec fn open_map(self) -> Map<PositionId, Position> {
        map_of(self.open_positions@)
    }

    /// The map of balances by session.
    pub open spec fn balance_map(self) -> Map<BalanceId, Balance> {
        map_of(self.current_balances@)
    }

    /// The map of statistics by session.
    pub open spec fn stats_map(self) -> Map<u128, TradingSummary> {
        map_of(self.statistics@)
    }

    /// The candle table as a map keyed by pair and open time.
    pub open spec fn candle_map(self) -> Map<(Pair, i64), Candle> {
        map_of(self.candles@)
    }

    /// All exited positions, in exit order.
    pub open spec fn closed(self) -> Seq<Position> {
        self.closed_positions@
    }

    /// The exchange's per-asset balances, keyed by asset name.
    pub open spec fn exchange_balance_map(self) -> Map<Seq<char>, Balance> {
        map_of(asset_entries_view(self.exchange_balances@))
    }

    /// The mathematical model of this store.
    pub open spec fn model(self) -> DbModel {
        DbModel {
            open: self.open_map(),
            balances: self.balance_map(),
            stats: self.stats_map(),
            closed: self.closed(),
            candle_table: self.candle_map(),
        }
    }

    /// Database invariant: every index has distinct keys, every entry's key
    /// matches its value, and every stored value satisfies its own
    /// invariant.
    pub open spec fn wf(self) -> bool {
        &&& distinct_keys(self.open_positions@)
        &&& (forall|i: int|
            0 <= i < self.open_positions@.len() ==> {
                &&& (#[trigger] self.open_positions@[i]).0 == self.open_positions@[i].1.position_id
                &&& self.open_positions@[i].1.wf()
                &&& !self.open_positions@[i].1.is_closed()
            })
        &&& distinct_keys(self.current_balances@)
        &&& (forall|i: int|
            0 <= i < self.current_balances@.len() ==> (
            #[trigger] self.current_balances@[i]).1.wf())
        &&& distinct_keys(self.statistics@)
        &&& (forall|i: int|
            0 <= i < self.statistics@.len() ==> (#[trigger] self.statistics@[i]).1.wf())
        &&& distinct_keys(self.candles@)
        &&& (forall|i: int|
            0 <= i < self.candles@.len() ==> {
                &&& (#[trigger] self.candles@[i]).0.1 == self.candles@[i].1.open_time
                &&& self.candles@[i].1.wf()
            })
        &&& (forall|i: int|
            0 <= i < self.closed_positions@.len() ==> {
                &&& (#[trigger] self.closed_positions@[i]).wf()
                &&& self.closed_positions@[i].is_closed()
            })
        &&& distinct_keys(asset_entries_view(self.exchange_balances@))
        &&& (forall|i: int|
            0 <= i < self.exchange_balances@.len() ==> (
            #[trigger] self.exchange_balances@[i]).1.wf())
    }

    /// An empty store.
    pub fn new() -> (r: Database)
        ensures
            r.wf(),
            r.open_map() == Map::<PositionId, Position>::empty(),
            r.balance_map() == Map::<BalanceId, Balance>::empty(),
            r.stats_map() == Map::<u128, TradingSummary>::empty(),
            r.candle_map() == Map::<(Pair, i64), Candle>::empty(),
            r.closed() == Seq::<Position>::empty(),
            r.exchange_balance_map() == Map::<Seq<char>, Balance>::empty(),
    {
        proof {
            assert(asset_entries_view(Seq::<(String, Balance)>::empty())
                =~= Seq::<(Seq<char>, Balance)>::empty());
        }
        Database {
            open_positions: Vec::new(),
            closed_positions: Vec::new(),
            current_balances: Vec::new(),
            statistics: Vec::new(),
            candles: Vec::new(),
            exchange_balances: Vec::new(),
            exchange_account: ExchangeAccount::default(),
        }
    }

    /// Store a session's balance, replacing any previous record.
    pub fn set_balance(&mut self, core_id: u128, balance: Balance) -> (r: Result<
        (),
        DatabaseError,
    >)
        requires
            old(self).wf(),
            balance.wf(),
        ensures
            r is Ok,
            final(self).wf(),
            final(self).balance_map() == old(self).balance_map().insert(
                (BalanceId { core_id }),
                balance,
            ),
            final(self).open_positions@ == old(self).open_positions@,
            final(self).open_map() == old(self).open_map(),
            final(self).stats_map() == old(self).stats_map(),
            final(self).candle_map() == old(self).candle_map(),
            final(self).closed() == old(self).closed(),
    {
        let key = Balance::balance_id(core_id);
        let n = self.current_balances.len();
        for j in 0..n
            invariant
                n == self.current_balances@.len(),
                *self == *old(self),
                old(self).wf(),
                balance.wf(),
                key == (BalanceId { core_id }),
                forall|k: int| 0 <= k < j ==> (#[trigger] self.current_balances@[k]).0 != key,
        {
            if self.current_balances[j].0 == key {
                proof {
                    lemma_map_of_update(self.current_balances@, j as int, balance);
                }
                self.current_balances.set(j, (key, balance));
                return Ok(());
            }
        }
        proof {
            lemma_map_of_push(self.current_balances@, key, balance);
        }
        self.current_balances.push((key, balance));
        Ok(())
    }

    /// Fetch a session's balance; fails exactly when none was stored.
    pub fn get_balance(&self, core_id: u128) -> (r: Result<Balance, DatabaseError>)
        requires
            self.wf(),
        ensures
            r is Ok <==> self.balance_map().contains_key((BalanceId { core_id })),
            r matches Ok(b) ==> b == self.balance_map()[(BalanceId { core_id })] && b.wf(),
            r is Err ==> r == Err::<Balance, DatabaseError>(DatabaseError::DataMissing),
    {
        let key = Balance::balance_id(core_id);
        let n = self.current_balances.len();
        for j in 0..n
            invariant
                n == self.current_balances@.len(),
                self.wf(),
                key == (BalanceId { core_id }),
                forall|k: int| 0 <= k < j ==> (#[trigger] self.current_balances@[k]).0 != key,
        {
            if self.current_balances[j].0 == key {
                proof {
                    lemma_map_of_present(self.current_balances@, j as int);
                }
                return Ok(self.current_balances[j].1);
            }
        }
        proof {
            lemma_map_of_absent(self.current_balances@, key);
        }
        Err(DatabaseError::DataMissing)
    }

    /// Store an open position under its key, replacing any previous record.
    pub fn set_open_position(&mut self, position: Position) -> (r: Result<(), DatabaseError>)
        requires
            old(self).wf(),
            position.wf(),
            !position.is_closed(),
        ensures
            r is Ok,
            final(self).wf(),
            final(self).open_map() == old(self).open_map().insert(position.position_id, position),
            final(self).balance_map() == old(self).balance_map(),
            final(self).stats_map() == old(self).stats_map(),
            final(self).candle_map() == old(self).candle_map(),
            final(self).closed() == old(self).closed(),
            forall|c: u128|
                #[trigger] locked_of(final(self).open_positions@, c) == locked_of(
                    old(self).open_positions@,
                    c,
                ) + locked_contribution(position, c) - if old(self).open_map().contains_key(
                    position.position_id,
                ) {
                    locked_contribution(old(self).open_map()[position.position_id], c)
                } else {
                    0
                },
    {
        let key = position.position_id;
        let n = self.open_positions.len();
        for j in 0..n
            invariant
                n == self.open_positions@.len(),
                *self == *old(self),
                old(self).wf(),
                position.wf(),
                !position.is_closed(),
                key == position.position_id,
                forall|k: int| 0 <= k < j ==> (#[trigger] self.open_positions@[k]).0 != key,
        {
            if self.open_positions[j].0 == key {
                proof {
                    lemma_map_of_update(self.open_positions@, j as int, position);
                    lemma_map_of_present(self.open_positions@, j as int);
                    assert forall|c: u128|
                        #[trigger] locked_of(
                            self.open_positions@.update(j as int, (key, position)),
                            c,
                        ) == locked_of(self.open_positions@, c) + locked_contribution(position, c)
                            - locked_contribution(self.open_map()[key], c) by {
                        lemma_locked_update(self.open_positions@, j as int, position, c);
                    }
                }
                self.open_positions.set(j, (key, position));
                return Ok(());
            }
        }
        proof {
            lemma_map_of_push(self.open_positions@, key, position);
            lemma_map_of_absent(self.open_positions@, key);
            assert forall|c: u128|
                #[trigger] locked_of(self.open_positions@.push((key, position)), c) == locked_of(
                    self.open_positions@,
                    c,
                ) + locked_contribution(position, c) by {
                assert(self.open_positions@.push((key, position)).drop_last()
                    =~= self.open_positions@);
            }
        }
        self.open_positions.push((key, position));
        Ok(())
    }

    /// Fetch the open position under a key, if any.
    pub fn get_open_position(&self, position_id: &PositionId) -> (r: Result<
        Option<Position>,
        DatabaseError,
    >)
        requires
            self.wf(),
        ensures
            r is Ok,
            r matches Ok(opt) ==> opt == if self.open_map().contains_key(*position_id) {
                Some(self.open_map()[*position_id])
            } else {
                Option::<Position>::None
            },
            r matches Ok(Some(p)) ==> p.wf() && !p.is_closed() && p.position_id == *position_id,
    {
        let n = self.open_positions.len();
        for j in 0..n
            invariant
                n == self.open_positions@.len(),
                self.wf(),
                forall|k: int| 0 <= k < j ==> (#[trigger] self.open_positions@[k]).0 != *position_id,
        {
            if self.open_positions[j].0 == *position_id {
                proof {
                    lemma_map_of_present(self.open_positions@, j as int);
                }
                return Ok(Some(self.open_positions[j].1));
            }
        }
        proof {
            lemma_map_of_absent(self.open_positions@, *position_id);
        }
        Ok(None)
    }

    /// Fetch the open positions a session holds on the given pairs, in the
    /// order the pairs are listed.
    pub fn get_open_positions(&self, core_id: u128, pairs: &Vec<Pair>) -> (r: Result<
        Vec<Position>,
        DatabaseError,
    >)
        requires
            self.wf(),
        ensures
            r is Ok,
            r matches Ok(v) ==> v@ == Self::spec_open_for_pairs(self.open_map(), core_id, pairs@),
    {
        let mut result: Vec<Position> = Vec::new();
        let n = pairs.len();
        for i in 0..n
            invariant
                n == pairs@.len(),
                self.wf(),
                result@ == Self::spec_open_for_pairs(
                    self.open_map(),
                    core_id,
                    pairs@.take(i as int),
                ),
        {
            proof {
                assert(pairs@.take(i + 1).drop_last() =~= pairs@.take(i as int));
                assert(pairs@.take(i + 1).last() == pairs@[i as int]);
            }
            let key = PositionId { core_id, pair: pairs[i] };
            match self.get_open_position(&key) {
                Ok(Some(p)) => {
                    result.push(p);
                },
                _ => {},
            }
        }
        proof {
            assert(pairs@.take(n as int) =~= pairs@);
        }
        Ok(result)
    }

    /// The open positions a session holds on a list of pairs, in that
    /// order.
    pub open spec fn spec_open_for_pairs(
        m: Map<PositionId, Position>,
        core_id: u128,
        pairs: Seq<Pair>,
    ) -> Seq<Position>
        decreases pairs.len(),
    {
        if pairs.len() == 0 {
            Seq::empty()
        } else {
            let prefix = Self::spec_open_for_pairs(m, core_id, pairs.drop_last());
            let key = PositionId { core_id, pair: pairs.last() };
            if m.contains_key(key) {
                prefix.push(m[key])
            } else {
                prefix
            }
        }
    }

    /// Fetch every open position of a session, in storage order.
    pub fn get_all_open_positions(&self, core_id: u128) -> (r: Result<Vec<Position>, DatabaseError>)
        requires
            self.wf(),
        ensures
            r is Ok,
            r matches Ok(v) ==> v@ == open_positions_of(self.open_positions@, core_id),
    {
        let mut result: Vec<Position> = Vec::new();
        let n = self.open_positions.len();
        for j in 0..n
            invariant
                n == self.open_positions@.len(),
                self.wf(),
                result@ == open_positions_of(self.open_positions@.take(j as int), core_id),
        {
            proof {
                assert(self.open_positions@.take(j + 1).drop_last() =~= self.open_positions@.take(
                    j as int,
                ));
                assert(self.open_positions@.take(j + 1).last() == self.open_positions@[j as int]);
            }
            let entry = &self.open_positions[j];
            if entry.0.core_id == core_id {
                result.push(entry.1);
            }
        }
        proof {
            assert(self.open_positions@.take(n as int) =~= self.open_positions@);
        }
        Ok(result)
    }

    /// Remove and return the open position under a key; `None` when there
    /// was none, leaving the store unchanged.
    pub fn remove_position(&mut self, position_id: &PositionId) -> (r: Result<
        Option<Position>,
        DatabaseError,
    >)
        requires
            old(self).wf(),
        ensures
            r is Ok,
            final(self).wf(),
            r matches Ok(opt) ==> match opt {
                Some(p) => {
                    &&& old(self).open_map().contains_key(*position_id)
                    &&& p == old(self).open_map()[*position_id]
                    &&& p.wf() && !p.is_closed()
                    &&& final(self).open_map() == old(self).open_map().remove(*position_id)
                    &&& forall|c: u128|
                        #[trigger] locked_of(final(self).open_positions@, c) == locked_of(
                            old(self).open_positions@,
                            c,
                        ) - locked_contribution(p, c)
                },
                None => {
                    &&& !old(self).open_map().contains_key(*position_id)
                    &&& *final(self) == *old(self)
                },
            },
            final(self).balance_map() == old(self).balance_map(),
            final(self).stats_map() == old(self).stats_map(),
            final(self).candle_map() == old(self).candle_map(),
            final(self).closed() == old(self).closed(),
    {
        let n = self.open_positions.len();
        for j in 0..n
            invariant
                n == self.open_positions@.len(),
                *self == *old(self),
                old(self).wf(),
                forall|k: int| 0 <= k < j ==> (#[trigger] self.open_positions@[k]).0 != *position_id,
        {
            if self.open_positions[j].0 == *position_id {
                proof {
                    lemma_map_of_present(self.open_positions@, j as int);
                    lemma_map_of_remove(self.open_positions@, j as int);
                    assert forall|c: u128|
                        #[trigger] locked_of(self.open_positions@.remove(j as int), c) == locked_of(
                            self.open_positions@,
                            c,
                        ) - locked_contribution(self.open_positions@[j as int].1, c) by {
                        lemma_locked_remove(self.open_positions@, j as int, c);
                    }
                }
                let entry = self.open_positions.remove(j);
                return Ok(Some(entry.1));
            }
        }
        proof {
            lemma_map_of_absent(self.open_positions@, *position_id);
        }
        Ok(None)
    }

    /// Append a position to the session's exited list; the position must
    /// belong to the session it is filed under.
    pub fn set_exited_position(&mut self, core_id: u128, position: Position) -> (r: Result<
        (),
        DatabaseError,
    >)
        requires
            old(self).wf(),
            position.wf(),
            position.is_closed(),
            position.core_id == core_id,
        ensures
            r is Ok,
            final(self).wf(),
            final(self).closed() == old(self).closed().push(position),
            final(self).open_positions@ == old(self).open_positions@,
            final(self).open_map() == old(self).open_map(),
            final(self).balance_map() == old(self).balance_map(),
            final(self).stats_map() == old(self).stats_map(),
            final(self).candle_map() == old(self).candle_map(),
    {
        self.closed_positions.push(position);
        Ok(())
    }

    /// Fetch the positions a session has exited, in exit order.
    pub fn get_exited_positions(&self, core_id: u128) -> (r: Result<Vec<Position>, DatabaseError>)
        requires
            self.wf(),
        ensures
            r is Ok,
            r matches Ok(v) ==> v@ == positions_of_core(self.closed(), core_id),
            r matches Ok(v) ==> forall|i: int|
                0 <= i < v@.len() ==> (#[trigger] v@[i]).wf() && v@[i].is_closed(),
    {
        let mut result: Vec<Position> = Vec::new();
        let n = self.closed_positions.len();
        for j in 0..n
            invariant
                n == self.closed_positions@.len(),
                self.wf(),
                result@ == positions_of_core(self.closed_positions@.take(j as int), core_id),
                forall|i: int|
                    0 <= i < result@.len() ==> (#[trigger] result@[i]).wf()
                        && result@[i].is_closed(),
        {
            proof {
                assert(self.closed_positions@.take(j + 1).drop_last()
                    =~= self.closed_positions@.take(j as int));
                assert(self.closed_positions@.take(j + 1).last()
                    == self.closed_positions@[j as int]);
            }
            let p = &self.closed_positions[j];
            if p.core_id == core_id {
                result.push(*p);
            }
        }
        proof {
            assert(self.closed_positions@.take(n as int) =~= self.closed_positions@);
        }
        Ok(result)
    }

    /// Upsert one candle row under its `(pair, open_time)` key.
    pub fn add_candle(&mut self, pair: Pair, candle: Candle) -> (r: Result<(), DatabaseError>)
        requires
            old(self).wf(),
            candle.wf(),
        ensures
            r is Ok,
            final(self).wf(),
            final(self).candle_map() == old(self).candle_map().insert(
                (pair, candle.open_time),
                candle,
            ),
            final(self).open_map() == old(self).open_map(),
            final(self).balance_map() == old(self).balance_map(),
            final(self).stats_map() == old(self).stats_map(),
            final(self).closed() == old(self).closed(),
    {
        let key = (pair, candle.open_time);
        let n = self.candles.len();
        for j in 0..n
            invariant
                n == self.candles@.len(),
                *self == *old(self),
                old(self).wf(),
                candle.wf(),
                key == (pair, candle.open_time),
                forall|k: int|
                    0 <= k < j ==> !((#[trigger] self.candles@[k]).0.0 == pair
                        && self.candles@[k].0.1 == candle.open_time),
        {
            let entry_key = self.candles[j].0;
            if entry_key.0 == pair && entry_key.1 == candle.open_time {
                proof {
                    assert(self.candles@[j as int].0 == key);
                    lemma_map_of_update(self.candles@, j as int, candle);
                }
                self.candles.set(j, (key, candle));
                return Ok(());
            }
        }
        proof {
            assert(forall|k: int| 0 <= k < n ==> (#[trigger] self.candles@[k]).0 != key);
            lemma_map_of_push(self.candles@, key, candle);
        }
        self.candles.push((key, candle));
        Ok(())
    }

    /// The candle table after upserting a batch in order.
    pub open spec fn spec_add_candles(
        m: Map<(Pair, i64), Candle>,
        pair: Pair,
        candles: Seq<Candle>,
    ) -> Map<(Pair, i64), Candle>
        decreases candles.len(),
    {
        if candles.len() == 0 {
            m
        } else {
            Self::spec_add_candles(m, pair, candles.drop_last()).insert(
                (pair, candles.last().open_time),
                candles.last(),
            )
        }
    }

    /// Upsert a batch of candles for a pair, in order.
    pub fn add_candles(&mut self, pair: Pair, candles: &Vec<Candle>) -> (r: Result<
        (),
        DatabaseError,
    >)
        requires
            old(self).wf(),
            forall|i: int| 0 <= i < candles@.len() ==> (#[trigger] candles@[i]).wf(),
        ensures
            r is Ok,
            final(self).wf(),
            final(self).candle_map() == Self::spec_add_candles(
                old(self).candle_map(),
                pair,
                candles@,
            ),
            final(self).open_map() == old(self).open_map(),
            final(self).balance_map() == old(self).balance_map(),
            final(self).stats_map() == old(self).stats_map(),
            final(self).closed() == old(self).closed(),
    {
        let n = candles.len();
        for i in 0..n
            invariant
                n == candles@.len(),
                forall|k: int| 0 <= k < candles@.len() ==> (#[trigger] candles@[k]).wf(),
                self.wf(),
                self.candle_map() == Self::spec_add_candles(
                    old(self).candle_map(),
                    pair,
                    candles@.take(i as int),
                ),
                self.open_map() == old(self).open_map(),
                self.balance_map() == old(self).balance_map(),
                self.stats_map() == old(self).stats_map(),
                self.closed() == old(self).closed(),
        {
            proof {
                assert(candles@.take(i + 1).drop_last() =~= candles@.take(i as int));
                assert(candles@.take(i + 1).last() == candles@[i as int]);
            }
            let _ = self.add_candle(pair, candles[i]);
        }
        proof {
            assert(candles@.take(n as int) =~= candles@);
        }
        Ok(())
    }

    /// Fetch every stored candle of a pair, in storage order.
    pub fn fetch_all_candles(&self, pair: Pair) -> (r: Result<Vec<Candle>, DatabaseError>)
        requires
            self.wf(),
        ensures
            r is Ok,
            r matches Ok(v) ==> v@ == candles_of_pair(self.candles@, pair),
            r matches Ok(v) ==> forall|i: int| 0 <= i < v@.len() ==> (#[trigger] v@[i]).wf(),
    {
        let mut result: Vec<Candle> = Vec::new();
        let n = self.candles.len();
        for j in 0..n
            invariant
                n == self.candles@.len(),
                self.wf(),
                result@ == candles_of_pair(self.candles@.take(j as int), pair),
                forall|i: int| 0 <= i < result@.len() ==> (#[trigger] result@[i]).wf(),
        {
            proof {
                assert(self.candles@.take(j + 1).drop_last() =~= self.candles@.take(j as int));
                assert(self.candles@.take(j + 1).last() == self.candles@[j as int]);
            }
            let entry = &self.candles[j];
            if entry.0.0 == pair {
                result.push(entry.1);
            }
        }
        proof {
            assert(self.candles@.take(n as int) =~= self.candles@);
        }
        Ok(result)
    }

    /// Store a session's statistics, replacing any previous record.
    pub fn set_statistics(&mut self, core_id: u128, statistic: TradingSummary) -> (r: Result<
        (),
        DatabaseError,
    >)
        requires
            old(self).wf(),
            statistic.wf(),
        ensures
            r is Ok,
            final(self).wf(),
            final(self).stats_map() == old(self).stats_map().insert(core_id, statistic),
            final(self).open_positions@ == old(self).open_positions@,
            final(self).open_map() == old(self).open_map(),
            final(self).balance_map() == old(self).balance_map(),
            final(self).candle_map() == old(self).candle_map(),
            final(self).closed() == old(self).closed(),
    {
        let n = self.statistics.len();
        for j in 0..n
            invariant
                n == self.statistics@.len(),
                *self == *old(self),
                old(self).wf(),
                statistic.wf(),
                forall|k: int| 0 <= k < j ==> (#[trigger] self.statistics@[k]).0 != core_id,
        {
            if self.statistics[j].0 == core_id {
                proof {
                    lemma_map_of_update(self.statistics@, j as int, statistic);
                }
                self.statistics.set(j, (core_id, statistic));
                return Ok(());
            }
        }
        proof {
            lemma_map_of_push(self.statistics@, core_id, statistic);
        }
        self.statistics.push((core_id, statistic));
        Ok(())
    }

    /// Fetch a session's statistics; fails exactly when none were stored.
    pub fn get_statistics(&self, core_id: u128) -> (r: Result<TradingSummary, DatabaseError>)
        requires
            self.wf(),
        ensures
            r is Ok <==> self.stats_map().contains_key(core_id),
            r matches Ok(s) ==> s == self.stats_map()[core_id] && s.wf(),
            r is Err ==> r == Err::<TradingSummary, DatabaseError>(DatabaseError::DataMissing),
    {
        let n = self.statistics.len();
        for j in 0..n
            invariant
                n == self.statistics@.len(),
                self.wf(),
                forall|k: int| 0 <= k < j ==> (#[trigger] self.statistics@[k]).0 != core_id,
        {
            if self.statistics[j].0 == core_id {
                proof {
                    lemma_map_of_present(self.statistics@, j as int);
                }
                return Ok(self.statistics[j].1);
            }
        }
        proof {
            lemma_map_of_absent(self.statistics@, core_id);
        }
        Err(DatabaseError::DataMissing)
    }
}

impl Database {
    /// Store one per-asset exchange balance, replacing any record under the
    /// same asset name.
    pub fn set_exchange_balance(&mut self, asset_name: String, balance: Balance)
        requires
            old(self).wf(),
            balance.wf(),
        ensures
            final(self).wf(),
            final(self).exchange_balance_map() == old(self).exchange_balance_map().insert(
                asset_name@,
                balance,
            ),
            final(self).open_positions@ == old(self).open_positions@,
            final(self).open_map() == old(self).open_map(),
            final(self).balance_map() == old(self).balance_map(),
            final(self).stats_map() == old(self).stats_map(),
            final(self).candle_map() == old(self).candle_map(),
            final(self).closed() == old(self).closed(),
            final(self).exchange_account == old(self).exchange_account,
    {
        let n = self.exchange_balances.len();
        for j in 0..n
            invariant
                n == self.exchange_balances@.len(),
                *self == *old(self),
                old(self).wf(),
                balance.wf(),
                forall|k: int| 0 <= k < j ==> (#[trigger] self.exchange_balances@[k]).0@ != asset_name@,
        {
            if self.exchange_balances[j].0.eq(&asset_name) {
                proof {
                    let view = asset_entries_view(self.exchange_balances@);
                    lemma_map_of_update(view, j as int, balance);
                    assert(asset_entries_view(
                        self.exchange_balances@.update(j as int, (asset_name, balance)),
                    ) =~= view.update(j as int, (view[j as int].0, balance)));
                }
                self.exchange_balances.set(j, (asset_name, balance));
                return ;
            }
        }
        proof {
            let view = asset_entries_view(self.exchange_balances@);
            assert(forall|k: int| 0 <= k < view.len() ==> (#[trigger] view[k]).0 != asset_name@);
            lemma_map_of_push(view, asset_name@, balance);
            assert(asset_entries_view(self.exchange_balances@.push((asset_name, balance)))
                =~= view.push((asset_name@, balance)));
        }
        self.exchange_balances.push((asset_name, balance));
    }

    /// Store a batch of per-asset exchange balances, in order.
    pub fn set_exchange_balances(&mut self, exchange_balances: &Vec<(String, Balance)>)
        requires
            old(self).wf(),
            forall|i: int|
                0 <= i < exchange_balances@.len() ==> (#[trigger] exchange_balances@[i]).1.wf(),
        ensures
            final(self).wf(),
            final(self).exchange_balance_map() == spec_upsert_exchange_balances(
                old(self).exchange_balance_map(),
                asset_entries_view(exchange_balances@),
            ),
            final(self).open_positions@ == old(self).open_positions@,
            final(self).open_map() == old(self).open_map(),
            final(self).balance_map() == old(self).balance_map(),
            final(self).stats_map() == old(self).stats_map(),
            final(self).candle_map() == old(self).candle_map(),
            final(self).closed() == old(self).closed(),
            final(self).exchange_account == old(self).exchange_account,
    {
        let n = exchange_balances.len();
        for i in 0..n
            invariant
                n == exchange_balances@.len(),
                forall|k: int|
                    0 <= k < exchange_balances@.len() ==> (
                    #[trigger] exchange_balances@[k]).1.wf(),
                self.wf(),
                self.exchange_balance_map() == spec_upsert_exchange_balances(
                    old(self).exchange_balance_map(),
                    asset_entries_view(exchange_balances@).take(i as int),
                ),
                self.open_positions@ == old(self).open_positions@,
                self.open_map() == old(self).open_map(),
                self.balance_map() == old(self).balance_map(),
                self.stats_map() == old(self).stats_map(),
                self.candle_map() == old(self).candle_map(),
                self.closed() == old(self).closed(),
                self.exchange_account == old(self).exchange_account,
        {
            proof {
                let view = asset_entries_view(exchange_balances@);
                assert(view.take(i + 1).drop_last() =~= view.take(i as int));
                assert(view.take(i + 1).last() == view[i as int]);
            }
            let entry = &exchange_balances[i];
            self.set_exchange_balance(entry.0.clone(), entry.1);
        }
        proof {
            let view = asset_entries_view(exchange_balances@);
            assert(view.take(n as int) =~= view);
        }
    }

    /// A copy of the per-asset exchange balances, in storage order.
    pub fn get_exchange_balances(&self) -> (r: Vec<(String, Balance)>)
        ensures
            r@.len() == self.exchange_balances@.len(),
            forall|i: int|
                0 <= i < r@.len() ==> (#[trigger] r@[i]).0@ == self.exchange_balances@[i].0@
                    && r@[i].1 == self.exchange_balances@[i].1,
    {
        let mut out: Vec<(String, Balance)> = Vec::new();
        let n = self.exchange_balances.len();
        for i in 0..n
            invariant
                n == self.exchange_balances@.len(),
                out@.len() == i,
                forall|k: int|
                    0 <= k < i ==> (#[trigger] out@[k]).0@ == self.exchange_balances@[k].0@
                        && out@[k].1 == self.exchange_balances@[k].1,
        {
            let entry = &self.exchange_balances[i];
            out.push((entry.0.clone(), entry.1));
        }
        out
    }

    /// The last exchange account snapshot stored.
    pub fn get_exchange_account(&self) -> (r: &ExchangeAccount)
        ensures
            *r == self.exchange_account,
    {
        &self.exchange_account
    }

    /// Store an exchange account snapshot.
    pub fn set_exchange_account(&mut self, value: ExchangeAccount)
        ensures
            *final(self) == (Database { exchange_account: value, ..*old(self) }),
    {
        self.exchange_account = value;
    }
}

/// In a well-formed store, the open position found under a key is keyed by
/// its own identity and satisfies its invariant.
pub proof fn lemma_open_map_key_matches(db: Database, key: PositionId)
    requires
        db.wf(),
        db.open_map().contains_key(key),
    ensures
        db.open_map()[key].position_id == key,
        db.open_map()[key].wf(),
        !db.open_map()[key].is_closed(),
{
    lemma_map_of_key_occurs(db.open_positions@, key);
    let i = choose|i: int|
        0 <= i < db.open_positions@.len() && (#[trigger] db.open_positions@[i]).0 == key;
    lemma_map_of_present(db.open_positions@, i);
}

/// With well-formed positions, the locked value is non-negative.
pub proof fn lemma_locked_nonneg(entries: Seq<(PositionId, Position)>, core_id: u128)
    requires
        forall|i: int| 0 <= i < entries.len() ==> (#[trigger] entries[i]).1.wf(),
    ensures
        locked_of(entries, core_id) >= 0,
    decreases entries.len(),
{
    if entries.len() > 0 {
        assert(forall|i: int|
            0 <= i < entries.drop_last().len() ==> (#[trigger] entries.drop_last()[i]).1.wf())
            by {
            assert(forall|i: int|
                0 <= i < entries.drop_last().len() ==> entries.drop_last()[i] == entries[i]);
        }
        lemma_locked_nonneg(entries.drop_last(), core_id);
        assert(entries[entries.len() - 1].1.wf());
    }
}

/// A well-formed store holds at most one open position per session and
/// pair: any two distinct entries differ in session or pair.
pub proof fn lemma_at_most_one_open_position(db: Database, i: int, j: int)
    requires
        db.wf(),
        0 <= i < db.open_positions@.len(),
        0 <= j < db.open_positions@.len(),
        i != j,
    ensures
        !(db.open_positions@[i].1.core_id == db.open_positions@[j].1.core_id
            && db.open_positions@[i].1.asset == db.open_positions@[j].1.asset),
{
    let a = db.open_positions@[i].1;
    let b = db.open_positions@[j].1;
    assert(db.open_positions@[i].0 == a.position_id);
    assert(db.open_positions@[j].0 == b.position_id);
    if a.core_id == b.core_id && a.asset == b.asset {
        assert(a.position_id == b.position_id);
        if i < j {
            assert(db.open_positions@[i].0 != db.open_positions@[j].0);
        } else {
            assert(db.open_positions@[j].0 != db.open_positions@[i].0);
        }
    }
}

/// Upserting the same candle twice leaves the table exactly as upserting
/// it once: one row remains under the candle's key, holding its latest
/// values.
pub proof fn lemma_candle_upsert_idempotent(
    m: Map<(Pair, i64), Candle>,
    pair: Pair,
    candle: Candle,
)
    ensures
        Database::spec_add_candles(m, pair, seq![candle, candle]) == Database::spec_add_candles(
            m,
            pair,
            seq![candle],
        ),
        Database::spec_add_candles(m, pair, seq![candle])[(pair, candle.open_time)] == candle,
{
    let one = seq![candle];
    let two = seq![candle, candle];
    assert(two.drop_last() =~= one);
    assert(one.drop_last() =~= Seq::<Candle>::empty());
    assert(Database::spec_add_candles(m, pair, two) =~= Database::spec_add_candles(m, pair, one));
}

} // verus!
