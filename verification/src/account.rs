//! Exchange account data: the account the exchange reports, and the
//! conversion of its per-asset balances into the library's balance type.
//!
//! The REST and websocket traffic that carries these frames lives outside
//! the library; the conversions here take the parsed values.

use vstd::prelude::*;

use crate::balance::Balance;
use crate::fixed::AMOUNT_LIMIT;
use crate::utils::now_millis;

verus! {

/// Account flags and commission rates as the exchange reports them;
/// commissions are in basis points.
#[derive(Clone, PartialEq, Debug)]
pub struct Account {
    pub maker_commission: i64,
    pub taker_commission: i64,
    pub buyer_commission: i64,
    pub seller_commission: i64,
    pub can_trade: bool,
    pub can_withdraw: bool,
    pub can_deposit: bool,
    pub brokered: bool,
    pub require_self_rade_prevention: bool,
    pub prevent_sor: bool,
    pub update_time: i64,
    pub account_type: String,
    pub uid: i64,
}

/// One per-asset balance of a websocket account update: asset name, free
/// amount and locked amount, in micro-units.
#[derive(Clone, PartialEq, Debug)]
pub struct ExchangeAccountBalance {
    pub a: String,
    pub f: i64,
    pub l: i64,
}

impl ExchangeAccountBalance {
    /// The library balance this update denotes: the free amount is
    /// available, free plus locked is the total. The record is stamped
    /// with the current time, of which nothing is promised.
    pub fn to_balance(&self) -> (r: (String, Balance))
        requires
            0 <= self.f <= AMOUNT_LIMIT,
            0 <= self.l <= AMOUNT_LIMIT,
        ensures
            r.0@ == self.a@,
            r.1.total == self.f + self.l,
            r.1.available == self.f,
            r.1.wf(),
    {
        let time = now_millis();
        (self.a.clone(), Balance { time, total: self.f + self.l, available: self.f })
    }
}

/// One per-asset balance of a REST account snapshot.
#[derive(Clone, PartialEq, Debug)]
pub struct ExchangeAccountBalanceFromRest {
    pub asset: String,
    pub free: i64,
    pub locked: i64,
}

impl ExchangeAccountBalanceFromRest {
    /// The library balance this snapshot row denotes.
    pub fn to_balance(&self) -> (r: (String, Balance))
        requires
            0 <= self.free <= AMOUNT_LIMIT,
            0 <= self.locked <= AMOUNT_LIMIT,
        ensures
            r.0@ == self.asset@,
            r.1.total == self.free + self.locked,
            r.1.available == self.free,
            r.1.wf(),
    {
        let time = now_millis();
        (self.asset.clone(), Balance { time, total: self.free + self.locked, available: self.free })
    }
}

/// The account snapshot as the REST endpoint reports it: commissions in
/// basis points and raw balance rows.
#[derive(Clone, PartialEq, Debug)]
pub struct RawExchangeAccount {
    pub maker_commission: i64,
    pub taker_commission: i64,
    pub buyer_commission: i64,
    pub seller_commission: i64,
    pub balances: Vec<ExchangeAccountBalanceFromRest>,
    pub can_trade: bool,
    pub can_withdraw: bool,
    pub can_deposit: bool,
    pub brokered: bool,
    pub require_self_trade_prevention: bool,
    pub prevent_sor: bool,
    pub update_time: i64,
    pub account_type: String,
    pub uid: i64,
}

/// Micro-units of rate per basis point: one basis point is one hundredth
/// of a percent.
pub const MICROS_PER_BASIS_POINT: i64 = 100;

impl RawExchangeAccount {
    /// Convert the raw snapshot: commissions become micro-unit rates and
    /// every balance row becomes a library balance.
    pub fn to_exchange_account(&self) -> (r: ExchangeAccount)
        requires
            0 <= self.maker_commission <= 10000,
            0 <= self.taker_commission <= 10000,
            0 <= self.buyer_commission <= 10000,
            0 <= self.seller_commission <= 10000,
            forall|i: int|
                0 <= i < self.balances@.len() ==> {
                    &&& 0 <= (#[trigger] self.balances@[i]).free <= AMOUNT_LIMIT
                    &&& 0 <= self.balances@[i].locked <= AMOUNT_LIMIT
                },
        ensures
            r.maker_commission == self.maker_commission * MICROS_PER_BASIS_POINT,
            r.taker_commission == self.taker_commission * MICROS_PER_BASIS_POINT,
            r.buyer_commission == self.buyer_commission * MICROS_PER_BASIS_POINT,
            r.seller_commission == self.seller_commission * MICROS_PER_BASIS_POINT,
            r.balances@.len() == self.balances@.len(),
            forall|i: int|
                0 <= i < r.balances@.len() ==> {
                    &&& (#[trigger] r.balances@[i]).0@ == self.balances@[i].asset@
                    &&& r.balances@[i].1.total == self.balances@[i].free
                        + self.balances@[i].locked
                    &&& r.balances@[i].1.available == self.balances@[i].free
                    &&& r.balances@[i].1.wf()
                },
            r.can_trade == self.can_trade,
            r.can_withdraw == self.can_withdraw,
            r.can_deposit == self.can_deposit,
            r.brokered == self.brokered,
            r.require_self_trade_prevention == self.require_self_trade_prevention,
            r.prevent_sor == self.prevent_sor,
            r.update_time == self.update_time,
            r.account_type@ == self.account_type@,
            r.uid == self.uid,
    {
        let mut balances: Vec<(String, Balance)> = Vec::new();
        let n = self.balances.len();
        for i in 0..n
            invariant
                n == self.balances@.len(),
                forall|k: int|
                    0 <= k < self.balances@.len() ==> {
                        &&& 0 <= (#[trigger] self.balances@[k]).free <= AMOUNT_LIMIT
                        &&& 0 <= self.balances@[k].locked <= AMOUNT_LIMIT
                    },
                balances@.len() == i,
                forall|k: int|
                    0 <= k < i ==> {
                        &&& (#[trigger] balances@[k]).0@ == self.balances@[k].asset@
                        &&& balances@[k].1.total == self.balances@[k].free
                            + self.balances@[k].locked
                        &&& balances@[k].1.available == self.balances@[k].free
                        &&& balances@[k].1.wf()
                    },
        {
            let row = &self.balances[i];
            balances.push(row.to_balance());
        }
        ExchangeAccount {
            maker_commission: self.maker_commission * MICROS_PER_BASIS_POINT,
            taker_commission: self.taker_commission * MICROS_PER_BASIS_POINT,
            buyer_commission: self.buyer_commission * MICROS_PER_BASIS_POINT,
            seller_commission: self.seller_commission * MICROS_PER_BASIS_POINT,
            balances,
            can_trade: self.can_trade,
            can_withdraw: self.can_withdraw,
            can_deposit: self.can_deposit,
            brokered: self.brokered,
            require_self_trade_prevention: self.require_self_trade_prevention,
            prevent_sor: self.prevent_sor,
            update_time: self.update_time,
            account_type: self.account_type.clone(),
            uid: self.uid,
        }
    }
}

/// The converted exchange account: micro-unit commission rates and library
/// balances per asset.
#[derive(Clone, PartialEq, Debug)]
pub struct ExchangeAccount {
    pub maker_commission: i64,
    pub taker_commission: i64,
    pub buyer_commission: i64,
    pub seller_commission: i64,
    pub balances: Vec<(String, Balance)>,
    pub can_trade: bool,
    pub can_withdraw: bool,
    pub can_deposit: bool,
    pub brokered: bool,
    pub require_self_trade_prevention: bool,
    pub prevent_sor: bool,
    pub update_time: i64,
    pub account_type: String,
    pub uid: i64,
}

impl Default for ExchangeAccount {
    /// An empty account: no permissions, no balances, zero commissions.
    fn default() -> (r: ExchangeAccount)
        ensures
            r.balances@.len() == 0,
            r.maker_commission == 0 && r.taker_commission == 0,
            r.buyer_commission == 0 && r.seller_commission == 0,
            !r.can_trade && !r.can_withdraw && !r.can_deposit,
            r.update_time == 0 && r.uid == 0,
    {
        ExchangeAccount {
            maker_commission: 0,
            taker_commission: 0,
            buyer_commission: 0,
            seller_commission: 0,
            balances: Vec::new(),
            can_trade: false,
            can_withdraw: false,
            can_deposit: false,
            brokered: false,
            require_self_trade_prevention: false,
            prevent_sor: false,
            update_time: 0,
            account_type: String::new(),
            uid: 0,
        }
    }
}

impl ExchangeAccount {
    /// A copy of the per-asset balances.
    pub fn get_balances(&self) -> (r: Vec<(String, Balance)>)
        ensures
            r@.len() == self.balances@.len(),
            forall|i: int|
                0 <= i < r@.len() ==> (#[trigger] r@[i]).0@ == self.balances@[i].0@ && r@[i].1
                    == self.balances@[i].1,
    {
        let mut out: Vec<(String, Balance)> = Vec::new();
        let n = self.balances.len();
        for i in 0..n
            invariant
                n == self.balances@.len(),
                out@.len() == i,
                forall|k: int|
                    0 <= k < i ==> (#[trigger] out@[k]).0@ == self.balances@[k].0@ && out@[k].1
                        == self.balances@[k].1,
        {
            let entry = &self.balances[i];
            out.push((entry.0.clone(), entry.1));
        }
        out
    }
}

} // verus!
