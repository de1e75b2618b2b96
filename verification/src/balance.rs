//! Session cash balance.

use vstd::prelude::*;

use crate::fixed::RESULT_LIMIT;

verus! {

/// Key of the balance record a session owns.
#[derive(Clone, Copy, PartialEq, Eq, Structural, Debug, Hash)]
pub struct BalanceId {
    pub core_id: u128,
}

/// Cash accounting of one session: `total` is equity, `available` is the
/// part not locked in open positions. Values are micro-units; time is Unix
/// milliseconds.
#[derive(Clone, Copy, PartialEq, Debug)]
pub struct Balance {
    pub time: i64,
    pub total: i64,
    pub available: i64,
}

impl Balance {
    /// Bounds under which balance arithmetic cannot overflow.
    pub open spec fn wf(self) -> bool {
        &&& -RESULT_LIMIT <= self.total <= RESULT_LIMIT
        &&& -RESULT_LIMIT <= self.available <= RESULT_LIMIT
    }

    /// The key scoping a session's balance in the database.
    pub fn balance_id(core_id: u128) -> (r: BalanceId)
        ensures
            r == (BalanceId { core_id }),
    {
        BalanceId { core_id }
    }
}

impl Default for Balance {
    /// An empty balance at the epoch.
    fn default() -> (r: Balance)
        ensures
            r.time == 0 && r.total == 0 && r.available == 0,
    {
        Balance { time: 0, total: 0, available: 0 }
    }
}

} // verus!
