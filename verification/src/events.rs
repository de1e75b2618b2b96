//! The events that flow through a trader's pipeline and out to
//! subscribers.

use vstd::prelude::*;

use crate::assets::MarketEvent;
use crate::balance::Balance;
use crate::execution::FillEvent;
use crate::portfolio::OrderEvent;
use crate::position::{Position, PositionUpdate};
use crate::strategy::Signal;
use crate::trader::SignalForceExit;

verus! {

/// One item of the event stream a trader drives and broadcasts: the
/// pipeline stages Market, Signal, Order and Fill, plus the bookkeeping
/// events the portfolio emits.
#[derive(PartialEq, Debug)]
pub enum Event {
    Market(MarketEvent),
    Signal(Signal),
    SignalForceExit(SignalForceExit),
    Order(OrderEvent),
    Fill(FillEvent),
    PositionNew(Position),
    PositionUpdate(PositionUpdate),
    PositionExit(Position),
    Balance(Balance),
}

/// The pipeline stage an event belongs to, in emission order: a market
/// event comes first, then any signal it produces, then position marks,
/// orders, fills, and finally the bookkeeping records a fill emits.
pub open spec fn event_stage(e: Event) -> int {
    match e {
        Event::Market(_) => 0,
        Event::Signal(_) => 1,
        Event::SignalForceExit(_) => 1,
        Event::PositionUpdate(_) => 2,
        Event::Order(_) => 3,
        Event::Fill(_) => 4,
        Event::PositionNew(_) => 5,
        Event::PositionExit(_) => 5,
        Event::Balance(_) => 6,
    }
}

impl Clone for Event {
    /// An exact copy.
    fn clone(&self) -> (res: Self)
        ensures
            res == *self,
    {
        match self {
            Event::Market(m) => Event::Market(m.clone()),
            Event::Signal(s) => Event::Signal(*s),
            Event::SignalForceExit(s) => Event::SignalForceExit(*s),
            Event::Order(o) => Event::Order(*o),
            Event::Fill(f) => Event::Fill(*f),
            Event::PositionNew(p) => Event::PositionNew(*p),
            Event::PositionUpdate(u) => Event::PositionUpdate(*u),
            Event::PositionExit(p) => Event::PositionExit(*p),
            Event::Balance(b) => Event::Balance(*b),
        }
    }
}

} // verus!
