//! Exchange interface logic: interpreting execution reports and paging
//! through historical kline requests.
//!
//! The HTTP and websocket traffic itself happens outside the library; the
//! functions here take the parsed frames as plain values and are verified.

use vstd::prelude::*;

use crate::assets::Candle;
use crate::fixed::{abs_of, scaled_mul, AMOUNT_LIMIT};

verus! {

/// Errors of the exchange interface.
#[derive(Clone, PartialEq, Debug)]
pub enum ExchangeError {
    /// The REST client failed; the payload describes how.
    BinanceClientError(String),
    /// The websocket stream failed; the payload describes how.
    BinanceStreamError(String),
    /// A frame could not be decoded.
    JsonSerDe(String),
    /// The exchange did not fill the order.
    UnfilledOrder,
}

/// An execution report reduced to what the pipeline needs: executed
/// quantity, quantity-weighted price, and the exchange's transaction time.
#[derive(Clone, Copy, PartialEq, Debug)]
pub struct ExchangeFill {
    pub qty: i64,
    pub updated_at: i64,
    pub price: i64,
}

impl ExchangeFill {
    /// Report invariant: bounded quantity and price whose product fits a
    /// bounded gross value.
    pub open spec fn wf(self) -> bool {
        &&& -AMOUNT_LIMIT <= self.qty <= AMOUNT_LIMIT
        &&& 0 <= self.price <= AMOUNT_LIMIT
        &&& scaled_mul(abs_of(self.qty as int), self.price as int) <= AMOUNT_LIMIT
    }
}

/// One partial fill of an exchange order response.
#[derive(Clone, Copy, PartialEq, Debug)]
pub struct ExchangeFillResponseFill {
    pub price: i64,
    pub qty: i64,
    pub commission: i64,
}

/// An exchange order response, parsed to plain values.
#[derive(Clone, PartialEq, Debug)]
pub struct ExchangeFillResponse {
    pub transact_time: i64,
    pub executed_qty: i64,
    pub status: String,
    pub fills: Vec<ExchangeFillResponseFill>,
}

/// Bounds under which the weighted average of a fill list can be computed.
pub open spec fn fills_wf(fills: Seq<ExchangeFillResponseFill>) -> bool {
    &&& fills.len() <= 1000
    &&& forall|i: int|
        0 <= i < fills.len() ==> {
            &&& 0 <= (#[trigger] fills[i]).price <= AMOUNT_LIMIT
            &&& 0 <= fills[i].qty <= AMOUNT_LIMIT
        }
}

/// Total quantity over a fill list.
pub open spec fn sum_fill_qty(fills: Seq<ExchangeFillResponseFill>) -> int
    decreases fills.len(),
{
    if fills.len() == 0 {
        0
    } else {
        sum_fill_qty(fills.drop_last()) + fills.last().qty
    }
}

/// Total price-times-quantity value over a fill list, with exact
/// products.
pub open spec fn sum_fill_value(fills: Seq<ExchangeFillResponseFill>) -> int
    decreases fills.len(),
{
    if fills.len() == 0 {
        0
    } else {
        sum_fill_value(fills.drop_last()) + fills.last().price * fills.last().qty
    }
}

/// The lowest price a fill list carries; the price bound itself when the
/// list is empty, so that every listed price is at most this low.
pub open spec fn min_fill_price(fills: Seq<ExchangeFillResponseFill>) -> int
    decreases fills.len(),
{
    if fills.len() == 0 {
        AMOUNT_LIMIT as int
    } else {
        let rest = min_fill_price(fills.drop_last());
        if fills.last().price < rest {
            fills.last().price as int
        } else {
            rest
        }
    }
}

/// The highest price a fill list carries; zero when the list is empty.
pub open spec fn max_fill_price(fills: Seq<ExchangeFillResponseFill>) -> int
    decreases fills.len(),
{
    if fills.len() == 0 {
        0
    } else {
        let rest = max_fill_price(fills.drop_last());
        if fills.last().price > rest {
            fills.last().price as int
        } else {
            rest
        }
    }
}

/// The quantity-weighted mean price of a fill list; `None` when the total
/// quantity is zero. The exact value sum is divided once, so the mean lies
/// between the lowest and the highest fill price.
pub open spec fn spec_weighted_average_price(fills: Seq<ExchangeFillResponseFill>) -> Option<int> {
    if sum_fill_qty(fills) == 0 {
        None
    } else {
        Some(sum_fill_value(fills) / sum_fill_qty(fills))
    }
}

/// Compute the quantity-weighted mean price of the partial fills of an
/// order response; `None` when the weights sum to zero. The mean lies
/// between the lowest and the highest fill price.
pub fn weighted_average_price(fills: &Vec<ExchangeFillResponseFill>) -> (r: Option<i64>)
    requires
        fills_wf(fills@),
    ensures
        match spec_weighted_average_price(fills@) {
            None => r is None,
            Some(p) => {
                &&& r == Some(p as i64)
                &&& min_fill_price(fills@) <= p <= max_fill_price(fills@)
                &&& 0 <= p <= AMOUNT_LIMIT
            },
        },
{
    let n = fills.len();
    let mut total_qty: i128 = 0;
    let mut total_value: i128 = 0;
    for i in 0..n
        invariant
            n == fills@.len(),
            fills_wf(fills@),
            total_qty == sum_fill_qty(fills@.take(i as int)),
            total_value == sum_fill_value(fills@.take(i as int)),
            0 <= total_qty <= (i as int) * (AMOUNT_LIMIT as int),
            0 <= total_value <= total_qty * (AMOUNT_LIMIT as int),
    {
        let fill = fills[i];
        proof {
            assert(fills@.take(i + 1).drop_last() =~= fills@.take(i as int));
            assert(fills@.take(i + 1).last() == fills@[i as int]);
            lemma_weighted_step(
                total_qty as int,
                total_value as int,
                fill.price as int,
                fill.qty as int,
                i as int,
            );
        }
        total_qty = total_qty + (fill.qty as i128);
        total_value = total_value + (fill.price as i128) * (fill.qty as i128);
    }
    proof {
        assert(fills@.take(n as int) =~= fills@);
    }
    if total_qty == 0 {
        None
    } else {
        proof {
            lemma_weighted_envelope(fills@);
            lemma_weighted_result(
                total_qty as int,
                total_value as int,
                min_fill_price(fills@),
                max_fill_price(fills@),
            );
        }
        let price: i128 = total_value / total_qty;
        Some(price as i64)
    }
}

/// One accumulation step keeps the weighted sums bounded: the exact value
/// sum never exceeds the quantity sum times the price bound.
proof fn lemma_weighted_step(acc_qty: int, acc_value: int, price: int, qty: int, i: int)
    requires
        0 <= acc_qty <= i * (AMOUNT_LIMIT as int),
        0 <= acc_value <= acc_qty * (AMOUNT_LIMIT as int),
        0 <= price <= AMOUNT_LIMIT,
        0 <= qty <= AMOUNT_LIMIT,
        0 <= i,
    ensures
        0 <= acc_qty + qty <= (i + 1) * (AMOUNT_LIMIT as int),
        0 <= acc_value + price * qty <= (acc_qty + qty) * (AMOUNT_LIMIT as int),
{
    let a = AMOUNT_LIMIT as int;
    assert(0 <= price * qty <= qty * a) by (nonlinear_arith)
        requires
            0 <= price <= a,
            0 <= qty,
    ;
    assert((acc_qty + qty) * a == acc_qty * a + qty * a) by (nonlinear_arith);
    assert((i + 1) * a == i * a + a) by (nonlinear_arith);
}

/// With bounded prices, the exact value sum is bracketed by the lowest and
/// highest fill price times the quantity sum.
proof fn lemma_weighted_envelope(fills: Seq<ExchangeFillResponseFill>)
    requires
        forall|i: int|
            0 <= i < fills.len() ==> {
                &&& 0 <= (#[trigger] fills[i]).price <= AMOUNT_LIMIT
                &&& 0 <= fills[i].qty <= AMOUNT_LIMIT
            },
    ensures
        0 <= sum_fill_qty(fills),
        0 <= min_fill_price(fills) <= AMOUNT_LIMIT,
        0 <= max_fill_price(fills) <= AMOUNT_LIMIT,
        min_fill_price(fills) * sum_fill_qty(fills) <= sum_fill_value(fills) <= max_fill_price(
            fills,
        ) * sum_fill_qty(fills),
    decreases fills.len(),
{
    if fills.len() == 0 {
    } else {
        let rest = fills.drop_last();
        assert(forall|i: int|
            0 <= i < rest.len() ==> {
                &&& 0 <= (#[trigger] rest[i]).price <= AMOUNT_LIMIT
                &&& 0 <= rest[i].qty <= AMOUNT_LIMIT
            }) by {
            assert(forall|i: int| 0 <= i < rest.len() ==> rest[i] == fills[i]);
        }
        lemma_weighted_envelope(rest);
        assert(fills[fills.len() - 1] == fills.last());
        let p = fills.last().price as int;
        let q = fills.last().qty as int;
        let mn = min_fill_price(fills);
        let mx = max_fill_price(fills);
        assert(mn <= min_fill_price(rest) && mn <= p);
        assert(mx >= max_fill_price(rest) && mx >= p);
        assert(mn * sum_fill_qty(rest) <= min_fill_price(rest) * sum_fill_qty(rest))
            by (nonlinear_arith)
            requires
                mn <= min_fill_price(rest),
                0 <= sum_fill_qty(rest),
        ;
        assert(mn * q <= p * q) by (nonlinear_arith)
            requires
                mn <= p,
                0 <= q,
        ;
        assert(mn * (sum_fill_qty(rest) + q) == mn * sum_fill_qty(rest) + mn * q)
            by (nonlinear_arith);
        assert(max_fill_price(rest) * sum_fill_qty(rest) <= mx * sum_fill_qty(rest))
            by (nonlinear_arith)
            requires
                max_fill_price(rest) <= mx,
                0 <= sum_fill_qty(rest),
        ;
        assert(p * q <= mx * q) by (nonlinear_arith)
            requires
                p <= mx,
                0 <= q,
        ;
        assert(mx * (sum_fill_qty(rest) + q) == mx * sum_fill_qty(rest) + mx * q)
            by (nonlinear_arith);
    }
}

/// Dividing the bracketed value sum by the positive quantity sum lands
/// between the price bounds.
proof fn lemma_weighted_result(total_qty: int, total_value: int, lo: int, hi: int)
    requires
        0 < total_qty,
        0 <= lo <= AMOUNT_LIMIT,
        0 <= hi <= AMOUNT_LIMIT,
        lo * total_qty <= total_value <= hi * total_qty,
    ensures
        lo <= total_value / total_qty <= hi,
{
    vstd::arithmetic::div_mod::lemma_div_is_ordered(lo * total_qty, total_value, total_qty);
    vstd::arithmetic::div_mod::lemma_div_multiples_vanish(lo, total_qty);
    assert((total_qty * lo) / total_qty == lo);
    assert(lo * total_qty == total_qty * lo) by (nonlinear_arith);
    vstd::arithmetic::div_mod::lemma_div_is_ordered(total_value, hi * total_qty, total_qty);
    vstd::arithmetic::div_mod::lemma_div_multiples_vanish(hi, total_qty);
    assert((total_qty * hi) / total_qty == hi);
    assert(hi * total_qty == total_qty * hi) by (nonlinear_arith);
}

/// What interpreting an order response yields: the executed quantity at the
/// weighted price, or `UnfilledOrder`.
pub open spec fn spec_fill_order_result(res: ExchangeFillResponse) -> Result<
    ExchangeFill,
    ExchangeError,
> {
    match spec_weighted_average_price(res.fills@) {
        Some(price) => if res.status@ == "FILLED"@ {
            Ok(ExchangeFill { qty: res.executed_qty, updated_at: res.transact_time, price: price as i64 })
        } else {
            Err(ExchangeError::UnfilledOrder)
        },
        None => Err(ExchangeError::UnfilledOrder),
    }
}

/// Interpret an exchange order response: succeeds exactly when the status
/// is `FILLED` and the partial fills carry non-zero total quantity, and
/// then reports the executed quantity at the quantity-weighted price.
pub fn fill_order_response(res: &ExchangeFillResponse) -> (r: Result<ExchangeFill, ExchangeError>)
    requires
        fills_wf(res.fills@),
        -AMOUNT_LIMIT <= res.executed_qty <= AMOUNT_LIMIT,
        scaled_mul(
            abs_of(res.executed_qty as int),
            match spec_weighted_average_price(res.fills@) {
                Some(p) => p,
                None => 0,
            },
        ) <= AMOUNT_LIMIT,
    ensures
        r == spec_fill_order_result(*res),
        r matches Ok(f) ==> f.wf(),
{
    let price = weighted_average_price(&res.fills);
    match price {
        Some(price) => {
            if res.status.eq(&String::from_str("FILLED")) {
                Ok(
                    ExchangeFill {
                        qty: res.executed_qty,
                        updated_at: res.transact_time,
                        price,
                    },
                )
            } else {
                Err(ExchangeError::UnfilledOrder)
            }
        },
        None => Err(ExchangeError::UnfilledOrder),
    }
}

/// The submitted quantity of an order, truncated to the exchange's five
/// decimal places: the fractional part beyond a multiple of ten
/// micro-units is dropped, toward zero for both signs.
pub open spec fn spec_truncated_quantity(qty: int) -> int {
    if qty >= 0 {
        (qty / 10) * 10
    } else {
        -(((-qty) / 10) * 10)
    }
}

/// Truncate an order quantity to the five decimal places the exchange
/// order endpoint accepts; truncation never submits more than was
/// allocated.
pub fn truncate_order_quantity(qty: i64) -> (r: i64)
    requires
        -AMOUNT_LIMIT <= qty <= AMOUNT_LIMIT,
    ensures
        r == spec_truncated_quantity(qty as int),
{
    if qty >= 0 {
        (qty / 10) * 10
    } else {
        let pos = ((-qty) / 10) * 10;
        -pos
    }
}

/// Where the next page of a historical kline request starts: the close
/// time of the last candle of the page, or nothing when the page was empty
/// and fetching is done.
pub fn next_fetch_start(page: &Vec<Candle>) -> (r: Option<i64>)
    ensures
        page@.len() == 0 ==> r is None,
        page@.len() > 0 ==> r == Some(page@.last().close_time),
{
    if page.len() == 0 {
        None
    } else {
        Some(page[page.len() - 1].close_time)
    }
}

} // verus!
