//! Fixed-point arithmetic for monetary quantities.
//!
//! A value of one whole unit (one USDT, one share of equity) is `SCALE`
//! micro-units. Prices, quantities, fees and balances are all `i64` counts of
//! micro-units. Multiplying two scaled values divides the double-width product
//! by `SCALE`; dividing multiplies the dividend by `SCALE` first. Both
//! truncate toward zero on non-negative operands, exactly as the
//! specification-level functions below state.

use vstd::prelude::*;

use vstd::arithmetic::div_mod::{
    lemma_div_is_ordered, lemma_div_multiples_vanish, lemma_fundamental_div_mod,
};

verus! {

/// Micro-units per whole unit.
pub const SCALE: i64 = 1_000_000;

/// Upper bound on the magnitude of any domain quantity (one million whole
/// units). Keeping every price, quantity, fee and balance within this bound
/// lets every product in the engine fit comfortably in 128 bits and every
/// scaled result fit in an `i64`.
pub const AMOUNT_LIMIT: i64 = 1_000_000_000_000;

/// `AMOUNT_LIMIT * AMOUNT_LIMIT / SCALE`: the largest value `mul_scaled` can
/// return, and the largest value `div_scaled` can return.
pub const RESULT_LIMIT: i64 = 1_000_000_000_000_000_000;

/// Largest total fee a fill can carry: the whole gross value plus the
/// largest slippage.
pub const FEES_LIMIT: i64 = 2 * AMOUNT_LIMIT;

/// Bound on the magnitude of a realised or unrealised profit-and-loss
/// figure: a full price move over a bounded quantity plus fees.
pub const PNL_LIMIT: i64 = RESULT_LIMIT + 5 * AMOUNT_LIMIT;

/// The product of two scaled values, rescaled: floor(a * b / SCALE) for
/// non-negative operands.
pub open spec fn scaled_mul(a: int, b: int) -> int {
    (a * b) / (SCALE as int)
}

/// The quotient of two scaled values, rescaled: floor(a * SCALE / b) for
/// non-negative operands.
pub open spec fn scaled_div(a: int, b: int) -> int {
    (a * (SCALE as int)) / b
}

/// `scaled_mul` extended to a possibly negative first operand, truncating
/// toward zero.
pub open spec fn scaled_mul_signed(a: int, b: int) -> int {
    if a >= 0 {
        scaled_mul(a, b)
    } else {
        -scaled_mul(-a, b)
    }
}

/// Multiply two non-negative scaled values.
pub fn mul_scaled(a: i64, b: i64) -> (r: i64)
    requires
        0 <= a <= AMOUNT_LIMIT,
        0 <= b <= AMOUNT_LIMIT,
    ensures
        r == scaled_mul(a as int, b as int),
        0 <= r <= RESULT_LIMIT,
{
    proof {
        lemma_scaled_mul_bounds(a as int, b as int);
    }
    let prod: u128 = (a as u128) * (b as u128);
    let q: u128 = prod / (SCALE as u128);
    q as i64
}

/// Divide two non-negative scaled values; the divisor must be positive.
pub fn div_scaled(a: i64, b: i64) -> (r: i64)
    requires
        0 <= a <= AMOUNT_LIMIT,
        0 < b <= AMOUNT_LIMIT,
    ensures
        r == scaled_div(a as int, b as int),
        0 <= r <= RESULT_LIMIT,
{
    proof {
        lemma_scaled_div_bounds(a as int, b as int);
    }
    let num: u128 = (a as u128) * (SCALE as u128);
    let q: u128 = num / (b as u128);
    q as i64
}

/// Multiply a signed scaled value by a non-negative one, truncating toward
/// zero.
pub fn mul_scaled_signed(a: i64, b: i64) -> (r: i64)
    requires
        -AMOUNT_LIMIT <= a <= AMOUNT_LIMIT,
        0 <= b <= AMOUNT_LIMIT,
    ensures
        r == scaled_mul_signed(a as int, b as int),
        -RESULT_LIMIT <= r <= RESULT_LIMIT,
{
    if a >= 0 {
        mul_scaled(a, b)
    } else {
        let m = mul_scaled(-a, b);
        -m
    }
}

/// Magnitude of a bounded signed value.
pub fn abs_amount(a: i64) -> (r: i64)
    requires
        -AMOUNT_LIMIT <= a <= AMOUNT_LIMIT,
    ensures
        r == abs_of(a as int),
        0 <= r <= AMOUNT_LIMIT,
{
    if a >= 0 {
        a
    } else {
        -a
    }
}

/// Absolute value at the specification level.
pub open spec fn abs_of(a: int) -> int {
    if a >= 0 {
        a
    } else {
        -a
    }
}

/// Dividing a rescaled product of non-negative factors by one factor cannot
/// exceed the other factor: `scaled_div(scaled_mul(q, c), q) <= c`.
pub proof fn lemma_scaled_div_of_scaled_mul_le(q: int, c: int)
    requires
        0 < q,
        0 <= c,
    ensures
        0 <= scaled_mul(q, c),
        scaled_div(scaled_mul(q, c), q) <= c,
{
    let s = SCALE as int;
    let g = scaled_mul(q, c);
    assert(0 <= q * c) by (nonlinear_arith)
        requires
            0 < q,
            0 <= c,
    ;
    assert(g == (q * c) / s);
    assert(g * s <= q * c) by (nonlinear_arith)
        requires
            0 < s,
            0 <= q * c,
            g == (q * c) / s,
    ;
    assert(0 <= g) by (nonlinear_arith)
        requires
            0 < s,
            0 <= q * c,
            g == (q * c) / s,
    ;
    lemma_div_is_ordered(g * s, q * c, q);
    lemma_div_multiples_vanish(c, q);
    assert((q * c) / q == c);
    assert(scaled_div(g, q) == (g * s) / q);
}

/// Rescaling a quotient of non-negative values back by its divisor cannot
/// exceed the dividend: `scaled_mul(scaled_div(v, c), c) <= v`.
pub proof fn lemma_scaled_mul_of_scaled_div_le(v: int, c: int)
    requires
        0 <= v,
        0 < c,
    ensures
        0 <= scaled_div(v, c),
        scaled_mul(scaled_div(v, c), c) <= v,
{
    let s = SCALE as int;
    let d = scaled_div(v, c);
    assert(0 <= v * s) by (nonlinear_arith)
        requires
            0 <= v,
            0 < s,
    ;
    assert(0 <= d && d * c <= v * s) by (nonlinear_arith)
        requires
            0 < c,
            0 <= v * s,
            d == (v * s) / c,
    ;
    lemma_div_is_ordered(d * c, v * s, s);
    lemma_div_multiples_vanish(v, s);
    assert((s * v) / s == v);
    assert(v * s == s * v) by (nonlinear_arith);
}

/// A fee at a rate of at most `SCALE` (one hundred percent) cannot exceed
/// the gross value it is charged on.
pub proof fn lemma_scaled_mul_rate_le(rate: int, gross: int)
    requires
        0 <= rate <= SCALE,
        0 <= gross,
    ensures
        0 <= scaled_mul(rate, gross) <= gross,
{
    let s = SCALE as int;
    assert(0 <= rate * gross <= s * gross) by (nonlinear_arith)
        requires
            0 <= rate <= s,
            0 <= gross,
    ;
    lemma_div_is_ordered(rate * gross, s * gross, s);
    lemma_div_multiples_vanish(gross, s);
    assert((s * gross) / s == gross);
    assert(0 <= (rate * gross) / s) by (nonlinear_arith)
        requires
            0 <= rate * gross,
            0 < s,
    ;
}

proof fn lemma_scaled_mul_bounds(a: int, b: int)
    requires
        0 <= a <= AMOUNT_LIMIT,
        0 <= b <= AMOUNT_LIMIT,
    ensures
        0 <= a * b <= AMOUNT_LIMIT * AMOUNT_LIMIT,
        0 <= scaled_mul(a, b) <= RESULT_LIMIT,
{
    assert(0 <= a * b <= AMOUNT_LIMIT * AMOUNT_LIMIT) by (nonlinear_arith)
        requires
            0 <= a <= AMOUNT_LIMIT,
            0 <= b <= AMOUNT_LIMIT,
    ;
    assert(0 <= (a * b) / (SCALE as int) <= RESULT_LIMIT) by (nonlinear_arith)
        requires
            0 <= a * b <= AMOUNT_LIMIT * AMOUNT_LIMIT,
    ;
}

proof fn lemma_scaled_div_bounds(a: int, b: int)
    requires
        0 <= a <= AMOUNT_LIMIT,
        0 < b <= AMOUNT_LIMIT,
    ensures
        0 <= a * (SCALE as int) <= AMOUNT_LIMIT * (SCALE as int),
        0 <= scaled_div(a, b) <= RESULT_LIMIT,
{
    assert(0 <= a * (SCALE as int) <= AMOUNT_LIMIT * (SCALE as int)) by (nonlinear_arith)
        requires
            0 <= a <= AMOUNT_LIMIT,
    ;
    assert(0 <= (a * (SCALE as int)) / b <= RESULT_LIMIT) by (nonlinear_arith)
        requires
            0 <= a * (SCALE as int) <= AMOUNT_LIMIT * (SCALE as int),
            0 < b,
    ;
}

} // verus!
