//! Fee policy: splitting a listing price into the marketplace fee and the
//! seller's proceeds.

use vstd::arithmetic::div_mod::{
    lemma_div_is_ordered, lemma_div_multiples_vanish, lemma_div_pos_is_pos,
    lemma_fundamental_div_mod, lemma_fundamental_div_mod_converse, lemma_mod_bound,
};
use vstd::prelude::*;

verus! {

/// The marketplace fee on `price` at a rate of `fee_bps` basis points,
/// rounded down.
pub open spec fn fee_amount(price: int, fee_bps: int) -> int {
    price * fee_bps / 10000
}

/// What the seller receives: the price minus the fee. Rounding always
/// favours the seller.
pub open spec fn seller_amount(price: int, fee_bps: int) -> int {
    price - fee_amount(price, fee_bps)
}

/// The fee on a positive price is between 0 and the price, reaches the price
/// only at a 100% rate, and splits along the base-10000 digits of the price:
/// `price * f / 10000 == (price / 10000) * f + (price % 10000) * f / 10000`.
proof fn lemma_fee_bounds(p: int, f: int)
    requires
        0 < p,
        0 <= f <= 10000,
    ensures
        0 <= p * f / 10000 <= p,
        f < 10000 ==> p * f / 10000 < p,
        p * f / 10000 == (p / 10000) * f + (p % 10000) * f / 10000,
{
    let q = p / 10000;
    let r = p % 10000;
    lemma_fundamental_div_mod(p, 10000);
    assert(p == 10000 * q + r);
    assert(p * f == 10000 * (q * f) + r * f) by (nonlinear_arith)
        requires p == 10000 * q + r;
    assert((10000 * (q * f) + r * f) / 10000 == q * f + r * f / 10000) by {
        lemma_add_multiple_then_div(q * f, r * f);
    }
    assert(0 <= q * f) by (nonlinear_arith)
        requires 0 <= q, 0 <= f;
    assert(0 <= r * f) by (nonlinear_arith)
        requires 0 <= r, 0 <= f;
    lemma_div_pos_is_pos(r * f, 10000);
    assert(p * f <= p * 10000) by (nonlinear_arith)
        requires 0 < p, f <= 10000;
    lemma_div_is_ordered(p * f, p * 10000, 10000);
    lemma_div_multiples_vanish(p, 10000);
    assert(p * 10000 == 10000 * p);
    if f < 10000 {
        assert(p * f <= p * 10000 - p) by (nonlinear_arith)
            requires 0 < p, f < 10000;
        lemma_div_is_ordered(p * f, p * 10000 - p, 10000);
        assert((10000 * p - p) / 10000 == p + (-p) / 10000) by {
            lemma_add_multiple_then_div(p, -p);
        }
        assert((-p) / 10000 <= -1) by {
            lemma_neg_div_is_negative(p);
        }
    }
}

/// Dividing `10000 * a + b` by 10000 leaves `a + b / 10000`.
proof fn lemma_add_multiple_then_div(a: int, b: int)
    ensures
        (10000 * a + b) / 10000 == a + b / 10000,
{
    lemma_fundamental_div_mod(b, 10000);
    lemma_mod_bound(b, 10000);
    assert(10000 * a + b == (a + b / 10000) * 10000 + b % 10000) by (nonlinear_arith)
        requires b == 10000 * (b / 10000) + b % 10000;
    lemma_fundamental_div_mod_converse(10000 * a + b, 10000, a + b / 10000, b % 10000);
}

/// The Euclidean quotient of a negative numerator by 10000 is negative.
proof fn lemma_neg_div_is_negative(p: int)
    requires
        0 < p,
    ensures
        (-p) / 10000 <= -1,
{
    lemma_fundamental_div_mod(-p, 10000);
    lemma_mod_bound(-p, 10000);
    let d = (-p) / 10000;
    assert(-p == 10000 * d + (-p) % 10000);
    assert(d < 0 || -p >= 0) by (nonlinear_arith)
        requires -p == 10000 * d + (-p) % 10000, 0 <= (-p) % 10000 < 10000;
}

/// Splits a positive `price` into `(fee, proceeds)` at `fee_bps` basis
/// points: the fee is `price * fee_bps / 10000` rounded down, and the seller
/// receives the remainder, so the two always add back up to the price. The
/// seller's share is positive whenever the rate is below 100%, and the whole
/// computation stays in range for any positive `i128` price.
pub fn split(price: i128, fee_bps: u32) -> (r: (i128, i128))
    requires
        0 < price,
        fee_bps <= 10000,
    ensures
        r.0 == fee_amount(price as int, fee_bps as int),
        r.1 == seller_amount(price as int, fee_bps as int),
        r.0 + r.1 == price,
        0 <= r.0 <= price,
        0 <= r.1,
        fee_bps < 10000 ==> 0 < r.1,
{
    let p = price as u128;
    let f = fee_bps as u128;
    let q = p / 10000;
    let rem = p % 10000;
    proof {
        lemma_fee_bounds(price as int, fee_bps as int);
        assert(q * f <= p) by (nonlinear_arith)
            requires q <= p / 10000, p / 10000 * 10000 <= p, f <= 10000, 0 <= q;
        assert(rem * f < 100000000) by (nonlinear_arith)
            requires rem < 10000, f <= 10000, 0 <= rem;
    }
    let fee = q * f + (rem * f) / 10000;
    let fee_i = fee as i128;
    (fee_i, price - fee_i)
}

} // verus!
