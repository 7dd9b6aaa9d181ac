use vstd::prelude::*;
use vstd::arithmetic::div_mod::{lemma_div_is_ordered, lemma_div_multiples_vanish};
use crate::errors::CustomError;
use crate::math::{fits_i128, fits_i64, magnitude, signum};

verus! {

/// A position as the caller keeps it: signed size, entry price, the profit
/// and loss realized so far, and the funding index at the last settlement.
///
/// `base_position` is positive for a long, negative for a short and zero
/// for a flat position. Prices are scaled by `PRICE_SCALE`.
#[derive(Debug, Clone, Copy, PartialEq, Eq, Structural)]
pub struct PositionState {
    pub base_position: i64,
    pub entry_price: i64,
    pub realized_pnl: i128,
    pub last_cum_funding: i128,
}

/// What a trade makes of a position: the new size and entry price, the new
/// total of realized profit and loss, and the part of it this trade realized.
#[derive(Debug, Clone, Copy, PartialEq, Eq, Structural)]
pub struct TradeResult {
    pub new_base_position: i64,
    pub new_entry_price: i64,
    pub new_realized_pnl: i128,
    pub pnl_delta: i128,
}

/// The invariant of a position's size and entry price: the entry price is
/// not negative, and it is zero exactly for a flat position.
pub open spec fn size_and_entry_agree(base_position: int, entry_price: int) -> bool {
    entry_price >= 0 && (entry_price == 0 <==> base_position == 0)
}

impl PositionState {
    /// The invariant that callers keep of a stored position.
    pub open spec fn well_formed(&self) -> bool {
        size_and_entry_agree(self.base_position as int, self.entry_price as int)
    }
}

impl TradeResult {
    /// The invariant of a position, for the position a trade results in.
    pub open spec fn well_formed(&self) -> bool {
        size_and_entry_agree(self.new_base_position as int, self.new_entry_price as int)
    }
}

/// Whether a trade of `delta` adds to a position of size `base`: both are
/// longs or both are shorts.
pub open spec fn same_direction(base: int, delta: int) -> bool {
    (base > 0 && delta > 0) || (base < 0 && delta < 0)
}

/// How much of a position of size `base` a trade of `delta` against it
/// closes: the smaller of the two magnitudes.
pub open spec fn close_size(base: int, delta: int) -> int {
    if magnitude(base) <= magnitude(delta) {
        magnitude(base)
    } else {
        magnitude(delta)
    }
}

/// The average of the prices `entry` and `price`, weighted by the sizes
/// `base` and `delta` of one direction, rounded toward zero.
pub open spec fn weighted_entry_price(base: int, entry: int, delta: int, price: int) -> int {
    (magnitude(base) * entry + magnitude(delta) * price) / magnitude(base + delta)
}

/// The profit (positive) or loss (negative) that a trade of `delta` at
/// `price` realizes on the position `state`.
///
/// Only a trade against an open position realizes anything: on the part it
/// closes, the price move since entry, counted in the position's direction.
pub open spec fn trade_pnl_delta(state: PositionState, delta: int, price: int) -> int {
    let base = state.base_position as int;
    if delta == 0 || base == 0 || same_direction(base, delta) {
        0
    } else {
        close_size(base, delta) * (price - state.entry_price) * signum(base)
    }
}

/// The entry price of the position that a trade of `delta` at `price` makes
/// of `state`.
pub open spec fn trade_entry_price(state: PositionState, delta: int, price: int) -> int {
    let base = state.base_position as int;
    let entry = state.entry_price as int;
    if delta == 0 {
        entry
    } else if base == 0 {
        price
    } else if same_direction(base, delta) {
        weighted_entry_price(base, entry, delta, price)
    } else if base + delta == 0 {
        0
    } else if signum(base + delta) == signum(base) {
        entry
    } else {
        price
    }
}

/// Whether the outcome of a trade can be computed and represented.
///
/// A trade of size zero always can. Otherwise the new size must be an `i64`;
/// an increase must not average a negative price; and a trade against the
/// position must leave the total of realized profit and loss in `i128`.
pub open spec fn trade_is_representable(state: PositionState, delta: int, price: int) -> bool {
    let base = state.base_position as int;
    delta == 0 || (fits_i64(base + delta) && (base == 0 || if same_direction(base, delta) {
        state.entry_price >= 0 && price >= 0
    } else {
        fits_i128(state.realized_pnl + trade_pnl_delta(state, delta, price))
    }))
}

/// What applying a trade of `delta` at `price` to `state` returns.
pub open spec fn trade_outcome(state: PositionState, delta: i64, price: i64) -> Result<
    TradeResult,
    CustomError,
> {
    if trade_is_representable(state, delta as int, price as int) {
        Ok(
            TradeResult {
                new_base_position: (state.base_position + delta) as i64,
                new_entry_price: trade_entry_price(state, delta as int, price as int) as i64,
                new_realized_pnl: (state.realized_pnl + trade_pnl_delta(
                    state,
                    delta as int,
                    price as int,
                )) as i128,
                pnl_delta: trade_pnl_delta(state, delta as int, price as int) as i128,
            },
        )
    } else {
        Err(CustomError::CalculationOverflow)
    }
}

/// A product is bounded by the product of the bounds of its factors.
proof fn lemma_product_bound(x: int, y: int, bx: int, by: int)
    by (nonlinear_arith)
    requires
        -bx <= x <= bx,
        -by <= y <= by,
    ensures
        -(bx * by) <= x * y <= bx * by,
{
}

/// A weighted average of two prices that are not negative lies between zero
/// and the larger of them, and is at least the smaller.
pub proof fn lemma_weighted_entry_price_bounds(base: int, entry: int, delta: int, price: int)
    requires
        same_direction(base, delta),
        entry >= 0,
        price >= 0,
    ensures
        magnitude(base + delta) == magnitude(base) + magnitude(delta),
        weighted_entry_price(base, entry, delta, price) <= if entry >= price {
            entry
        } else {
            price
        },
        weighted_entry_price(base, entry, delta, price) >= if entry <= price {
            entry
        } else {
            price
        },
{
    let a = magnitude(base);
    let d = magnitude(delta);
    let n = a + d;
    let hi = if entry >= price {
        entry
    } else {
        price
    };
    let lo = if entry <= price {
        entry
    } else {
        price
    };
    let cost = a * entry + d * price;
    assert(lo * n <= cost <= hi * n) by (nonlinear_arith)
        requires
            a > 0,
            d > 0,
            n == a + d,
            cost == a * entry + d * price,
            lo <= entry <= hi,
            lo <= price <= hi,
    ;
    lemma_div_is_ordered(cost, hi * n, n);
    lemma_div_is_ordered(lo * n, cost, n);
    lemma_div_multiples_vanish(hi, n);
    lemma_div_multiples_vanish(lo, n);
    assert(n * hi == hi * n && n * lo == lo * n) by (nonlinear_arith);
}

/// What one trade realizes is a value of `i128`; on a position whose size
/// has a negation it stays far enough inside to add a 64-bit collateral to
/// it.
pub proof fn lemma_trade_pnl_bounds(state: PositionState, delta: int, price: i64)
    ensures
        -0x7FFF_FFFF_FFFF_FFFF_8000_0000_0000_0000 <= trade_pnl_delta(state, delta, price as int)
            <= 0x7FFF_FFFF_FFFF_FFFF_8000_0000_0000_0000,
        state.base_position != i64::MIN ==> -0x7FFF_FFFF_FFFF_FFFE_8000_0000_0000_0001
            <= trade_pnl_delta(state, delta, price as int)
            <= 0x7FFF_FFFF_FFFF_FFFE_8000_0000_0000_0001,
{
    let base = state.base_position as int;
    let c = close_size(base, delta);
    let d = price - state.entry_price;
    lemma_product_bound(c, d, 0x8000_0000_0000_0000, 0xFFFF_FFFF_FFFF_FFFF);
    if state.base_position != i64::MIN {
        lemma_product_bound(c, d, 0x7FFF_FFFF_FFFF_FFFF, 0xFFFF_FFFF_FFFF_FFFF);
    }
    assert(c * d * 1 == c * d && c * d * (-1) == -(c * d)) by (nonlinear_arith);
}

/// The magnitude of a 64-bit size, widened.
fn unsigned_abs_i64(x: i64) -> (r: u128)
    ensures
        r == magnitude(x as int),
{
    let w: i128 = x as i128;
    if w < 0 {
        (-w) as u128
    } else {
        w as u128
    }
}

/// Applies a trade of `trade_base_delta` (positive buys, negative sells) at
/// `trade_price` to the position `state`.
///
/// - A trade of size zero changes nothing.
/// - On a flat position the trade opens one at the trade price.
/// - A trade in the position's direction adds to it; the entry price becomes
///   the average of both prices weighted by size, rounded toward zero.
/// - A trade against the position realizes profit or loss on the part it
///   closes. What is left keeps its entry price; a position closed in full
///   has entry price zero; and where the trade is larger than the position,
///   the rest of it opens a position the other way at the trade price.
///
/// Fails with `CalculationOverflow` exactly where `trade_is_representable`
/// does not hold.
pub fn apply_trade_to_position(state: &PositionState, trade_base_delta: i64, trade_price: i64) -> (r:
    Result<TradeResult, CustomError>)
    ensures
        r == trade_outcome(*state, trade_base_delta, trade_price),
        r matches Ok(t) ==> t.new_realized_pnl == state.realized_pnl + t.pnl_delta,
        r matches Ok(t) ==> (state.well_formed() && trade_price > 0 ==> t.well_formed()),
{
    if trade_base_delta == 0 {
        return Ok(
            TradeResult {
                new_base_position: state.base_position,
                new_entry_price: state.entry_price,
                new_realized_pnl: state.realized_pnl,
                pnl_delta: 0,
            },
        );
    }
    let old_base: i128 = state.base_position as i128;
    let delta: i128 = trade_base_delta as i128;
    let new_base_wide: i128 = old_base + delta;
    if new_base_wide < i64::MIN as i128 || new_base_wide > i64::MAX as i128 {
        return Err(CustomError::CalculationOverflow);
    }
    let new_base: i64 = new_base_wide as i64;
    if state.base_position == 0 {
        return Ok(
            TradeResult {
                new_base_position: new_base,
                new_entry_price: trade_price,
                new_realized_pnl: state.realized_pnl,
                pnl_delta: 0,
            },
        );
    }
    let same_direction = (old_base > 0 && delta > 0) || (old_base < 0 && delta < 0);
    if same_direction {
        if state.entry_price < 0 || trade_price < 0 {
            return Err(CustomError::CalculationOverflow);
        }
        let abs_old: u128 = unsigned_abs_i64(state.base_position);
        let abs_delta: u128 = unsigned_abs_i64(trade_base_delta);
        let abs_new: u128 = unsigned_abs_i64(new_base);
        proof {
            lemma_product_bound(
                abs_old as int,
                state.entry_price as int,
                0x8000_0000_0000_0000,
                0x8000_0000_0000_0000,
            );
            lemma_product_bound(
                abs_delta as int,
                trade_price as int,
                0x8000_0000_0000_0000,
                0x8000_0000_0000_0000,
            );
            lemma_weighted_entry_price_bounds(
                old_base as int,
                state.entry_price as int,
                delta as int,
                trade_price as int,
            );
            vstd::arithmetic::mul::lemma_mul_nonnegative(abs_old as int, state.entry_price as int);
            vstd::arithmetic::mul::lemma_mul_nonnegative(abs_delta as int, trade_price as int);
        }
        let old_cost: u128 = abs_old * (state.entry_price as u128);
        let delta_cost: u128 = abs_delta * (trade_price as u128);
        let total_cost: u128 = old_cost + delta_cost;
        let avg_entry: u128 = total_cost / abs_new;
        Ok(
            TradeResult {
                new_base_position: new_base,
                new_entry_price: avg_entry as i64,
                new_realized_pnl: state.realized_pnl,
                pnl_delta: 0,
            },
        )
    } else {
        let abs_old: i128 = if old_base < 0 {
            -old_base
        } else {
            old_base
        };
        let abs_delta: i128 = if delta < 0 {
            -delta
        } else {
            delta
        };
        let close: i128 = if abs_old <= abs_delta {
            abs_old
        } else {
            abs_delta
        };
        let price_diff: i128 = (trade_price as i128) - (state.entry_price as i128);
        proof {
            lemma_product_bound(
                close as int,
                price_diff as int,
                0x8000_0000_0000_0000,
                0xFFFF_FFFF_FFFF_FFFF,
            );
            assert(close * price_diff * 1 == close * price_diff) by (nonlinear_arith);
            assert(close * price_diff * (-1) == -(close * price_diff)) by (nonlinear_arith);
        }
        let moved: i128 = close * price_diff;
        let pnl_delta: i128 = if old_base > 0 {
            moved
        } else {
            -moved
        };
        let new_realized: i128 = match state.realized_pnl.checked_add(pnl_delta) {
            Some(v) => v,
            None => { return Err(CustomError::CalculationOverflow); },
        };
        if new_base == 0 {
            Ok(
                TradeResult {
                    new_base_position: 0,
                    new_entry_price: 0,
                    new_realized_pnl: new_realized,
                    pnl_delta,
                },
            )
        } else if (new_base > 0) == (state.base_position > 0) {
            Ok(
                TradeResult {
                    new_base_position: new_base,
                    new_entry_price: state.entry_price,
                    new_realized_pnl: new_realized,
                    pnl_delta,
                },
            )
        } else {
            Ok(
                TradeResult {
                    new_base_position: new_base,
                    new_entry_price: trade_price,
                    new_realized_pnl: new_realized,
                    pnl_delta,
                },
            )
        }
    }
}

} // verus!
