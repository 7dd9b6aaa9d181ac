use vstd::prelude::*;
use vstd::arithmetic::div_mod::{lemma_fundamental_div_mod, lemma_mod_bound};
use crate::errors::CustomError;
use crate::fixed_point::unsigned_quotient;
use crate::liquidation::{
    below_maintenance_margin,
    covers_initial_margin,
    liquidatable_at,
    liquidation_close_size,
};
use crate::math::{
    div_ceil,
    div_floor,
    div_trunc,
    lemma_div_ceil_bounds,
    lemma_div_ceil_monotone,
    lemma_div_floor_bounds,
    lemma_rounded_quotient_magnitude,
    magnitude,
};
use crate::position::{
    same_direction,
    trade_outcome,
    trade_pnl_delta,
    PositionState,
    TradeResult,
};
use crate::valuation::{
    equity_of,
    maintenance_margin_of,
    notional_of,
    unrealized_pnl_of,
    BPS_DENOMINATOR,
};
use crate::amm::swap_output;
use crate::wide::wide_value;

verus! {

/// Floor and ceiling bracket the exact quotient `a / b`, and differ by at
/// most one: by nothing where `b` divides `a`, by one elsewhere. Truncation
/// lies between them.
pub proof fn lemma_floor_and_ceil_bracket_quotient(a: int, b: int)
    requires
        b != 0,
    ensures
        b > 0 ==> div_floor(a, b) * b <= a <= div_ceil(a, b) * b,
        b < 0 ==> div_floor(a, b) * b >= a >= div_ceil(a, b) * b,
        div_floor(a, b) <= div_trunc(a, b) <= div_ceil(a, b),
        0 <= div_ceil(a, b) - div_floor(a, b) <= 1,
        (div_ceil(a, b) == div_floor(a, b)) <==> a % b == 0,
{
    lemma_rounded_quotient_magnitude(a, b);
    if b > 0 {
        lemma_div_floor_bounds(a, b);
        lemma_div_ceil_bounds(a, b);
        let f = div_floor(a, b);
        let c = div_ceil(a, b);
        if a % b == 0 {
            assert(c == f) by (nonlinear_arith)
                requires
                    b > 0,
                    a == f * b,
                    (c - 1) * b < a <= c * b,
                    f <= c,
            ;
        } else {
            assert(c != f) by (nonlinear_arith)
                requires
                    b > 0,
                    f * b < a,
                    a <= c * b,
            ;
        }
    } else {
        lemma_floor_and_ceil_of_negated_pair(a, b);
        lemma_div_floor_bounds(-a, -b);
        lemma_div_ceil_bounds(-a, -b);
        let f = div_floor(a, b);
        let c = div_ceil(a, b);
        assert(f * b == -(f * (-b)) && c * b == -(c * (-b))) by (nonlinear_arith);
        crate::math::lemma_div_negative_divisor(a, b);
        assert(((-a) % (-b) == 0) == (a % (-b) == 0)) by {
            lemma_fundamental_div_mod(a, -b);
            lemma_mod_bound(a, -b);
            lemma_mod_bound(-a, -b);
            let q = a / (-b);
            if a % (-b) == 0 {
                assert(-a == (-q) * (-b) + 0) by (nonlinear_arith)
                    requires
                        a == (-b) * q,
                ;
                vstd::arithmetic::div_mod::lemma_fundamental_div_mod_converse(-a, -b, -q, 0);
            } else {
                let r = a % (-b);
                assert(-a == (-q - 1) * (-b) + ((-b) - r)) by (nonlinear_arith)
                    requires
                        a == (-b) * q + r,
                ;
                vstd::arithmetic::div_mod::lemma_fundamental_div_mod_converse(
                    -a,
                    -b,
                    -q - 1,
                    (-b) - r,
                );
            }
        }
        if (-a) % (-b) == 0 {
            assert(c == f) by (nonlinear_arith)
                requires
                    -b > 0,
                    -a == f * (-b),
                    (c - 1) * (-b) < -a <= c * (-b),
                    f <= c,
            ;
        } else {
            assert(c != f) by (nonlinear_arith)
                requires
                    -b > 0,
                    f * (-b) < -a,
                    -a <= c * (-b),
            ;
        }
    }
}

/// Negating dividend and divisor together changes neither rounding.
proof fn lemma_floor_and_ceil_of_negated_pair(a: int, b: int)
    requires
        b != 0,
    ensures
        div_floor(-a, -b) == div_floor(a, b),
        div_ceil(-a, -b) == div_ceil(a, b),
{
}

/// The scaled multiplication rounds toward zero: its quotient `q` is the one
/// integer with `q * denom <= a * b < (q + 1) * denom`. Where the product
/// fits in 128 bits, it is the machine's quotient of the product.
pub proof fn lemma_mul_div_truncates(a: u128, b: u128, denom: u128)
    requires
        denom != 0,
    ensures
        0 <= (a * b) / (denom as int),
        ((a * b) / (denom as int)) * denom <= a * b < ((a * b) / (denom as int) + 1) * denom,
        (a * b) / (denom as int) == div_trunc(a * b, denom as int),
        a * b <= u128::MAX ==> unsigned_quotient(denom as int, (a * b) / (denom as int)) == Ok::<
            u128,
            CustomError,
        >(((a * b) as u128) / denom),
{
    let n = a * b;
    assert(n >= 0) by (nonlinear_arith)
        requires
            n == a * b,
    ;
    lemma_div_floor_bounds(n, denom as int);
    vstd::arithmetic::div_mod::lemma_div_pos_is_pos(n, denom as int);
    if n <= u128::MAX {
        vstd::arithmetic::div_mod::lemma_div_nonincreasing(n, denom as int);
    }
}

/// Where the product of `a` and `b` fits in 128 bits, dividing the 256-bit
/// product `(hi, lo)` gives what dividing the 128-bit product gives: the
/// wide division is not refused, and quotient and remainder agree.
pub proof fn lemma_wide_path_agrees_with_direct(a: u128, b: u128, d: u128, hi: u128, lo: u128)
    requires
        d != 0,
        a * b <= u128::MAX,
        wide_value(hi, lo) == a * b,
    ensures
        hi < d,
        wide_value(hi, lo) / (d as int) == ((a * b) as u128) / d,
        wide_value(hi, lo) % (d as int) == ((a * b) as u128) % d,
{
    assert(hi == 0) by (nonlinear_arith)
        requires
            hi * 0x1_0000_0000_0000_0000_0000_0000_0000_0000int + lo <= u128::MAX,
            lo >= 0,
            hi >= 0,
    ;
}

/// A trade of size zero returns the position as it is, with nothing
/// realized, at whatever price.
pub proof fn lemma_zero_trade_changes_nothing(state: PositionState, price: i64)
    ensures
        trade_outcome(state, 0, price) == Ok::<TradeResult, CustomError>(
            TradeResult {
                new_base_position: state.base_position,
                new_entry_price: state.entry_price,
                new_realized_pnl: state.realized_pnl,
                pnl_delta: 0,
            },
        ),
{
}

/// A trade that opens or adds to a position realizes nothing: the total of
/// realized profit and loss stays as it is.
pub proof fn lemma_increase_realizes_nothing(state: PositionState, delta: i64, price: i64)
    requires
        state.base_position == 0 || same_direction(state.base_position as int, delta as int),
    ensures
        trade_pnl_delta(state, delta as int, price as int) == 0,
        trade_outcome(state, delta, price) matches Ok(t) ==> t.pnl_delta == 0
            && t.new_realized_pnl == state.realized_pnl,
{
}

/// A trade against a position at its entry price realizes nothing, whatever
/// its size: closing what was opened and averaged, at the average, is
/// neither profit nor loss.
pub proof fn lemma_trade_at_entry_realizes_nothing(state: PositionState, delta: i64)
    ensures
        trade_pnl_delta(state, delta as int, state.entry_price as int) == 0,
        trade_outcome(state, delta, state.entry_price) matches Ok(t) ==> t.pnl_delta == 0
            && t.new_realized_pnl == state.realized_pnl,
{
    let c = crate::position::close_size(state.base_position as int, delta as int);
    assert(c * 0 * 1 == 0 && c * 0 * (-1) == 0) by (nonlinear_arith);
}

/// A trade larger than the position it goes against closes the whole of it
/// and opens the rest the other way: it realizes the price move since entry
/// on the whole old size, and the new position has the sign of the trade and
/// the trade price as its entry price.
pub proof fn lemma_flip_closes_the_whole_position(state: PositionState, delta: i64, price: i64)
    requires
        state.base_position != 0,
        !same_direction(state.base_position as int, delta as int),
        magnitude(delta as int) > magnitude(state.base_position as int),
    ensures
        trade_pnl_delta(state, delta as int, price as int) == state.base_position * (price
            - state.entry_price),
        trade_outcome(state, delta, price) matches Ok(t) ==> {
            &&& t.new_base_position == state.base_position + delta
            &&& (t.new_base_position > 0) == (delta > 0)
            &&& t.new_base_position != 0
            &&& t.new_entry_price == price
            &&& t.pnl_delta == state.base_position * (price - state.entry_price)
        },
{
    let base = state.base_position as int;
    let d = price - state.entry_price;
    assert(magnitude(base) * d * 1 == magnitude(base) * d) by (nonlinear_arith);
    assert(magnitude(base) * d * (-1) == (-magnitude(base)) * d) by (nonlinear_arith);
    crate::position::lemma_trade_pnl_bounds(state, delta as int, price);
}

/// A trade at a positive price keeps the invariant of a position: the entry
/// price is zero exactly for a flat position.
pub proof fn lemma_trade_keeps_entry_price_invariant(state: PositionState, delta: i64, price: i64)
    requires
        state.well_formed(),
        price > 0,
    ensures
        trade_outcome(state, delta, price) matches Ok(t) ==> t.well_formed(),
{
    let base = state.base_position as int;
    if delta != 0 && base != 0 && same_direction(base, delta as int) {
        crate::position::lemma_weighted_entry_price_bounds(
            base,
            state.entry_price as int,
            delta as int,
            price as int,
        );
    }
}

/// The sign symmetry of profit and loss between a long and the short of the
/// same size, for a position of size `base` entered at `entry`:
///
/// - the short shows at any price the negated profit of the long;
/// - at the price reflected around the entry price, `2 * entry - mark`, a
///   position shows the negated profit of the price `mark`;
/// - so the short at the reflected price shows the very profit of the long,
///   which is its negation only where that profit is zero.
pub proof fn lemma_unrealized_pnl_sign_symmetry(base: int, entry: int, mark: int)
    ensures
        unrealized_pnl_of(-base, entry, mark) == -unrealized_pnl_of(base, entry, mark),
        unrealized_pnl_of(base, entry, 2 * entry - mark) == -unrealized_pnl_of(base, entry, mark),
        unrealized_pnl_of(-base, entry, 2 * entry - mark) == unrealized_pnl_of(base, entry, mark),
        (unrealized_pnl_of(-base, entry, 2 * entry - mark) == -unrealized_pnl_of(base, entry, mark))
            <==> unrealized_pnl_of(base, entry, mark) == 0,
{
    let d = mark - entry;
    assert((-base) * d == -(base * d)) by (nonlinear_arith);
    assert(base * (-d) == -(base * d)) by (nonlinear_arith);
    assert((-base) * (-d) == base * d) by (nonlinear_arith);
    assert(2 * entry - mark - entry == -d);
}

/// The position `state` with its direction reversed: a short for a long.
pub open spec fn mirrored(state: PositionState) -> PositionState
    recommends
        state.base_position != i64::MIN,
{
    PositionState {
        base_position: (-state.base_position) as i64,
        entry_price: state.entry_price,
        realized_pnl: state.realized_pnl,
        last_cum_funding: state.last_cum_funding,
    }
}

/// The same symmetry for what a trade realizes: the mirrored trade on the
/// mirrored position realizes the negated amount at the same price, and the
/// same amount at the price reflected around the entry price.
pub proof fn lemma_realized_pnl_sign_symmetry(state: PositionState, delta: int, price: int)
    requires
        state.base_position != i64::MIN,
    ensures
        trade_pnl_delta(mirrored(state), -delta, price) == -trade_pnl_delta(state, delta, price),
        trade_pnl_delta(mirrored(state), -delta, 2 * state.entry_price - price) == trade_pnl_delta(
            state,
            delta,
            price,
        ),
{
    let base = state.base_position as int;
    let entry = state.entry_price as int;
    let c = crate::position::close_size(base, delta);
    let d = price - entry;
    assert(crate::position::close_size(-base, -delta) == c);
    assert(2 * entry - price - entry == -d);
    assert(c * d * 1 == c * d && c * d * (-1) == -(c * d)) by (nonlinear_arith);
    assert(c * (-d) * 1 == -(c * d) && c * (-d) * (-1) == c * d) by (nonlinear_arith);
}

/// Equity follows the mark price in the position's direction: as the price
/// falls, the equity of a long does not rise; as the price rises, the
/// equity of a short does not rise.
pub proof fn lemma_equity_monotone_in_mark(
    collateral: int,
    realized_pnl: int,
    base: int,
    entry: int,
    lower_mark: int,
    higher_mark: int,
    funding_owed: int,
)
    requires
        lower_mark <= higher_mark,
    ensures
        base >= 0 ==> equity_of(collateral, realized_pnl, base, entry, lower_mark, funding_owed)
            <= equity_of(collateral, realized_pnl, base, entry, higher_mark, funding_owed),
        base <= 0 ==> equity_of(collateral, realized_pnl, base, entry, higher_mark, funding_owed)
            <= equity_of(collateral, realized_pnl, base, entry, lower_mark, funding_owed),
{
    let d1 = lower_mark - entry;
    let d2 = higher_mark - entry;
    assert(base >= 0 ==> base * d1 <= base * d2) by (nonlinear_arith)
        requires
            d1 <= d2,
    ;
    assert(base <= 0 ==> base * d2 <= base * d1) by (nonlinear_arith)
        requires
            d1 <= d2,
    ;
}

/// A move of the mark price against a position never takes it out of
/// liquidation: a long that is liquidatable stays so at every lower price,
/// a short at every higher one.
///
/// This holds for margin rates up to the whole notional (10_000 basis
/// points). Above that the margin requirement falls faster than the equity.
pub proof fn lemma_liquidation_monotone_in_mark(
    collateral: int,
    base: int,
    entry: int,
    lower_mark: int,
    higher_mark: int,
    mm_bps: int,
)
    requires
        lower_mark <= higher_mark,
        0 <= mm_bps <= BPS_DENOMINATOR,
    ensures
        base > 0 && liquidatable_at(collateral, base, entry, higher_mark, mm_bps)
            ==> liquidatable_at(collateral, base, entry, lower_mark, mm_bps),
        base < 0 && liquidatable_at(collateral, base, entry, lower_mark, mm_bps)
            ==> liquidatable_at(collateral, base, entry, higher_mark, mm_bps),
{
    let d = BPS_DENOMINATOR as int;
    let size = magnitude(base);
    let lo = magnitude(lower_mark);
    let hi = magnitude(higher_mark);
    let step = higher_mark - lower_mark;
    let n_lo = notional_of(base, lower_mark) * mm_bps;
    let n_hi = notional_of(base, higher_mark) * mm_bps;
    // the equity moves by `size * step`, the margin by no more
    let k = size * step;
    assert(k >= 0) by (nonlinear_arith)
        requires
            k == size * step,
            size >= 0,
            step >= 0,
    ;
    if base > 0 {
        assert(n_hi <= n_lo + k * d) by (nonlinear_arith)
            requires
                n_hi == (size * hi) * mm_bps,
                n_lo == (size * lo) * mm_bps,
                k == size * step,
                hi - lo <= step,
                step >= 0,
                size >= 0,
                0 <= mm_bps <= d,
        ;
        lemma_div_ceil_monotone(n_lo, n_hi, k, d);
        assert(base * (higher_mark - entry) == base * (lower_mark - entry) + k)
            by (nonlinear_arith)
            requires
                k == base * step,
                step == higher_mark - lower_mark,
        ;
    }
    if base < 0 {
        assert(n_lo <= n_hi + k * d) by (nonlinear_arith)
            requires
                n_hi == (size * hi) * mm_bps,
                n_lo == (size * lo) * mm_bps,
                k == size * step,
                lo - hi <= step,
                step >= 0,
                size >= 0,
                0 <= mm_bps <= d,
        ;
        lemma_div_ceil_monotone(n_hi, n_lo, k, d);
        assert(base * (lower_mark - entry) == base * (higher_mark - entry) + k)
            by (nonlinear_arith)
            requires
                k == (-base) * step,
                step == higher_mark - lower_mark,
        ;
    }
}

/// At the boundary: an equity equal to the maintenance margin is not
/// liquidatable, and an equity equal to the initial margin permits an
/// increase.
pub proof fn lemma_margin_boundaries(margin: int)
    ensures
        !below_maintenance_margin(margin, margin),
        covers_initial_margin(margin, margin),
{
}

/// A position whose equity equals its maintenance margin is not
/// liquidatable, and one unit of equity less makes an open position so.
pub proof fn lemma_liquidation_boundary(collateral: int, base: int, entry: int, mark: int, mm_bps: int)
    requires
        equity_of(collateral, 0, base, entry, mark, 0) == maintenance_margin_of(
            notional_of(base, mark),
            mm_bps,
        ),
    ensures
        !liquidatable_at(collateral, base, entry, mark, mm_bps),
        base != 0 ==> liquidatable_at(collateral - 1, base, entry, mark, mm_bps),
{
}

/// A liquidation makes progress: of a liquidatable position it closes at
/// least one unit and at most the whole, and it closes the whole once the
/// equity is zero or below.
pub proof fn lemma_liquidation_makes_progress(
    collateral: int,
    base: int,
    entry: int,
    mark: int,
    mm_bps: int,
)
    requires
        liquidatable_at(collateral, base, entry, mark, mm_bps),
    ensures
        1 <= liquidation_close_size(collateral, base, entry, mark, mm_bps) <= magnitude(base),
        equity_of(collateral, 0, base, entry, mark, 0) <= 0 ==> liquidation_close_size(
            collateral,
            base,
            entry,
            mark,
            mm_bps,
        ) == magnitude(base),
{
}

/// A swap does not lower the product of the reserves: the pool gives out no
/// more than keeps it, and the fee raises it.
pub proof fn lemma_swap_keeps_constant_product(
    input_amount: int,
    input_reserve: int,
    output_reserve: int,
    fee_numerator: int,
    fee_denominator: int,
)
    requires
        input_amount >= 0,
        input_reserve > 0,
        output_reserve >= 0,
        0 <= fee_numerator <= fee_denominator,
        fee_denominator > 0,
    ensures
        0 <= swap_output(
            input_amount,
            input_reserve,
            output_reserve,
            fee_numerator,
            fee_denominator,
        ) <= output_reserve,
        (input_reserve + input_amount) * (output_reserve - swap_output(
            input_amount,
            input_reserve,
            output_reserve,
            fee_numerator,
            fee_denominator,
        )) >= input_reserve * output_reserve,
{
    let x = input_amount * (fee_denominator - fee_numerator);
    let base = input_reserve * fee_denominator;
    let out = swap_output(
        input_amount,
        input_reserve,
        output_reserve,
        fee_numerator,
        fee_denominator,
    );
    assert(0 <= x <= input_amount * fee_denominator) by (nonlinear_arith)
        requires
            x == input_amount * (fee_denominator - fee_numerator),
            input_amount >= 0,
            0 <= fee_numerator <= fee_denominator,
    ;
    assert(base > 0) by (nonlinear_arith)
        requires
            base == input_reserve * fee_denominator,
            input_reserve > 0,
            fee_denominator > 0,
    ;
    assert(x * output_reserve >= 0) by (nonlinear_arith)
        requires
            x >= 0,
            output_reserve >= 0,
    ;
    // out * (base + x) <= x * output_reserve
    lemma_div_floor_bounds(x * output_reserve, base + x);
    vstd::arithmetic::div_mod::lemma_div_pos_is_pos(x * output_reserve, base + x);
    assert(out <= output_reserve) by (nonlinear_arith)
        requires
            out * (base + x) <= x * output_reserve,
            base > 0,
            x >= 0,
            out >= 0,
            output_reserve >= 0,
    ;
    assert(out * input_reserve <= input_amount * (output_reserve - out)) by (nonlinear_arith)
        requires
            out * (input_reserve * fee_denominator + x) <= x * output_reserve,
            0 <= x <= input_amount * fee_denominator,
            0 <= out <= output_reserve,
            fee_denominator > 0,
            input_reserve > 0,
            input_amount >= 0,
    ;
    assert((input_reserve + input_amount) * (output_reserve - out) == input_reserve
        * output_reserve + (input_amount * (output_reserve - out) - out * input_reserve))
        by (nonlinear_arith);
}

} // verus!
