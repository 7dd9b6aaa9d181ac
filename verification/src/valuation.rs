use vstd::prelude::*;
use crate::errors::CustomError;
use crate::fixed_point::{ceil_div, checked_i128};
use crate::math::{div_ceil, fits_i128, lemma_rounded_quotient_magnitude, magnitude};

verus! {

/// The number of basis points in one: margins are given in ten-thousandths.
pub const BPS_DENOMINATOR: i128 = 10_000;

/// The exposure of a position of size `base` at `price`: the product of the
/// magnitudes, never negative.
pub open spec fn notional_of(base: int, price: int) -> int {
    magnitude(base) * magnitude(price)
}

/// The profit (positive) or loss (negative) that a position of size `base`
/// entered at `entry` shows at the price `mark`. The sign of `base` carries
/// the direction.
pub open spec fn unrealized_pnl_of(base: int, entry: int, mark: int) -> int {
    base * (mark - entry)
}

/// The margin required to hold `notional` at `leverage`, rounded up.
pub open spec fn initial_margin_of(notional: int, leverage: int) -> int {
    div_ceil(notional, leverage)
}

/// The margin below which a position of `notional` is liquidated: `mm_bps`
/// ten-thousandths of it, rounded up.
pub open spec fn maintenance_margin_of(notional: int, mm_bps: int) -> int {
    div_ceil(notional * mm_bps, BPS_DENOMINATOR as int)
}

/// What a position is worth to its owner: collateral plus realized and
/// unrealized profit and loss, less the funding owed. Below zero it is debt.
pub open spec fn equity_of(
    collateral: int,
    realized_pnl: int,
    base: int,
    entry: int,
    mark: int,
    funding_owed: int,
) -> int {
    collateral + realized_pnl + unrealized_pnl_of(base, entry, mark) - funding_owed
}

/// What a margin computation returns for `leverage` and the exact margin.
pub open spec fn margin_outcome(leverage: u16, margin: int) -> Result<i128, CustomError> {
    if leverage == 0 {
        Err(CustomError::InvalidLeverage)
    } else {
        Ok(margin as i128)
    }
}

/// Products of a 64-bit size with a difference of 64-bit prices, and of two
/// 64-bit magnitudes, stay well inside `i128`.
pub proof fn lemma_valuation_bounds(base: i64, entry: i64, mark: i64)
    ensures
        -0x7FFF_FFFF_FFFF_FFFF_8000_0000_0000_0000 <= unrealized_pnl_of(
            base as int,
            entry as int,
            mark as int,
        ) <= 0x7FFF_FFFF_FFFF_FFFF_8000_0000_0000_0000,
        0 <= notional_of(base as int, mark as int) <= 0x4000_0000_0000_0000_0000_0000_0000_0000,
{
    let b = base as int;
    let d = mark - entry;
    assert(-(0x8000_0000_0000_0000 * 0xFFFF_FFFF_FFFF_FFFF) <= b * d <= 0x8000_0000_0000_0000
        * 0xFFFF_FFFF_FFFF_FFFF) by (nonlinear_arith)
        requires
            -0x8000_0000_0000_0000 <= b <= 0x8000_0000_0000_0000,
            -0xFFFF_FFFF_FFFF_FFFF <= d <= 0xFFFF_FFFF_FFFF_FFFF,
    ;
    let x = magnitude(base as int);
    let y = magnitude(mark as int);
    assert(0 <= x * y <= 0x8000_0000_0000_0000 * 0x8000_0000_0000_0000) by (nonlinear_arith)
        requires
            0 <= x <= 0x8000_0000_0000_0000,
            0 <= y <= 0x8000_0000_0000_0000,
    ;
}

/// The unrealized profit or loss of a position at `mark_price`:
/// `base_position * (mark_price - entry_price)`. It always fits.
pub fn unrealized_pnl(base_position: i64, entry_price: i64, mark_price: i64) -> (r: Result<
    i128,
    CustomError,
>)
    ensures
        r == Ok::<i128, CustomError>(
            unrealized_pnl_of(base_position as int, entry_price as int, mark_price as int) as i128,
        ),
        fits_i128(unrealized_pnl_of(base_position as int, entry_price as int, mark_price as int)),
{
    if base_position == 0 {
        assert(0 * (mark_price - entry_price) == 0);
        return Ok(0);
    }
    proof {
        lemma_valuation_bounds(base_position, entry_price, mark_price);
    }
    let price_diff: i128 = (mark_price as i128) - (entry_price as i128);
    Ok((base_position as i128) * price_diff)
}

/// The notional value of a position at `price`: `|base_position| * |price|`.
/// It always fits.
pub fn notional_value(base_position: i64, price: i64) -> (r: Result<i128, CustomError>)
    ensures
        r == Ok::<i128, CustomError>(notional_of(base_position as int, price as int) as i128),
        fits_i128(notional_of(base_position as int, price as int)),
{
    let b: i128 = base_position as i128;
    let p: i128 = price as i128;
    let abs_base: i128 = if b < 0 {
        -b
    } else {
        b
    };
    let abs_price: i128 = if p < 0 {
        -p
    } else {
        p
    };
    proof {
        lemma_valuation_bounds(base_position, 0, price);
    }
    Ok(abs_base * abs_price)
}

/// The margin required for `notional` at `leverage`: `notional / leverage`,
/// rounded up. Fails with `InvalidLeverage` exactly when `leverage` is zero.
pub fn required_margin_scaled(notional: i128, leverage: u16) -> (r: Result<i128, CustomError>)
    ensures
        r == margin_outcome(leverage, initial_margin_of(notional as int, leverage as int)),
        leverage != 0 ==> fits_i128(initial_margin_of(notional as int, leverage as int)),
{
    if leverage == 0 {
        return Err(CustomError::InvalidLeverage);
    }
    proof {
        lemma_rounded_quotient_magnitude(notional as int, leverage as int);
    }
    ceil_div(notional, leverage as i128)
}

/// The initial margin for `notional` at `leverage`: `notional / leverage`,
/// rounded up, so that the requirement is never below the exact one. Fails
/// with `InvalidLeverage` exactly when `leverage` is zero.
pub fn initial_margin(notional: i128, leverage: u16) -> (r: Result<i128, CustomError>)
    ensures
        r == margin_outcome(leverage, initial_margin_of(notional as int, leverage as int)),
        leverage != 0 ==> fits_i128(initial_margin_of(notional as int, leverage as int)),
{
    if leverage == 0 {
        return Err(CustomError::InvalidLeverage);
    }
    proof {
        lemma_rounded_quotient_magnitude(notional as int, leverage as int);
    }
    ceil_div(notional, leverage as i128)
}

/// The maintenance margin for `notional`: `notional * mm_bps / 10_000`,
/// rounded up. Fails with `CalculationOverflow` exactly when
/// `notional * mm_bps` is not an `i128`.
pub fn maintenance_margin(notional: i128, mm_bps: u16) -> (r: Result<i128, CustomError>)
    ensures
        r == if fits_i128(notional * mm_bps) {
            Ok::<i128, CustomError>(maintenance_margin_of(notional as int, mm_bps as int) as i128)
        } else {
            Err(CustomError::CalculationOverflow)
        },
        fits_i128(notional * mm_bps) ==> fits_i128(
            maintenance_margin_of(notional as int, mm_bps as int),
        ),
{
    let numerator: i128 = match notional.checked_mul(mm_bps as i128) {
        Some(v) => v,
        None => { return Err(CustomError::CalculationOverflow); },
    };
    proof {
        lemma_rounded_quotient_magnitude(numerator as int, BPS_DENOMINATOR as int);
    }
    ceil_div(numerator, BPS_DENOMINATOR)
}

/// Whether each partial sum of the equity, taken in the order collateral,
/// realized, unrealized, funding, is an `i128`.
pub open spec fn equity_is_computable(
    collateral: int,
    realized_pnl: int,
    base: int,
    entry: int,
    mark: int,
    funding_owed: int,
) -> bool {
    &&& fits_i128(collateral + realized_pnl)
    &&& fits_i128(collateral + realized_pnl + unrealized_pnl_of(base, entry, mark))
    &&& fits_i128(equity_of(collateral, realized_pnl, base, entry, mark, funding_owed))
}

/// The equity of a position:
/// `collateral + realized_pnl + unrealized_pnl - funding_owed`.
///
/// Fails with `CalculationOverflow` exactly when one of the partial sums,
/// taken in that order, is not an `i128`.
pub fn compute_equity(
    collateral: u64,
    realized_pnl: i128,
    base_position: i64,
    entry_price: i64,
    mark_price: i64,
    funding_owed: i128,
) -> (r: Result<i128, CustomError>)
    ensures
        r == if equity_is_computable(
            collateral as int,
            realized_pnl as int,
            base_position as int,
            entry_price as int,
            mark_price as int,
            funding_owed as int,
        ) {
            Ok::<i128, CustomError>(
                equity_of(
                    collateral as int,
                    realized_pnl as int,
                    base_position as int,
                    entry_price as int,
                    mark_price as int,
                    funding_owed as int,
                ) as i128,
            )
        } else {
            Err(CustomError::CalculationOverflow)
        },
{
    let upnl: i128 = match unrealized_pnl(base_position, entry_price, mark_price) {
        Ok(v) => v,
        Err(e) => { return Err(e); },
    };
    let with_realized: i128 = match (collateral as i128).checked_add(realized_pnl) {
        Some(v) => v,
        None => { return Err(CustomError::CalculationOverflow); },
    };
    let with_unrealized: i128 = match with_realized.checked_add(upnl) {
        Some(v) => v,
        None => { return Err(CustomError::CalculationOverflow); },
    };
    match with_unrealized.checked_sub(funding_owed) {
        Some(v) => Ok(v),
        None => Err(CustomError::CalculationOverflow),
    }
}

/// The equity of a position with nothing realized and no funding owed:
/// `collateral + unrealized_pnl`.
///
/// Fails with `CalculationOverflow` exactly when that sum is not an `i128`.
pub fn position_equity(collateral: u64, base_position: i64, entry_price: i64, mark_price: i64) -> (r:
    Result<i128, CustomError>)
    ensures
        r == checked_i128(
            equity_of(
                collateral as int,
                0,
                base_position as int,
                entry_price as int,
                mark_price as int,
                0,
            ),
        ),
{
    compute_equity(collateral, 0, base_position, entry_price, mark_price, 0)
}

} // verus!
