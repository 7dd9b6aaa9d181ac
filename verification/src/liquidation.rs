use vstd::prelude::*;
use crate::errors::CustomError;
use crate::fixed_point::ceil_div;
use crate::math::{
    div_ceil,
    fits_i128,
    lemma_div_ceil_sign,
    lemma_rounded_quotient_magnitude,
    magnitude,
};
use crate::valuation::{
    equity_of,
    maintenance_margin,
    maintenance_margin_of,
    notional_of,
    notional_value,
    position_equity,
    BPS_DENOMINATOR,
};

verus! {

/// Whether an equity covers an initial margin. A position may sit exactly at
/// the margin: equality is enough.
pub open spec fn covers_initial_margin(equity: int, initial_margin: int) -> bool {
    equity >= initial_margin
}

/// Whether an equity is below a maintenance margin. Strictly: a position
/// exactly at the margin is safe.
pub open spec fn below_maintenance_margin(equity: int, maintenance_margin: int) -> bool {
    equity < maintenance_margin
}

/// Whether a position may be increased: its equity after the trade,
/// `equity_after`, covers the initial margin `im`.
pub fn can_increase_position(equity_after: i128, im: i128) -> (ok: bool)
    ensures
        ok == covers_initial_margin(equity_after as int, im as int),
{
    equity_after >= im
}

/// Whether a position is to be liquidated: its `equity` is below the
/// maintenance margin `mm`.
pub fn is_liquidatable_check(equity: i128, mm: i128) -> (liquidatable: bool)
    ensures
        liquidatable == below_maintenance_margin(equity as int, mm as int),
{
    equity < mm
}

/// Whether a position is under-margined at the price `mark`: it is open, and
/// its collateral plus unrealized profit and loss is below the maintenance
/// margin of its notional value at that price.
pub open spec fn liquidatable_at(collateral: int, base: int, entry: int, mark: int, mm_bps: int) -> bool {
    base != 0 && below_maintenance_margin(
        equity_of(collateral, 0, base, entry, mark, 0),
        maintenance_margin_of(notional_of(base, mark), mm_bps),
    )
}

/// Whether the figures that decide on liquidation fit in `i128`: the equity,
/// and the notional value times the margin rate. A flat position needs none.
pub open spec fn liquidation_is_computable(
    collateral: int,
    base: int,
    entry: int,
    mark: int,
    mm_bps: int,
) -> bool {
    base == 0 || (fits_i128(equity_of(collateral, 0, base, entry, mark, 0)) && fits_i128(
        notional_of(base, mark) * mm_bps,
    ))
}

/// Whether the position is liquidatable at `mark_price`: see
/// `liquidatable_at`. A flat position never is.
///
/// Fails with `CalculationOverflow` exactly where
/// `liquidation_is_computable` does not hold.
pub fn is_liquidatable(
    collateral: u64,
    base_position: i64,
    entry_price: i64,
    mark_price: i64,
    maintenance_margin_bps: u16,
) -> (r: Result<bool, CustomError>)
    ensures
        r == if liquidation_is_computable(
            collateral as int,
            base_position as int,
            entry_price as int,
            mark_price as int,
            maintenance_margin_bps as int,
        ) {
            Ok::<bool, CustomError>(
                liquidatable_at(
                    collateral as int,
                    base_position as int,
                    entry_price as int,
                    mark_price as int,
                    maintenance_margin_bps as int,
                ),
            )
        } else {
            Err(CustomError::CalculationOverflow)
        },
{
    if base_position == 0 {
        return Ok(false);
    }
    let equity: i128 = match position_equity(collateral, base_position, entry_price, mark_price) {
        Ok(v) => v,
        Err(e) => { return Err(e); },
    };
    let notional: i128 = match notional_value(base_position, mark_price) {
        Ok(v) => v,
        Err(e) => { return Err(e); },
    };
    let mm: i128 = match maintenance_margin(notional, maintenance_margin_bps) {
        Ok(v) => v,
        Err(e) => { return Err(e); },
    };
    Ok(is_liquidatable_check(equity, mm))
}

/// The maintenance margin that one unit of size costs at `mark`, rounded up.
pub open spec fn margin_per_unit(mark: int, mm_bps: int) -> int {
    div_ceil(magnitude(mark) * mm_bps, BPS_DENOMINATOR as int)
}

/// How much of a position a liquidation closes, as a size without sign.
///
/// - Nothing of a flat position.
/// - All of it once the equity is zero or below.
/// - Nothing while the equity covers the maintenance margin.
/// - Otherwise the margin deficit divided by the margin cost of one unit,
///   rounded up, but at most the whole position and at least one unit.
pub open spec fn liquidation_close_size(
    collateral: int,
    base: int,
    entry: int,
    mark: int,
    mm_bps: int,
) -> int {
    let equity = equity_of(collateral, 0, base, entry, mark, 0);
    let deficit = maintenance_margin_of(notional_of(base, mark), mm_bps) - equity;
    if base == 0 {
        0
    } else if equity <= 0 {
        magnitude(base)
    } else if deficit <= 0 {
        0
    } else {
        let wanted = div_ceil(deficit, margin_per_unit(mark, mm_bps));
        let clamped = if wanted <= magnitude(base) {
            wanted
        } else {
            magnitude(base)
        };
        if clamped >= 1 {
            clamped
        } else {
            1
        }
    }
}

/// Whether the close size can be computed and represented: the size of the
/// position has a magnitude in `i64`, the equity fits in `i128`, and where
/// the equity is positive so does the notional value times the margin rate.
/// A flat position needs none of this.
pub open spec fn close_size_is_computable(
    collateral: int,
    base: int,
    entry: int,
    mark: int,
    mm_bps: int,
) -> bool {
    let equity = equity_of(collateral, 0, base, entry, mark, 0);
    base == 0 || (magnitude(base) <= i64::MAX && fits_i128(equity) && (equity <= 0 || fits_i128(
        notional_of(base, mark) * mm_bps,
    )))
}

/// Where a deficit is left over positive equity, the margin cost of one unit
/// is at least one, and so is the deficit divided by it.
pub proof fn lemma_deficit_implies_unit_cost(
    collateral: int,
    base: int,
    entry: int,
    mark: int,
    mm_bps: int,
)
    requires
        mm_bps >= 0,
        equity_of(collateral, 0, base, entry, mark, 0) > 0,
        maintenance_margin_of(notional_of(base, mark), mm_bps) > equity_of(
            collateral,
            0,
            base,
            entry,
            mark,
            0,
        ),
    ensures
        margin_per_unit(mark, mm_bps) >= 1,
        div_ceil(
            maintenance_margin_of(notional_of(base, mark), mm_bps) - equity_of(
                collateral,
                0,
                base,
                entry,
                mark,
                0,
            ),
            margin_per_unit(mark, mm_bps),
        ) >= 1,
{
    let b = magnitude(base);
    let m = magnitude(mark);
    let numerator = notional_of(base, mark) * mm_bps;
    lemma_div_ceil_sign(numerator, BPS_DENOMINATOR as int);
    assert(numerator > 0);
    assert(m * mm_bps > 0) by (nonlinear_arith)
        requires
            (b * m) * mm_bps > 0,
            b >= 0,
            m >= 0,
            mm_bps >= 0,
    ;
    lemma_div_ceil_sign(m * mm_bps, BPS_DENOMINATOR as int);
    let deficit = maintenance_margin_of(notional_of(base, mark), mm_bps) - equity_of(
        collateral,
        0,
        base,
        entry,
        mark,
        0,
    );
    lemma_div_ceil_sign(deficit, margin_per_unit(mark, mm_bps));
}

/// The size that a liquidation of the position closes at `mark_price`: see
/// `liquidation_close_size`.
///
/// Fails with `CalculationOverflow` exactly where `close_size_is_computable`
/// does not hold.
pub fn compute_liquidation_close_size(
    collateral: u64,
    base_position: i64,
    entry_price: i64,
    mark_price: i64,
    maintenance_margin_bps: u16,
) -> (r: Result<i64, CustomError>)
    ensures
        r == if close_size_is_computable(
            collateral as int,
            base_position as int,
            entry_price as int,
            mark_price as int,
            maintenance_margin_bps as int,
        ) {
            Ok::<i64, CustomError>(
                liquidation_close_size(
                    collateral as int,
                    base_position as int,
                    entry_price as int,
                    mark_price as int,
                    maintenance_margin_bps as int,
                ) as i64,
            )
        } else {
            Err(CustomError::CalculationOverflow)
        },
        r matches Ok(size) ==> 0 <= size <= magnitude(base_position as int),
{
    if base_position == 0 {
        return Ok(0);
    }
    if base_position == i64::MIN {
        return Err(CustomError::CalculationOverflow);
    }
    let abs_base: i64 = if base_position < 0 {
        -base_position
    } else {
        base_position
    };
    let equity: i128 = match position_equity(collateral, base_position, entry_price, mark_price) {
        Ok(v) => v,
        Err(e) => { return Err(e); },
    };
    if equity <= 0 {
        return Ok(abs_base);
    }
    let notional: i128 = match notional_value(base_position, mark_price) {
        Ok(v) => v,
        Err(e) => { return Err(e); },
    };
    let mm: i128 = match maintenance_margin(notional, maintenance_margin_bps) {
        Ok(v) => v,
        Err(e) => { return Err(e); },
    };
    proof {
        lemma_div_ceil_sign(notional * maintenance_margin_bps, BPS_DENOMINATOR as int);
        assert(notional * maintenance_margin_bps >= 0) by (nonlinear_arith)
            requires
                notional >= 0,
                maintenance_margin_bps >= 0,
        ;
    }
    let deficit: i128 = mm - equity;
    if deficit <= 0 {
        return Ok(0);
    }
    let abs_mark: i128 = if mark_price < 0 {
        -(mark_price as i128)
    } else {
        mark_price as i128
    };
    proof {
        assert(0 <= abs_mark * maintenance_margin_bps <= 0x8000_0000_0000_0000 * 0xFFFF)
            by (nonlinear_arith)
            requires
                0 <= abs_mark <= 0x8000_0000_0000_0000,
                0 <= maintenance_margin_bps <= 0xFFFF,
        ;
        lemma_rounded_quotient_magnitude(
            abs_mark * maintenance_margin_bps,
            BPS_DENOMINATOR as int,
        );
        lemma_deficit_implies_unit_cost(
            collateral as int,
            base_position as int,
            entry_price as int,
            mark_price as int,
            maintenance_margin_bps as int,
        );
    }
    let per_unit: i128 = match ceil_div(abs_mark * (maintenance_margin_bps as i128), BPS_DENOMINATOR) {
        Ok(v) => v,
        Err(e) => { return Err(e); },
    };
    proof {
        lemma_rounded_quotient_magnitude(deficit as int, per_unit as int);
    }
    let wanted: i128 = match ceil_div(deficit, per_unit) {
        Ok(v) => v,
        Err(e) => { return Err(e); },
    };
    let clamped: i64 = if wanted <= abs_base as i128 {
        wanted as i64
    } else {
        abs_base
    };
    if clamped >= 1 {
        Ok(clamped)
    } else {
        Ok(1)
    }
}

} // verus!
