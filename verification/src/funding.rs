use vstd::prelude::*;
use crate::errors::CustomError;
use crate::math::fits_i128;

verus! {

/// What a position of size `base` owes (positive) or is owed (negative) for
/// the move of the market's cumulative funding index from `last` to
/// `market`.
pub open spec fn funding_delta_of(base: int, last: int, market: int) -> int {
    base * (market - last)
}

/// The collateral left after paying `funding_delta`. Funding alone never
/// takes it below zero: what is missing is left to liquidation.
pub open spec fn collateral_after_funding(collateral: int, funding_delta: int) -> int {
    if collateral - funding_delta <= 0 {
        0
    } else {
        collateral - funding_delta
    }
}

/// Whether a settlement can be computed and represented: the move of the
/// index and the funding due fit in `i128`, and the collateral after it fits
/// in `u64`. A flat position needs none of this.
pub open spec fn funding_is_computable(base: int, collateral: int, last: int, market: int) -> bool {
    base == 0 || (fits_i128(market - last) && fits_i128(funding_delta_of(base, last, market))
        && collateral - funding_delta_of(base, last, market) <= u64::MAX)
}

/// What a settlement returns: the new collateral, the new checkpoint, and
/// the funding settled. A flat position only moves its checkpoint.
pub open spec fn funding_outcome(base: i64, collateral: u64, last: i128, market: i128) -> Result<
    (u64, i128, i128),
    CustomError,
> {
    if base == 0 {
        Ok((collateral, market, 0i128))
    } else if funding_is_computable(base as int, collateral as int, last as int, market as int) {
        Ok(
            (
                collateral_after_funding(
                    collateral as int,
                    funding_delta_of(base as int, last as int, market as int),
                ) as u64,
                market,
                funding_delta_of(base as int, last as int, market as int) as i128,
            ),
        )
    } else {
        Err(CustomError::CalculationOverflow)
    }
}

/// Settles the funding that has accrued on a position since its checkpoint
/// `last_cum_funding`, given the market's index `market_cum_funding`.
///
/// Returns `(new_collateral, new_checkpoint, funding_delta)`. The funding is
/// `base_position * (market_cum_funding - last_cum_funding)`; a long pays
/// when the index rises and a short when it falls. It is taken from the
/// collateral, which stops at zero. The checkpoint becomes the market's
/// index. A flat position settles nothing.
///
/// Fails with `CalculationOverflow` exactly where `funding_is_computable`
/// does not hold.
pub fn settle_funding_inner(
    base_position: i64,
    collateral: u64,
    last_cum_funding: i128,
    market_cum_funding: i128,
) -> (r: Result<(u64, i128, i128), CustomError>)
    ensures
        r == funding_outcome(base_position, collateral, last_cum_funding, market_cum_funding),
{
    if base_position == 0 {
        return Ok((collateral, market_cum_funding, 0));
    }
    let cum_diff: i128 = match market_cum_funding.checked_sub(last_cum_funding) {
        Some(v) => v,
        None => { return Err(CustomError::CalculationOverflow); },
    };
    if cum_diff == 0 {
        assert(base_position * 0 == 0);
        return Ok((collateral, market_cum_funding, 0));
    }
    let funding_delta: i128 = match (base_position as i128).checked_mul(cum_diff) {
        Some(v) => v,
        None => { return Err(CustomError::CalculationOverflow); },
    };
    let settled: i128 = match (collateral as i128).checked_sub(funding_delta) {
        Some(v) => v,
        None => { return Err(CustomError::CalculationOverflow); },
    };
    let new_collateral: u64 = if settled <= 0 {
        0
    } else if settled > u64::MAX as i128 {
        return Err(CustomError::CalculationOverflow);
    } else {
        settled as u64
    };
    Ok((new_collateral, market_cum_funding, funding_delta))
}

} // verus!
