use vstd::prelude::*;
use vstd::arithmetic::div_mod::{
    lemma_div_is_ordered,
    lemma_div_multiples_vanish,
    lemma_div_pos_is_pos,
    lemma_fundamental_div_mod,
    lemma_mod_bound,
};
use vstd::arithmetic::mul::{lemma_mul_is_commutative, lemma_mul_nonnegative};
use crate::errors::CustomError;
use crate::math::{
    div_ceil,
    div_floor,
    div_trunc,
    fits_i128,
    lemma_magnitude_of_product,
    lemma_native_division,
    lemma_roundings_from_magnitudes,
    magnitude,
    magnitude_fits_i128,
};
use crate::wide::{full_mul_u128, two_128, wide_div_u256, wide_value};

verus! {

/// Prices are integers scaled by this factor: one quote unit is 1_000_000.
pub const PRICE_SCALE: i128 = 1_000_000;

/// Base amounts use the scale of prices.
pub const BASE_SCALE: i128 = PRICE_SCALE;

/// Quote amounts (collateral, margin, profit and loss) use it too.
pub const QUOTE_SCALE: i128 = PRICE_SCALE;

/// What an unsigned scaled division returns for the exact quotient `q`:
/// the quotient where the divisor `d` is not zero and `q` fits in 128 bits.
pub open spec fn unsigned_quotient(d: int, q: int) -> Result<u128, CustomError> {
    if d != 0 && q <= u128::MAX {
        Ok(q as u128)
    } else {
        Err(CustomError::CalculationOverflow)
    }
}

/// What a signed scaled division returns for the rounded quotient `q`: the
/// quotient where the divisor `d` is not zero and the magnitude of `q` is at
/// most `i128::MAX`.
pub open spec fn signed_quotient(d: int, q: int) -> Result<i128, CustomError> {
    if d != 0 && magnitude_fits_i128(q) {
        Ok(q as i128)
    } else {
        Err(CustomError::CalculationOverflow)
    }
}

/// What a checked signed step returns for the exact value `x`.
pub open spec fn checked_i128(x: int) -> Result<i128, CustomError> {
    if fits_i128(x) {
        Ok(x as i128)
    } else {
        Err(CustomError::CalculationOverflow)
    }
}

/// The magnitude of `x` as an unsigned number.
pub fn unsigned_abs_i128(x: i128) -> (r: u128)
    ensures
        r == magnitude(x as int),
{
    if x >= 0 {
        x as u128
    } else if x == i128::MIN {
        0x8000_0000_0000_0000_0000_0000_0000_0000u128
    } else {
        (-x) as u128
    }
}

/// `(a * b) / d` with its remainder, exact even where `a * b` does not fit in
/// 128 bits.
///
/// Fails when `d` is zero or the quotient does not fit in 128 bits.
pub fn wide_mul_div_with_rem_u128(a: u128, b: u128, d: u128) -> (r: Result<
    (u128, u128),
    CustomError,
>)
    ensures
        r == if d != 0 && (a * b) / (d as int) <= u128::MAX {
            Ok::<(u128, u128), CustomError>(
                (((a * b) / (d as int)) as u128, ((a * b) % (d as int)) as u128),
            )
        } else {
            Err(CustomError::CalculationOverflow)
        },
{
    if d == 0 {
        return Err(CustomError::CalculationOverflow);
    }
    proof {
        lemma_mul_nonnegative(a as int, b as int);
        lemma_mod_bound(a * b, d as int);
        lemma_div_pos_is_pos(a * b, d as int);
    }
    if a == 0 || b == 0 {
        proof {
            assert(a * b == 0) by (nonlinear_arith)
                requires
                    a == 0 || b == 0,
            ;
            vstd::arithmetic::div_mod::lemma_div_basics(d as int);
            vstd::arithmetic::div_mod::lemma_small_mod(0, d as nat);
        }
        return Ok((0, 0));
    }
    match a.checked_mul(b) {
        Some(product) => {
            proof {
                vstd::arithmetic::div_mod::lemma_div_nonincreasing(product as int, d as int);
            }
            Ok((product / d, product % d))
        },
        None => {
            let (hi, lo) = full_mul_u128(a, b);
            proof {
                lemma_quotient_width(hi, lo, d);
            }
            wide_div_u256(hi, lo, d)
        },
    }
}

/// The quotient of a 256-bit number by `d` fits in 128 bits exactly when the
/// high half is below `d`.
pub proof fn lemma_quotient_width(hi: u128, lo: u128, d: u128)
    requires
        d != 0,
    ensures
        (hi < d) == (wide_value(hi, lo) / (d as int) <= u128::MAX),
        0 <= wide_value(hi, lo) % (d as int) < d,
{
    let x = wide_value(hi, lo);
    let w = two_128();
    lemma_mod_bound(x, d as int);
    if hi >= d {
        assert(d * w <= hi * w) by (nonlinear_arith)
            requires
                d <= hi,
                w > 0,
        ;
        lemma_div_is_ordered(d * w, x, d as int);
        lemma_div_multiples_vanish(w, d as int);
    } else {
        assert(hi * w + w <= d * w) by (nonlinear_arith)
            requires
                hi + 1 <= d,
                w > 0,
        ;
        assert(x < w * (d as int)) by {
            lemma_mul_is_commutative(w, d as int);
        }
        vstd::arithmetic::div_mod::lemma_div_by_multiple_is_strongly_ordered(
            x,
            w * (d as int),
            w,
            d as int,
        );
        lemma_mul_is_commutative(w, d as int);
        lemma_div_multiples_vanish(w, d as int);
    }
}

/// `(a * b) / d`, exact even where `a * b` does not fit in 128 bits.
pub fn wide_mul_div_u128(a: u128, b: u128, d: u128) -> (r: Result<u128, CustomError>)
    ensures
        r == unsigned_quotient(d as int, (a * b) / (d as int)),
{
    match wide_mul_div_with_rem_u128(a, b, d) {
        Ok((q, _)) => Ok(q),
        Err(e) => Err(e),
    }
}

/// `(a * b) / denom`, rounded toward zero, with full precision of the
/// product.
///
/// Fails with `CalculationOverflow` when `denom` is zero or the quotient does
/// not fit in 128 bits.
pub fn mul_div(a: u128, b: u128, denom: u128) -> (r: Result<u128, CustomError>)
    ensures
        r == unsigned_quotient(denom as int, (a * b) / (denom as int)),
{
    if denom == 0 {
        return Err(CustomError::CalculationOverflow);
    }
    wide_mul_div_u128(a, b, denom)
}

/// `base + delta`, or `CalculationOverflow` where the sum leaves `i128`.
pub fn checked_add_signed(base: i128, delta: i128) -> (r: Result<i128, CustomError>)
    ensures
        r == checked_i128(base + delta),
{
    match base.checked_add(delta) {
        Some(v) => Ok(v),
        None => Err(CustomError::CalculationOverflow),
    }
}

/// `base - delta`, or `CalculationOverflow` where the difference leaves
/// `i128`.
pub fn checked_sub_signed(base: i128, delta: i128) -> (r: Result<i128, CustomError>)
    ensures
        r == checked_i128(base - delta),
{
    match base.checked_sub(delta) {
        Some(v) => Ok(v),
        None => Err(CustomError::CalculationOverflow),
    }
}

/// The quotient and remainder of the magnitudes of `a * b` and `denom`, with
/// the sign of the exact quotient `a * b / denom`.
///
/// The sign is the parity of the negative operands. Fails when `denom` is
/// zero or the quotient of the magnitudes does not fit in 128 bits.
fn signed_parts(a: i128, b: i128, denom: i128) -> (r: Result<(bool, u128, u128), CustomError>)
    ensures
        match r {
            Ok((negative, q, rem)) => {
                &&& denom != 0
                &&& q == magnitude(a * b) / magnitude(denom as int)
                &&& rem == magnitude(a * b) % magnitude(denom as int)
                &&& a * b != 0 ==> negative == ((a * b < 0) != (denom < 0))
                &&& div_trunc(a * b, denom as int) == if negative {
                    -q
                } else {
                    q as int
                }
                &&& div_floor(a * b, denom as int) == if negative && rem != 0 {
                    -(q + 1)
                } else if negative {
                    -q
                } else {
                    q as int
                }
                &&& div_ceil(a * b, denom as int) == if negative {
                    -q
                } else if rem != 0 {
                    q + 1
                } else {
                    q as int
                }
            },
            Err(e) => {
                &&& e == CustomError::CalculationOverflow
                &&& denom != 0 ==> {
                    &&& magnitude(div_trunc(a * b, denom as int)) > u128::MAX
                    &&& magnitude(div_floor(a * b, denom as int)) > u128::MAX
                    &&& magnitude(div_ceil(a * b, denom as int)) > u128::MAX
                }
            },
        },
{
    if denom == 0 {
        return Err(CustomError::CalculationOverflow);
    }
    let negative = ((a < 0) != (b < 0)) != (denom < 0);
    let abs_a = unsigned_abs_i128(a);
    let abs_b = unsigned_abs_i128(b);
    let abs_d = unsigned_abs_i128(denom);
    proof {
        let n = a * b;
        let m = magnitude(denom as int);
        lemma_magnitude_of_product(a as int, b as int);
        lemma_fundamental_div_mod(magnitude(n), m);
        lemma_mod_bound(magnitude(n), m);
        lemma_mul_is_commutative(m, magnitude(n) / m);
        lemma_roundings_from_magnitudes(
            n,
            denom as int,
            magnitude(n) / m,
            magnitude(n) % m,
            negative,
        );
    }
    match wide_mul_div_with_rem_u128(abs_a, abs_b, abs_d) {
        Ok((q, rem)) => Ok((negative, q, rem)),
        Err(e) => Err(e),
    }
}

/// `(a * b) / denom` for signed operands, rounded toward zero.
///
/// The quotient of the magnitudes is computed with full precision of the
/// product and given the sign of the exact quotient. Fails with
/// `CalculationOverflow` when `denom` is zero or the magnitude of the result
/// exceeds `i128::MAX`.
pub fn signed_mul_div(a: i128, b: i128, denom: i128) -> (r: Result<i128, CustomError>)
    ensures
        r == signed_quotient(denom as int, div_trunc(a * b, denom as int)),
{
    match signed_parts(a, b, denom) {
        Err(e) => Err(e),
        Ok((negative, q, _)) => {
            if q > i128::MAX as u128 {
                Err(CustomError::CalculationOverflow)
            } else {
                let v: i128 = q as i128;
                if negative {
                    Ok(-v)
                } else {
                    Ok(v)
                }
            }
        },
    }
}

/// `(a * b) / denom` for signed operands, rounded toward negative infinity.
///
/// Fails with `CalculationOverflow` when `denom` is zero or the magnitude of
/// the result exceeds `i128::MAX`.
pub fn signed_mul_div_floor(a: i128, b: i128, denom: i128) -> (r: Result<i128, CustomError>)
    ensures
        r == signed_quotient(denom as int, div_floor(a * b, denom as int)),
{
    match signed_parts(a, b, denom) {
        Err(e) => Err(e),
        Ok((negative, q, rem)) => {
            if q > i128::MAX as u128 {
                Err(CustomError::CalculationOverflow)
            } else {
                let v: i128 = q as i128;
                if negative {
                    if rem != 0 {
                        if v == i128::MAX {
                            Err(CustomError::CalculationOverflow)
                        } else {
                            Ok(-(v + 1))
                        }
                    } else {
                        Ok(-v)
                    }
                } else {
                    Ok(v)
                }
            }
        },
    }
}

/// `(a * b) / denom` for signed operands, rounded toward positive infinity.
///
/// Fails with `CalculationOverflow` when `denom` is zero or the magnitude of
/// the result exceeds `i128::MAX`.
pub fn signed_mul_div_ceil(a: i128, b: i128, denom: i128) -> (r: Result<i128, CustomError>)
    ensures
        r == signed_quotient(denom as int, div_ceil(a * b, denom as int)),
{
    match signed_parts(a, b, denom) {
        Err(e) => Err(e),
        Ok((negative, q, rem)) => {
            if q > i128::MAX as u128 {
                Err(CustomError::CalculationOverflow)
            } else {
                let v: i128 = q as i128;
                if negative {
                    Ok(-v)
                } else if rem != 0 {
                    if v == i128::MAX {
                        Err(CustomError::CalculationOverflow)
                    } else {
                        Ok(v + 1)
                    }
                } else {
                    Ok(v)
                }
            }
        },
    }
}

/// `a / b` rounded toward negative infinity.
///
/// Fails with `CalculationOverflow` when `b` is zero or the quotient is not
/// an `i128` (`i128::MIN / -1`).
pub fn floor_div(a: i128, b: i128) -> (r: Result<i128, CustomError>)
    ensures
        r == if b != 0 {
            checked_i128(div_floor(a as int, b as int))
        } else {
            Err(CustomError::CalculationOverflow)
        },
{
    if b == 0 || (a == i128::MIN && b == -1) {
        proof {
            if b != 0 {
                assert(div_floor(a as int, b as int) == -(a as int)) by {
                    vstd::arithmetic::div_mod::lemma_div_basics(-(a as int));
                }
            }
        }
        return Err(CustomError::CalculationOverflow);
    }
    let d: i128 = a / b;
    let r: i128 = a % b;
    proof {
        lemma_native_division(a as int, b as int);
    }
    if r != 0 && ((r < 0) != (b < 0)) {
        Ok(d - 1)
    } else {
        Ok(d)
    }
}

/// `a / b` rounded toward positive infinity.
///
/// Fails with `CalculationOverflow` when `b` is zero or the quotient is not
/// an `i128` (`i128::MIN / -1`).
pub fn ceil_div(a: i128, b: i128) -> (r: Result<i128, CustomError>)
    ensures
        r == if b != 0 {
            checked_i128(div_ceil(a as int, b as int))
        } else {
            Err(CustomError::CalculationOverflow)
        },
{
    if b == 0 || (a == i128::MIN && b == -1) {
        proof {
            if b != 0 {
                assert(div_ceil(a as int, b as int) == -(a as int)) by {
                    vstd::arithmetic::div_mod::lemma_div_basics(a as int);
                }
            }
        }
        return Err(CustomError::CalculationOverflow);
    }
    let d: i128 = a / b;
    let r: i128 = a % b;
    proof {
        lemma_native_division(a as int, b as int);
    }
    if r != 0 && ((r < 0) == (b < 0)) {
        Ok(d + 1)
    } else {
        Ok(d)
    }
}

} // verus!
