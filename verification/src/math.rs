use vstd::prelude::*;
use vstd::arithmetic::div_mod::*;
use vstd::arithmetic::mul::*;

verus! {

/// The absolute value of `x`.
pub open spec fn magnitude(x: int) -> int {
    if x < 0 {
        -x
    } else {
        x
    }
}

/// `+1` for a positive `x`, `-1` for a negative one, `0` for zero.
pub open spec fn signum(x: int) -> int {
    if x > 0 {
        1
    } else if x < 0 {
        -1
    } else {
        0
    }
}

/// The quotient `n / d` rounded toward negative infinity, for `d != 0`.
pub open spec fn div_floor(n: int, d: int) -> int {
    if d > 0 {
        n / d
    } else {
        (-n) / (-d)
    }
}

/// The quotient `n / d` rounded toward positive infinity, for `d != 0`.
pub open spec fn div_ceil(n: int, d: int) -> int {
    -div_floor(-n, d)
}

/// The quotient `n / d` rounded toward zero, for `d != 0`.
pub open spec fn div_trunc(n: int, d: int) -> int {
    if (n >= 0) == (d > 0) {
        div_floor(n, d)
    } else {
        div_ceil(n, d)
    }
}

/// Whether `x` is a value of `i128`.
pub open spec fn fits_i128(x: int) -> bool {
    i128::MIN <= x <= i128::MAX
}

/// Whether `x` is a value of `i64`.
pub open spec fn fits_i64(x: int) -> bool {
    i64::MIN <= x <= i64::MAX
}

/// Whether the magnitude of `x` is a value of `i128`; this leaves out
/// `i128::MIN`, whose magnitude is not.
pub open spec fn magnitude_fits_i128(x: int) -> bool {
    -i128::MAX <= x <= i128::MAX
}

/// For a positive divisor the floor is the one integer `q` with
/// `q * d <= n < (q + 1) * d`.
pub proof fn lemma_div_floor_bounds(n: int, d: int)
    requires
        d > 0,
    ensures
        div_floor(n, d) * d <= n < (div_floor(n, d) + 1) * d,
        n == div_floor(n, d) * d + n % d,
        0 <= n % d < d,
{
    lemma_fundamental_div_mod(n, d);
    lemma_mod_bound(n, d);
    lemma_mul_is_commutative(d, n / d);
    lemma_mul_is_distributive_add_other_way(d, n / d, 1);
}

/// Euclidean division by a negative divisor, in terms of the positive one.
pub proof fn lemma_div_negative_divisor(x: int, d: int)
    requires
        d < 0,
    ensures
        x / d == -(x / (-d)),
        x % d == x % (-d),
{
    let q = x / (-d);
    let r = x % (-d);
    lemma_fundamental_div_mod(x, -d);
    lemma_mod_bound(x, -d);
    lemma_fundamental_div_mod(x, d);
    let q2 = x / d;
    let r2 = x % d;
    assert(0 <= r2 < -d) by (nonlinear_arith)
        requires
            d < 0,
            r2 == x % d,
    ;
    assert((-d) * q == d * (-q)) by (nonlinear_arith);
    assert(d * q2 - d * (-q) == d * (q2 + q)) by (nonlinear_arith);
    assert(q2 + q == 0) by (nonlinear_arith)
        requires
            d < 0,
            d * (q2 + q) == r - r2,
            0 <= r < -d,
            0 <= r2 < -d,
    ;
}

/// The magnitude of a product is the product of the magnitudes.
pub proof fn lemma_magnitude_of_product(a: int, b: int)
    by (nonlinear_arith)
    ensures
        magnitude(a * b) == magnitude(a) * magnitude(b),
        (a * b < 0) == ((a < 0) != (b < 0) && a != 0 && b != 0),
        (a * b == 0) == (a == 0 || b == 0),
{
}

/// How the three roundings of `n / d` are read off the quotient `q` and
/// remainder `rem` of the magnitudes.
///
/// `negative` says that the exact quotient is below zero; where `n` is zero
/// nothing depends on it.
pub proof fn lemma_roundings_from_magnitudes(n: int, d: int, q: int, rem: int, negative: bool)
    requires
        d != 0,
        magnitude(n) == q * magnitude(d) + rem,
        0 <= rem < magnitude(d),
        n != 0 ==> negative == ((n < 0) != (d < 0)),
    ensures
        q >= 0,
        div_trunc(n, d) == if negative {
            -q
        } else {
            q
        },
        div_floor(n, d) == if negative {
            if rem != 0 {
                -(q + 1)
            } else {
                -q
            }
        } else {
            q
        },
        div_ceil(n, d) == if negative {
            -q
        } else {
            if rem != 0 {
                q + 1
            } else {
                q
            }
        },
{
    let m = magnitude(d);
    lemma_fundamental_div_mod_converse(magnitude(n), m, q, rem);
    lemma_div_pos_is_pos(magnitude(n), m);
    if n == 0 {
        assert(q == 0 && rem == 0) by {
            lemma_div_basics(m);
            lemma_small_mod(0, m as nat);
        }
    }
    lemma_floor_of_negated(magnitude(n), m, q, rem);
}

/// With `x == q * m + rem`, the floor of `-x / m`.
proof fn lemma_floor_of_negated(x: int, m: int, q: int, rem: int)
    requires
        m > 0,
        x == q * m + rem,
        0 <= rem < m,
    ensures
        x / m == q,
        (-x) / m == if rem != 0 {
            -(q + 1)
        } else {
            -q
        },
{
    lemma_fundamental_div_mod_converse(x, m, q, rem);
    if rem != 0 {
        assert((-(q + 1)) * m + (m - rem) == -x) by (nonlinear_arith)
            requires
                x == q * m + rem,
        ;
        lemma_fundamental_div_mod_converse(-x, m, -(q + 1), m - rem);
    } else {
        assert((-q) * m + 0 == -x) by (nonlinear_arith)
            requires
                x == q * m + rem,
                rem == 0,
        ;
        lemma_fundamental_div_mod_converse(-x, m, -q, 0);
    }
}

/// No rounding of `n / d` is larger in magnitude than `n`, and the three
/// roundings are ordered: floor, then truncation between them, then ceiling.
pub proof fn lemma_rounded_quotient_magnitude(n: int, d: int)
    requires
        d != 0,
    ensures
        magnitude(div_floor(n, d)) <= magnitude(n),
        magnitude(div_ceil(n, d)) <= magnitude(n),
        magnitude(div_trunc(n, d)) <= magnitude(n),
        div_floor(n, d) <= div_trunc(n, d) <= div_ceil(n, d),
        div_ceil(n, d) - div_floor(n, d) <= 1,
{
    let m = magnitude(d);
    let x = magnitude(n);
    let q = x / m;
    let rem = x % m;
    lemma_fundamental_div_mod(x, m);
    lemma_mod_bound(x, m);
    lemma_mul_is_commutative(m, q);
    lemma_roundings_from_magnitudes(n, d, q, rem, (n < 0) != (d < 0));
    assert(q <= x && (rem != 0 ==> q < x)) by (nonlinear_arith)
        requires
            x == q * m + rem,
            0 <= rem,
            m >= 1,
            q >= 0,
    ;
}

/// Over a positive divisor the ceiling has the sign of the dividend: it is
/// at least one for a positive dividend and at most zero otherwise.
pub proof fn lemma_div_ceil_sign(n: int, d: int)
    requires
        d > 0,
    ensures
        n > 0 ==> div_ceil(n, d) >= 1,
        n <= 0 ==> div_ceil(n, d) <= 0,
        n >= 0 ==> div_ceil(n, d) >= 0,
{
    let f = div_floor(-n, d);
    lemma_div_floor_bounds(-n, d);
    if n > 0 {
        assert(f < 0) by (nonlinear_arith)
            requires
                f * d <= -n,
                n > 0,
                d > 0,
        ;
    }
    if n <= 0 {
        assert(f >= 0) by (nonlinear_arith)
            requires
                -n < (f + 1) * d,
                n <= 0,
                d > 0,
        ;
    }
    if n == 0 {
        lemma_div_basics(d);
    }
}

/// For a positive divisor the ceiling is the one integer `c` with
/// `(c - 1) * d < n <= c * d`.
pub proof fn lemma_div_ceil_bounds(n: int, d: int)
    requires
        d > 0,
    ensures
        (div_ceil(n, d) - 1) * d < n <= div_ceil(n, d) * d,
{
    let f = div_floor(-n, d);
    lemma_div_floor_bounds(-n, d);
    assert((-f) * d == -(f * d)) by (nonlinear_arith);
    assert((-f - 1) * d == -((f + 1) * d)) by (nonlinear_arith);
}

/// Over a positive divisor the ceiling does not fall when the dividend
/// grows, and adding `k` times the divisor to the dividend adds `k` to it.
pub proof fn lemma_div_ceil_monotone(n1: int, n2: int, k: int, d: int)
    requires
        d > 0,
        n2 <= n1 + k * d,
    ensures
        div_ceil(n2, d) <= div_ceil(n1, d) + k,
{
    let c1 = div_ceil(n1, d);
    let c2 = div_ceil(n2, d);
    lemma_div_ceil_bounds(n1, d);
    lemma_div_ceil_bounds(n2, d);
    assert(c2 <= c1 + k) by (nonlinear_arith)
        requires
            d > 0,
            (c2 - 1) * d < n2,
            n2 <= n1 + k * d,
            n1 <= c1 * d,
    ;
}

/// The quotient that the machine's signed division gives: it rounds toward
/// zero.
pub open spec fn native_quotient(a: int, b: int) -> int {
    if a >= 0 {
        a / b
    } else {
        -((-a) / b)
    }
}

/// The remainder that the machine's signed division gives: it has the sign
/// of the dividend.
pub open spec fn native_remainder(a: int, b: int) -> int {
    if a >= 0 {
        a % b
    } else {
        -((-a) % b)
    }
}

/// The machine's quotient is the truncated one, and floor and ceiling differ
/// from it by one exactly where the remainder's sign says so.
pub proof fn lemma_native_division(a: int, b: int)
    requires
        b != 0,
    ensures
        native_quotient(a, b) == div_trunc(a, b),
        magnitude(native_quotient(a, b)) <= magnitude(a),
        magnitude(native_remainder(a, b)) < magnitude(b),
        native_remainder(a, b) != 0 ==> magnitude(native_quotient(a, b)) < magnitude(a),
        b == 1 ==> native_quotient(a, b) == a,
        b == -1 ==> native_quotient(a, b) == -a,
        b != 1 && b != -1 ==> 2 * magnitude(native_quotient(a, b)) <= magnitude(a),
        div_floor(a, b) == if native_remainder(a, b) != 0 && ((native_remainder(a, b) < 0) != (b
            < 0)) {
            native_quotient(a, b) - 1
        } else {
            native_quotient(a, b)
        },
        div_ceil(a, b) == if native_remainder(a, b) != 0 && ((native_remainder(a, b) < 0) == (b
            < 0)) {
            native_quotient(a, b) + 1
        } else {
            native_quotient(a, b)
        },
{
    let m = magnitude(b);
    let x = magnitude(a);
    let q = x / m;
    let rem = x % m;
    lemma_fundamental_div_mod(x, m);
    lemma_mod_bound(x, m);
    lemma_mul_is_commutative(m, q);
    lemma_div_pos_is_pos(x, m);
    lemma_roundings_from_magnitudes(a, b, q, rem, (a < 0) != (b < 0));
    if b < 0 {
        lemma_div_negative_divisor(x, b);
    }
    assert(q <= x) by {
        lemma_div_nonincreasing(x, m);
    }
    if rem != 0 {
        assert(q < x) by (nonlinear_arith)
            requires
                x == q * m + rem,
                rem > 0,
                m > 0,
                q >= 0,
        ;
    }
    if m == 1 {
        assert(q * 1 == q);
    } else {
        assert(2 * q <= x) by (nonlinear_arith)
            requires
                x == q * m + rem,
                rem >= 0,
                m >= 2,
                q >= 0,
        ;
    }
}

/// The low 64 bits of `x`: what is left of a value that is stored in 64 bits
/// without a check.
pub open spec fn low_64(x: int) -> int {
    x % 0x1_0000_0000_0000_0000
}

/// A signed 64-bit value read as unsigned: itself, or itself plus 2^64 where
/// it is negative.
pub open spec fn as_unsigned_64(x: int) -> int {
    if x >= 0 {
        x
    } else {
        x + 0x1_0000_0000_0000_0000
    }
}

/// Storing a 128-bit value in 64 bits keeps its low 64 bits.
pub proof fn lemma_low_64_of_u128(x: u128)
    by (bit_vector)
    ensures
        (x as u64) == x % 0x1_0000_0000_0000_0000,
{
}

/// Reading a signed 64-bit value as unsigned adds 2^64 to a negative one.
pub proof fn lemma_i64_as_u64(x: i64)
    by (bit_vector)
    ensures
        (x as u64) == if x >= 0 {
            x as int
        } else {
            x + 0x1_0000_0000_0000_0000
        },
{
}

} // verus!
