use vstd::prelude::*;
use vstd::arithmetic::div_mod::lemma_fundamental_div_mod_converse;
use vstd::arithmetic::power2::{pow2, lemma_pow2_unfold, lemma_pow2_adds, lemma_pow2_strictly_increases, lemma2_to64_rest};
use crate::errors::CustomError;

verus! {

/// The low 64 bits of a 128-bit word.
pub const LOW_64: u128 = 0xFFFF_FFFF_FFFF_FFFF;

/// 2^64.
pub open spec fn two_64() -> int {
    0x1_0000_0000_0000_0000
}

/// 2^128.
pub open spec fn two_128() -> int {
    0x1_0000_0000_0000_0000_0000_0000_0000_0000int
}

/// The 256-bit number whose high 128 bits are `hi` and whose low 128 bits
/// are `lo`.
pub open spec fn wide_value(hi: u128, lo: u128) -> int {
    hi * two_128() + lo
}

/// A 128-bit word is its high half times 2^64 plus its low half.
proof fn lemma_halves(x: u128)
    by (bit_vector)
    ensures
        x == (x >> 64) * 0x1_0000_0000_0000_0000 + (x & 0xFFFF_FFFF_FFFF_FFFF),
        (x & 0xFFFF_FFFF_FFFF_FFFF) < 0x1_0000_0000_0000_0000,
        (x >> 64) < 0x1_0000_0000_0000_0000,
{
}

/// Two 64-bit values placed side by side in one word.
proof fn lemma_join_halves(low: u128, high: u128)
    by (bit_vector)
    requires
        low < 0x1_0000_0000_0000_0000,
        high < 0x1_0000_0000_0000_0000,
    ensures
        low | (high << 64) == low + high * 0x1_0000_0000_0000_0000,
{
}

/// The product of two 64-bit values fits in 128 bits with room to spare.
proof fn lemma_half_product(x: u128, y: u128)
    by (nonlinear_arith)
    requires
        x < 0x1_0000_0000_0000_0000,
        y < 0x1_0000_0000_0000_0000,
    ensures
        x * y <= 0xFFFF_FFFF_FFFF_FFFE_0000_0000_0000_0001,
{
}

/// Schoolbook expansion of a product of two numbers given by their halves.
proof fn lemma_schoolbook(ah: int, al: int, bh: int, bl: int, w: int)
    ensures
        (ah * w + al) * (bh * w + bl) == (ah * bh) * (w * w) + (al * bh + ah * bl) * w + al
            * bl,
{
    let x = ah * w;
    let u = bh * w;
    assert((x + al) * (u + bl) == x * u + x * bl + al * u + al * bl) by (nonlinear_arith);
    assert(x * u == (ah * bh) * (w * w)) by (nonlinear_arith)
        requires
            x == ah * w,
            u == bh * w,
    ;
    assert(x * bl == (ah * bl) * w) by (nonlinear_arith)
        requires
            x == ah * w,
    ;
    assert(al * u == (al * bh) * w) by (nonlinear_arith)
        requires
            u == bh * w,
    ;
    assert((al * bh + ah * bl) * w == (al * bh) * w + (ah * bl) * w) by (nonlinear_arith);
}

/// The full 256-bit product of two 128-bit numbers, as `(high, low)`.
pub fn full_mul_u128(a: u128, b: u128) -> (r: (u128, u128))
    ensures
        wide_value(r.0, r.1) == a * b,
        r.0 == (a * b) / two_128(),
        r.1 == (a * b) % two_128(),
{
    let a_lo: u128 = a & LOW_64;
    let a_hi: u128 = a >> 64;
    let b_lo: u128 = b & LOW_64;
    let b_hi: u128 = b >> 64;
    proof {
        lemma_halves(a);
        lemma_halves(b);
        lemma_half_product(a_lo, b_lo);
        lemma_half_product(a_lo, b_hi);
        lemma_half_product(a_hi, b_lo);
        lemma_half_product(a_hi, b_hi);
    }
    let ll: u128 = a_lo * b_lo;
    let lh: u128 = a_lo * b_hi;
    let hl: u128 = a_hi * b_lo;
    let hh: u128 = a_hi * b_hi;
    proof {
        lemma_halves(ll);
        lemma_halves(lh);
        lemma_halves(hl);
    }
    let mid_sum: u128 = (ll >> 64) + (lh & LOW_64) + (hl & LOW_64);
    proof {
        lemma_halves(mid_sum);
        lemma_join_halves(ll & LOW_64, mid_sum & LOW_64);
        lemma_schoolbook(a_hi as int, a_lo as int, b_hi as int, b_lo as int, two_64());
        assert(two_64() * two_64() == two_128());
    }
    let lo: u128 = (ll & LOW_64) | ((mid_sum & LOW_64) << 64);
    let hi: u128 = hh + (lh >> 64) + (hl >> 64) + (mid_sum >> 64);
    proof {
        let w = two_64();
        assert(a == a_hi * w + a_lo);
        assert(b == b_hi * w + b_lo);
        assert(a * b == hh * (w * w) + (lh + hl) * w + ll);
        assert(lo == (ll & LOW_64) + (mid_sum & LOW_64) * w);
        assert((lh + hl) * w == ((lh >> 64) + (hl >> 64)) * (w * w) + ((lh & LOW_64) + (hl
            & LOW_64)) * w) by {
            assert(lh + hl == ((lh >> 64) + (hl >> 64)) * w + ((lh & LOW_64) + (hl & LOW_64)));
            lemma_scale_sum(
                (lh >> 64) + (hl >> 64),
                ((lh & LOW_64) + (hl & LOW_64)) as int,
                w,
            );
        }
        assert(mid_sum * w == (mid_sum >> 64) * (w * w) + (mid_sum & LOW_64) * w) by {
            lemma_scale_sum((mid_sum >> 64) as int, (mid_sum & LOW_64) as int, w);
        }
        assert(mid_sum * w == (ll >> 64) * w + ((lh & LOW_64) + (hl & LOW_64)) * w) by {
            lemma_scale_sum_flat((ll >> 64) as int, ((lh & LOW_64) + (hl & LOW_64)) as int, w);
        }
        assert(hi * (w * w) == hh * (w * w) + ((lh >> 64) + (hl >> 64)) * (w * w) + (mid_sum
            >> 64) * (w * w)) by {
            lemma_three_terms(
                hh as int,
                (lh >> 64) + (hl >> 64),
                (mid_sum >> 64) as int,
                w * w,
            );
        }
    }
    proof {
        vstd::arithmetic::mul::lemma_mul_is_commutative(hi as int, two_128());
        lemma_fundamental_div_mod_converse(a * b, two_128(), hi as int, lo as int);
    }
    (hi, lo)
}

/// `(x * w + y) * w` multiplied out.
proof fn lemma_scale_sum(x: int, y: int, w: int)
    by (nonlinear_arith)
    ensures
        (x * w + y) * w == x * (w * w) + y * w,
{
}

/// `(x + y) * w` multiplied out.
proof fn lemma_scale_sum_flat(x: int, y: int, w: int)
    by (nonlinear_arith)
    ensures
        (x + y) * w == x * w + y * w,
{
}

/// `(x + y + z) * w` multiplied out.
proof fn lemma_three_terms(x: int, y: int, z: int, w: int)
    by (nonlinear_arith)
    ensures
        (x + y + z) * w == x * w + y * w + z * w,
{
}

/// What the top `128 - i` bits of `lo` are worth on their own.
pub open spec fn upper_bits(lo: u128, i: u32) -> int {
    if i >= 128 {
        0
    } else {
        (lo >> i) as int
    }
}

/// Taking one more bit of `lo` doubles what was taken and adds the bit.
proof fn lemma_next_bit(lo: u128, i: u32)
    requires
        i < 128,
    ensures
        upper_bits(lo, i) == 2 * upper_bits(lo, (i + 1) as u32) + ((lo >> i) & 1),
        (lo >> i) & 1 <= 1,
{
    if i == 127 {
        assert((lo >> 127u32) == (lo >> 127u32) & 1) by (bit_vector);
    } else {
        let j: u32 = (i + 1) as u32;
        assert((lo >> i) == 2 * (lo >> j) + ((lo >> i) & 1)) by (bit_vector)
            requires
                i < 127,
                j == i + 1,
        ;
    }
    assert((lo >> i) & 1 <= 1) by (bit_vector);
}

/// Appending a bit to a value below 2^127.
proof fn lemma_append_bit(q: u128)
    by (bit_vector)
    requires
        q < 0x8000_0000_0000_0000_0000_0000_0000_0000,
    ensures
        q << 1 == 2 * q,
        (q << 1) | 1 == 2 * q + 1,
{
}

/// The 256-bit number `(hi, lo)` divided by `d`, as `(quotient, remainder)`.
///
/// The quotient fits in 128 bits exactly when `hi < d`; otherwise (and for
/// `d == 0`) the division is refused.
pub fn wide_div_u256(hi: u128, lo: u128, d: u128) -> (r: Result<(u128, u128), CustomError>)
    ensures
        match r {
            Ok((q, rem)) => {
                &&& hi < d
                &&& q == wide_value(hi, lo) / (d as int)
                &&& rem == wide_value(hi, lo) % (d as int)
            },
            Err(e) => e == CustomError::CalculationOverflow && hi >= d,
        },
{
    if hi >= d {
        return Err(CustomError::CalculationOverflow);
    }
    let mut remainder: u128 = hi;
    let mut quotient: u128 = 0;
    let mut i: u32 = 128;
    let ghost mut scale: int = 1;
    proof {
        lemma2_to64_rest();
        assert(pow2(0) == 1) by {
            vstd::arithmetic::power2::lemma2_to64();
        }
        assert(hi * 1 == hi as int);
        assert(0 * d == 0);
    }
    while i > 0
        invariant
            i <= 128,
            remainder < d,
            scale == pow2((128 - i) as nat),
            quotient < scale,
            hi * scale + upper_bits(lo, i) == quotient * d + remainder,
        decreases i,
    {
        let ghost old_scale = scale;
        let ghost old_q = quotient;
        let ghost old_r = remainder;
        proof {
            lemma_pow2_bounds((128 - i) as nat);
        }
        i = i - 1;
        let bit: u128 = (lo >> i) & 1;
        let gap: u128 = d - remainder;
        proof {
            lemma_next_bit(lo, i);
            lemma_append_bit(quotient);
            lemma_pow2_unfold((128 - i) as nat);
            scale = 2 * scale;
            assert(hi * (2 * old_scale) == 2 * (hi * old_scale)) by (nonlinear_arith);
            assert((2 * old_q) * d == 2 * (old_q * d)) by (nonlinear_arith);
            assert((2 * old_q + 1) * d == 2 * (old_q * d) + d) by (nonlinear_arith);
        }
        if remainder + bit >= gap {
            remainder = remainder + bit - gap;
            quotient = (quotient << 1) | 1;
        } else {
            remainder = remainder + remainder + bit;
            quotient = quotient << 1;
        }
    }
    proof {
        lemma_pow2_128();
        assert(lo >> 0u32 == lo) by (bit_vector);
        vstd::arithmetic::mul::lemma_mul_is_commutative(quotient as int, d as int);
        lemma_fundamental_div_mod_converse(
            wide_value(hi, lo),
            d as int,
            quotient as int,
            remainder as int,
        );
    }
    Ok((quotient, remainder))
}

/// `pow2(128)` written out.
proof fn lemma_pow2_128()
    ensures
        pow2(128) == two_128(),
        pow2(127) == 0x8000_0000_0000_0000_0000_0000_0000_0000,
{
    lemma2_to64_rest();
    lemma_pow2_adds(64, 64);
    lemma_pow2_adds(63, 64);
}

/// Below the 128th, every power of two is at most 2^127.
proof fn lemma_pow2_bounds(k: nat)
    requires
        k < 128,
    ensures
        pow2(k) <= 0x8000_0000_0000_0000_0000_0000_0000_0000,
{
    lemma_pow2_128();
    if k < 127 {
        lemma_pow2_strictly_increases(k, 127);
    }
}

} // verus!
