//! Overflow-checked fixed-point arithmetic.
//!
//! Every proportion in the pool is `a * b / denom` on 128-bit amounts. The
//! product is formed in 256 bits, as a pair of 128-bit halves, so that it is
//! exact even when both factors are close to `u128::MAX`; only a quotient
//! that does not fit in 128 bits is an overflow.

use vstd::prelude::*;
use vstd::arithmetic::div_mod::lemma_div_is_ordered;
use vstd::arithmetic::div_mod::lemma_div_multiples_vanish;
use vstd::arithmetic::div_mod::lemma_fundamental_div_mod_converse;
use vstd::arithmetic::power2::lemma2_to64;
use vstd::arithmetic::power2::lemma_pow2_adds;
use vstd::arithmetic::power2::lemma_pow2_unfold;
use vstd::arithmetic::power2::pow2;
use crate::dex::error::PoolError;

verus! {

/// 2^64, the weight of the upper half of a 128-bit word.
pub const LIMB: u128 = 0x1_0000_0000_0000_0000;

/// 2^127, the weight of the top bit of a 128-bit word.
pub const TOP_BIT: u128 = 0x8000_0000_0000_0000_0000_0000_0000_0000;

/// 2^128, the weight of the upper half of a 256-bit product.
pub open spec fn word() -> int {
    0x1_0000_0000_0000_0000_0000_0000_0000_0000int
}

/// The value of a 256-bit number held as two 128-bit halves.
pub open spec fn wide(hi: u128, lo: u128) -> int {
    hi * word() + lo
}

/// What [`mul_div`] returns: the quotient `a * b / denom` rounded down,
/// unless the divisor is zero or the quotient needs more than 128 bits.
pub open spec fn spec_mul_div(a: nat, b: nat, denom: nat) -> Result<nat, PoolError> {
    if denom == 0 {
        Err(PoolError::DivisionByZero)
    } else if (a * b) / denom > u128::MAX {
        Err(PoolError::ArithmeticOverflow)
    } else {
        Ok((a * b) / denom)
    }
}

/// Whether an executable result is the one the mathematical model gives.
pub open spec fn matches_model(got: Result<u128, PoolError>, model: Result<nat, PoolError>) -> bool {
    match got {
        Ok(v) => model == Ok::<nat, PoolError>(v as nat),
        Err(e) => model == Err::<nat, PoolError>(e),
    }
}

proof fn lemma_limb_product(x: int, y: int)
    by (nonlinear_arith)
    requires
        0 <= x < 0x1_0000_0000_0000_0000,
        0 <= y < 0x1_0000_0000_0000_0000,
    ensures
        0 <= x * y <= 0xFFFF_FFFF_FFFF_FFFE_0000_0000_0000_0001,
{
}

proof fn lemma_limb_expansion(a1: int, a0: int, b1: int, b0: int, c: int)
    ensures
        (a1 * c + a0) * (b1 * c + b0) == (a1 * b1) * (c * c) + (a0 * b1 + a1 * b0) * c + a0 * b0,
{
    let x = a1 * c;
    let y = b1 * c;
    assert((x + a0) * (y + b0) == x * y + x * b0 + a0 * y + a0 * b0) by (nonlinear_arith);
    assert(x * y == (a1 * b1) * (c * c)) by (nonlinear_arith)
        requires
            x == a1 * c,
            y == b1 * c,
    ;
    assert(x * b0 == (a1 * b0) * c) by (nonlinear_arith)
        requires
            x == a1 * c,
    ;
    assert(a0 * y == (a0 * b1) * c) by (nonlinear_arith)
        requires
            y == b1 * c,
    ;
    assert((a0 * b1 + a1 * b0) * c == (a0 * b1) * c + (a1 * b0) * c) by (nonlinear_arith);
}

/// The full 256-bit product of two 128-bit numbers.
pub fn mul_wide(a: u128, b: u128) -> (r: (u128, u128))
    ensures
        wide(r.0, r.1) == a * b,
{
    let a0: u128 = a % LIMB;
    let a1: u128 = a / LIMB;
    let b0: u128 = b % LIMB;
    let b1: u128 = b / LIMB;
    proof {
        lemma_limb_product(a0 as int, b0 as int);
        lemma_limb_product(a0 as int, b1 as int);
        lemma_limb_product(a1 as int, b0 as int);
        lemma_limb_product(a1 as int, b1 as int);
    }
    let p00: u128 = a0 * b0;
    let p01: u128 = a0 * b1;
    let p10: u128 = a1 * b0;
    let p11: u128 = a1 * b1;
    let mid1: u128 = p01 + p00 / LIMB;
    let mid2: u128 = p10 + mid1 % LIMB;
    let lo: u128 = (mid2 % LIMB) * LIMB + p00 % LIMB;
    let hi: u128 = p11 + mid1 / LIMB + mid2 / LIMB;
    proof {
        lemma_limb_expansion(a1 as int, a0 as int, b1 as int, b0 as int, LIMB as int);
        assert(a * b == (a1 * LIMB + a0) * (b1 * LIMB + b0)) by (nonlinear_arith)
            requires
                a == a1 * LIMB + a0,
                b == b1 * LIMB + b0,
        ;
        assert((LIMB as int) * (LIMB as int) == word());
        assert(a * b == p11 * word() + (p01 + p10) * LIMB + p00);
        let c0 = (p00 / LIMB) as int;
        let r0 = (p00 % LIMB) as int;
        let c1 = (mid1 / LIMB) as int;
        let r1 = (mid1 % LIMB) as int;
        let c2 = (mid2 / LIMB) as int;
        let r2 = (mid2 % LIMB) as int;
        assert(p00 == c0 * LIMB + r0);
        assert(mid1 == c1 * LIMB + r1);
        assert(mid2 == c2 * LIMB + r2);
        assert((p01 + p10) * LIMB + p00 == (mid1 + p10) * LIMB + r0);
        assert((mid1 + p10) * LIMB == c1 * word() + mid2 * LIMB);
        assert(mid2 * LIMB == c2 * word() + r2 * LIMB);
        assert(hi * word() == p11 * word() + c1 * word() + c2 * word()) by (nonlinear_arith)
            requires
                hi == p11 + c1 + c2,
        ;
        assert(lo == r2 * LIMB + r0);
    }
    (hi, lo)
}

/// Whether the 256-bit number `(x_hi, x_lo)` is below `(y_hi, y_lo)`.
pub fn wide_lt(x_hi: u128, x_lo: u128, y_hi: u128, y_lo: u128) -> (below: bool)
    ensures
        below == (wide(x_hi, x_lo) < wide(y_hi, y_lo)),
{
    x_hi < y_hi || (x_hi == y_hi && x_lo < y_lo)
}

proof fn lemma_next_bit(rest: int, low: int, half: int)
    by (nonlinear_arith)
    requires
        0 <= rest < 0x1_0000_0000_0000_0000_0000_0000_0000_0000int,
        half >= 1,
        0 <= low < 2 * half,
        rest * (2 * half) == low * 0x1_0000_0000_0000_0000_0000_0000_0000_0000int,
    ensures
        rest >= 0x8000_0000_0000_0000_0000_0000_0000_0000 ==> low >= half && (rest
            - 0x8000_0000_0000_0000_0000_0000_0000_0000) * 2 * half == (low - half)
            * 0x1_0000_0000_0000_0000_0000_0000_0000_0000int,
        rest < 0x8000_0000_0000_0000_0000_0000_0000_0000 ==> low < half && (rest * 2) * half
            == low * 0x1_0000_0000_0000_0000_0000_0000_0000_0000int,
{
}

proof fn lemma_quotient_room(quo: int, rem: int, d: int, p: int, low: int)
    by (nonlinear_arith)
    requires
        0 <= quo,
        0 <= rem,
        0 <= low,
        0 < d,
        2 <= p,
        (quo * d + rem) * p + low < d * 0x1_0000_0000_0000_0000_0000_0000_0000_0000int,
    ensures
        2 * quo + 1 < 0x1_0000_0000_0000_0000_0000_0000_0000_0000int,
{
    assert(quo * d * p <= (quo * d + rem) * p);
    assert(quo * d * 2 <= quo * d * p);
    assert((2 * quo) * d < 0x1_0000_0000_0000_0000_0000_0000_0000_0000int * d);
}

proof fn lemma_long_division_step(quo: int, rem: int, d: int, half: int, low: int, bit: int)
    by (nonlinear_arith)
    requires
        bit == 0 || bit == 1,
    ensures
        ({
            let low2 = if bit == 1 { low - half } else { low };
            &&& ((2 * quo) * d + (2 * rem + bit)) * half + low2 == (quo * d + rem) * (2 * half)
                + low
            &&& ((2 * quo + 1) * d + (2 * rem + bit - d)) * half + low2 == (quo * d + rem) * (2
                * half) + low
        }),
{
}

/// Divides the 256-bit number `(hi, lo)` by `d`, bit by bit from the top.
/// With `hi < d` the quotient fits in 128 bits.
pub fn div_wide(hi: u128, lo: u128, d: u128) -> (r: (u128, u128))
    requires
        hi < d,
    ensures
        r.0 * d + r.1 == wide(hi, lo),
        r.1 < d,
{
    let mut quo: u128 = 0;
    let mut rem: u128 = hi;
    let mut rest: u128 = lo;
    let mut i: u32 = 0;
    let ghost mut p: int = word();
    let ghost mut low: int = lo as int;
    proof {
        lemma2_to64();
        lemma_pow2_adds(64, 64);
        assert(pow2(128) == word()) by (nonlinear_arith)
            requires
                pow2(128) == pow2(64) * pow2(64),
                pow2(64) == 0x1_0000_0000_0000_0000,
        ;
        assert((0 * d + rem) * p + low == wide(hi, lo)) by (nonlinear_arith)
            requires
                rem == hi,
                p == word(),
                low == lo,
                wide(hi, lo) == hi * word() + lo,
        ;
    }
    while i < 128
        invariant
            i <= 128,
            p == pow2((128 - i) as nat),
            0 <= low < p,
            rest * p == low * word(),
            rem < d,
            hi < d,
            (quo * d + rem) * p + low == wide(hi, lo),
        decreases 128 - i,
    {
        let ghost half: int = p / 2;
        proof {
            lemma_pow2_unfold((128 - i) as nat);
            assert(p == 2 * half);
            assert(half == pow2((127 - i) as nat));
            assert(half >= 1) by {
                vstd::arithmetic::power2::lemma_pow2_pos((127 - i) as nat);
            }
            lemma_next_bit(rest as int, low, half);
            lemma_quotient_room(quo as int, rem as int, d as int, p, low);
        }
        let bit: u128 = rest / TOP_BIT;
        let gap: u128 = d - rem;
        let need: u128 = gap - bit;
        proof {
            lemma_long_division_step(quo as int, rem as int, d as int, half, low, bit as int);
        }
        if rem >= need {
            rem = rem - need;
            quo = quo * 2 + 1;
        } else {
            rem = rem + rem + bit;
            quo = quo * 2;
        }
        rest = (rest % TOP_BIT) * 2;
        i = i + 1;
        proof {
            low = if bit == 1 { low - half } else { low };
            p = half;
        }
    }
    proof {
        vstd::arithmetic::power2::lemma2_to64();
        assert(p == 1);
        assert(low == 0);
        assert((quo * d + rem) * 1 == quo * d + rem);
    }
    (quo, rem)
}

/// `a * b / denom`, rounded down. The product is held in 256 bits, so the
/// only overflow is a quotient above `u128::MAX`.
pub fn mul_div(a: u128, b: u128, denom: u128) -> (r: Result<u128, PoolError>)
    ensures
        matches_model(r, spec_mul_div(a as nat, b as nat, denom as nat)),
{
    if denom == 0 {
        return Err(PoolError::DivisionByZero);
    }
    let (hi, lo) = mul_wide(a, b);
    if hi >= denom {
        proof {
            // a * b >= denom * 2^128, so the quotient is at least 2^128
            assert(denom * word() <= a * b) by (nonlinear_arith)
                requires
                    hi * word() + lo == a * b,
                    hi >= denom,
                    lo >= 0,
            ;
            lemma_div_is_ordered(denom * word(), a * b, denom as int);
            lemma_div_multiples_vanish(word(), denom as int);
        }
        return Err(PoolError::ArithmeticOverflow);
    }
    let (quo, rem) = if hi == 0 {
        (lo / denom, lo % denom)
    } else {
        div_wide(hi, lo, denom)
    };
    proof {
        if hi == 0 {
            assert(quo * denom + rem == lo) by (nonlinear_arith)
                requires
                    quo == lo / denom,
                    rem == lo % denom,
                    denom > 0,
            ;
        }
        lemma_fundamental_div_mod_converse(a * b, denom as int, quo as int, rem as int);
    }
    Ok(quo)
}

} // verus!
