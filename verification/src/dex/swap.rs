//! The price of a trade.
//!
//! A trade is priced by the constant-product rule on what is left of the
//! input once the fee is taken. Both divisions round down, so that rounding
//! always favours the pool.

use vstd::prelude::*;
use vstd::arithmetic::div_mod::lemma_div_is_ordered;
use vstd::arithmetic::div_mod::lemma_div_multiples_vanish;
use vstd::arithmetic::div_mod::lemma_fundamental_div_mod;
use crate::dex::error::PoolError;
use crate::dex::math::matches_model;
use crate::dex::math::mul_div;
use crate::dex::shares::lemma_part_is_bounded;

verus! {

/// The number of basis points in the whole.
pub const BPS_DENOMINATOR: u128 = 10_000;

/// The largest fee a pool can charge, in basis points.
pub const MAX_FEE_BPS: u32 = 10_000;

/// What is left of `amount_in` once a fee of `fee_bps` basis points is
/// taken, rounded down.
pub open spec fn spec_after_fee(amount_in: nat, fee_bps: nat) -> nat {
    (amount_in * ((10_000 - fee_bps) as nat)) / 10_000
}

/// The exact outcome of [`quote_swap`].
pub open spec fn spec_quote_swap(reserve_in: nat, reserve_out: nat, amount_in: nat, fee_bps: nat)
    -> Result<nat, PoolError> {
    let after_fee = spec_after_fee(amount_in, fee_bps);
    if reserve_in + after_fee > u128::MAX {
        Err(PoolError::ArithmeticOverflow)
    } else if reserve_in + after_fee == 0 {
        Err(PoolError::DivisionByZero)
    } else {
        Ok((reserve_out * after_fee) / (reserve_in + after_fee))
    }
}

/// The fee never adds to the input, and a positive fee takes from a positive
/// input.
pub proof fn lemma_after_fee_bounds(amount_in: nat, fee_bps: nat)
    requires
        fee_bps <= 10_000,
    ensures
        spec_after_fee(amount_in, fee_bps) <= amount_in,
        fee_bps > 0 && amount_in > 0 ==> spec_after_fee(amount_in, fee_bps) < amount_in,
{
    let kept = (10_000 - fee_bps) as nat;
    let after_fee = spec_after_fee(amount_in, fee_bps);
    lemma_fundamental_div_mod((amount_in * kept) as int, 10_000);
    assert(10_000 * after_fee <= amount_in * kept);
    assert(amount_in * kept <= amount_in * 10_000) by (nonlinear_arith)
        requires
            kept <= 10_000,
    ;
    if fee_bps > 0 && amount_in > 0 {
        assert(amount_in * kept < amount_in * 10_000) by (nonlinear_arith)
            requires
                kept < 10_000,
                amount_in > 0,
        ;
    }
}

/// A quote never exceeds the reserve it is paid from, and leaves some of it
/// behind whenever the other reserve is not empty.
pub proof fn lemma_quote_within_reserve(
    reserve_in: nat,
    reserve_out: nat,
    amount_in: nat,
    fee_bps: nat,
)
    requires
        fee_bps <= 10_000,
        spec_quote_swap(reserve_in, reserve_out, amount_in, fee_bps) is Ok,
    ensures
        spec_quote_swap(reserve_in, reserve_out, amount_in, fee_bps)->Ok_0 <= reserve_out,
        reserve_in > 0 && reserve_out > 0 ==> spec_quote_swap(
            reserve_in,
            reserve_out,
            amount_in,
            fee_bps,
        )->Ok_0 < reserve_out,
{
    let after_fee = spec_after_fee(amount_in, fee_bps);
    let denom = reserve_in + after_fee;
    let out = (reserve_out * after_fee) / denom;
    lemma_fundamental_div_mod((reserve_out * after_fee) as int, denom as int);
    assert(denom * out <= reserve_out * after_fee);
    assert(out <= reserve_out) by (nonlinear_arith)
        requires
            denom * out <= reserve_out * after_fee,
            after_fee <= denom,
            denom > 0,
    ;
    if reserve_in > 0 && reserve_out > 0 {
        assert(out < reserve_out) by (nonlinear_arith)
            requires
                denom * out <= reserve_out * after_fee,
                after_fee < denom,
                reserve_out > 0,
        ;
    }
}

/// What a trade of `amount_in` pays out of `reserve_out` while the pool holds
/// `reserve_in` of the asset that comes in:
///
/// ```text
/// after_fee  = amount_in * (10000 - fee_bps) / 10000
/// amount_out = reserve_out * after_fee / (reserve_in + after_fee)
/// ```
///
/// both rounded down. The quote is a function of these four numbers alone.
pub fn quote_swap(reserve_in: u128, reserve_out: u128, amount_in: u128, fee_bps: u32) -> (r: Result<
    u128,
    PoolError,
>)
    requires
        fee_bps <= MAX_FEE_BPS,
    ensures
        matches_model(
            r,
            spec_quote_swap(reserve_in as nat, reserve_out as nat, amount_in as nat, fee_bps as nat),
        ),
{
    let kept: u128 = BPS_DENOMINATOR - (fee_bps as u128);
    proof {
        lemma_part_is_bounded(kept as nat, amount_in as nat, 10_000);
        assert(kept * amount_in == amount_in * kept) by (nonlinear_arith);
    }
    let after_fee = match mul_div(amount_in, kept, BPS_DENOMINATOR) {
        Ok(v) => v,
        Err(e) => {
            return Err(e);
        },
    };
    assert(after_fee == spec_after_fee(amount_in as nat, fee_bps as nat));
    let denom = match reserve_in.checked_add(after_fee) {
        Some(v) => v,
        None => {
            return Err(PoolError::ArithmeticOverflow);
        },
    };
    proof {
        if denom > 0 {
            lemma_part_is_bounded(after_fee as nat, reserve_out as nat, denom as nat);
            assert(after_fee * reserve_out == reserve_out * after_fee) by (nonlinear_arith);
        }
    }
    mul_div(reserve_out, after_fee, denom)
}

/// A trade at the quoted price never lowers the product of the reserves:
/// with `out` the quote for `amount_in`,
/// `(reserve_in + amount_in) * (reserve_out - out) >= reserve_in * reserve_out`.
pub proof fn law_quote_keeps_product(
    reserve_in: nat,
    reserve_out: nat,
    amount_in: nat,
    fee_bps: nat,
)
    requires
        fee_bps <= 10_000,
        spec_quote_swap(reserve_in, reserve_out, amount_in, fee_bps) is Ok,
    ensures
        ({
            let out = spec_quote_swap(reserve_in, reserve_out, amount_in, fee_bps)->Ok_0;
            &&& out <= reserve_out
            &&& (reserve_in + amount_in) * (reserve_out - out) >= reserve_in * reserve_out
        }),
{
    let after_fee = spec_after_fee(amount_in, fee_bps);
    let denom = reserve_in + after_fee;
    let out = (reserve_out * after_fee) / denom;
    lemma_after_fee_bounds(amount_in, fee_bps);
    lemma_quote_within_reserve(reserve_in, reserve_out, amount_in, fee_bps);
    lemma_fundamental_div_mod((reserve_out * after_fee) as int, denom as int);
    assert(denom * out <= reserve_out * after_fee);
    let left = reserve_out - out;
    assert(denom * left >= reserve_in * reserve_out) by (nonlinear_arith)
        requires
            denom == reserve_in + after_fee,
            left == reserve_out - out,
            denom * out <= reserve_out * after_fee,
    ;
    assert((reserve_in + amount_in) * left >= denom * left) by (nonlinear_arith)
        requires
            denom == reserve_in + after_fee,
            after_fee <= amount_in,
            left >= 0,
    ;
}

/// A fee strictly raises the product of the reserves: with a positive fee,
/// a positive input and both reserves funded, the product after a trade at
/// the quoted price is above the product before it.
pub proof fn law_fee_raises_product(reserve_in: nat, reserve_out: nat, amount_in: nat, fee_bps: nat)
    requires
        0 < fee_bps <= 10_000,
        0 < amount_in,
        0 < reserve_in,
        0 < reserve_out,
        spec_quote_swap(reserve_in, reserve_out, amount_in, fee_bps) is Ok,
    ensures
        ({
            let out = spec_quote_swap(reserve_in, reserve_out, amount_in, fee_bps)->Ok_0;
            &&& out < reserve_out
            &&& (reserve_in + amount_in) * (reserve_out - out) > reserve_in * reserve_out
        }),
{
    let after_fee = spec_after_fee(amount_in, fee_bps);
    let denom = reserve_in + after_fee;
    let out = (reserve_out * after_fee) / denom;
    lemma_after_fee_bounds(amount_in, fee_bps);
    lemma_quote_within_reserve(reserve_in, reserve_out, amount_in, fee_bps);
    lemma_fundamental_div_mod((reserve_out * after_fee) as int, denom as int);
    assert(denom * out <= reserve_out * after_fee);
    let left = reserve_out - out;
    assert(denom * left >= reserve_in * reserve_out) by (nonlinear_arith)
        requires
            denom == reserve_in + after_fee,
            left == reserve_out - out,
            denom * out <= reserve_out * after_fee,
    ;
    assert((reserve_in + amount_in) * left > denom * left) by (nonlinear_arith)
        requires
            denom == reserve_in + after_fee,
            after_fee < amount_in,
            left > 0,
    ;
}

/// A fee is never free. With a positive fee, a positive input and both
/// reserves funded, the quote is strictly below what the constant-product
/// rule pays without a fee, `reserve_out * amount_in / (reserve_in +
/// amount_in)` taken exactly; and it is never above that amount rounded down,
/// which is the quote at fee zero.
pub proof fn law_fee_lowers_quote(reserve_in: nat, reserve_out: nat, amount_in: nat, fee_bps: nat)
    requires
        0 < fee_bps <= 10_000,
        0 < amount_in,
        0 < reserve_in,
        0 < reserve_out,
        reserve_in + amount_in <= u128::MAX,
    ensures
        spec_quote_swap(reserve_in, reserve_out, amount_in, fee_bps) is Ok,
        spec_quote_swap(reserve_in, reserve_out, amount_in, 0) is Ok,
        spec_quote_swap(reserve_in, reserve_out, amount_in, fee_bps)->Ok_0 * (reserve_in
            + amount_in) < reserve_out * amount_in,
        spec_quote_swap(reserve_in, reserve_out, amount_in, fee_bps)->Ok_0 <= spec_quote_swap(
            reserve_in,
            reserve_out,
            amount_in,
            0,
        )->Ok_0,
{
    let after_fee = spec_after_fee(amount_in, fee_bps);
    let denom = reserve_in + after_fee;
    let out = (reserve_out * after_fee) / denom;
    let full = reserve_in + amount_in;
    lemma_after_fee_bounds(amount_in, fee_bps);
    lemma_after_fee_bounds(amount_in, 0);
    assert(spec_after_fee(amount_in, 0) == amount_in) by {
        lemma_div_multiples_vanish(amount_in as int, 10_000);
        assert(amount_in * 10_000 == 10_000 * amount_in);
    }
    lemma_quote_within_reserve(reserve_in, reserve_out, amount_in, fee_bps);
    lemma_fundamental_div_mod((reserve_out * after_fee) as int, denom as int);
    assert(denom * out <= reserve_out * after_fee);
    assert(out * full < reserve_out * amount_in) by (nonlinear_arith)
        requires
            denom == reserve_in + after_fee,
            full == reserve_in + amount_in,
            denom * out <= reserve_out * after_fee,
            after_fee < amount_in,
            out < reserve_out,
            0 <= out,
            0 <= after_fee,
    {
        assert(out * full == denom * out + out * (amount_in - after_fee));
        assert(reserve_out * amount_in == reserve_out * after_fee + reserve_out * (amount_in
            - after_fee));
        assert(out * (amount_in - after_fee) < reserve_out * (amount_in - after_fee));
    }
    assert(out * full == full * out) by (nonlinear_arith);
    lemma_div_is_ordered((full * out) as int, (reserve_out * amount_in) as int, full as int);
    lemma_div_multiples_vanish(out as int, full as int);
}

} // verus!
