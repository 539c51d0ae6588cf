//! What holds of the pool across operations.

use vstd::prelude::*;
use vstd::arithmetic::div_mod::lemma_div_multiples_vanish;
use crate::address::AccountId;
use crate::address::AssetId;
use crate::dex::engine::DexSwapEngine;
use crate::dex::error::PoolError;
use crate::dex::pool::after_settlement;
use crate::dex::pool::law_quoted_swap_is_covered;
use crate::dex::pool::lemma_balance_within_total;
use crate::dex::pool::lemma_redeemed_part;
use crate::dex::pool::model_wf;
use crate::dex::pool::spec_add_liquidity;
use crate::dex::pool::spec_other;
use crate::dex::pool::spec_remove_liquidity;
use crate::dex::pool::spec_side_of;
use crate::dex::pool::spec_swap;
use crate::dex::pool::PoolConfig;
use crate::dex::pool::PoolModel;
use crate::dex::pool::Settlement;
use crate::dex::shares::balance;
use crate::dex::shares::lemma_used_is_bounded;
use crate::dex::shares::Minted;
use crate::dex::sums::lemma_sum_after_insert;
use crate::dex::sums::lemma_sum_after_remove;
use crate::dex::sums::lemma_sum_of_none;
use crate::dex::swap::lemma_after_fee_bounds;
use crate::dex::swap::lemma_quote_within_reserve;
use crate::dex::swap::spec_after_fee;
use crate::dex::swap::spec_quote_swap;

verus! {

/// One trade asked of a pool, with what the asset ledger reported on it.
pub struct SwapRequest {
    pub asset_in: AssetId,
    pub amount_in: nat,
    pub min_amount_out: nat,
    pub settlement: Settlement,
}

/// The pool after one request: the trade's result if it went through, the
/// pool as it was if not.
pub open spec fn spec_step(s: PoolModel, request: SwapRequest) -> PoolModel {
    match after_settlement(
        spec_swap(s, request.asset_in, request.amount_in, request.min_amount_out),
        request.settlement,
    ) {
        Ok(done) => done.1,
        Err(_) => s,
    }
}

/// The pool after a sequence of requests, taken in order.
pub open spec fn spec_run(s: PoolModel, requests: Seq<SwapRequest>) -> PoolModel
    decreases requests.len(),
{
    if requests.len() == 0 {
        s
    } else {
        spec_step(spec_run(s, requests.drop_last()), requests.last())
    }
}

/// A trade leaves a consistent pool consistent, keeps every share where it
/// is, and does not lower the product of the reserves, whatever the fee.
pub proof fn law_swap_keeps_product(
    s: PoolModel,
    asset_in: AssetId,
    amount_in: nat,
    min_amount_out: nat,
)
    requires
        model_wf(s),
        spec_swap(s, asset_in, amount_in, min_amount_out) is Ok,
    ensures
        ({
            let next = spec_swap(s, asset_in, amount_in, min_amount_out)->Ok_0.1;
            &&& model_wf(next)
            &&& next.shares == s.shares
            &&& next.total_shares == s.total_shares
            &&& next.config == s.config
            &&& next.reserves.product() >= s.reserves.product()
        }),
{
    let side_in = spec_side_of(s.config, asset_in);
    let side_out = spec_other(side_in);
    lemma_quote_within_reserve(
        s.reserves.of(side_in),
        s.reserves.of(side_out),
        amount_in,
        s.config.fee_bps as nat,
    );
}

/// No sequence of trades lowers the product of the reserves: after any
/// number of requests, settled or not, accepted or not, the product is at
/// least what it was at the start.
pub proof fn law_swaps_never_lower_product(s: PoolModel, requests: Seq<SwapRequest>)
    requires
        model_wf(s),
    ensures
        model_wf(spec_run(s, requests)),
        spec_run(s, requests).reserves.product() >= s.reserves.product(),
        spec_run(s, requests).shares == s.shares,
        spec_run(s, requests).total_shares == s.total_shares,
    decreases requests.len(),
{
    if requests.len() > 0 {
        let before = spec_run(s, requests.drop_last());
        let request = requests.last();
        law_swaps_never_lower_product(s, requests.drop_last());
        if after_settlement(
            spec_swap(before, request.asset_in, request.amount_in, request.min_amount_out),
            request.settlement,
        ) is Ok {
            law_swap_keeps_product(
                before,
                request.asset_in,
                request.amount_in,
                request.min_amount_out,
            );
        }
    }
}

/// A deposit leaves a consistent pool consistent, and is refused only for
/// an empty first deposit or for an overflow. The whole deposit joins the
/// reserves, and the shares it earns stand for no more than was paid.
pub proof fn law_add_liquidity_keeps_pool_consistent(
    s: PoolModel,
    account: AccountId,
    amount_a: nat,
    amount_b: nat,
)
    requires
        model_wf(s),
        amount_a <= u128::MAX,
        amount_b <= u128::MAX,
    ensures
        match spec_add_liquidity(s, account, amount_a, amount_b) {
            Ok(done) => {
                &&& model_wf(done.1)
                &&& done.1.config == s.config
                &&& done.1.reserves.a == s.reserves.a + amount_a
                &&& done.1.reserves.b == s.reserves.b + amount_b
                &&& done.1.total_shares == s.total_shares + done.0.shares
                &&& done.0.used_a <= amount_a
                &&& done.0.used_b <= amount_b
                &&& balance(done.1.shares, account) == balance(s.shares, account) + done.0.shares
            },
            Err(e) => e == PoolError::PoolEmpty || e == PoolError::ArithmeticOverflow,
        },
{
    if s.total_shares > 0 {
        let by_a = (amount_a * s.total_shares) / s.reserves.a;
        let by_b = (amount_b * s.total_shares) / s.reserves.b;
        let shares = if by_a <= by_b {
            by_a
        } else {
            by_b
        };
        lemma_used_is_bounded(shares, amount_a, s.reserves.a, s.total_shares);
        lemma_used_is_bounded(shares, amount_b, s.reserves.b, s.total_shares);
    }
    match spec_add_liquidity(s, account, amount_a, amount_b) {
        Ok(done) => {
            if done.0.shares > 0 {
                lemma_sum_after_insert(
                    s.shares,
                    account,
                    balance(s.shares, account) + done.0.shares,
                );
            }
        },
        Err(_) => {},
    }
}

/// A withdrawal leaves a consistent pool consistent, never asks the
/// reserves for more than they hold, and is refused only where no shares
/// are outstanding or the account holds too few.
pub proof fn law_remove_liquidity_keeps_pool_consistent(
    s: PoolModel,
    account: AccountId,
    share_amount: nat,
)
    requires
        model_wf(s),
    ensures
        match spec_remove_liquidity(s, account, share_amount) {
            Ok(done) => {
                &&& model_wf(done.1)
                &&& done.1.config == s.config
                &&& done.1.reserves.a == s.reserves.a - done.0.0
                &&& done.1.reserves.b == s.reserves.b - done.0.1
                &&& done.1.total_shares == s.total_shares - share_amount
                &&& balance(done.1.shares, account) == balance(s.shares, account) - share_amount
            },
            Err(e) => e == PoolError::PoolEmpty || e == PoolError::InsufficientShares,
        },
{
    if s.total_shares > 0 && share_amount <= balance(s.shares, account) {
        lemma_balance_within_total(s, account);
        lemma_redeemed_part(share_amount, s.reserves.a, s.total_shares);
        lemma_redeemed_part(share_amount, s.reserves.b, s.total_shares);
        if share_amount > 0 {
            if balance(s.shares, account) == share_amount {
                lemma_sum_after_remove(s.shares, account);
            } else {
                lemma_sum_after_insert(
                    s.shares,
                    account,
                    (balance(s.shares, account) - share_amount) as nat,
                );
            }
        }
    }
}

/// A trade is refused only for slippage, for an overflow, or because it
/// has no price: nothing is left of the input after the fee and the reserve
/// it joins is empty. It is never refused for want of reserves.
pub proof fn law_swap_refusals(s: PoolModel, asset_in: AssetId, amount_in: nat, min_amount_out: nat)
    requires
        model_wf(s),
    ensures
        match spec_swap(s, asset_in, amount_in, min_amount_out) {
            Ok(_) => true,
            Err(e) => {
                &&& e == PoolError::SlippageExceeded || e == PoolError::ArithmeticOverflow || e
                    == PoolError::DivisionByZero
                &&& e == PoolError::DivisionByZero ==> s.total_shares == 0 && s.reserves.of(
                    spec_side_of(s.config, asset_in),
                ) == 0
            },
        },
{
    let side_in = spec_side_of(s.config, asset_in);
    let side_out = spec_other(side_in);
    if spec_quote_swap(
        s.reserves.of(side_in),
        s.reserves.of(side_out),
        amount_in,
        s.config.fee_bps as nat,
    ) is Ok {
        law_quoted_swap_is_covered(s, asset_in, amount_in);
    }
}

/// One operation asked of a pool, with what the asset ledger reported on
/// its transfers.
pub enum PoolRequest {
    AddLiquidity { account: AccountId, amount_a: u128, amount_b: u128, settlement: Settlement },
    RemoveLiquidity { account: AccountId, share_amount: u128, settlement: Settlement },
    Swap { asset_in: AssetId, amount_in: u128, min_amount_out: u128, settlement: Settlement },
}

/// The pool after one operation: its result if it went through, the pool as
/// it was if not.
pub open spec fn spec_serve(s: PoolModel, request: PoolRequest) -> PoolModel {
    match request {
        PoolRequest::AddLiquidity { account, amount_a, amount_b, settlement } => match after_settlement(
            spec_add_liquidity(s, account, amount_a as nat, amount_b as nat),
            settlement,
        ) {
            Ok(done) => done.1,
            Err(_) => s,
        },
        PoolRequest::RemoveLiquidity { account, share_amount, settlement } => match after_settlement(
            spec_remove_liquidity(s, account, share_amount as nat),
            settlement,
        ) {
            Ok(done) => done.1,
            Err(_) => s,
        },
        PoolRequest::Swap { asset_in, amount_in, min_amount_out, settlement } => spec_step(
            s,
            SwapRequest {
                asset_in,
                amount_in: amount_in as nat,
                min_amount_out: min_amount_out as nat,
                settlement,
            },
        ),
    }
}

/// The pool after a sequence of operations, taken in order.
pub open spec fn spec_serve_all(s: PoolModel, requests: Seq<PoolRequest>) -> PoolModel
    decreases requests.len(),
{
    if requests.len() == 0 {
        s
    } else {
        spec_serve(spec_serve_all(s, requests.drop_last()), requests.last())
    }
}

/// A pool that was just set up is consistent.
pub proof fn law_fresh_pool_is_consistent(config: PoolConfig)
    requires
        config.fee_bps <= 10_000,
    ensures
        model_wf(DexSwapEngine::fresh(config)),
{
    lemma_sum_of_none();
}

/// Whatever is asked of a pool, in whatever order, it stays consistent: the
/// shares of all accounts add up to the total, no account is kept with
/// nothing, both reserves are funded whenever shares are outstanding,
/// and the configuration is the one the pool was set up with.
pub proof fn law_pool_stays_consistent(s: PoolModel, requests: Seq<PoolRequest>)
    requires
        model_wf(s),
    ensures
        model_wf(spec_serve_all(s, requests)),
        spec_serve_all(s, requests).config == s.config,
    decreases requests.len(),
{
    if requests.len() > 0 {
        law_pool_stays_consistent(s, requests.drop_last());
        let before = spec_serve_all(s, requests.drop_last());
        match requests.last() {
            PoolRequest::AddLiquidity { account, amount_a, amount_b, settlement } => {
                law_add_liquidity_keeps_pool_consistent(
                    before,
                    account,
                    amount_a as nat,
                    amount_b as nat,
                );
            },
            PoolRequest::RemoveLiquidity { account, share_amount, settlement } => {
                law_remove_liquidity_keeps_pool_consistent(before, account, share_amount as nat);
            },
            PoolRequest::Swap { asset_in, amount_in, min_amount_out, settlement } => {
                if spec_swap(before, asset_in, amount_in as nat, min_amount_out as nat) is Ok {
                    law_swap_keeps_product(
                        before,
                        asset_in,
                        amount_in as nat,
                        min_amount_out as nat,
                    );
                }
            },
        }
    }
}

/// A first deposit that is taken back at once returns what was paid in:
/// depositing `(amount_a, amount_b)`, both positive, into a pool that was
/// just set up earns `amount_a` shares, and redeeming all of them pays
/// `(amount_a, amount_b)` and leaves the pool as it was set up. Liquidity
/// moves carry no fee.
pub proof fn law_first_deposit_round_trip(
    config: PoolConfig,
    account: AccountId,
    amount_a: nat,
    amount_b: nat,
)
    requires
        0 < amount_a <= u128::MAX,
        0 < amount_b <= u128::MAX,
    ensures
        ({
            let empty = DexSwapEngine::fresh(config);
            let deposited = spec_add_liquidity(empty, account, amount_a, amount_b);
            &&& deposited is Ok
            &&& deposited->Ok_0.0 == (Minted {
                shares: amount_a,
                used_a: amount_a,
                used_b: amount_b,
            })
            &&& spec_remove_liquidity(deposited->Ok_0.1, account, amount_a) is Ok
            &&& spec_remove_liquidity(deposited->Ok_0.1, account, amount_a)->Ok_0.0 == (
                amount_a,
                amount_b,
            )
            &&& spec_remove_liquidity(deposited->Ok_0.1, account, amount_a)->Ok_0.1 == empty
        }),
{
    let empty = DexSwapEngine::fresh(config);
    let funded = spec_add_liquidity(empty, account, amount_a, amount_b)->Ok_0.1;
    assert(funded.shares.dom().contains(account));
    lemma_div_multiples_vanish(amount_a as int, amount_a as int);
    lemma_div_multiples_vanish(amount_b as int, amount_a as int);
    let after = spec_remove_liquidity(funded, account, amount_a)->Ok_0.1;
    assert(after.shares =~= empty.shares);
}

/// A trade whose quote is below the caller's minimum is refused for
/// slippage, whatever the asset ledger reports, and the pool stays as it is.
pub proof fn law_slippage_is_rejected(
    s: PoolModel,
    asset_in: AssetId,
    amount_in: nat,
    min_amount_out: nat,
    settlement: Settlement,
)
    requires
        spec_quote_swap(
            s.reserves.of(spec_side_of(s.config, asset_in)),
            s.reserves.of(spec_other(spec_side_of(s.config, asset_in))),
            amount_in,
            s.config.fee_bps as nat,
        ) is Ok,
        spec_quote_swap(
            s.reserves.of(spec_side_of(s.config, asset_in)),
            s.reserves.of(spec_other(spec_side_of(s.config, asset_in))),
            amount_in,
            s.config.fee_bps as nat,
        )->Ok_0 < min_amount_out,
    ensures
        after_settlement(spec_swap(s, asset_in, amount_in, min_amount_out), settlement) is Err,
        after_settlement(spec_swap(s, asset_in, amount_in, min_amount_out), settlement)->Err_0
            == PoolError::SlippageExceeded,
        spec_step(s, SwapRequest { asset_in, amount_in, min_amount_out, settlement }) == s,
{
}

/// A trade that brings nothing is refused, whatever the minimum and
/// whatever the asset ledger reports.
pub proof fn law_empty_trade_is_rejected(
    s: PoolModel,
    asset_in: AssetId,
    min_amount_out: nat,
    settlement: Settlement,
)
    ensures
        after_settlement(spec_swap(s, asset_in, 0, min_amount_out), settlement) is Err,
        spec_step(s, SwapRequest { asset_in, amount_in: 0, min_amount_out, settlement }) == s,
{
}

/// A trade that brings something and has a price goes through at its quote
/// whenever the quote reaches the minimum and the input fits beside the
/// reserve: it is never refused for slippage, it pays exactly the quote, the
/// whole input joins one reserve and the quote leaves the other, and shares
/// and configuration stay as they are. That holds also where the quote is
/// zero, and on a pool without shares.
pub proof fn law_quoted_swap_goes_through(
    s: PoolModel,
    asset_in: AssetId,
    amount_in: nat,
    min_amount_out: nat,
)
    requires
        model_wf(s),
        amount_in > 0,
        s.reserves.of(spec_side_of(s.config, asset_in)) + spec_after_fee(
            amount_in,
            s.config.fee_bps as nat,
        ) > 0,
        s.reserves.of(spec_side_of(s.config, asset_in)) + amount_in <= u128::MAX,
    ensures
        ({
            let side_in = spec_side_of(s.config, asset_in);
            let side_out = spec_other(side_in);
            let quote = spec_quote_swap(
                s.reserves.of(side_in),
                s.reserves.of(side_out),
                amount_in,
                s.config.fee_bps as nat,
            );
            let done = spec_swap(s, asset_in, amount_in, min_amount_out);
            &&& quote is Ok
            &&& quote->Ok_0 < min_amount_out ==> done is Err && done->Err_0
                == PoolError::SlippageExceeded
            &&& quote->Ok_0 >= min_amount_out ==> {
                &&& done is Ok
                &&& done->Ok_0.0 == quote->Ok_0
                &&& done->Ok_0.1.reserves.of(side_in) == s.reserves.of(side_in) + amount_in
                &&& done->Ok_0.1.reserves.of(side_out) == s.reserves.of(side_out) - quote->Ok_0
                &&& done->Ok_0.1.shares == s.shares
                &&& done->Ok_0.1.total_shares == s.total_shares
                &&& done->Ok_0.1.config == s.config
            }
        }),
{
    let side_in = spec_side_of(s.config, asset_in);
    lemma_after_fee_bounds(amount_in, s.config.fee_bps as nat);
    law_quoted_swap_is_covered(s, asset_in, amount_in);
}

} // verus!
