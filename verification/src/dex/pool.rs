//! The pool as one unit of consistency.
//!
//! A pool owns one pair of reserves, one share ledger and its configuration.
//! Every operation reads the current state, computes the next state in full,
//! checks it, and only then writes: either all of it or nothing. The funds of
//! an operation are moved by an asset ledger outside this library. An
//! operation therefore comes in two steps: `plan_..` names the transfers that
//! it needs, and the operation itself takes what the asset ledger reported on
//! them and commits only if they went through.

use vstd::prelude::*;
use vstd::arithmetic::div_mod::lemma_div_multiples_vanish;
use vstd::arithmetic::div_mod::lemma_fundamental_div_mod;
use crate::address::AccountId;
use crate::address::AssetId;
use crate::dex::error::PoolError;
use crate::dex::reserves::spec_apply_deposit;
use crate::dex::reserves::spec_apply_swap;
use crate::dex::reserves::spec_apply_withdrawal;
use crate::dex::reserves::Asset;
use crate::dex::reserves::Balances;
use crate::dex::reserves::ReservePair;
use crate::dex::shares::as_map;
use crate::dex::shares::balance;
use crate::dex::shares::credited;
use crate::dex::shares::debited;
use crate::dex::shares::distinct;
use crate::dex::shares::positive;
use crate::dex::shares::seq_sum;
use crate::dex::shares::spec_quote_burn;
use crate::dex::shares::spec_quote_mint;
use crate::dex::shares::MintReceipt;
use crate::dex::shares::Minted;
use crate::dex::shares::ShareEntry;
use crate::dex::shares::ShareLedger;
use crate::dex::sums::lemma_sum_bounds_each_account;
use crate::dex::sums::map_sum;
use crate::dex::swap::law_quote_keeps_product;
use crate::dex::swap::lemma_quote_within_reserve;
use crate::dex::swap::quote_swap;
use crate::dex::swap::spec_quote_swap;
use crate::dex::swap::MAX_FEE_BPS;

verus! {

/// What the asset ledger reported on the transfers of one operation.
#[derive(Clone, Copy, Debug, PartialEq, Eq, Structural)]
pub enum Settlement {
    /// Every transfer went through.
    Settled,
    /// A transfer was refused; none of them counts.
    Failed,
}

/// One end of a transfer.
#[derive(Clone, Copy, Debug, PartialEq, Eq, Structural)]
pub enum Party {
    Pool,
    Account(AccountId),
}

/// An instruction to the asset ledger: move `amount` of `asset`.
#[derive(Clone, Copy, Debug, PartialEq, Eq, Structural)]
pub struct Transfer {
    pub from: Party,
    pub to: Party,
    pub asset: AssetId,
    pub amount: u128,
}

/// What a pool is set up with.
#[derive(Clone, Copy, Debug, PartialEq, Eq, Structural)]
pub struct PoolConfig {
    pub admin: AccountId,
    pub token_a: AssetId,
    pub token_b: AssetId,
    /// The trading fee in basis points, at most [`MAX_FEE_BPS`].
    pub fee_bps: u32,
}

/// The transfers of a deposit and what it will earn.
#[derive(Clone, Copy, Debug, PartialEq, Eq, Structural)]
pub struct DepositPlan {
    pub receipt: MintReceipt,
    pub pay_a: Transfer,
    pub pay_b: Transfer,
}

/// The transfers of a withdrawal.
#[derive(Clone, Copy, Debug, PartialEq, Eq, Structural)]
pub struct WithdrawalPlan {
    pub amount_a: u128,
    pub amount_b: u128,
    pub pay_a: Transfer,
    pub pay_b: Transfer,
}

/// The transfers of a trade.
#[derive(Clone, Copy, Debug, PartialEq, Eq, Structural)]
pub struct SwapPlan {
    pub amount_out: u128,
    pub pay_in: Transfer,
    pub pay_out: Transfer,
}

/// The state of a pool as mathematics sees it.
pub struct PoolModel {
    pub config: PoolConfig,
    pub reserves: Balances,
    pub shares: Map<AccountId, nat>,
    pub total_shares: nat,
}

/// The version of the stored form of a pool that this library writes and
/// reads.
pub const POOL_RECORD_VERSION: u32 = 1;

/// A pool in the form in which it is stored: all of its state as one unit,
/// under a version.
pub struct PoolRecord {
    pub version: u32,
    pub config: PoolConfig,
    pub reserves: ReservePair,
    pub total_shares: u128,
    pub shares: Vec<ShareEntry>,
}

/// The pool that a record holds.
pub open spec fn record_model(record: PoolRecord) -> PoolModel {
    PoolModel {
        config: record.config,
        reserves: record.reserves@,
        shares: as_map(record.shares@),
        total_shares: record.total_shares as nat,
    }
}

/// Whether a record holds a consistent pool of the version that this library
/// reads: no account twice, no empty line, the lines adding up to the total,
/// the fee in range, and both reserves funded whenever shares are
/// outstanding.
pub open spec fn record_wf(record: PoolRecord) -> bool {
    &&& record.version == POOL_RECORD_VERSION
    &&& distinct(record.shares@)
    &&& positive(record.shares@)
    &&& seq_sum(record.shares@) == record.total_shares
    &&& record.config.fee_bps <= MAX_FEE_BPS
    &&& record.total_shares > 0 ==> record.reserves.reserve_a > 0 && record.reserves.reserve_b > 0
}

/// The side of the pair that `asset` is traded on: side A for the pool's
/// first token, side B for anything else.
pub open spec fn spec_side_of(config: PoolConfig, asset: AssetId) -> Asset {
    if asset == config.token_a {
        Asset::A
    } else {
        Asset::B
    }
}

pub open spec fn spec_other(side: Asset) -> Asset {
    match side {
        Asset::A => Asset::B,
        Asset::B => Asset::A,
    }
}

/// The token that is traded on `side`.
pub open spec fn spec_token(config: PoolConfig, side: Asset) -> AssetId {
    match side {
        Asset::A => config.token_a,
        Asset::B => config.token_b,
    }
}

/// A deposit: what it earns and the pool after it, or why it is refused.
pub open spec fn spec_add_liquidity(s: PoolModel, account: AccountId, amount_a: nat, amount_b: nat)
    -> Result<(Minted, PoolModel), PoolError> {
    match spec_quote_mint(amount_a, amount_b, s.reserves, s.total_shares) {
        Err(e) => Err(e),
        Ok(m) => match spec_apply_deposit(s.reserves, amount_a, amount_b) {
            Err(e) => Err(e),
            Ok(next) => Ok(
                (
                    m,
                    PoolModel {
                        config: s.config,
                        reserves: next,
                        shares: credited(s.shares, account, m.shares),
                        total_shares: s.total_shares + m.shares,
                    },
                ),
            ),
        },
    }
}

/// A withdrawal: what it pays out and the pool after it, or why it is
/// refused.
pub open spec fn spec_remove_liquidity(s: PoolModel, account: AccountId, share_amount: nat)
    -> Result<((nat, nat), PoolModel), PoolError> {
    match spec_quote_burn(balance(s.shares, account), share_amount, s.reserves, s.total_shares) {
        Err(e) => Err(e),
        Ok(out) => match spec_apply_withdrawal(s.reserves, out.0, out.1) {
            Err(e) => Err(e),
            Ok(next) => Ok(
                (
                    out,
                    PoolModel {
                        config: s.config,
                        reserves: next,
                        shares: debited(s.shares, account, share_amount),
                        total_shares: (s.total_shares - share_amount) as nat,
                    },
                ),
            ),
        },
    }
}

/// A trade: what it pays out and the pool after it, or why it is refused.
/// A trade that brings nothing is refused like one that pays less than
/// `min_amount_out`. A trade that brings something and is quoted at least
/// `min_amount_out` goes through, also where the quote is zero: the input
/// then stays in the pool. The quote alone decides, on a pool without shares
/// as on any other: there it is zero, or undefined where nothing is left of
/// the input after the fee and the reserve it joins is empty.
pub open spec fn spec_swap(s: PoolModel, asset_in: AssetId, amount_in: nat, min_amount_out: nat)
    -> Result<(nat, PoolModel), PoolError> {
    let side_in = spec_side_of(s.config, asset_in);
    let side_out = spec_other(side_in);
    if amount_in == 0 {
        Err(PoolError::SlippageExceeded)
    } else {
        match spec_quote_swap(
            s.reserves.of(side_in),
            s.reserves.of(side_out),
            amount_in,
            s.config.fee_bps as nat,
        ) {
            Err(e) => Err(e),
            Ok(out) => if out < min_amount_out {
                Err(PoolError::SlippageExceeded)
            } else {
                match spec_apply_swap(s.reserves, amount_in, side_in, out, side_out) {
                    Err(e) => Err(e),
                    Ok(next) => Ok(
                        (
                            out,
                            PoolModel {
                                config: s.config,
                                reserves: next,
                                shares: s.shares,
                                total_shares: s.total_shares,
                            },
                        ),
                    ),
                }
            },
        }
    }
}

/// What becomes of a planned operation once the asset ledger has reported:
/// it stands if the transfers went through and fails otherwise.
pub open spec fn after_settlement<T>(
    planned: Result<(T, PoolModel), PoolError>,
    settlement: Settlement,
) -> Result<(T, PoolModel), PoolError> {
    match planned {
        Err(e) => Err(e),
        Ok(done) => match settlement {
            Settlement::Settled => Ok(done),
            Settlement::Failed => Err(PoolError::TransferFailed),
        },
    }
}

/// The transfer of `amount` of the token on `side` from `account` to the pool.
pub open spec fn pay_to_pool(config: PoolConfig, account: AccountId, side: Asset, amount: u128)
    -> Transfer {
    Transfer {
        from: Party::Account(account),
        to: Party::Pool,
        asset: spec_token(config, side),
        amount,
    }
}

/// The transfer of `amount` of the token on `side` from the pool to `account`.
pub open spec fn pay_to_account(config: PoolConfig, account: AccountId, side: Asset, amount: u128)
    -> Transfer {
    Transfer {
        from: Party::Pool,
        to: Party::Account(account),
        asset: spec_token(config, side),
        amount,
    }
}

/// Whether `r` is the plan of the deposit: its receipt and both amounts paid
/// by the account, or the error that refuses the deposit.
pub open spec fn deposit_planned(
    r: Result<DepositPlan, PoolError>,
    s: PoolModel,
    account: AccountId,
    amount_a: u128,
    amount_b: u128,
) -> bool {
    match spec_add_liquidity(s, account, amount_a as nat, amount_b as nat) {
        Ok(done) => {
            &&& r is Ok
            &&& r->Ok_0.receipt@ == done.0
            &&& r->Ok_0.pay_a == pay_to_pool(s.config, account, Asset::A, amount_a)
            &&& r->Ok_0.pay_b == pay_to_pool(s.config, account, Asset::B, amount_b)
        },
        Err(e) => r == Err::<DepositPlan, PoolError>(e),
    }
}

/// Whether `r` is the plan of the withdrawal: both amounts paid to the
/// account, or the error that refuses the withdrawal.
pub open spec fn withdrawal_planned(
    r: Result<WithdrawalPlan, PoolError>,
    s: PoolModel,
    account: AccountId,
    share_amount: u128,
) -> bool {
    match spec_remove_liquidity(s, account, share_amount as nat) {
        Ok(done) => {
            &&& r is Ok
            &&& r->Ok_0.amount_a == done.0.0
            &&& r->Ok_0.amount_b == done.0.1
            &&& r->Ok_0.pay_a == pay_to_account(s.config, account, Asset::A, r->Ok_0.amount_a)
            &&& r->Ok_0.pay_b == pay_to_account(s.config, account, Asset::B, r->Ok_0.amount_b)
        },
        Err(e) => r == Err::<WithdrawalPlan, PoolError>(e),
    }
}

/// Whether `r` is the plan of the trade: the input paid by the account, the
/// output paid to it, or the error that refuses the trade.
pub open spec fn swap_planned(
    r: Result<SwapPlan, PoolError>,
    s: PoolModel,
    account: AccountId,
    asset_in: AssetId,
    amount_in: u128,
    min_amount_out: u128,
) -> bool {
    let side_in = spec_side_of(s.config, asset_in);
    match spec_swap(s, asset_in, amount_in as nat, min_amount_out as nat) {
        Ok(done) => {
            &&& r is Ok
            &&& r->Ok_0.amount_out == done.0
            &&& r->Ok_0.pay_in == pay_to_pool(s.config, account, side_in, amount_in)
            &&& r->Ok_0.pay_out == pay_to_account(
                s.config,
                account,
                spec_other(side_in),
                r->Ok_0.amount_out,
            )
        },
        Err(e) => r == Err::<SwapPlan, PoolError>(e),
    }
}

/// What holds of every pool between operations: the fee is in range, the
/// shares of all accounts add up to the total, no account is kept with
/// nothing, and both reserves are funded whenever shares are outstanding.
/// A pool without shares may hold reserves: what trades left there.
pub open spec fn model_wf(s: PoolModel) -> bool {
    &&& s.config.fee_bps <= MAX_FEE_BPS
    &&& s.reserves.fits()
    &&& s.total_shares <= u128::MAX
    &&& s.shares.dom().finite()
    &&& map_sum(s.shares) == s.total_shares
    &&& forall|account: AccountId| s.shares.dom().contains(account) ==> s.shares[account] > 0
    &&& s.total_shares > 0 ==> s.reserves.a > 0 && s.reserves.b > 0
}

/// In a consistent pool nobody holds more than the total.
pub proof fn lemma_balance_within_total(s: PoolModel, account: AccountId)
    requires
        model_wf(s),
    ensures
        balance(s.shares, account) <= s.total_shares,
{
    if s.shares.dom().contains(account) {
        lemma_sum_bounds_each_account(s.shares, account);
    }
}

/// Redeeming a part of the shares takes a part of a reserve, and redeeming
/// all of them takes all of it.
pub proof fn lemma_redeemed_part(share_amount: nat, reserve: nat, total: nat)
    requires
        0 < total,
        share_amount <= total,
    ensures
        (share_amount * reserve) / total <= reserve,
        share_amount == total ==> (share_amount * reserve) / total == reserve,
        share_amount < total && reserve > 0 ==> (share_amount * reserve) / total < reserve,
{
    let out = (share_amount * reserve) / total;
    lemma_fundamental_div_mod((share_amount * reserve) as int, total as int);
    assert(total * out <= share_amount * reserve);
    if share_amount == total {
        lemma_div_multiples_vanish(reserve as int, total as int);
    }
    assert(out <= reserve) by (nonlinear_arith)
        requires
            total * out <= share_amount * reserve,
            share_amount <= total,
            0 < total,
            0 <= reserve,
    ;
    if share_amount < total && reserve > 0 {
        assert(out < reserve) by (nonlinear_arith)
            requires
                total * out <= share_amount * reserve,
                share_amount < total,
                0 < reserve,
                0 <= share_amount,
        ;
    }
}

/// A pool.
pub struct Pool {
    config: PoolConfig,
    reserves: ReservePair,
    ledger: ShareLedger,
}

impl View for Pool {
    type V = PoolModel;

    closed spec fn view(&self) -> PoolModel {
        PoolModel {
            config: self.config,
            reserves: self.reserves@,
            shares: self.ledger@,
            total_shares: self.ledger.total(),
        }
    }
}

impl Pool {
    /// The pool is consistent: its ledger adds up and [`model_wf`] holds.
    pub closed spec fn wf(&self) -> bool {
        &&& self.ledger.wf()
        &&& self.config.fee_bps <= MAX_FEE_BPS
        &&& self.ledger.total() > 0 ==> self.reserves.reserve_a > 0 && self.reserves.reserve_b > 0
    }

    /// A consistent pool satisfies [`model_wf`].
    pub proof fn lemma_wf_model(&self)
        requires
            self.wf(),
        ensures
            model_wf(self@),
    {
        self.ledger.lemma_shares_add_up();
    }

    /// An empty pool: no reserves, no shares.
    pub fn new(config: PoolConfig) -> (pool: Pool)
        requires
            config.fee_bps <= MAX_FEE_BPS,
        ensures
            pool.wf(),
            pool@ == (PoolModel {
                config,
                reserves: Balances { a: 0, b: 0 },
                shares: Map::<AccountId, nat>::empty(),
                total_shares: 0,
            }),
    {
        Pool { config, reserves: ReservePair::new(), ledger: ShareLedger::new() }
    }

    /// The pool as one record, to be stored.
    pub fn to_record(&self) -> (record: PoolRecord)
        requires
            self.wf(),
        ensures
            record_wf(record),
            record_model(record) == self@,
    {
        PoolRecord {
            version: POOL_RECORD_VERSION,
            config: self.config,
            reserves: self.reserves,
            total_shares: self.ledger.total_shares(),
            shares: self.ledger.entries(),
        }
    }

    /// The pool that a stored record holds, if the record is of this
    /// library's version and holds a consistent pool.
    pub fn from_record(record: PoolRecord) -> (r: Option<Pool>)
        ensures
            match r {
                Some(pool) => pool.wf() && pool@ == record_model(record),
                None => !record_wf(record),
            },
    {
        if record.version != POOL_RECORD_VERSION || record.config.fee_bps > MAX_FEE_BPS {
            return None;
        }
        let config = record.config;
        let reserves = record.reserves;
        let total = record.total_shares;
        let ledger = match ShareLedger::from_entries(record.shares) {
            Some(ledger) => ledger,
            None => {
                return None;
            },
        };
        if ledger.total_shares() != total {
            return None;
        }
        let funded = reserves.reserve_a > 0 && reserves.reserve_b > 0;
        if total > 0 && !funded {
            return None;
        }
        Some(Pool { config, reserves, ledger })
    }

    /// The configuration.
    pub fn config(&self) -> (config: PoolConfig)
        ensures
            config == self@.config,
    {
        self.config
    }

    /// The two reserves, side A first.
    pub fn reserves(&self) -> (r: (u128, u128))
        ensures
            r.0 == self@.reserves.a,
            r.1 == self@.reserves.b,
    {
        (self.reserves.reserve_a, self.reserves.reserve_b)
    }

    /// The shares that `account` holds.
    pub fn share_balance(&self, account: AccountId) -> (shares: u128)
        requires
            self.wf(),
        ensures
            shares == balance(self@.shares, account),
    {
        self.ledger.balance_of(account)
    }

    /// The shares outstanding.
    pub fn total_shares(&self) -> (total: u128)
        ensures
            total == self@.total_shares,
    {
        self.ledger.total_shares()
    }

    /// The side that `asset` is traded on.
    pub fn side_of(&self, asset: AssetId) -> (side: Asset)
        ensures
            side == spec_side_of(self@.config, asset),
    {
        if asset == self.config.token_a {
            Asset::A
        } else {
            Asset::B
        }
    }

    fn token(&self, side: Asset) -> (asset: AssetId)
        ensures
            asset == spec_token(self@.config, side),
    {
        match side {
            Asset::A => self.config.token_a,
            Asset::B => self.config.token_b,
        }
    }

    /// What a deposit would earn and which transfers it needs: both amounts
    /// from the account to the pool.
    pub fn plan_add_liquidity(&self, account: AccountId, amount_a: u128, amount_b: u128) -> (r:
        Result<DepositPlan, PoolError>)
        requires
            self.wf(),
        ensures
            deposit_planned(r, self@, account, amount_a, amount_b),
    {
        let receipt = match self.ledger.quote_mint(amount_a, amount_b, &self.reserves) {
            Ok(receipt) => receipt,
            Err(e) => {
                return Err(e);
            },
        };
        let mut next = self.reserves;
        match next.apply_deposit(amount_a, amount_b) {
            Ok(()) => {},
            Err(e) => {
                return Err(e);
            },
        }
        Ok(
            DepositPlan {
                receipt,
                pay_a: Transfer {
                    from: Party::Account(account),
                    to: Party::Pool,
                    asset: self.config.token_a,
                    amount: amount_a,
                },
                pay_b: Transfer {
                    from: Party::Account(account),
                    to: Party::Pool,
                    asset: self.config.token_b,
                    amount: amount_b,
                },
            },
        )
    }

    /// Deposits `(amount_a, amount_b)` for `account` and issues its shares.
    /// The whole deposit goes to the reserves; the receipt says how much of
    /// it the shares stand for. Nothing is written unless the deposit is
    /// valid and its transfers are settled.
    pub fn add_liquidity(
        &mut self,
        account: AccountId,
        amount_a: u128,
        amount_b: u128,
        settlement: Settlement,
    ) -> (r: Result<MintReceipt, PoolError>)
        requires
            old(self).wf(),
        ensures
            final(self).wf(),
            match after_settlement(
                spec_add_liquidity(old(self)@, account, amount_a as nat, amount_b as nat),
                settlement,
            ) {
                Ok(done) => r is Ok && r->Ok_0@ == done.0 && final(self)@ == done.1,
                Err(e) => r == Err::<MintReceipt, PoolError>(e) && *final(self) == *old(self),
            },
    {
        match self.plan_add_liquidity(account, amount_a, amount_b) {
            Ok(_) => {},
            Err(e) => {
                return Err(e);
            },
        }
        match settlement {
            Settlement::Settled => {},
            Settlement::Failed => {
                return Err(PoolError::TransferFailed);
            },
        }
        let before = self.reserves;
        let minted = self.ledger.mint(account, amount_a, amount_b, &before);
        let _ = self.reserves.apply_deposit(amount_a, amount_b);
        minted
    }

    /// What a withdrawal would pay out and which transfers it needs: both
    /// amounts from the pool to the account.
    pub fn plan_remove_liquidity(&self, account: AccountId, share_amount: u128) -> (r: Result<
        WithdrawalPlan,
        PoolError,
    >)
        requires
            self.wf(),
        ensures
            withdrawal_planned(r, self@, account, share_amount),
    {
        let (amount_a, amount_b) = match self.ledger.quote_burn(
            account,
            share_amount,
            &self.reserves,
        ) {
            Ok(out) => out,
            Err(e) => {
                return Err(e);
            },
        };
        let mut next = self.reserves;
        match next.apply_withdrawal(amount_a, amount_b) {
            Ok(()) => {},
            Err(e) => {
                return Err(e);
            },
        }
        Ok(
            WithdrawalPlan {
                amount_a,
                amount_b,
                pay_a: Transfer {
                    from: Party::Pool,
                    to: Party::Account(account),
                    asset: self.config.token_a,
                    amount: amount_a,
                },
                pay_b: Transfer {
                    from: Party::Pool,
                    to: Party::Account(account),
                    asset: self.config.token_b,
                    amount: amount_b,
                },
            },
        )
    }

    /// Redeems `share_amount` shares of `account` for their part of both
    /// reserves. Nothing is written unless the withdrawal is valid and its
    /// transfers are settled.
    pub fn remove_liquidity(&mut self, account: AccountId, share_amount: u128, settlement: Settlement)
        -> (r: Result<(u128, u128), PoolError>)
        requires
            old(self).wf(),
        ensures
            final(self).wf(),
            match after_settlement(
                spec_remove_liquidity(old(self)@, account, share_amount as nat),
                settlement,
            ) {
                Ok(done) => {
                    &&& r is Ok
                    &&& r->Ok_0.0 == done.0.0
                    &&& r->Ok_0.1 == done.0.1
                    &&& final(self)@ == done.1
                },
                Err(e) => r == Err::<(u128, u128), PoolError>(e) && *final(self) == *old(self),
            },
    {
        match self.plan_remove_liquidity(account, share_amount) {
            Ok(_) => {},
            Err(e) => {
                return Err(e);
            },
        }
        match settlement {
            Settlement::Settled => {},
            Settlement::Failed => {
                return Err(PoolError::TransferFailed);
            },
        }
        proof {
            self.ledger.lemma_balance_within_total(account);
            lemma_redeemed_part(
                share_amount as nat,
                self.reserves.reserve_a as nat,
                self.ledger.total(),
            );
            lemma_redeemed_part(
                share_amount as nat,
                self.reserves.reserve_b as nat,
                self.ledger.total(),
            );
        }
        let before = self.reserves;
        match self.ledger.burn(account, share_amount, &before) {
            Ok((amount_a, amount_b)) => {
                let _ = self.reserves.apply_withdrawal(amount_a, amount_b);
                Ok((amount_a, amount_b))
            },
            Err(e) => Err(e),
        }
    }

    /// What a trade would pay out and which transfers it needs: the input
    /// from the account to the pool, the output from the pool to the account.
    pub fn plan_swap(
        &self,
        account: AccountId,
        asset_in: AssetId,
        amount_in: u128,
        min_amount_out: u128,
    ) -> (r: Result<SwapPlan, PoolError>)
        requires
            self.wf(),
        ensures
            swap_planned(r, self@, account, asset_in, amount_in, min_amount_out),
    {
        let side_in = self.side_of(asset_in);
        let side_out = match side_in {
            Asset::A => Asset::B,
            Asset::B => Asset::A,
        };
        if amount_in == 0 {
            return Err(PoolError::SlippageExceeded);
        }
        let amount_out = match quote_swap(
            self.reserves.balance(side_in),
            self.reserves.balance(side_out),
            amount_in,
            self.config.fee_bps,
        ) {
            Ok(out) => out,
            Err(e) => {
                return Err(e);
            },
        };
        if amount_out < min_amount_out {
            return Err(PoolError::SlippageExceeded);
        }
        let mut next = self.reserves;
        match next.apply_swap(amount_in, side_in, amount_out, side_out) {
            Ok(()) => {},
            Err(e) => {
                return Err(e);
            },
        }
        Ok(
            SwapPlan {
                amount_out,
                pay_in: Transfer {
                    from: Party::Account(account),
                    to: Party::Pool,
                    asset: self.token(side_in),
                    amount: amount_in,
                },
                pay_out: Transfer {
                    from: Party::Pool,
                    to: Party::Account(account),
                    asset: self.token(side_out),
                    amount: amount_out,
                },
            },
        )
    }
}

/// Trades `amount_in` of `asset_in` for the other asset of `pool`.
///
/// The trade is quoted, then checked against `min_amount_out`, then
/// committed: the whole input joins one reserve and the quoted output leaves
/// the other. A rejected trade, or one whose transfers are not settled,
/// changes nothing. The output is the quote and nothing else.
pub fn execute_swap(
    pool: &mut Pool,
    account: AccountId,
    asset_in: AssetId,
    amount_in: u128,
    min_amount_out: u128,
    settlement: Settlement,
) -> (r: Result<u128, PoolError>)
    requires
        old(pool).wf(),
    ensures
        final(pool).wf(),
        match after_settlement(
            spec_swap(old(pool)@, asset_in, amount_in as nat, min_amount_out as nat),
            settlement,
        ) {
            Ok(done) => r is Ok && r->Ok_0 == done.0 && final(pool)@ == done.1,
            Err(e) => r == Err::<u128, PoolError>(e) && *final(pool) == *old(pool),
        },
        final(pool)@.reserves.product() >= old(pool)@.reserves.product(),
{
    let plan = match pool.plan_swap(account, asset_in, amount_in, min_amount_out) {
        Ok(plan) => plan,
        Err(e) => {
            return Err(e);
        },
    };
    match settlement {
        Settlement::Settled => {},
        Settlement::Failed => {
            return Err(PoolError::TransferFailed);
        },
    }
    let side_in = pool.side_of(asset_in);
    let side_out = match side_in {
        Asset::A => Asset::B,
        Asset::B => Asset::A,
    };
    proof {
        lemma_quote_within_reserve(
            pool.reserves@.of(side_in),
            pool.reserves@.of(side_out),
            amount_in as nat,
            pool.config.fee_bps as nat,
        );
    }
    let _ = pool.reserves.apply_swap(amount_in, side_in, plan.amount_out, side_out);
    Ok(plan.amount_out)
}

/// A trade at the quoted price is never refused for want of reserves: the
/// reserve it is paid from holds the quote, and the product of the reserves
/// does not fall. What remains is overflow of the reserve that the input
/// joins.
pub proof fn law_quoted_swap_is_covered(s: PoolModel, asset_in: AssetId, amount_in: nat)
    requires
        model_wf(s),
        spec_quote_swap(
            s.reserves.of(spec_side_of(s.config, asset_in)),
            s.reserves.of(spec_other(spec_side_of(s.config, asset_in))),
            amount_in,
            s.config.fee_bps as nat,
        ) is Ok,
    ensures
        ({
            let side_in = spec_side_of(s.config, asset_in);
            let side_out = spec_other(side_in);
            let out = spec_quote_swap(
                s.reserves.of(side_in),
                s.reserves.of(side_out),
                amount_in,
                s.config.fee_bps as nat,
            )->Ok_0;
            spec_apply_swap(s.reserves, amount_in, side_in, out, side_out) == if s.reserves.of(
                side_in,
            ) + amount_in > u128::MAX {
                Err::<Balances, PoolError>(PoolError::ArithmeticOverflow)
            } else {
                Ok::<Balances, PoolError>(
                    s.reserves.credit(side_in, amount_in).debit(side_out, out),
                )
            }
        }),
{
    let side_in = spec_side_of(s.config, asset_in);
    let side_out = spec_other(side_in);
    law_quote_keeps_product(
        s.reserves.of(side_in),
        s.reserves.of(side_out),
        amount_in,
        s.config.fee_bps as nat,
    );
    let out = spec_quote_swap(
        s.reserves.of(side_in),
        s.reserves.of(side_out),
        amount_in,
        s.config.fee_bps as nat,
    )->Ok_0;
    let rin = s.reserves.of(side_in);
    let rout = s.reserves.of(side_out);
    assert((rin + amount_in) * (rout - out) >= rin * rout);
    assert(rin * rout == rout * rin) by (nonlinear_arith);
    assert((rin + amount_in) * (rout - out) == (rout - out) * (rin + amount_in))
        by (nonlinear_arith);
}

} // verus!
