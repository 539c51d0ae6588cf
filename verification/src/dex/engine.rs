//! The operations that a pool offers to the outside.
//!
//! The engine is set up once and then takes deposits, withdrawals and trades,
//! one at a time and each to its end. Queries change nothing.

use vstd::prelude::*;
use crate::address::AccountId;
use crate::address::Address;
use crate::address::AddressKind;
use crate::address::AssetId;
use crate::dex::error::PoolError;
use crate::dex::pool::after_settlement;
use crate::dex::pool::deposit_planned;
use crate::dex::pool::execute_swap;
use crate::dex::pool::model_wf;
use crate::dex::pool::spec_add_liquidity;
use crate::dex::pool::spec_remove_liquidity;
use crate::dex::pool::spec_swap;
use crate::dex::pool::swap_planned;
use crate::dex::pool::withdrawal_planned;
use crate::dex::pool::DepositPlan;
use crate::dex::pool::Pool;
use crate::dex::pool::PoolConfig;
use crate::dex::pool::PoolModel;
use crate::dex::pool::Settlement;
use crate::dex::pool::SwapPlan;
use crate::dex::pool::WithdrawalPlan;
use crate::dex::reserves::Balances;
use crate::dex::shares::balance;
use crate::dex::shares::MintReceipt;
use crate::dex::swap::MAX_FEE_BPS;

verus! {

/// A constant-product exchange of two tokens.
pub struct DexSwapEngine {
    initialized: bool,
    pool: Pool,
}

impl View for DexSwapEngine {
    type V = Option<PoolModel>;

    /// The pool, once the engine is initialized.
    closed spec fn view(&self) -> Option<PoolModel> {
        if self.initialized {
            Some(self.pool@)
        } else {
            None
        }
    }
}

impl DexSwapEngine {
    /// The engine is consistent: so is its pool.
    pub closed spec fn wf(&self) -> bool {
        self.pool.wf()
    }

    /// The pool of a consistent engine is consistent: its shares add up to
    /// the total and both its reserves are funded whenever shares are
    /// outstanding.
    pub proof fn lemma_wf_model(&self)
        requires
            self.wf(),
            self@ is Some,
        ensures
            model_wf(self@->Some_0),
    {
        self.pool.lemma_wf_model();
    }

    /// The pool that a fresh engine gets from `config`.
    pub open spec fn fresh(config: PoolConfig) -> PoolModel {
        PoolModel {
            config,
            reserves: Balances { a: 0, b: 0 },
            shares: Map::<AccountId, nat>::empty(),
            total_shares: 0,
        }
    }

    /// An engine that is not set up yet.
    pub fn new() -> (engine: DexSwapEngine)
        ensures
            engine.wf(),
            engine@ is None,
    {
        let nobody = Address { kind: AddressKind::Account, hi: 0, lo: 0 };
        DexSwapEngine {
            initialized: false,
            pool: Pool::new(
                PoolConfig { admin: nobody, token_a: nobody, token_b: nobody, fee_bps: 0 },
            ),
        }
    }

    /// An engine that goes on with a pool that was set up before.
    pub fn resume(pool: Pool) -> (engine: DexSwapEngine)
        requires
            pool.wf(),
        ensures
            engine.wf(),
            engine@ == Some(pool@),
    {
        DexSwapEngine { initialized: true, pool }
    }

    /// The pool of the engine, for a caller that stores it.
    pub fn pool(&self) -> (pool: &Pool)
        requires
            self.wf(),
            self@ is Some,
        ensures
            pool.wf(),
            Some(pool@) == self@,
    {
        &self.pool
    }

    /// Whether [`DexSwapEngine::initialize`] has run.
    pub fn is_initialized(&self) -> (yes: bool)
        ensures
            yes == (self@ is Some),
    {
        self.initialized
    }

    /// Sets the engine up, once: an empty pool of `token_a` and `token_b`
    /// with a fee of `fee_bps` basis points. A second call is refused and
    /// changes nothing.
    pub fn initialize(&mut self, admin: AccountId, token_a: AssetId, token_b: AssetId, fee_bps: u32)
        -> (r: Result<(), PoolError>)
        requires
            old(self).wf(),
            fee_bps <= MAX_FEE_BPS,
        ensures
            final(self).wf(),
            old(self)@ is Some ==> r == Err::<(), PoolError>(PoolError::AlreadyInitialized)
                && *final(self) == *old(self),
            old(self)@ is None ==> r == Ok::<(), PoolError>(()) && final(self)@ == Some(
                Self::fresh(PoolConfig { admin, token_a, token_b, fee_bps }),
            ),
    {
        if self.initialized {
            return Err(PoolError::AlreadyInitialized);
        }
        self.pool = Pool::new(PoolConfig { admin, token_a, token_b, fee_bps });
        self.initialized = true;
        Ok(())
    }

    /// The transfers that a deposit needs and what it would earn; see
    /// [`Pool::plan_add_liquidity`].
    pub fn plan_add_liquidity(&self, account: AccountId, amount_a: u128, amount_b: u128) -> (r:
        Result<DepositPlan, PoolError>)
        requires
            self.wf(),
            self@ is Some,
        ensures
            deposit_planned(r, self@->Some_0, account, amount_a, amount_b),
    {
        self.pool.plan_add_liquidity(account, amount_a, amount_b)
    }

    /// The transfers that a withdrawal needs; see
    /// [`Pool::plan_remove_liquidity`].
    pub fn plan_remove_liquidity(&self, account: AccountId, share_amount: u128) -> (r: Result<
        WithdrawalPlan,
        PoolError,
    >)
        requires
            self.wf(),
            self@ is Some,
        ensures
            withdrawal_planned(r, self@->Some_0, account, share_amount),
    {
        self.pool.plan_remove_liquidity(account, share_amount)
    }

    /// The transfers that a trade needs; see [`Pool::plan_swap`].
    pub fn plan_swap(
        &self,
        account: AccountId,
        asset_in: AssetId,
        amount_in: u128,
        min_amount_out: u128,
    ) -> (r: Result<SwapPlan, PoolError>)
        requires
            self.wf(),
            self@ is Some,
        ensures
            swap_planned(r, self@->Some_0, account, asset_in, amount_in, min_amount_out),
    {
        self.pool.plan_swap(account, asset_in, amount_in, min_amount_out)
    }

    /// Deposits `(amount_a, amount_b)` for `account`; see
    /// [`Pool::add_liquidity`].
    pub fn add_liquidity(
        &mut self,
        account: AccountId,
        amount_a: u128,
        amount_b: u128,
        settlement: Settlement,
    ) -> (r: Result<MintReceipt, PoolError>)
        requires
            old(self).wf(),
            old(self)@ is Some,
        ensures
            final(self).wf(),
            match after_settlement(
                spec_add_liquidity(old(self)@->Some_0, account, amount_a as nat, amount_b as nat),
                settlement,
            ) {
                Ok(done) => r is Ok && r->Ok_0@ == done.0 && final(self)@ == Some(done.1),
                Err(e) => r == Err::<MintReceipt, PoolError>(e) && *final(self) == *old(self),
            },
    {
        self.pool.add_liquidity(account, amount_a, amount_b, settlement)
    }

    /// Redeems `share_amount` shares of `account`; see
    /// [`Pool::remove_liquidity`].
    pub fn remove_liquidity(&mut self, account: AccountId, share_amount: u128, settlement: Settlement)
        -> (r: Result<(u128, u128), PoolError>)
        requires
            old(self).wf(),
            old(self)@ is Some,
        ensures
            final(self).wf(),
            match after_settlement(
                spec_remove_liquidity(old(self)@->Some_0, account, share_amount as nat),
                settlement,
            ) {
                Ok(done) => {
                    &&& r is Ok
                    &&& r->Ok_0.0 == done.0.0
                    &&& r->Ok_0.1 == done.0.1
                    &&& final(self)@ == Some(done.1)
                },
                Err(e) => r == Err::<(u128, u128), PoolError>(e) && *final(self) == *old(self),
            },
    {
        self.pool.remove_liquidity(account, share_amount, settlement)
    }

    /// Trades `amount_in` of `asset_in` for the other token; see
    /// [`execute_swap`].
    pub fn swap(
        &mut self,
        account: AccountId,
        asset_in: AssetId,
        amount_in: u128,
        min_amount_out: u128,
        settlement: Settlement,
    ) -> (r: Result<u128, PoolError>)
        requires
            old(self).wf(),
            old(self)@ is Some,
        ensures
            final(self).wf(),
            match after_settlement(
                spec_swap(old(self)@->Some_0, asset_in, amount_in as nat, min_amount_out as nat),
                settlement,
            ) {
                Ok(done) => r is Ok && r->Ok_0 == done.0 && final(self)@ == Some(done.1),
                Err(e) => r == Err::<u128, PoolError>(e) && *final(self) == *old(self),
            },
            final(self)@->Some_0.reserves.product() >= old(self)@->Some_0.reserves.product(),
    {
        execute_swap(&mut self.pool, account, asset_in, amount_in, min_amount_out, settlement)
    }

    /// The two reserves, the first token's first.
    pub fn get_reserves(&self) -> (r: (u128, u128))
        requires
            self@ is Some,
        ensures
            r.0 == self@->Some_0.reserves.a,
            r.1 == self@->Some_0.reserves.b,
    {
        self.pool.reserves()
    }

    /// The shares that `account` holds; zero if it holds none.
    pub fn get_share_balance(&self, account: AccountId) -> (shares: u128)
        requires
            self.wf(),
            self@ is Some,
        ensures
            shares == balance(self@->Some_0.shares, account),
    {
        self.pool.share_balance(account)
    }

    /// The shares outstanding.
    pub fn get_total_shares(&self) -> (total: u128)
        requires
            self@ is Some,
        ensures
            total == self@->Some_0.total_shares,
    {
        self.pool.total_shares()
    }
}

} // verus!
