use pi_contracts::address::Address;
use pi_contracts::dex::engine::DexSwapEngine;
use pi_contracts::dex::error::PoolError;
use pi_contracts::dex::pool::{
    execute_swap, Party, Pool, PoolConfig, PoolRecord, Settlement, Transfer, POOL_RECORD_VERSION,
};
use pi_contracts::dex::reserves::{Asset, ReservePair};
use pi_contracts::dex::shares::{MintReceipt, ShareEntry};

fn admin() -> Address {
    Address::account(0, 1)
}

fn token_a() -> Address {
    Address::contract(0, 0xA)
}

fn token_b() -> Address {
    Address::contract(0, 0xB)
}

fn alice() -> Address {
    Address::account(7, 100)
}

fn bob() -> Address {
    Address::account(7, 200)
}

fn engine(fee_bps: u32) -> DexSwapEngine {
    let mut engine = DexSwapEngine::new();
    assert_eq!(engine.initialize(admin(), token_a(), token_b(), fee_bps), Ok(()));
    engine
}

fn funded(fee_bps: u32, a: u128, b: u128) -> DexSwapEngine {
    let mut engine = engine(fee_bps);
    engine.add_liquidity(alice(), a, b, Settlement::Settled).unwrap();
    engine
}

#[test]
fn a_new_engine_is_not_initialized() {
    let engine = DexSwapEngine::new();
    assert!(!engine.is_initialized());
}

#[test]
fn initialize_sets_up_an_empty_pool() {
    let engine = engine(30);
    assert!(engine.is_initialized());
    assert_eq!(engine.get_reserves(), (0, 0));
    assert_eq!(engine.get_total_shares(), 0);
    assert_eq!(engine.get_share_balance(alice()), 0);
    let config = engine.pool().config();
    assert_eq!(config, PoolConfig { admin: admin(), token_a: token_a(), token_b: token_b(), fee_bps: 30 });
}

#[test]
fn initialize_twice_is_refused() {
    let mut engine = funded(30, 1000, 1000);
    assert_eq!(
        engine.initialize(bob(), token_b(), token_a(), 5),
        Err(PoolError::AlreadyInitialized)
    );
    assert_eq!(engine.get_reserves(), (1000, 1000));
    assert_eq!(engine.pool().config().fee_bps, 30);
    assert_eq!(engine.pool().config().admin, admin());
}

#[test]
fn first_deposit_then_swap() {
    let mut engine = engine(30);
    let receipt = engine.add_liquidity(alice(), 1000, 1000, Settlement::Settled).unwrap();
    assert_eq!(receipt.shares_minted, 1000);
    assert_eq!(engine.get_reserves(), (1000, 1000));
    assert_eq!(engine.get_share_balance(alice()), 1000);
    assert_eq!(engine.get_total_shares(), 1000);

    let out = engine.swap(bob(), token_a(), 100, 0, Settlement::Settled);
    assert_eq!(out, Ok(90));
    assert_eq!(engine.get_reserves(), (1100, 910));
    assert_eq!(engine.get_total_shares(), 1000);
}

#[test]
fn withdrawal_of_half_before_any_swap() {
    let mut engine = funded(30, 1000, 1000);
    let out = engine.remove_liquidity(alice(), 500, Settlement::Settled);
    assert_eq!(out, Ok((500, 500)));
    assert_eq!(engine.get_share_balance(alice()), 500);
    assert_eq!(engine.get_total_shares(), 500);
    assert_eq!(engine.get_reserves(), (500, 500));
}

#[test]
fn swap_of_nothing_is_refused() {
    let mut engine = funded(30, 1000, 1000);
    let out = engine.swap(bob(), token_a(), 0, 0, Settlement::Settled);
    assert_eq!(out, Err(PoolError::SlippageExceeded));
    assert_eq!(engine.get_reserves(), (1000, 1000));
}

#[test]
fn swap_of_nothing_is_refused_whatever_the_minimum() {
    let mut engine = funded(30, 1000, 1000);
    assert_eq!(engine.swap(bob(), token_b(), 0, 5, Settlement::Settled), Err(PoolError::SlippageExceeded));
    assert_eq!(engine.plan_swap(bob(), token_a(), 0, 0), Err(PoolError::SlippageExceeded));
    assert_eq!(engine.get_reserves(), (1000, 1000));
}

#[test]
fn swap_quoted_at_zero_goes_through_without_a_minimum() {
    let mut engine = funded(30, 1000, 1000);
    // 1 * 9970 / 10000 = 0 after the fee: the quote is 0 and the input stays in the pool
    assert_eq!(engine.swap(bob(), token_a(), 1, 0, Settlement::Settled), Ok(0));
    assert_eq!(engine.get_reserves(), (1001, 1000));
    assert_eq!(engine.get_total_shares(), 1000);
    // 2 * 10000 / 10000 = 2; 1000 * 2 / 2003 = 0 without a fee, too
    let mut free = funded(0, 2001, 1000);
    assert_eq!(free.swap(bob(), token_a(), 2, 0, Settlement::Settled), Ok(0));
    assert_eq!(free.get_reserves(), (2003, 1000));
}

#[test]
fn swap_quoted_at_zero_is_slippage_under_a_minimum() {
    let mut engine = funded(30, 1000, 1000);
    assert_eq!(engine.swap(bob(), token_a(), 1, 1, Settlement::Settled), Err(PoolError::SlippageExceeded));
    assert_eq!(engine.get_reserves(), (1000, 1000));
}

#[test]
fn swap_on_a_pool_without_shares_follows_the_quote() {
    let mut engine = engine(30);
    // 100 * 9970 / 10000 = 99; 0 * 99 / (0 + 99) = 0: below any minimum above zero
    assert_eq!(engine.swap(bob(), token_a(), 100, 5, Settlement::Settled), Err(PoolError::SlippageExceeded));
    assert_eq!(engine.get_reserves(), (0, 0));
    // without a minimum the trade goes through and the input stays in the pool
    assert_eq!(engine.swap(bob(), token_a(), 100, 0, Settlement::Settled), Ok(0));
    assert_eq!(engine.get_reserves(), (100, 0));
    assert_eq!(engine.get_total_shares(), 0);
    // 50 * 9970 / 10000 = 49; 100 * 49 / (0 + 49) = 100: the other side takes it all
    assert_eq!(engine.swap(alice(), token_b(), 50, 100, Settlement::Settled), Ok(100));
    assert_eq!(engine.get_reserves(), (0, 50));
    assert_eq!(engine.swap(alice(), token_b(), 0, 0, Settlement::Settled), Err(PoolError::SlippageExceeded));
    // the first deposit takes over what trades left behind
    let receipt = engine.add_liquidity(alice(), 10, 10, Settlement::Settled).unwrap();
    assert_eq!(receipt.shares_minted, 10);
    assert_eq!(engine.get_reserves(), (10, 60));
    assert_eq!(engine.remove_liquidity(alice(), 10, Settlement::Settled), Ok((10, 60)));
    assert_eq!(engine.get_reserves(), (0, 0));
}

#[test]
fn swap_without_a_price_is_a_division_by_zero() {
    let mut engine = engine(30);
    // 1 * 9970 / 10000 = 0 joins an empty reserve: 0 / 0
    assert_eq!(engine.swap(bob(), token_a(), 1, 0, Settlement::Settled), Err(PoolError::DivisionByZero));
    assert_eq!(engine.plan_swap(bob(), token_b(), 1, 7), Err(PoolError::DivisionByZero));
    assert_eq!(engine.get_reserves(), (0, 0));
    let mut whole_fee = self::engine(10_000);
    assert_eq!(whole_fee.swap(bob(), token_a(), 500, 0, Settlement::Settled), Err(PoolError::DivisionByZero));
    // with something in the reserve the same trade has the price zero
    let mut funded = funded(10_000, 3, 3);
    assert_eq!(funded.swap(bob(), token_a(), 500, 0, Settlement::Settled), Ok(0));
    assert_eq!(funded.get_reserves(), (503, 3));
}

#[test]
fn swap_below_the_minimum_is_refused_and_changes_nothing() {
    let mut engine = funded(30, 1000, 1000);
    assert_eq!(
        engine.swap(bob(), token_a(), 100, 91, Settlement::Settled),
        Err(PoolError::SlippageExceeded)
    );
    assert_eq!(engine.get_reserves(), (1000, 1000));
    assert_eq!(engine.get_total_shares(), 1000);
    assert_eq!(engine.get_share_balance(alice()), 1000);
    // whatever the asset ledger says
    assert_eq!(
        engine.swap(bob(), token_a(), 100, 91, Settlement::Failed),
        Err(PoolError::SlippageExceeded)
    );
    // at the minimum the trade goes through
    assert_eq!(engine.swap(bob(), token_a(), 100, 90, Settlement::Settled), Ok(90));
}

#[test]
fn swap_in_the_other_direction() {
    let mut engine = funded(30, 1000, 4000);
    // 200 * 9970 / 10000 = 199; 1000 * 199 / (4000 + 199) = 47
    assert_eq!(engine.swap(bob(), token_b(), 200, 1, Settlement::Settled), Ok(47));
    assert_eq!(engine.get_reserves(), (953, 4200));
}

#[test]
fn an_unknown_token_is_traded_as_the_second() {
    let mut engine = funded(30, 1000, 4000);
    let plan = engine.plan_swap(bob(), Address::contract(9, 9), 200, 1).unwrap();
    assert_eq!(plan.amount_out, 47);
    assert_eq!(plan.pay_in.asset, token_b());
    assert_eq!(plan.pay_out.asset, token_a());
}

#[test]
fn swap_that_overflows_the_reserve_is_refused() {
    let mut engine = funded(0, u128::MAX - 10, 1000);
    assert_eq!(
        engine.swap(bob(), token_a(), 11, 0, Settlement::Settled),
        Err(PoolError::ArithmeticOverflow)
    );
    assert_eq!(engine.get_reserves(), (u128::MAX - 10, 1000));
}

#[test]
fn failed_transfers_abort_every_operation() {
    let mut engine = engine(30);
    assert_eq!(
        engine.add_liquidity(alice(), 1000, 1000, Settlement::Failed),
        Err(PoolError::TransferFailed)
    );
    assert_eq!(engine.get_reserves(), (0, 0));
    assert_eq!(engine.get_total_shares(), 0);
    assert_eq!(engine.get_share_balance(alice()), 0);

    engine.add_liquidity(alice(), 1000, 1000, Settlement::Settled).unwrap();
    assert_eq!(engine.swap(bob(), token_a(), 100, 0, Settlement::Failed), Err(PoolError::TransferFailed));
    assert_eq!(engine.get_reserves(), (1000, 1000));
    assert_eq!(
        engine.remove_liquidity(alice(), 500, Settlement::Failed),
        Err(PoolError::TransferFailed)
    );
    assert_eq!(engine.get_reserves(), (1000, 1000));
    assert_eq!(engine.get_share_balance(alice()), 1000);
    assert_eq!(engine.get_total_shares(), 1000);
}

#[test]
fn the_product_never_falls_over_a_run_of_swaps() {
    let mut engine = funded(30, 1_000_000, 2_000_000);
    let mut product = 1_000_000u128 * 2_000_000u128;
    let trades: [(bool, u128); 8] = [
        (true, 1_000),
        (false, 777),
        (true, 1),
        (false, 250_000),
        (true, 123_456),
        (true, 5),
        (false, 999_999),
        (true, 2),
    ];
    for (a_in, amount) in trades {
        let asset = if a_in { token_a() } else { token_b() };
        let _ = engine.swap(bob(), asset, amount, 0, Settlement::Settled);
        let (a, b) = engine.get_reserves();
        assert!(a * b >= product);
        product = a * b;
    }
    assert!(product > 1_000_000u128 * 2_000_000u128);
}

#[test]
fn the_product_never_falls_without_a_fee() {
    let mut engine = funded(0, 1000, 1000);
    for amount in [1u128, 3, 10, 333, 1000] {
        let (a, b) = engine.get_reserves();
        let _ = engine.swap(bob(), token_a(), amount, 0, Settlement::Settled);
        let (a2, b2) = engine.get_reserves();
        assert!(a2 * b2 >= a * b);
    }
}

#[test]
fn first_deposit_comes_back_whole() {
    for (a, b) in [(1000u128, 1000u128), (1, 1), (7, 1_000_000), (u128::MAX, 3), (5, u128::MAX)] {
        let mut engine = engine(30);
        let receipt = engine.add_liquidity(alice(), a, b, Settlement::Settled).unwrap();
        assert_eq!(receipt, MintReceipt { shares_minted: a, amount_used_a: a, amount_used_b: b });
        let out = engine.remove_liquidity(alice(), receipt.shares_minted, Settlement::Settled);
        assert_eq!(out, Ok((a, b)));
        assert_eq!(engine.get_reserves(), (0, 0));
        assert_eq!(engine.get_total_shares(), 0);
        assert_eq!(engine.get_share_balance(alice()), 0);
        assert!(engine.pool().to_record().shares.is_empty());
    }
}

#[test]
fn first_deposit_must_bring_both_assets() {
    let mut engine = engine(30);
    assert_eq!(engine.add_liquidity(alice(), 0, 1000, Settlement::Settled), Err(PoolError::PoolEmpty));
    assert_eq!(engine.add_liquidity(alice(), 1000, 0, Settlement::Settled), Err(PoolError::PoolEmpty));
    assert_eq!(engine.add_liquidity(alice(), 0, 0, Settlement::Settled), Err(PoolError::PoolEmpty));
    assert_eq!(engine.get_total_shares(), 0);
}

#[test]
fn later_deposits_earn_the_smaller_proportion() {
    let mut engine = funded(30, 1000, 4000);
    // by a: 100 * 1000 / 1000 = 100; by b: 200 * 1000 / 4000 = 50
    let receipt = engine.add_liquidity(bob(), 100, 200, Settlement::Settled).unwrap();
    assert_eq!(receipt, MintReceipt { shares_minted: 50, amount_used_a: 50, amount_used_b: 200 });
    // the whole deposit stays in the pool
    assert_eq!(engine.get_reserves(), (1100, 4200));
    assert_eq!(engine.get_share_balance(bob()), 50);
    assert_eq!(engine.get_share_balance(alice()), 1000);
    assert_eq!(engine.get_total_shares(), 1050);
}

fn record(reserve_a: u128, reserve_b: u128, shares: Vec<ShareEntry>) -> PoolRecord {
    PoolRecord {
        version: POOL_RECORD_VERSION,
        config: PoolConfig { admin: admin(), token_a: token_a(), token_b: token_b(), fee_bps: 30 },
        reserves: ReservePair { reserve_a, reserve_b },
        total_shares: shares.iter().map(|e| e.shares).sum(),
        shares,
    }
}

#[test]
fn a_deposit_too_small_for_a_share_earns_none() {
    let stored = record(3, 3, vec![ShareEntry { account: alice(), shares: 2 }]);
    let mut engine = DexSwapEngine::resume(Pool::from_record(stored).unwrap());
    // 1 * 2 / 3 = 0 shares
    let receipt = engine.add_liquidity(bob(), 1, 1, Settlement::Settled).unwrap();
    assert_eq!(receipt, MintReceipt { shares_minted: 0, amount_used_a: 0, amount_used_b: 0 });
    assert_eq!(engine.get_reserves(), (4, 4));
    assert_eq!(engine.get_share_balance(bob()), 0);
    assert_eq!(engine.pool().to_record().shares.len(), 1);
}

#[test]
fn deposit_that_overflows_a_reserve_is_refused() {
    let mut engine = funded(30, u128::MAX - 5, 10);
    assert_eq!(
        engine.add_liquidity(bob(), 6, 1, Settlement::Settled),
        Err(PoolError::ArithmeticOverflow)
    );
    assert_eq!(engine.get_reserves(), (u128::MAX - 5, 10));
    assert_eq!(engine.get_share_balance(bob()), 0);
}

#[test]
fn withdrawal_of_more_than_owned_is_refused() {
    let mut engine = funded(30, 1000, 1000);
    assert_eq!(
        engine.remove_liquidity(alice(), 1001, Settlement::Settled),
        Err(PoolError::InsufficientShares)
    );
    assert_eq!(
        engine.remove_liquidity(bob(), 1, Settlement::Settled),
        Err(PoolError::InsufficientShares)
    );
    assert_eq!(engine.get_reserves(), (1000, 1000));
}

#[test]
fn withdrawal_from_an_empty_pool_is_refused() {
    let mut engine = engine(30);
    assert_eq!(engine.remove_liquidity(alice(), 1, Settlement::Settled), Err(PoolError::PoolEmpty));
    assert_eq!(engine.remove_liquidity(alice(), 0, Settlement::Settled), Err(PoolError::PoolEmpty));
}

#[test]
fn withdrawal_after_swaps_shares_the_fees() {
    let mut engine = funded(30, 1000, 1000);
    engine.swap(bob(), token_a(), 100, 0, Settlement::Settled).unwrap();
    // reserves (1100, 910): a quarter of the shares takes a quarter of each
    assert_eq!(engine.remove_liquidity(alice(), 250, Settlement::Settled), Ok((275, 227)));
    assert_eq!(engine.get_reserves(), (825, 683));
    assert_eq!(engine.get_total_shares(), 750);
}

#[test]
fn an_account_that_redeems_everything_leaves_the_ledger() {
    let mut engine = funded(30, 1000, 1000);
    engine.add_liquidity(bob(), 500, 500, Settlement::Settled).unwrap();
    assert_eq!(engine.pool().to_record().shares.len(), 2);
    engine.remove_liquidity(alice(), 1000, Settlement::Settled).unwrap();
    let entries = engine.pool().to_record().shares;
    assert_eq!(entries, vec![ShareEntry { account: bob(), shares: 500 }]);
    assert_eq!(engine.get_total_shares(), 500);
    assert_eq!(engine.get_share_balance(alice()), 0);
}

#[test]
fn the_shares_of_all_accounts_add_up_to_the_total() {
    let mut engine = funded(30, 1000, 2000);
    engine.add_liquidity(bob(), 300, 600, Settlement::Settled).unwrap();
    engine.swap(bob(), token_b(), 400, 0, Settlement::Settled).unwrap();
    engine.add_liquidity(Address::account(1, 1), 77, 1000, Settlement::Settled).unwrap();
    engine.remove_liquidity(alice(), 123, Settlement::Settled).unwrap();
    let sum: u128 = engine.pool().to_record().shares.iter().map(|e| e.shares).sum();
    assert_eq!(sum, engine.get_total_shares());
}

#[test]
fn plans_name_the_transfers() {
    let engine = funded(30, 1000, 1000);
    let deposit = engine.plan_add_liquidity(bob(), 10, 20).unwrap();
    assert_eq!(
        deposit.pay_a,
        Transfer { from: Party::Account(bob()), to: Party::Pool, asset: token_a(), amount: 10 }
    );
    assert_eq!(
        deposit.pay_b,
        Transfer { from: Party::Account(bob()), to: Party::Pool, asset: token_b(), amount: 20 }
    );
    assert_eq!(deposit.receipt.shares_minted, 10);

    let withdrawal = engine.plan_remove_liquidity(alice(), 100).unwrap();
    assert_eq!((withdrawal.amount_a, withdrawal.amount_b), (100, 100));
    assert_eq!(
        withdrawal.pay_a,
        Transfer { from: Party::Pool, to: Party::Account(alice()), asset: token_a(), amount: 100 }
    );
    assert_eq!(
        withdrawal.pay_b,
        Transfer { from: Party::Pool, to: Party::Account(alice()), asset: token_b(), amount: 100 }
    );

    let swap = engine.plan_swap(bob(), token_a(), 100, 0).unwrap();
    assert_eq!(swap.amount_out, 90);
    assert_eq!(
        swap.pay_in,
        Transfer { from: Party::Account(bob()), to: Party::Pool, asset: token_a(), amount: 100 }
    );
    assert_eq!(
        swap.pay_out,
        Transfer { from: Party::Pool, to: Party::Account(bob()), asset: token_b(), amount: 90 }
    );
    // planning changes nothing
    assert_eq!(engine.get_reserves(), (1000, 1000));
}

#[test]
fn plans_report_the_error_of_the_operation() {
    let engine = funded(30, 1000, 1000);
    assert_eq!(engine.plan_swap(bob(), token_a(), 100, 91), Err(PoolError::SlippageExceeded));
    assert_eq!(engine.plan_remove_liquidity(bob(), 1), Err(PoolError::InsufficientShares));
    let empty = self::engine(30);
    assert_eq!(empty.plan_add_liquidity(bob(), 0, 5), Err(PoolError::PoolEmpty));
}

#[test]
fn execute_swap_commits_on_the_pool() {
    let mut pool = Pool::new(PoolConfig { admin: admin(), token_a: token_a(), token_b: token_b(), fee_bps: 30 });
    pool.add_liquidity(alice(), 1000, 1000, Settlement::Settled).unwrap();
    assert_eq!(execute_swap(&mut pool, bob(), token_a(), 100, 0, Settlement::Settled), Ok(90));
    assert_eq!(pool.reserves(), (1100, 910));
    assert_eq!(pool.side_of(token_a()), Asset::A);
    assert_eq!(pool.side_of(token_b()), Asset::B);
    assert_eq!(pool.total_shares(), 1000);
    assert_eq!(pool.share_balance(alice()), 1000);
}

#[test]
fn a_stored_pool_comes_back() {
    let mut engine = funded(30, 1000, 2000);
    engine.add_liquidity(bob(), 10, 20, Settlement::Settled).unwrap();
    let stored = engine.pool().to_record();
    assert_eq!(stored.version, POOL_RECORD_VERSION);
    assert_eq!(stored.reserves, ReservePair { reserve_a: 1010, reserve_b: 2020 });
    assert_eq!(stored.total_shares, 1010);
    assert_eq!(
        stored.shares,
        vec![ShareEntry { account: alice(), shares: 1000 }, ShareEntry { account: bob(), shares: 10 }]
    );
    let mut resumed = DexSwapEngine::resume(Pool::from_record(stored).unwrap());
    assert_eq!(resumed.get_reserves(), (1010, 2020));
    assert_eq!(resumed.get_share_balance(bob()), 10);
    assert_eq!(resumed.get_total_shares(), 1010);
    assert_eq!(resumed.pool().config().fee_bps, 30);
    assert_eq!(resumed.initialize(admin(), token_a(), token_b(), 30), Err(PoolError::AlreadyInitialized));
    // 100 * 9970 / 10000 = 99; 2020 * 99 / 1109 = 180
    assert_eq!(resumed.swap(bob(), token_a(), 100, 0, Settlement::Settled), Ok(180));
}

#[test]
fn a_record_that_holds_no_consistent_pool_is_refused() {
    let one = || vec![ShareEntry { account: alice(), shares: 5 }];
    assert!(Pool::from_record(record(9, 9, one())).is_some());
    assert!(Pool::from_record(record(0, 0, vec![])).is_some());
    // shares without both reserves
    assert!(Pool::from_record(record(0, 9, one())).is_none());
    assert!(Pool::from_record(record(9, 0, one())).is_none());
    // reserves without shares are what trades leave in a pool that nobody has funded
    assert!(Pool::from_record(record(1, 1, vec![])).is_some());
    assert!(Pool::from_record(record(7, 0, vec![])).is_some());
    // another version
    assert!(Pool::from_record(PoolRecord { version: 2, ..record(9, 9, one()) }).is_none());
    // a fee above the whole
    let mut high = record(9, 9, one());
    high.config.fee_bps = 10_001;
    assert!(Pool::from_record(high).is_none());
    // a total that the lines do not add up to
    assert!(Pool::from_record(PoolRecord { total_shares: 6, ..record(9, 9, one()) }).is_none());
    // an account twice, an empty line
    let twice = vec![ShareEntry { account: alice(), shares: 5 }, ShareEntry { account: alice(), shares: 1 }];
    assert!(Pool::from_record(record(9, 9, twice)).is_none());
    let hollow = vec![ShareEntry { account: alice(), shares: 5 }, ShareEntry { account: bob(), shares: 0 }];
    assert!(Pool::from_record(record(9, 9, hollow)).is_none());
}
