use pi_contracts::address::Address;
use pi_contracts::mega_negation_stablecoin::{MegaStablePi, StableError};
use pi_contracts::pi_staking::{PiStakingContract, RewardPayout, Stake};
use pi_contracts::registry::Registry;
use pi_contracts::yield_farming::{FarmError, RewardNotice, YieldFarming};

fn admin() -> Address {
    Address::account(0, 1)
}

fn token() -> Address {
    Address::contract(0, 2)
}

fn dex() -> Address {
    Address::contract(0, 3)
}

fn alice() -> Address {
    Address::account(1, 1)
}

fn bob() -> Address {
    Address::account(1, 2)
}

#[test]
fn registry_keeps_one_value_per_address() {
    let mut registry: Registry<u32> = Registry::new();
    assert_eq!(registry.len(), 0);
    assert_eq!(registry.get(alice()), None);
    registry.set(alice(), 1);
    registry.set(bob(), 2);
    registry.set(alice(), 3);
    assert_eq!(registry.len(), 2);
    assert_eq!(registry.get(alice()), Some(&3));
    assert_eq!(registry.get(bob()), Some(&2));
    assert_eq!(registry.slot(0).key, alice());
    assert_eq!(registry.slot(1).value, 2);
    assert_eq!(registry.remove(alice()), Some(3));
    assert_eq!(registry.remove(alice()), None);
    assert_eq!(registry.len(), 1);
    assert_eq!(registry.slot(0).key, bob());
}

#[test]
fn a_new_farm_has_no_stakes() {
    let farm = YieldFarming::initialize(admin(), token(), dex(), 7, 1_000);
    assert_eq!(farm.total_staked, 0);
    assert_eq!(farm.reward_rate, 7);
    assert_eq!(farm.last_reward_time, 1_000);
    assert_eq!(farm.get_stake(alice()), 0);
    assert_eq!((farm.admin, farm.reward_token, farm.dex_contract), (admin(), token(), dex()));
}

#[test]
fn staking_adds_up() {
    let mut farm = YieldFarming::initialize(admin(), token(), dex(), 7, 0);
    farm.stake(alice(), 100);
    farm.stake(bob(), 50);
    farm.stake(alice(), 25);
    assert_eq!(farm.get_stake(alice()), 125);
    assert_eq!(farm.get_stake(bob()), 50);
    assert_eq!(farm.total_staked, 175);
}

#[test]
fn unstaking_more_than_staked_is_refused() {
    let mut farm = YieldFarming::initialize(admin(), token(), dex(), 7, 0);
    farm.stake(alice(), 100);
    assert_eq!(farm.unstake(alice(), 101, 1_000_000, 0), Err(FarmError::InsufficientStake));
    assert_eq!(farm.unstake(bob(), 1, 1_000_000, 0), Err(FarmError::InsufficientStake));
    assert_eq!(farm.get_stake(alice()), 100);
    assert_eq!(farm.total_staked, 100);
}

#[test]
fn unstaking_waits_for_the_lock() {
    let mut farm = YieldFarming::initialize(admin(), token(), dex(), 7, 0);
    farm.stake(alice(), 100);
    assert_eq!(farm.unstake(alice(), 40, 86_399, 0), Err(FarmError::TimeLockActive));
    assert_eq!(farm.unstake(alice(), 40, 100_000, 13_601), Err(FarmError::TimeLockActive));
    assert_eq!(farm.get_stake(alice()), 100);
    assert_eq!(farm.unstake(alice(), 40, 86_400, 0), Ok(()));
    assert_eq!(farm.get_stake(alice()), 60);
    assert_eq!(farm.total_staked, 60);
    // a stake that is taken back whole stays in the book at zero
    assert_eq!(farm.unstake(alice(), 60, 100_000, 13_600), Ok(()));
    assert_eq!(farm.get_stake(alice()), 0);
    assert_eq!(farm.stakers.len(), 1);
}

#[test]
fn rewards_grow_with_stake_rate_time_and_boost() {
    let mut farm = YieldFarming::initialize(admin(), token(), dex(), 7, 1_000);
    farm.stake(alice(), 5_000);
    // 5000 * 7 * 3600 / 1000000 = 126, times 3
    assert_eq!(farm.claim_rewards(alice(), 4_600, 3), Ok(378));
    assert_eq!(farm.last_reward_time, 4_600);
    // the clock restarted: 5000 * 7 * 100 / 1000000 = 3
    assert_eq!(farm.claim_rewards(alice(), 4_700, 1), Ok(3));
    assert_eq!(farm.get_stake(alice()), 5_000);
}

#[test]
fn rewards_round_toward_zero() {
    let mut farm = YieldFarming::initialize(admin(), token(), dex(), -7, 0);
    farm.stake(alice(), 5_000);
    // 5000 * -7 * 100 / 1000000 = -3.5
    assert_eq!(farm.claim_rewards(alice(), 100, 2), Ok(-6));
}

#[test]
fn claiming_without_a_stake_is_refused() {
    let mut farm = YieldFarming::initialize(admin(), token(), dex(), 7, 1_000);
    assert_eq!(farm.claim_rewards(alice(), 2_000, 5), Err(FarmError::NoStake));
    assert_eq!(farm.last_reward_time, 1_000);
}

#[test]
fn reward_notices_pair_recipients_with_amounts() {
    let notices = YieldFarming::distribute_pi_rewards(&vec![alice(), bob()], &vec![5, 6, 7]);
    assert_eq!(
        notices,
        vec![RewardNotice { recipient: alice(), amount: 5 }, RewardNotice { recipient: bob(), amount: 6 }]
    );
    assert!(YieldFarming::distribute_pi_rewards(&vec![], &vec![]).is_empty());
}

#[test]
fn a_new_staking_contract() {
    let contract = PiStakingContract::init(5);
    assert_eq!(contract.get_total_staked(), 0);
    assert_eq!(contract.reward_pool, 1_000_000);
    assert_eq!(contract.base_yield, 5);
    assert_eq!(contract.ai_boost, 10);
    assert_eq!(contract.stakes.len(), 0);
}

#[test]
fn a_stake_is_recorded_and_replaced() {
    let mut contract = PiStakingContract::init(5);
    contract.stake(alice(), 1_000, 50);
    assert_eq!(contract.get_stake(alice()), Stake { staker: alice(), amount: 1_000, start_time: 50, rewards_earned: 0 });
    contract.stake(alice(), 300, 70);
    assert_eq!(contract.get_stake(alice()), Stake { staker: alice(), amount: 300, start_time: 70, rewards_earned: 0 });
    assert_eq!(contract.get_total_staked(), 1_300);
}

#[test]
fn unstaking_pays_the_stake_and_its_yield() {
    let mut contract = PiStakingContract::init(5);
    contract.stake(alice(), 1_000_000, 0);
    contract.stake(bob(), 10, 0);
    // 1000000 * 5 * 31536000 / 31536000 = 5000000; * 110 / 100 = 5500000
    assert_eq!(contract.unstake(alice(), 31_536_000), 6_500_000);
    assert_eq!(contract.get_total_staked(), 10);
    assert_eq!(contract.stakes.len(), 1);
    // 10 * 5 * 1000 / 31536000 = 0
    assert_eq!(contract.unstake(bob(), 1_000), 10);
    assert_eq!(contract.get_total_staked(), 0);
}

#[test]
fn unstaking_rounds_each_division_down() {
    let mut contract = PiStakingContract::init(7);
    contract.stake(alice(), 999, 100);
    // 999 * 7 * 15768000 / 31536000 = 3496 (3496.5); 3496 * 110 / 100 = 3845 (3845.6)
    assert_eq!(contract.unstake(alice(), 15_768_100), 999 + 3_845);
}

#[test]
fn distribution_pays_five_percent_where_the_pool_covers_it() {
    let mut contract = PiStakingContract::init(5);
    contract.stake(alice(), 1_000, 0);
    contract.stake(bob(), 30_000_000, 0);
    contract.stake(Address::account(1, 3), 19, 0);
    contract.stake(Address::account(1, 4), 20_000_000, 0);
    assert_eq!(
        contract.distribute_rewards(),
        vec![
            RewardPayout { staker: alice(), amount: 50 },
            RewardPayout { staker: Address::account(1, 3), amount: 0 },
            RewardPayout { staker: Address::account(1, 4), amount: 1_000_000 },
        ]
    );
    // a stake too large for 64-bit products is still measured
    contract.reward_pool = u64::MAX;
    contract.stake(bob(), u64::MAX - 50_001_019, 0);
    assert_eq!(contract.distribute_rewards()[1].amount, (u64::MAX - 50_001_019) / 20);
}

#[test]
fn stable_coin_mints_only_at_the_peg() {
    let mut coin = MegaStablePi::initialize(admin(), 314_159_000);
    assert_eq!(coin.peg, 314_159_000);
    assert_eq!(MegaStablePi::check_mint(314_158), Some(StableError::PegViolated));
    assert_eq!(MegaStablePi::check_mint(314_160), Some(StableError::PegViolated));
    assert_eq!(MegaStablePi::check_mint(314_159), None);
    assert_eq!(coin.get_balance(alice()), 0);
    assert!(coin.proof_of(alice()).is_none());
    coin.mint_stable_pi(alice(), 100, 314_159, vec![1, 2]);
    coin.mint_stable_pi(alice(), 20, 314_159, vec![3]);
    assert_eq!(coin.get_balance(alice()), 120);
    assert_eq!(coin.proof_of(alice()), Some(&vec![3]));
    assert_eq!(coin.get_balance(bob()), 0);
}

#[test]
fn stable_coin_balances_have_room_up_to_the_limit() {
    let mut coin = MegaStablePi::initialize(admin(), 314_159_000);
    coin.mint_stable_pi(alice(), i128::MAX - 5, 314_159, vec![1]);
    assert!(coin.room_for_mint(alice(), 5));
    assert!(!coin.room_for_mint(alice(), 6));
    assert!(coin.room_for_mint(bob(), i128::MAX));
    assert!(coin.room_for_mint(alice(), i128::MIN));
    coin.mint_stable_pi(bob(), 10, 314_159, vec![2]);
    assert!(coin.room_for_transfer(bob(), alice(), 5));
    assert!(!coin.room_for_transfer(bob(), alice(), 6));
    assert!(coin.room_for_transfer(alice(), alice(), i128::MAX - 5));
    assert!(coin.room_for_transfer(alice(), bob(), 1));
    // taking what is far below zero from a balance passes the limit
    assert!(!coin.room_for_transfer(bob(), alice(), i128::MIN));
}

#[test]
fn stable_coin_transfers_between_holders() {
    let mut coin = MegaStablePi::initialize(admin(), 314_159_000);
    coin.mint_stable_pi(alice(), 100, 314_159, vec![1]);
    assert_eq!(coin.check_transfer(alice(), 101, false), Some(StableError::InsufficientBalance));
    assert_eq!(coin.check_transfer(bob(), 1, true), Some(StableError::InsufficientBalance));
    assert_eq!(coin.check_transfer(alice(), 100, false), Some(StableError::FakeDetected));
    assert_eq!(coin.check_transfer(alice(), 100, true), None);
    assert_eq!((coin.get_balance(alice()), coin.get_balance(bob())), (100, 0));
    coin.transfer_stable_pi(alice(), bob(), 30, true);
    assert_eq!((coin.get_balance(alice()), coin.get_balance(bob())), (70, 30));
    assert_eq!(coin.proof_of(alice()), Some(&vec![1]));
    assert!(coin.proof_of(bob()).is_none());
    // to oneself
    coin.transfer_stable_pi(alice(), alice(), 70, true);
    assert_eq!(coin.get_balance(alice()), 70);
}

#[test]
fn the_farm_tells_what_fits() {
    let mut farm = YieldFarming::initialize(admin(), token(), dex(), 7, 1_000);
    farm.stake(alice(), i128::MAX - 10);
    assert!(farm.can_stake(alice(), 10));
    assert!(!farm.can_stake(alice(), 11));
    // the stake of another fits, the total does not
    assert!(!farm.can_stake(bob(), 11));
    assert!(farm.can_stake(bob(), -5));
    assert!(farm.can_unstake(alice(), 1, 2_000, 2_000));
    assert!(!farm.can_unstake(alice(), 1, 2_000, 2_001));
    assert!(!farm.can_unstake(alice(), -11, 2_000, 0));
    assert!(farm.can_unstake(bob(), i128::MAX, 2_000, 0));
    assert!(!farm.can_unstake(bob(), i128::MIN, 2_000, 0));

    let mut farm = YieldFarming::initialize(admin(), token(), dex(), 7, 1_000);
    farm.stake(alice(), 5_000);
    assert!(farm.can_claim(alice(), 4_600, 3));
    assert!(!farm.can_claim(alice(), 999, 3));
    assert!(farm.can_claim(alice(), 1_000, i128::MAX));
    // 5000 * 7 * 3600 / 1000000 = 126
    assert!(farm.can_claim(alice(), 4_600, i128::MAX / 126));
    assert!(!farm.can_claim(alice(), 4_600, i128::MAX / 126 + 1));
    farm.reward_rate = i128::MAX / 5_000;
    assert!(farm.can_claim(alice(), 1_001, 1));
    assert!(!farm.can_claim(alice(), 1_002, 1));
    farm.reward_rate = i128::MAX / 5_000 + 1;
    assert!(!farm.can_claim(alice(), 1_000, 0));
    // nothing staked, nothing to overflow
    assert!(farm.can_claim(bob(), u64::MAX, i128::MIN));
}

#[test]
fn the_staking_contract_tells_what_fits() {
    let mut contract = PiStakingContract::init(5);
    contract.stake(alice(), 1_000_000, 100);
    assert!(contract.can_stake(u64::MAX - 1_000_000));
    assert!(!contract.can_stake(u64::MAX - 999_999));
    assert!(contract.can_unstake(alice(), 100));
    assert!(contract.can_unstake(alice(), 31_536_100));
    assert!(!contract.can_unstake(alice(), 99));
    assert!(!contract.can_unstake(bob(), 100));
    // 1000000 * 5 * d must fit in 64 bits
    let edge = u64::MAX / 5_000_000;
    assert!(contract.can_unstake(alice(), 100 + edge));
    assert!(!contract.can_unstake(alice(), 100 + edge + 1));
    contract.total_staked = 999_999;
    assert!(!contract.can_unstake(alice(), 100));
    contract.total_staked = 1_000_000;
    contract.base_yield = u32::MAX;
    contract.stake(bob(), u64::MAX / 3, 0);
    assert!(!contract.can_unstake(bob(), 0));
    // the boost can overflow where the yearly yield did not
    contract.base_yield = 1;
    contract.ai_boost = u32::MAX;
    contract.stake(bob(), u64::MAX / 31_536_000, 0);
    contract.total_staked = u64::MAX;
    assert!(!contract.can_unstake(bob(), 31_536_000));
    assert!(contract.can_unstake(bob(), 31_536_000 / 200));
}
