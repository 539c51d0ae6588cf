//! Staking Pi Coin for a yield.
//!
//! A staker locks an amount; on withdrawal the stake is paid back with a
//! reward that grows with the amount, the base yield and the time staked,
//! raised by a fixed boost. The time comes from the host and is handed in.

use vstd::prelude::*;
use crate::address::Address;
use crate::registry::Registry;
use crate::registry::Slot;

verus! {

/// The seconds of a year of 365 days.
pub const SECONDS_PER_YEAR: u64 = 31_536_000;

/// The reward pool that a new contract starts with.
pub const INITIAL_REWARD_POOL: u64 = 1_000_000;

/// The boost on the yield, in percent.
pub const AI_BOOST_PERCENT: u32 = 10;

/// The yearly rate of the periodic distribution, in percent.
pub const DISTRIBUTION_PERCENT: u64 = 5;

/// One stake.
#[derive(Clone, Copy, Debug, PartialEq, Eq, Structural)]
pub struct Stake {
    pub staker: Address,
    pub amount: u64,
    pub start_time: u64,
    pub rewards_earned: u64,
}

/// A payment that the contract asks the coin contract to make.
#[derive(Clone, Copy, Debug, PartialEq, Eq, Structural)]
pub struct RewardPayout {
    pub staker: Address,
    pub amount: u64,
}

/// The staking contract.
pub struct PiStakingContract {
    pub stakes: Registry<Stake>,
    pub total_staked: u64,
    pub reward_pool: u64,
    pub base_yield: u32,
    pub ai_boost: u32,
}

/// The reward for `amount` staked for `duration` seconds:
/// `(amount * base_yield * duration / 31536000) * (100 + ai_boost) / 100`,
/// each division rounded down.
pub open spec fn spec_staking_reward(amount: nat, base_yield: nat, duration: nat, ai_boost: nat)
    -> nat {
    ((amount * base_yield * duration) / 31_536_000) * (100 + ai_boost) / 100
}

/// What the periodic distribution pays on `amount`: five percent, rounded
/// down.
pub open spec fn spec_distribution(amount: nat) -> nat {
    (amount * DISTRIBUTION_PERCENT as nat) / 100
}

/// The payouts of a distribution over `stakes`: one for every stake whose
/// five percent are covered by `reward_pool`, in the order of the stakes.
pub open spec fn spec_payouts(stakes: Seq<Slot<Stake>>, reward_pool: nat) -> Seq<RewardPayout>
    decreases stakes.len(),
{
    if stakes.len() == 0 {
        Seq::empty()
    } else {
        let earlier = spec_payouts(stakes.drop_last(), reward_pool);
        let due = spec_distribution(stakes.last().value.amount as nat);
        if due <= reward_pool {
            earlier.push(RewardPayout { staker: stakes.last().key, amount: due as u64 })
        } else {
            earlier
        }
    }
}

impl PiStakingContract {
    /// The book of stakes is consistent.
    pub open spec fn wf(&self) -> bool {
        self.stakes.wf()
    }

    /// Whether `other` has the yield model and reward pool of `self`.
    pub open spec fn same_terms(&self, other: &PiStakingContract) -> bool {
        &&& self.reward_pool == other.reward_pool
        &&& self.base_yield == other.base_yield
        &&& self.ai_boost == other.ai_boost
    }

    /// The reward that the stake of `staker` has earned at `now`.
    pub open spec fn reward_due(&self, staker: Address, now: u64) -> nat
        recommends
            self.stakes@.dom().contains(staker),
            self.stakes@[staker].start_time <= now,
    {
        spec_staking_reward(
            self.stakes@[staker].amount as nat,
            self.base_yield as nat,
            (now - self.stakes@[staker].start_time) as nat,
            self.ai_boost as nat,
        )
    }

    /// Whether the reward of `staker` at `now` can be computed and paid in
    /// 64 bits: the products on the way fit, and so does the payout.
    pub open spec fn reward_fits(&self, staker: Address, now: u64) -> bool
        recommends
            self.stakes@.dom().contains(staker),
            self.stakes@[staker].start_time <= now,
    {
        let amount = self.stakes@[staker].amount as nat;
        let duration = (now - self.stakes@[staker].start_time) as nat;
        &&& amount * self.base_yield <= u64::MAX
        &&& amount * self.base_yield * duration <= u64::MAX
        &&& ((amount * self.base_yield * duration) / 31_536_000) * (100 + self.ai_boost)
            <= u64::MAX
        &&& amount + self.reward_due(staker, now) <= u64::MAX
    }

    /// A contract without stakes that pays `reward_rate` as its base yield.
    pub fn init(reward_rate: u32) -> (contract: PiStakingContract)
        ensures
            contract.wf(),
            contract.stakes@ =~= Map::<Address, Stake>::empty(),
            contract.total_staked == 0,
            contract.reward_pool == INITIAL_REWARD_POOL,
            contract.base_yield == reward_rate,
            contract.ai_boost == AI_BOOST_PERCENT,
    {
        PiStakingContract {
            stakes: Registry::new(),
            total_staked: 0,
            reward_pool: INITIAL_REWARD_POOL,
            base_yield: reward_rate,
            ai_boost: AI_BOOST_PERCENT,
        }
    }

    /// Whether the total has room for `amount` more.
    pub fn can_stake(&self, amount: u64) -> (yes: bool)
        ensures
            yes == (self.total_staked + amount <= u64::MAX),
    {
        self.total_staked.checked_add(amount).is_some()
    }

    /// Whether the stake of `staker` can be ended at `now`: there is one, it
    /// did not start later, the total covers it, and its reward can be
    /// computed and paid in 64 bits.
    pub fn can_unstake(&self, staker: Address, now: u64) -> (yes: bool)
        requires
            self.wf(),
        ensures
            yes == (self.stakes@.dom().contains(staker) && self.stakes@[staker].start_time <= now
                && self.stakes@[staker].amount <= self.total_staked && self.reward_fits(
                staker,
                now,
            )),
    {
        let stake = match self.stakes.get(staker) {
            Some(stake) => *stake,
            None => {
                return false;
            },
        };
        if stake.start_time > now || stake.amount > self.total_staked {
            return false;
        }
        let duration: u64 = now - stake.start_time;
        let weighted = match stake.amount.checked_mul(self.base_yield as u64) {
            Some(v) => v,
            None => {
                return false;
            },
        };
        let scaled = match weighted.checked_mul(duration) {
            Some(v) => v,
            None => {
                return false;
            },
        };
        let boosted = match (scaled / SECONDS_PER_YEAR).checked_mul(100 + self.ai_boost as u64) {
            Some(v) => v,
            None => {
                return false;
            },
        };
        stake.amount.checked_add(boosted / 100).is_some()
    }

    /// Records a stake of `amount` for `staker`, starting at `now`, in place
    /// of any stake the staker had, and adds the amount to the total.
    pub fn stake(&mut self, staker: Address, amount: u64, now: u64)
        requires
            old(self).wf(),
            old(self).total_staked + amount <= u64::MAX,
        ensures
            final(self).wf(),
            final(self).same_terms(old(self)),
            final(self).stakes@ == old(self).stakes@.insert(
                staker,
                Stake { staker, amount, start_time: now, rewards_earned: 0 },
            ),
            final(self).total_staked == old(self).total_staked + amount,
    {
        self.stakes.set(staker, Stake { staker, amount, start_time: now, rewards_earned: 0 });
        self.total_staked = self.total_staked + amount;
    }

    /// Ends the stake of `staker` at `now` and returns what is owed: the
    /// stake and its reward. The stake leaves the book and the total.
    pub fn unstake(&mut self, staker: Address, now: u64) -> (payout: u64)
        requires
            old(self).wf(),
            old(self).stakes@.dom().contains(staker),
            old(self).stakes@[staker].start_time <= now,
            old(self).stakes@[staker].amount <= old(self).total_staked,
            old(self).reward_fits(staker, now),
        ensures
            final(self).wf(),
            final(self).same_terms(old(self)),
            payout == old(self).stakes@[staker].amount + old(self).reward_due(staker, now),
            final(self).stakes@ == old(self).stakes@.remove(staker),
            final(self).total_staked == old(self).total_staked - old(self).stakes@[staker].amount,
    {
        let stake = match self.stakes.remove(staker) {
            Some(stake) => stake,
            None => Stake { staker, amount: 0, start_time: now, rewards_earned: 0 },
        };
        let duration: u64 = now - stake.start_time;
        let weighted: u64 = stake.amount * (self.base_yield as u64);
        let yearly: u64 = (weighted * duration) / SECONDS_PER_YEAR;
        let rewards: u64 = (yearly * (100 + self.ai_boost as u64)) / 100;
        self.total_staked = self.total_staked - stake.amount;
        stake.amount + rewards
    }

    /// The payments of a periodic distribution: five percent of every stake
    /// that the reward pool covers. Nothing is written: the payments are for
    /// the caller to make.
    pub fn distribute_rewards(&self) -> (payouts: Vec<RewardPayout>)
        requires
            self.wf(),
        ensures
            payouts@ == spec_payouts(self.stakes.listing(), self.reward_pool as nat),
    {
        let mut payouts: Vec<RewardPayout> = Vec::new();
        let mut i: usize = 0;
        while i < self.stakes.len()
            invariant
                i <= self.stakes.listing().len(),
                payouts@ == spec_payouts(
                    self.stakes.listing().take(i as int),
                    self.reward_pool as nat,
                ),
            decreases self.stakes.listing().len() - i,
        {
            let slot = self.stakes.slot(i);
            let due: u128 = (slot.value.amount as u128 * DISTRIBUTION_PERCENT as u128) / 100;
            proof {
                assert(self.stakes.listing().take(i + 1).drop_last() =~= self.stakes.listing().take(
                    i as int,
                ));
            }
            if due <= self.reward_pool as u128 {
                payouts.push(RewardPayout { staker: slot.key, amount: due as u64 });
            }
            i = i + 1;
        }
        assert(self.stakes.listing().take(i as int) =~= self.stakes.listing());
        payouts
    }

    /// The stake of `staker`.
    pub fn get_stake(&self, staker: Address) -> (stake: Stake)
        requires
            self.wf(),
            self.stakes@.dom().contains(staker),
        ensures
            stake == self.stakes@[staker],
    {
        match self.stakes.get(staker) {
            Some(stake) => *stake,
            None => Stake { staker, amount: 0, start_time: 0, rewards_earned: 0 },
        }
    }

    /// The amount staked in total.
    pub fn get_total_staked(&self) -> (total: u64)
        ensures
            total == self.total_staked,
    {
        self.total_staked
    }
}

} // verus!
