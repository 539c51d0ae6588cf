//! Farming rewards on staked liquidity shares.
//!
//! The farm keeps a book of stakes and pays a reward that grows with the
//! stake, the reward rate and the time since rewards were last claimed. The
//! time and the boost of a claim come from the host and are handed in.

use vstd::prelude::*;
use crate::address::Address;
use crate::registry::Registry;

verus! {

/// Seconds that must have passed since the last recorded action before a
/// stake can be withdrawn.
pub const UNSTAKE_LOCK_SECONDS: u64 = 86_400;

/// The divisor that scales `stake * rate * seconds` down to a reward.
pub const REWARD_SCALE: i128 = 1_000_000;

/// Why the farm refused.
#[derive(Clone, Copy, Debug, PartialEq, Eq, Structural)]
pub enum FarmError {
    /// The staker asked for more than is staked.
    InsufficientStake,
    /// The lock on withdrawals has not run out.
    TimeLockActive,
    /// The claimant has nothing staked.
    NoStake,
}

/// A reward to be announced to a recipient.
#[derive(Clone, Copy, Debug, PartialEq, Eq, Structural)]
pub struct RewardNotice {
    pub recipient: Address,
    pub amount: i128,
}

/// The farm.
pub struct YieldFarming {
    pub admin: Address,
    pub reward_token: Address,
    pub dex_contract: Address,
    pub reward_rate: i128,
    pub total_staked: i128,
    pub stakers: Registry<i128>,
    pub last_reward_time: u64,
}

/// The stake of `staker` in `book`; zero for a staker without entry.
pub open spec fn stake_of(book: Map<Address, i128>, staker: Address) -> int {
    if book.dom().contains(staker) {
        book[staker] as int
    } else {
        0
    }
}

/// Division that rounds toward zero, as machine integers divide.
pub open spec fn div_toward_zero(a: int, b: int) -> int
    recommends
        b > 0,
{
    if a >= 0 {
        a / b
    } else {
        -((-a) / b)
    }
}

/// The reward before the boost: `stake * rate * seconds / 1000000`.
pub open spec fn spec_base_reward(stake: int, rate: int, seconds: int) -> int {
    div_toward_zero(stake * rate * seconds, 1_000_000)
}

pub open spec fn fits_i128(v: int) -> bool {
    i128::MIN <= v <= i128::MAX
}

impl YieldFarming {
    /// The book of stakes is consistent.
    pub open spec fn wf(&self) -> bool {
        self.stakers.wf()
    }

    /// Whether `other` differs from `self` in nothing but the stakes, their
    /// total and the time of the last claim.
    pub open spec fn same_setup(&self, other: &YieldFarming) -> bool {
        &&& self.admin == other.admin
        &&& self.reward_token == other.reward_token
        &&& self.dex_contract == other.dex_contract
        &&& self.reward_rate == other.reward_rate
    }

    /// The reward of `staker` at `now`, before the boost.
    pub open spec fn base_reward(&self, staker: Address, now: u64) -> int {
        spec_base_reward(
            stake_of(self.stakers@, staker),
            self.reward_rate as int,
            now - self.last_reward_time,
        )
    }

    /// Whether the reward of `staker` at `now`, boosted by `boost`, can be
    /// computed in 128 bits: the products on the way fit, and so does the
    /// reward.
    pub open spec fn reward_fits(&self, staker: Address, now: u64, boost: i128) -> bool {
        let stake = stake_of(self.stakers@, staker);
        &&& fits_i128(stake * self.reward_rate)
        &&& fits_i128(stake * self.reward_rate * (now - self.last_reward_time))
        &&& fits_i128(self.base_reward(staker, now) * boost)
    }

    /// A farm without stakes, whose reward clock starts at `now`.
    pub fn initialize(
        admin: Address,
        reward_token: Address,
        dex_contract: Address,
        reward_rate: i128,
        now: u64,
    ) -> (farm: YieldFarming)
        ensures
            farm.wf(),
            farm.admin == admin,
            farm.reward_token == reward_token,
            farm.dex_contract == dex_contract,
            farm.reward_rate == reward_rate,
            farm.total_staked == 0,
            farm.stakers@ =~= Map::<Address, i128>::empty(),
            farm.last_reward_time == now,
    {
        YieldFarming {
            admin,
            reward_token,
            dex_contract,
            reward_rate,
            total_staked: 0,
            stakers: Registry::new(),
            last_reward_time: now,
        }
    }

    /// The amount that `staker` has staked.
    pub fn get_stake(&self, staker: Address) -> (amount: i128)
        requires
            self.wf(),
        ensures
            amount == stake_of(self.stakers@, staker),
    {
        match self.stakers.get(staker) {
            Some(amount) => *amount,
            None => 0,
        }
    }

    /// Whether `amount` can be added to the stake of `staker` and to the
    /// total within 128 bits.
    pub fn can_stake(&self, staker: Address, amount: i128) -> (yes: bool)
        requires
            self.wf(),
        ensures
            yes == (fits_i128(stake_of(self.stakers@, staker) + amount) && fits_i128(
                self.total_staked + amount,
            )),
    {
        self.get_stake(staker).checked_add(amount).is_some() && self.total_staked.checked_add(
            amount,
        ).is_some()
    }

    /// Whether `amount` can be taken from the stake of `staker` and from the
    /// total within 128 bits, at a time that is not before the last action.
    pub fn can_unstake(&self, staker: Address, amount: i128, now: u64, last_action: u64) -> (yes:
        bool)
        requires
            self.wf(),
        ensures
            yes == (last_action <= now && fits_i128(stake_of(self.stakers@, staker) - amount)
                && fits_i128(self.total_staked - amount)),
    {
        last_action <= now && self.get_stake(staker).checked_sub(amount).is_some()
            && self.total_staked.checked_sub(amount).is_some()
    }

    /// Whether the reward of `staker` at `now`, boosted by `boost`, can be
    /// computed in 128 bits, at a time that is not before the last claim.
    pub fn can_claim(&self, staker: Address, now: u64, boost: i128) -> (yes: bool)
        requires
            self.wf(),
        ensures
            yes == (self.last_reward_time <= now && self.reward_fits(staker, now, boost)),
    {
        if now < self.last_reward_time {
            return false;
        }
        let elapsed: u64 = now - self.last_reward_time;
        let earned = match self.get_stake(staker).checked_mul(self.reward_rate) {
            Some(v) => v,
            None => {
                return false;
            },
        };
        let scaled = match earned.checked_mul(elapsed as i128) {
            Some(v) => v,
            None => {
                return false;
            },
        };
        (scaled / REWARD_SCALE).checked_mul(boost).is_some()
    }

    /// Adds `amount` to the stake of `staker` and to the total.
    pub fn stake(&mut self, staker: Address, amount: i128)
        requires
            old(self).wf(),
            fits_i128(stake_of(old(self).stakers@, staker) + amount),
            fits_i128(old(self).total_staked + amount),
        ensures
            final(self).wf(),
            final(self).same_setup(old(self)),
            final(self).last_reward_time == old(self).last_reward_time,
            final(self).stakers@ == old(self).stakers@.insert(
                staker,
                (stake_of(old(self).stakers@, staker) + amount) as i128,
            ),
            final(self).total_staked == old(self).total_staked + amount,
    {
        let current = self.get_stake(staker);
        self.stakers.set(staker, current + amount);
        self.total_staked = self.total_staked + amount;
    }

    /// Takes `amount` from the stake of `staker`, once the lock has run out:
    /// `now` must be at least [`UNSTAKE_LOCK_SECONDS`] past `last_action`.
    /// A refusal changes nothing.
    pub fn unstake(&mut self, staker: Address, amount: i128, now: u64, last_action: u64) -> (r:
        Result<(), FarmError>)
        requires
            old(self).wf(),
            last_action <= now,
            fits_i128(stake_of(old(self).stakers@, staker) - amount),
            fits_i128(old(self).total_staked - amount),
        ensures
            final(self).wf(),
            final(self).same_setup(old(self)),
            final(self).last_reward_time == old(self).last_reward_time,
            stake_of(old(self).stakers@, staker) < amount ==> r == Err::<(), FarmError>(
                FarmError::InsufficientStake,
            ),
            stake_of(old(self).stakers@, staker) >= amount && now - last_action
                < UNSTAKE_LOCK_SECONDS ==> r == Err::<(), FarmError>(FarmError::TimeLockActive),
            stake_of(old(self).stakers@, staker) >= amount && now - last_action
                >= UNSTAKE_LOCK_SECONDS ==> r == Ok::<(), FarmError>(()),
            r is Err ==> final(self).stakers@ == old(self).stakers@ && final(self).total_staked
                == old(self).total_staked,
            r is Ok ==> final(self).stakers@ == old(self).stakers@.insert(
                staker,
                (stake_of(old(self).stakers@, staker) - amount) as i128,
            ) && final(self).total_staked == old(self).total_staked - amount,
    {
        let current = self.get_stake(staker);
        if current < amount {
            return Err(FarmError::InsufficientStake);
        }
        if now - last_action < UNSTAKE_LOCK_SECONDS {
            return Err(FarmError::TimeLockActive);
        }
        self.stakers.set(staker, current - amount);
        self.total_staked = self.total_staked - amount;
        Ok(())
    }

    /// Pays `staker` the reward for the time since the last claim, times
    /// `boost`, and restarts the reward clock at `now`. The result is the
    /// amount to transfer.
    pub fn claim_rewards(&mut self, staker: Address, now: u64, boost: i128) -> (r: Result<
        i128,
        FarmError,
    >)
        requires
            old(self).wf(),
            old(self).last_reward_time <= now,
            old(self).reward_fits(staker, now, boost),
        ensures
            final(self).wf(),
            final(self).same_setup(old(self)),
            final(self).stakers@ == old(self).stakers@,
            final(self).total_staked == old(self).total_staked,
            stake_of(old(self).stakers@, staker) == 0 ==> r == Err::<i128, FarmError>(
                FarmError::NoStake,
            ) && final(self).last_reward_time == old(self).last_reward_time,
            stake_of(old(self).stakers@, staker) != 0 ==> {
                &&& r is Ok
                &&& r->Ok_0 == old(self).base_reward(staker, now) * boost
                &&& final(self).last_reward_time == now
            },
    {
        let stake_amount = self.get_stake(staker);
        if stake_amount == 0 {
            return Err(FarmError::NoStake);
        }
        let elapsed: u64 = now - self.last_reward_time;
        let earned: i128 = stake_amount * self.reward_rate;
        let base_reward: i128 = (earned * (elapsed as i128)) / REWARD_SCALE;
        let total_reward: i128 = base_reward * boost;
        self.last_reward_time = now;
        Ok(total_reward)
    }
}

impl YieldFarming {
    /// Pairs every recipient with its amount, in order, for announcement.
    pub fn distribute_pi_rewards(recipients: &Vec<Address>, amounts: &Vec<i128>) -> (notices: Vec<
        RewardNotice,
    >)
        requires
            recipients.len() <= amounts.len(),
        ensures
            notices.len() == recipients.len(),
            forall|i: int|
                0 <= i < recipients.len() ==> #[trigger] notices[i] == (RewardNotice {
                    recipient: recipients[i],
                    amount: amounts[i],
                }),
    {
        let mut notices: Vec<RewardNotice> = Vec::new();
        let mut i: usize = 0;
        while i < recipients.len()
            invariant
                i <= recipients.len(),
                recipients.len() <= amounts.len(),
                notices.len() == i,
                forall|k: int|
                    0 <= k < i ==> #[trigger] notices[k] == (RewardNotice {
                        recipient: recipients[k],
                        amount: amounts[k],
                    }),
            decreases recipients.len() - i,
        {
            notices.push(RewardNotice { recipient: recipients[i], amount: amounts[i] });
            i = i + 1;
        }
        notices
    }
}

} // verus!
