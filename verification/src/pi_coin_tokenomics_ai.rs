//! The allocation of the Pi Coin supply.
//!
//! The supply is allocated in fixed steps to mining, community rewards, the
//! administrator's vesting, peer-to-peer use, liquidity and a reserve. Mining
//! and community rewards stop at their caps.

use vstd::prelude::*;

verus! {

/// The whole supply.
pub const TOTAL_SUPPLY: i128 = 100_000_000_000;

/// The cap on the mining allocation, 40% of the supply.
pub const MINING_CAP: i128 = 40_000_000_000;

/// What one round allocates to mining.
pub const MINING_STEP: i128 = 1_000_000_000;

/// The cap on the community rewards, 20% of the supply.
pub const REWARDS_CAP: i128 = 20_000_000_000;

/// What one round allocates to community rewards.
pub const REWARDS_STEP: i128 = 500_000_000;

/// What one round allocates to peer-to-peer use.
pub const P2P_STEP: i128 = 200_000_000;

/// What one round allocates to liquidity.
pub const LIQUIDITY_STEP: i128 = 50_000_000;

/// What one round adds to the reserve.
pub const RESERVE_STEP: i128 = 100_000_000;

/// What the administrator's allocation unlocks in each of its four years.
pub const VESTING_PER_YEAR: i128 = 2_500_000_000;

/// The demand score above which a round allocates rewards.
pub const DEMAND_THRESHOLD: i128 = 70;

/// The year whose vesting a round unlocks.
pub const CURRENT_YEAR: u32 = 1;

/// What unlocks for the administrator in one year.
#[derive(Clone, Copy, Debug, PartialEq, Eq, Structural)]
pub struct VestingStep {
    pub year: u32,
    pub amount: i128,
}

/// The books of the allocation.
pub struct TokenomicsData {
    pub total_supply: i128,
    pub allocated_mining: i128,
    pub allocated_rewards: i128,
    pub allocated_p2p: i128,
    pub allocated_admin: i128,
    pub allocated_liquidity: i128,
    pub allocated_reserve: i128,
    /// The unlock of each year; the first step of a year counts.
    pub vesting_schedule: Vec<VestingStep>,
}

/// The allocator.
pub struct PiCoinTokenomicsAI;

/// The amount that `schedule` unlocks in `year`, if it names the year.
pub open spec fn spec_unlock(schedule: Seq<VestingStep>, year: u32) -> Option<i128>
    decreases schedule.len(),
{
    if schedule.len() == 0 {
        None
    } else if schedule[0].year == year {
        Some(schedule[0].amount)
    } else {
        spec_unlock(schedule.subrange(1, schedule.len() as int), year)
    }
}

/// The mining allocation after one round: a step more, unless that would
/// pass the cap.
pub open spec fn spec_mining_after(allocated: int) -> int {
    if allocated + MINING_STEP <= MINING_CAP {
        allocated + MINING_STEP
    } else {
        allocated
    }
}

/// The community rewards after one round: a step more, unless that would
/// pass the cap.
pub open spec fn spec_rewards_after(allocated: int) -> int {
    if allocated + REWARDS_STEP <= REWARDS_CAP {
        allocated + REWARDS_STEP
    } else {
        allocated
    }
}

/// The administrator's allocation after one round: the unlock of the current
/// year more, if the schedule names that year.
pub open spec fn spec_admin_after(allocated: int, schedule: Seq<VestingStep>) -> int {
    match spec_unlock(schedule, CURRENT_YEAR) {
        Some(amount) => allocated + amount,
        None => allocated,
    }
}

impl TokenomicsData {
    /// A round of allocation stays within 128 bits.
    pub open spec fn has_room(&self) -> bool {
        &&& self.allocated_mining + MINING_STEP <= i128::MAX
        &&& self.allocated_rewards + REWARDS_STEP <= i128::MAX
        &&& self.allocated_p2p + P2P_STEP <= i128::MAX
        &&& self.allocated_liquidity + LIQUIDITY_STEP <= i128::MAX
        &&& self.allocated_reserve + RESERVE_STEP <= i128::MAX
        &&& i128::MIN <= spec_admin_after(self.allocated_admin as int, self.vesting_schedule@)
            <= i128::MAX
    }

    /// Everything allocated so far.
    pub open spec fn allocated(&self) -> int {
        self.allocated_mining + self.allocated_rewards + self.allocated_p2p + self.allocated_admin
            + self.allocated_liquidity + self.allocated_reserve
    }
}

impl PiCoinTokenomicsAI {
    /// Fresh books: nothing allocated, and the administrator's tenth of the
    /// supply vesting over four years.
    pub fn initialize() -> (data: TokenomicsData)
        ensures
            data.total_supply == TOTAL_SUPPLY,
            data.allocated() == 0,
            data.allocated_mining == 0,
            data.allocated_rewards == 0,
            data.allocated_p2p == 0,
            data.allocated_admin == 0,
            data.allocated_liquidity == 0,
            data.allocated_reserve == 0,
            data.vesting_schedule@ == seq![
                VestingStep { year: 1, amount: VESTING_PER_YEAR },
                VestingStep { year: 2, amount: VESTING_PER_YEAR },
                VestingStep { year: 3, amount: VESTING_PER_YEAR },
                VestingStep { year: 4, amount: VESTING_PER_YEAR },
            ],
    {
        let mut vesting_schedule: Vec<VestingStep> = Vec::new();
        vesting_schedule.push(VestingStep { year: 1, amount: VESTING_PER_YEAR });
        vesting_schedule.push(VestingStep { year: 2, amount: VESTING_PER_YEAR });
        vesting_schedule.push(VestingStep { year: 3, amount: VESTING_PER_YEAR });
        vesting_schedule.push(VestingStep { year: 4, amount: VESTING_PER_YEAR });
        assert(vesting_schedule@ =~= seq![
            VestingStep { year: 1, amount: VESTING_PER_YEAR },
            VestingStep { year: 2, amount: VESTING_PER_YEAR },
            VestingStep { year: 3, amount: VESTING_PER_YEAR },
            VestingStep { year: 4, amount: VESTING_PER_YEAR },
        ]);
        TokenomicsData {
            total_supply: TOTAL_SUPPLY,
            allocated_mining: 0,
            allocated_rewards: 0,
            allocated_p2p: 0,
            allocated_admin: 0,
            allocated_liquidity: 0,
            allocated_reserve: 0,
            vesting_schedule,
        }
    }

    /// The demand for the coin on a scale of a hundred. The analysis is a
    /// fixed reading.
    pub fn ai_analyze_global_demand() -> (score: i128)
        ensures
            score == 80,
    {
        80
    }

    /// The amount that the schedule unlocks in `year`.
    pub fn unlock_for(schedule: &Vec<VestingStep>, year: u32) -> (amount: Option<i128>)
        ensures
            amount == spec_unlock(schedule@, year),
    {
        let mut i: usize = 0;
        assert(schedule@.subrange(0, schedule@.len() as int) =~= schedule@);
        while i < schedule.len()
            invariant
                i <= schedule.len(),
                spec_unlock(schedule@, year) == spec_unlock(
                    schedule@.subrange(i as int, schedule@.len() as int),
                    year,
                ),
            decreases schedule.len() - i,
        {
            let ghost rest = schedule@.subrange(i as int, schedule@.len() as int);
            assert(rest[0] == schedule@[i as int]);
            assert(rest.subrange(1, rest.len() as int) =~= schedule@.subrange(
                i + 1,
                schedule@.len() as int,
            ));
            if schedule[i].year == year {
                return Some(schedule[i].amount);
            }
            i = i + 1;
        }
        None
    }

    /// Allocates a step to mining, up to the cap.
    pub fn allocate_mining_rewards(data: &mut TokenomicsData)
        requires
            old(data).allocated_mining + MINING_STEP <= i128::MAX,
        ensures
            final(data).allocated_mining == spec_mining_after(old(data).allocated_mining as int),
            final(data).total_supply == old(data).total_supply,
            final(data).allocated_rewards == old(data).allocated_rewards,
            final(data).allocated_p2p == old(data).allocated_p2p,
            final(data).allocated_admin == old(data).allocated_admin,
            final(data).allocated_liquidity == old(data).allocated_liquidity,
            final(data).allocated_reserve == old(data).allocated_reserve,
            final(data).vesting_schedule == old(data).vesting_schedule,
    {
        if data.allocated_mining + MINING_STEP <= MINING_CAP {
            data.allocated_mining = data.allocated_mining + MINING_STEP;
        }
    }

    /// Allocates a step to community rewards, up to the cap.
    pub fn allocate_community_rewards(data: &mut TokenomicsData)
        requires
            old(data).allocated_rewards + REWARDS_STEP <= i128::MAX,
        ensures
            final(data).allocated_rewards == spec_rewards_after(old(data).allocated_rewards as int),
            final(data).total_supply == old(data).total_supply,
            final(data).allocated_mining == old(data).allocated_mining,
            final(data).allocated_p2p == old(data).allocated_p2p,
            final(data).allocated_admin == old(data).allocated_admin,
            final(data).allocated_liquidity == old(data).allocated_liquidity,
            final(data).allocated_reserve == old(data).allocated_reserve,
            final(data).vesting_schedule == old(data).vesting_schedule,
    {
        if data.allocated_rewards + REWARDS_STEP <= REWARDS_CAP {
            data.allocated_rewards = data.allocated_rewards + REWARDS_STEP;
        }
    }

    /// Unlocks the administrator's allocation of the current year.
    pub fn allocate_admin_vested(data: &mut TokenomicsData)
        requires
            i128::MIN <= spec_admin_after(
                old(data).allocated_admin as int,
                old(data).vesting_schedule@,
            ) <= i128::MAX,
        ensures
            final(data).allocated_admin == spec_admin_after(
                old(data).allocated_admin as int,
                old(data).vesting_schedule@,
            ),
            final(data).total_supply == old(data).total_supply,
            final(data).allocated_mining == old(data).allocated_mining,
            final(data).allocated_rewards == old(data).allocated_rewards,
            final(data).allocated_p2p == old(data).allocated_p2p,
            final(data).allocated_liquidity == old(data).allocated_liquidity,
            final(data).allocated_reserve == old(data).allocated_reserve,
            final(data).vesting_schedule == old(data).vesting_schedule,
    {
        match Self::unlock_for(&data.vesting_schedule, CURRENT_YEAR) {
            Some(amount) => {
                data.allocated_admin = data.allocated_admin + amount;
            },
            None => {},
        }
    }

    /// Allocates a step each to peer-to-peer use and to liquidity.
    pub fn adjust_p2p_and_liquidity(data: &mut TokenomicsData)
        requires
            old(data).allocated_p2p + P2P_STEP <= i128::MAX,
            old(data).allocated_liquidity + LIQUIDITY_STEP <= i128::MAX,
        ensures
            final(data).allocated_p2p == old(data).allocated_p2p + P2P_STEP,
            final(data).allocated_liquidity == old(data).allocated_liquidity + LIQUIDITY_STEP,
            final(data).total_supply == old(data).total_supply,
            final(data).allocated_mining == old(data).allocated_mining,
            final(data).allocated_rewards == old(data).allocated_rewards,
            final(data).allocated_admin == old(data).allocated_admin,
            final(data).allocated_reserve == old(data).allocated_reserve,
            final(data).vesting_schedule == old(data).vesting_schedule,
    {
        data.allocated_p2p = data.allocated_p2p + P2P_STEP;
        data.allocated_liquidity = data.allocated_liquidity + LIQUIDITY_STEP;
    }

    /// Adds a step to the reserve.
    pub fn enforce_reserve(data: &mut TokenomicsData)
        requires
            old(data).allocated_reserve + RESERVE_STEP <= i128::MAX,
        ensures
            final(data).allocated_reserve == old(data).allocated_reserve + RESERVE_STEP,
            final(data).total_supply == old(data).total_supply,
            final(data).allocated_mining == old(data).allocated_mining,
            final(data).allocated_rewards == old(data).allocated_rewards,
            final(data).allocated_p2p == old(data).allocated_p2p,
            final(data).allocated_admin == old(data).allocated_admin,
            final(data).allocated_liquidity == old(data).allocated_liquidity,
            final(data).vesting_schedule == old(data).vesting_schedule,
    {
        data.allocated_reserve = data.allocated_reserve + RESERVE_STEP;
    }

    /// Whether a round of allocation on `data` stays within 128 bits.
    pub fn room_for_round(data: &TokenomicsData) -> (yes: bool)
        ensures
            yes == data.has_room(),
    {
        let unlock = match Self::unlock_for(&data.vesting_schedule, CURRENT_YEAR) {
            Some(amount) => amount,
            None => 0,
        };
        data.allocated_mining <= i128::MAX - MINING_STEP && data.allocated_rewards <= i128::MAX
            - REWARDS_STEP && data.allocated_p2p <= i128::MAX - P2P_STEP
            && data.allocated_liquidity <= i128::MAX - LIQUIDITY_STEP && data.allocated_reserve
            <= i128::MAX - RESERVE_STEP && data.allocated_admin.checked_add(unlock).is_some()
    }

    /// One round of allocation. While demand is above the threshold, mining,
    /// community rewards and the administrator's vesting each get their
    /// step; peer-to-peer use, liquidity and the reserve get theirs in any
    /// case.
    pub fn manage_tokenomics(data: &mut TokenomicsData)
        requires
            old(data).has_room(),
        ensures
            final(data).allocated_mining == spec_mining_after(old(data).allocated_mining as int),
            final(data).allocated_rewards == spec_rewards_after(old(data).allocated_rewards as int),
            final(data).allocated_admin == spec_admin_after(
                old(data).allocated_admin as int,
                old(data).vesting_schedule@,
            ),
            final(data).allocated_p2p == old(data).allocated_p2p + P2P_STEP,
            final(data).allocated_liquidity == old(data).allocated_liquidity + LIQUIDITY_STEP,
            final(data).allocated_reserve == old(data).allocated_reserve + RESERVE_STEP,
            final(data).total_supply == old(data).total_supply,
            final(data).vesting_schedule == old(data).vesting_schedule,
    {
        let demand_score = Self::ai_analyze_global_demand();
        if demand_score > DEMAND_THRESHOLD {
            Self::allocate_mining_rewards(data);
            Self::allocate_community_rewards(data);
            Self::allocate_admin_vested(data);
        }
        Self::adjust_p2p_and_liquidity(data);
        Self::enforce_reserve(data);
    }
}

} // verus!
