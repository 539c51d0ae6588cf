//! Campaigns, bridges and incentives that spread the coin.
//!
//! A round of boosting draws a timing score and a reach score. The draws are
//! made by [`GlobalAdoptionBooster::boost_adoption`]; what follows from given
//! draws is [`GlobalAdoptionBooster::record_boost`].

use vstd::prelude::*;
use crate::chance::draw_in_range;

verus! {

/// The timing score above which a campaign is launched.
pub const CAMPAIGN_THRESHOLD: i128 = 70;

/// What one round pays out in incentives.
pub const INCENTIVE_PER_ROUND: i128 = 10_000;

/// The books of the booster.
#[derive(Clone, Copy, Debug, PartialEq, Eq, Structural)]
pub struct AdoptionData {
    pub campaigns_launched: u32,
    pub bridges_completed: u32,
    pub incentives_distributed: i128,
    pub global_reach_score: i128,
}

/// The booster.
pub struct GlobalAdoptionBooster;

/// The books after a round with the given scores.
pub open spec fn spec_boost(data: AdoptionData, campaign_score: int, reach: i128) -> AdoptionData {
    AdoptionData {
        campaigns_launched: if campaign_score > CAMPAIGN_THRESHOLD {
            (data.campaigns_launched + 1) as u32
        } else {
            data.campaigns_launched
        },
        bridges_completed: (data.bridges_completed + 1) as u32,
        incentives_distributed: (data.incentives_distributed + INCENTIVE_PER_ROUND) as i128,
        global_reach_score: reach,
    }
}

/// Whether `after` is what a round makes of `before` with a timing score and
/// a reach score within their ranges.
pub open spec fn is_boost(before: AdoptionData, after: AdoptionData, campaign_score: int, reach: i128)
    -> bool {
    &&& 60 <= campaign_score < 100
    &&& 80 <= reach < 100
    &&& after == spec_boost(before, campaign_score, reach)
}

impl AdoptionData {
    /// A round of boosting stays within the counters.
    pub open spec fn has_room(&self) -> bool {
        &&& self.campaigns_launched < u32::MAX
        &&& self.bridges_completed < u32::MAX
        &&& self.incentives_distributed + INCENTIVE_PER_ROUND <= i128::MAX
    }
}

impl GlobalAdoptionBooster {
    /// Fresh books: nothing done yet, and a moderate reach.
    pub fn initialize() -> (data: AdoptionData)
        ensures
            data == (AdoptionData {
                campaigns_launched: 0,
                bridges_completed: 0,
                incentives_distributed: 0,
                global_reach_score: 50,
            }),
    {
        AdoptionData {
            campaigns_launched: 0,
            bridges_completed: 0,
            incentives_distributed: 0,
            global_reach_score: 50,
        }
    }

    /// A reading of how good the moment is for a campaign, drawn from
    /// `60..100`.
    pub fn ai_predict_campaign_timing() -> (score: i128)
        ensures
            60 <= score < 100,
    {
        draw_in_range(60, 100)
    }

    /// A reading of worldwide reach, drawn from `80..100`.
    pub fn ai_global_reach() -> (score: i128)
        ensures
            80 <= score < 100,
    {
        draw_in_range(80, 100)
    }

    /// Books one campaign.
    pub fn launch_campaign(data: &mut AdoptionData)
        requires
            old(data).campaigns_launched < u32::MAX,
        ensures
            *final(data) == (AdoptionData {
                campaigns_launched: (old(data).campaigns_launched + 1) as u32,
                ..*old(data)
            }),
    {
        data.campaigns_launched = data.campaigns_launched + 1;
    }

    /// Books one bridge to another chain.
    pub fn bridge_to_other_chains(data: &mut AdoptionData)
        requires
            old(data).bridges_completed < u32::MAX,
        ensures
            *final(data) == (AdoptionData {
                bridges_completed: (old(data).bridges_completed + 1) as u32,
                ..*old(data)
            }),
    {
        data.bridges_completed = data.bridges_completed + 1;
    }

    /// Books the incentives of one round.
    pub fn distribute_incentives(data: &mut AdoptionData)
        requires
            old(data).incentives_distributed + INCENTIVE_PER_ROUND <= i128::MAX,
        ensures
            *final(data) == (AdoptionData {
                incentives_distributed: (old(data).incentives_distributed
                    + INCENTIVE_PER_ROUND) as i128,
                ..*old(data)
            }),
    {
        data.incentives_distributed = data.incentives_distributed + INCENTIVE_PER_ROUND;
    }

    /// Books a round with the given scores: a campaign if the timing is
    /// good, a bridge and the incentives in any case, and the new reach.
    pub fn record_boost(data: &mut AdoptionData, campaign_score: i128, reach: i128)
        requires
            campaign_score > CAMPAIGN_THRESHOLD ==> old(data).campaigns_launched < u32::MAX,
            old(data).bridges_completed < u32::MAX,
            old(data).incentives_distributed + INCENTIVE_PER_ROUND <= i128::MAX,
        ensures
            *final(data) == spec_boost(*old(data), campaign_score as int, reach),
    {
        if campaign_score > CAMPAIGN_THRESHOLD {
            Self::launch_campaign(data);
        }
        Self::bridge_to_other_chains(data);
        Self::distribute_incentives(data);
        data.global_reach_score = reach;
    }

    /// Whether a round of boosting on `data` stays within the counters.
    pub fn room_for_round(data: &AdoptionData) -> (yes: bool)
        ensures
            yes == data.has_room(),
    {
        data.campaigns_launched < u32::MAX && data.bridges_completed < u32::MAX
            && data.incentives_distributed <= i128::MAX - INCENTIVE_PER_ROUND
    }

    /// One round of boosting: that of [`GlobalAdoptionBooster::record_boost`]
    /// for some timing score in `60..100` and some reach in `80..100`.
    pub fn boost_adoption(data: &mut AdoptionData)
        requires
            old(data).has_room(),
        ensures
            exists|campaign_score: int, reach: i128| #[trigger]
                is_boost(*old(data), *final(data), campaign_score, reach),
    {
        let campaign_score = Self::ai_predict_campaign_timing();
        let reach = Self::ai_global_reach();
        Self::record_boost(data, campaign_score, reach);
        assert(is_boost(*old(data), *data, campaign_score as int, reach));
    }
}

} // verus!
