//! The launch of the coin's components onto its chains.
//!
//! A round of deployment draws the health of the network, checks the
//! deployment and reads a success score. The draws are made by
//! [`PiCoinFinalDeployer::deploy_globally`]; what follows from given draws
//! is [`PiCoinFinalDeployer::record_deployment`].

use vstd::prelude::*;
use crate::chain::Chain;
use crate::chance::draw_chance;
use crate::chance::draw_in_range;

verus! {

/// The network health above which components are deployed.
pub const DEPLOY_THRESHOLD: i128 = 80;

/// The components of the ecosystem, deployed together.
pub const COMPONENTS_PER_ROUND: u32 = 5;

/// The chance in a hundred that a deployment checks out.
pub const VERIFIED_PERCENT: u32 = 95;

/// The books of the deployer.
pub struct DeployData {
    pub components_deployed: u32,
    pub chains_launched: Vec<Chain>,
    pub deployment_success_score: i128,
    pub recovery_attempts: u32,
}

/// The deployer.
pub struct PiCoinFinalDeployer;

/// Whether `after` is what a round makes of `before` when the network health
/// is `deploy_score`, the check ends in `verified` and the success score is
/// `success`.
pub open spec fn deployed_as(
    before: DeployData,
    after: DeployData,
    deploy_score: int,
    verified: bool,
    success: i128,
) -> bool {
    &&& after.components_deployed == if deploy_score > DEPLOY_THRESHOLD {
        before.components_deployed + COMPONENTS_PER_ROUND
    } else {
        before.components_deployed as int
    }
    &&& after.chains_launched@ == if deploy_score > DEPLOY_THRESHOLD {
        before.chains_launched@.push(Chain::Stellar).push(Chain::Ethereum)
    } else {
        before.chains_launched@
    }
    &&& after.recovery_attempts == if verified {
        before.recovery_attempts as int
    } else {
        before.recovery_attempts + 1
    }
    &&& after.deployment_success_score == success
}

/// Whether `after` is what a round makes of `before` with scores within
/// their ranges.
pub open spec fn is_deployment(
    before: DeployData,
    after: DeployData,
    deploy_score: int,
    verified: bool,
    success: i128,
) -> bool {
    &&& 75 <= deploy_score < 100
    &&& 90 <= success < 100
    &&& deployed_as(before, after, deploy_score, verified, success)
}

impl DeployData {
    /// A round of deployment stays within the counters.
    pub open spec fn has_room(&self) -> bool {
        &&& self.components_deployed + COMPONENTS_PER_ROUND <= u32::MAX
        &&& self.recovery_attempts < u32::MAX
    }
}

impl PiCoinFinalDeployer {
    /// Fresh books: nothing deployed, and a high score.
    pub fn initialize() -> (data: DeployData)
        ensures
            data.components_deployed == 0,
            data.chains_launched@.len() == 0,
            data.deployment_success_score == 85,
            data.recovery_attempts == 0,
    {
        DeployData {
            components_deployed: 0,
            chains_launched: Vec::new(),
            deployment_success_score: 85,
            recovery_attempts: 0,
        }
    }

    /// A reading of the network's health, drawn from `75..100`.
    pub fn ai_decide_deployment() -> (score: i128)
        ensures
            75 <= score < 100,
    {
        draw_in_range(75, 100)
    }

    /// Whether the deployment checks out: true ninety-five times in a
    /// hundred.
    pub fn verify_deployment() -> bool {
        draw_chance(VERIFIED_PERCENT, 100)
    }

    /// A reading of the deployment's success, drawn from `90..100`.
    pub fn ai_deployment_success() -> (score: i128)
        ensures
            90 <= score < 100,
    {
        draw_in_range(90, 100)
    }

    /// Books the deployment of all components.
    pub fn deploy_components(data: &mut DeployData)
        requires
            old(data).components_deployed + COMPONENTS_PER_ROUND <= u32::MAX,
        ensures
            final(data).components_deployed == old(data).components_deployed
                + COMPONENTS_PER_ROUND,
            final(data).chains_launched == old(data).chains_launched,
            final(data).deployment_success_score == old(data).deployment_success_score,
            final(data).recovery_attempts == old(data).recovery_attempts,
    {
        data.components_deployed = data.components_deployed + COMPONENTS_PER_ROUND;
    }

    /// Books the launch on Stellar and on Ethereum, in this order.
    pub fn launch_to_chains(data: &mut DeployData)
        ensures
            final(data).chains_launched@ == old(data).chains_launched@.push(Chain::Stellar).push(
                Chain::Ethereum,
            ),
            final(data).components_deployed == old(data).components_deployed,
            final(data).deployment_success_score == old(data).deployment_success_score,
            final(data).recovery_attempts == old(data).recovery_attempts,
    {
        data.chains_launched.push(Chain::Stellar);
        data.chains_launched.push(Chain::Ethereum);
    }

    /// Books one recovery.
    pub fn recover_deployment(data: &mut DeployData)
        requires
            old(data).recovery_attempts < u32::MAX,
        ensures
            final(data).recovery_attempts == old(data).recovery_attempts + 1,
            final(data).components_deployed == old(data).components_deployed,
            final(data).chains_launched == old(data).chains_launched,
            final(data).deployment_success_score == old(data).deployment_success_score,
    {
        data.recovery_attempts = data.recovery_attempts + 1;
    }

    /// Books a round: components and chains if the network is healthy, a
    /// recovery if the check failed, and the new score.
    pub fn record_deployment(data: &mut DeployData, deploy_score: i128, verified: bool, success: i128)
        requires
            deploy_score > DEPLOY_THRESHOLD ==> old(data).components_deployed
                + COMPONENTS_PER_ROUND <= u32::MAX,
            !verified ==> old(data).recovery_attempts < u32::MAX,
        ensures
            deployed_as(*old(data), *final(data), deploy_score as int, verified, success),
    {
        if deploy_score > DEPLOY_THRESHOLD {
            Self::deploy_components(data);
            Self::launch_to_chains(data);
        }
        if !verified {
            Self::recover_deployment(data);
        }
        data.deployment_success_score = success;
    }

    /// Whether a round of deployment on `data` stays within the counters.
    pub fn room_for_round(data: &DeployData) -> (yes: bool)
        ensures
            yes == data.has_room(),
    {
        data.components_deployed <= u32::MAX - COMPONENTS_PER_ROUND && data.recovery_attempts
            < u32::MAX
    }

    /// One round of deployment: that of
    /// [`PiCoinFinalDeployer::record_deployment`] for some network health in
    /// `75..100`, some outcome of the check and some score in `90..100`.
    pub fn deploy_globally(data: &mut DeployData)
        requires
            old(data).has_room(),
        ensures
            exists|deploy_score: int, verified: bool, success: i128| #[trigger]
                is_deployment(*old(data), *final(data), deploy_score, verified, success),
    {
        let deploy_score = Self::ai_decide_deployment();
        let verified = Self::verify_deployment();
        Self::record_deployment(data, deploy_score, verified, Self::ai_deployment_success());
        assert(is_deployment(
            *old(data),
            *data,
            deploy_score as int,
            verified,
            data.deployment_success_score,
        ));
    }
}

} // verus!
