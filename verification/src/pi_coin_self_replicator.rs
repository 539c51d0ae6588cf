//! Replicas of the coin contract and its spread to further chains.
//!
//! A round of replication draws the demand, looks for a failure and reads a
//! coverage score. The draws are made by
//! [`PiCoinSelfReplicator::replicate_and_expand`]; what follows from given
//! draws is [`PiCoinSelfReplicator::record_replication`].

use vstd::prelude::*;
use crate::chain::Chain;
use crate::chance::draw_chance;
use crate::chance::draw_in_range;

verus! {

/// The demand above which a replica is created.
pub const REPLICATION_THRESHOLD: i128 = 75;

/// The chance in a hundred that a round finds a failure.
pub const FAILURE_PERCENT: u32 = 10;

/// The books of the replicator.
pub struct ReplicationData {
    pub replicas_created: u32,
    pub chains_expanded: Vec<Chain>,
    pub self_heal_count: u32,
    pub global_coverage_score: i128,
}

/// The replicator.
pub struct PiCoinSelfReplicator;

/// Whether `after` is what a round makes of `before` when the demand is
/// `demand`, a failure was found or not, and the coverage is `coverage`.
pub open spec fn replicated_as(
    before: ReplicationData,
    after: ReplicationData,
    demand: int,
    failed: bool,
    coverage: i128,
) -> bool {
    &&& after.replicas_created == if demand > REPLICATION_THRESHOLD {
        before.replicas_created + 1
    } else {
        before.replicas_created as int
    }
    &&& after.chains_expanded@ == before.chains_expanded@.push(Chain::Ethereum)
    &&& after.self_heal_count == if failed {
        before.self_heal_count + 1
    } else {
        before.self_heal_count as int
    }
    &&& after.global_coverage_score == coverage
}

/// Whether `after` is what a round makes of `before` with scores within
/// their ranges.
pub open spec fn is_replication(
    before: ReplicationData,
    after: ReplicationData,
    demand: int,
    failed: bool,
    coverage: i128,
) -> bool {
    &&& 70 <= demand < 100
    &&& 80 <= coverage < 100
    &&& replicated_as(before, after, demand, failed, coverage)
}

impl ReplicationData {
    /// A round of replication stays within the counters.
    pub open spec fn has_room(&self) -> bool {
        &&& self.replicas_created < u32::MAX
        &&& self.self_heal_count < u32::MAX
    }
}

impl PiCoinSelfReplicator {
    /// Fresh books: no replica yet, and a good coverage.
    pub fn initialize() -> (data: ReplicationData)
        ensures
            data.replicas_created == 0,
            data.chains_expanded@.len() == 0,
            data.self_heal_count == 0,
            data.global_coverage_score == 70,
    {
        ReplicationData {
            replicas_created: 0,
            chains_expanded: Vec::new(),
            self_heal_count: 0,
            global_coverage_score: 70,
        }
    }

    /// A reading of the demand for replicas, drawn from `70..100`.
    pub fn ai_decide_replication() -> (score: i128)
        ensures
            70 <= score < 100,
    {
        draw_in_range(70, 100)
    }

    /// Whether a replica has failed: true ten times in a hundred.
    pub fn detect_failure() -> bool {
        draw_chance(FAILURE_PERCENT, 100)
    }

    /// A reading of worldwide coverage, drawn from `80..100`.
    pub fn ai_global_coverage() -> (score: i128)
        ensures
            80 <= score < 100,
    {
        draw_in_range(80, 100)
    }

    /// Books one replica.
    pub fn create_replica(data: &mut ReplicationData)
        requires
            old(data).replicas_created < u32::MAX,
        ensures
            final(data).replicas_created == old(data).replicas_created + 1,
            final(data).chains_expanded == old(data).chains_expanded,
            final(data).self_heal_count == old(data).self_heal_count,
            final(data).global_coverage_score == old(data).global_coverage_score,
    {
        data.replicas_created = data.replicas_created + 1;
    }

    /// Books the expansion to Ethereum.
    pub fn expand_to_chains(data: &mut ReplicationData)
        ensures
            final(data).chains_expanded@ == old(data).chains_expanded@.push(Chain::Ethereum),
            final(data).replicas_created == old(data).replicas_created,
            final(data).self_heal_count == old(data).self_heal_count,
            final(data).global_coverage_score == old(data).global_coverage_score,
    {
        data.chains_expanded.push(Chain::Ethereum);
    }

    /// Books one healing.
    pub fn self_heal(data: &mut ReplicationData)
        requires
            old(data).self_heal_count < u32::MAX,
        ensures
            final(data).self_heal_count == old(data).self_heal_count + 1,
            final(data).replicas_created == old(data).replicas_created,
            final(data).chains_expanded == old(data).chains_expanded,
            final(data).global_coverage_score == old(data).global_coverage_score,
    {
        data.self_heal_count = data.self_heal_count + 1;
    }

    /// Books a round: a replica if demand is high, the expansion in any
    /// case, a healing if a failure was found, and the new coverage.
    pub fn record_replication(data: &mut ReplicationData, demand: i128, failed: bool, coverage: i128)
        requires
            demand > REPLICATION_THRESHOLD ==> old(data).replicas_created < u32::MAX,
            failed ==> old(data).self_heal_count < u32::MAX,
        ensures
            replicated_as(*old(data), *final(data), demand as int, failed, coverage),
    {
        if demand > REPLICATION_THRESHOLD {
            Self::create_replica(data);
        }
        Self::expand_to_chains(data);
        if failed {
            Self::self_heal(data);
        }
        data.global_coverage_score = coverage;
    }

    /// Whether a round of replication on `data` stays within the counters.
    pub fn room_for_round(data: &ReplicationData) -> (yes: bool)
        ensures
            yes == data.has_room(),
    {
        data.replicas_created < u32::MAX && data.self_heal_count < u32::MAX
    }

    /// One round of replication: that of
    /// [`PiCoinSelfReplicator::record_replication`] for some demand in
    /// `70..100`, some outcome of the failure check and some coverage in
    /// `80..100`.
    pub fn replicate_and_expand(data: &mut ReplicationData)
        requires
            old(data).has_room(),
        ensures
            exists|demand: int, failed: bool, coverage: i128| #[trigger]
                is_replication(*old(data), *final(data), demand, failed, coverage),
    {
        let demand = Self::ai_decide_replication();
        let failed = Self::detect_failure();
        Self::record_replication(data, demand, failed, Self::ai_global_coverage());
        assert(is_replication(
            *old(data),
            *data,
            demand as int,
            failed,
            data.global_coverage_score,
        ));
    }
}

} // verus!
