//! The orchestration of the other systems.
//!
//! A round of enforcement looks for a failure and reads a success score. The
//! draws are made by [`PiCoinUltimateEnforcer::enforce_ultimate_success`];
//! what follows from given draws is
//! [`PiCoinUltimateEnforcer::record_enforcement`].

use vstd::prelude::*;
use crate::chance::draw_chance;
use crate::chance::draw_in_range;

verus! {

/// The chance in a hundred that a round finds a failure.
pub const FAILURE_PERCENT: u32 = 5;

/// The books of the enforcer.
#[derive(Clone, Copy, Debug, PartialEq, Eq, Structural)]
pub struct EnforcerData {
    pub systems_orchestrated: u32,
    pub failures_recovered: u32,
    pub ultimate_success_score: i128,
}

/// The enforcer.
pub struct PiCoinUltimateEnforcer;

/// The books after a round that found a failure or not and read `score`.
pub open spec fn spec_enforcement(data: EnforcerData, failed: bool, score: i128) -> EnforcerData {
    EnforcerData {
        systems_orchestrated: (data.systems_orchestrated + 1) as u32,
        failures_recovered: if failed {
            (data.failures_recovered + 1) as u32
        } else {
            data.failures_recovered
        },
        ultimate_success_score: score,
    }
}

/// Whether `after` is what a round makes of `before` with a success score
/// within its range.
pub open spec fn is_enforcement(before: EnforcerData, after: EnforcerData, failed: bool, score: i128)
    -> bool {
    &&& 95 <= score < 100
    &&& after == spec_enforcement(before, failed, score)
}

impl EnforcerData {
    /// A round of enforcement stays within the counters.
    pub open spec fn has_room(&self) -> bool {
        &&& self.systems_orchestrated < u32::MAX
        &&& self.failures_recovered < u32::MAX
    }
}

impl PiCoinUltimateEnforcer {
    /// Fresh books: nothing orchestrated yet, and a high score.
    pub fn initialize() -> (data: EnforcerData)
        ensures
            data == (EnforcerData {
                systems_orchestrated: 0,
                failures_recovered: 0,
                ultimate_success_score: 90,
            }),
    {
        EnforcerData { systems_orchestrated: 0, failures_recovered: 0, ultimate_success_score: 90 }
    }

    /// Whether a system has failed: true five times in a hundred.
    pub fn detect_system_failure() -> bool {
        draw_chance(FAILURE_PERCENT, 100)
    }

    /// A reading of overall success, drawn from `95..100`.
    pub fn ai_ultimate_success() -> (score: i128)
        ensures
            95 <= score < 100,
    {
        draw_in_range(95, 100)
    }

    /// Books one recovery.
    pub fn recover_failures(data: &mut EnforcerData)
        requires
            old(data).failures_recovered < u32::MAX,
        ensures
            *final(data) == (EnforcerData {
                failures_recovered: (old(data).failures_recovered + 1) as u32,
                ..*old(data)
            }),
    {
        data.failures_recovered = data.failures_recovered + 1;
    }

    /// Books a round: a recovery if a failure was found, the new score, and
    /// one more orchestration.
    pub fn record_enforcement(data: &mut EnforcerData, failed: bool, score: i128)
        requires
            old(data).systems_orchestrated < u32::MAX,
            failed ==> old(data).failures_recovered < u32::MAX,
        ensures
            *final(data) == spec_enforcement(*old(data), failed, score),
    {
        if failed {
            Self::recover_failures(data);
        }
        data.ultimate_success_score = score;
        data.systems_orchestrated = data.systems_orchestrated + 1;
    }

    /// Whether a round of enforcement on `data` stays within the counters.
    pub fn room_for_round(data: &EnforcerData) -> (yes: bool)
        ensures
            yes == data.has_room(),
    {
        data.systems_orchestrated < u32::MAX && data.failures_recovered < u32::MAX
    }

    /// One round of enforcement: that of
    /// [`PiCoinUltimateEnforcer::record_enforcement`] for some outcome of the
    /// failure check and some score in `95..100`.
    pub fn enforce_ultimate_success(data: &mut EnforcerData)
        requires
            old(data).has_room(),
        ensures
            exists|failed: bool, score: i128| #[trigger]
                is_enforcement(*old(data), *final(data), failed, score),
    {
        let failed = Self::detect_system_failure();
        let score = Self::ai_ultimate_success();
        Self::record_enforcement(data, failed, score);
        assert(is_enforcement(*old(data), *data, failed, score));
    }
}

} // verus!
