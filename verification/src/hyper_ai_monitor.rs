//! A monitor that scores anomalies and keeps the peg checked.
//!
//! A round of monitoring draws an outside threat level and a reading of
//! market sentiment, and books what follows from them. The draws are made by
//! [`HyperAIMonitor::monitor_and_enforce`]; what follows from given draws is
//! [`HyperAIMonitor::record_round`], which is verified for every draw.

use vstd::prelude::*;
use crate::chance::draw_in_range;

verus! {

/// The price that one coin is pegged to, in millionths of a dollar.
pub const PEG_TARGET: i128 = 314_159_000_000;

/// How far the price may stray from the peg before it is adjusted.
pub const PEG_TOLERANCE: i128 = 1_000;

/// The anomaly score above which the system heals itself.
pub const ANOMALY_THRESHOLD: i128 = 50;

/// The consensus score below which adoption is boosted.
pub const CONSENSUS_THRESHOLD: i128 = 90;

/// The volume of transactions that the monitor reads.
pub const TRANSACTION_VOLUME: i128 = 1_000_000;

/// The integrity of provenance that the monitor reads, in percent.
pub const PROVENANCE_INTEGRITY: i128 = 95;

/// The books of the monitor.
#[derive(Clone, Copy, Debug, PartialEq, Eq, Structural)]
pub struct AIMonitorData {
    pub last_peg_check: u64,
    pub anomaly_count: u32,
    pub self_heal_attempts: u32,
    pub global_consensus_score: i128,
}

/// What a round of monitoring asks the caller to do.
#[derive(Clone, Copy, Debug, PartialEq, Eq, Structural)]
pub struct MonitorActions {
    /// An anomaly was found and the system healed.
    pub healed: bool,
    /// The price strayed from the peg and is to be adjusted.
    pub adjust_peg: bool,
    /// Consensus is weak and adoption is to be boosted.
    pub boost_adoption: bool,
}

/// The monitor.
pub struct HyperAIMonitor;

/// The last decimal digit of `volume`, with the sign of `volume`.
pub open spec fn last_digit(volume: int) -> int {
    if volume >= 0 {
        volume % 10
    } else {
        -((-volume) % 10)
    }
}

/// The sum that the anomaly score caps: the lack of integrity, the outside
/// threat and the last digit of the volume.
pub open spec fn spec_raw_score(volume: int, integrity: int, threat: int) -> int {
    (100 - integrity) + threat + last_digit(volume)
}

/// The anomaly score: the lack of integrity, the outside threat and the last
/// digit of the volume, capped at a hundred.
pub open spec fn spec_anomaly_score(volume: int, integrity: int, threat: int) -> int {
    let raw = spec_raw_score(volume, integrity, threat);
    if raw <= 100 {
        raw
    } else {
        100
    }
}

/// Whether `price` is further from the peg than the tolerance.
pub open spec fn spec_off_peg(price: int) -> bool {
    price - PEG_TARGET > PEG_TOLERANCE || PEG_TARGET - price > PEG_TOLERANCE
}

/// The books after a round with the given readings.
pub open spec fn spec_round(data: AIMonitorData, anomaly_score: int, consensus: i128, now: u64)
    -> AIMonitorData {
    AIMonitorData {
        last_peg_check: now,
        anomaly_count: if anomaly_score > ANOMALY_THRESHOLD {
            (data.anomaly_count + 1) as u32
        } else {
            data.anomaly_count
        },
        self_heal_attempts: if anomaly_score > ANOMALY_THRESHOLD {
            (data.self_heal_attempts + 1) as u32
        } else {
            data.self_heal_attempts
        },
        global_consensus_score: consensus,
    }
}

/// What a round with the given readings asks for.
pub open spec fn spec_actions(anomaly_score: int, price: int, consensus: int) -> MonitorActions {
    MonitorActions {
        healed: anomaly_score > ANOMALY_THRESHOLD,
        adjust_peg: spec_off_peg(price),
        boost_adoption: consensus < CONSENSUS_THRESHOLD,
    }
}

/// Whether `after` and `actions` are the outcome of a round at `now` that
/// started from `before`, met the threat level `threat` and read the
/// consensus `consensus`, both within their ranges.
pub open spec fn is_round(
    before: AIMonitorData,
    after: AIMonitorData,
    actions: MonitorActions,
    now: u64,
    threat: int,
    consensus: i128,
) -> bool {
    let score = spec_anomaly_score(TRANSACTION_VOLUME as int, PROVENANCE_INTEGRITY as int, threat);
    &&& 0 <= threat < 100
    &&& 80 <= consensus < 100
    &&& after == spec_round(before, score, consensus, now)
    &&& actions == spec_actions(score, PEG_TARGET as int, consensus as int)
}

impl AIMonitorData {
    /// A round of monitoring stays within the counters.
    pub open spec fn has_room(&self) -> bool {
        &&& self.anomaly_count < u32::MAX
        &&& self.self_heal_attempts < u32::MAX
    }
}

impl HyperAIMonitor {
    /// Fresh books: nothing found yet, and full consensus.
    pub fn initialize(now: u64) -> (data: AIMonitorData)
        ensures
            data == (AIMonitorData {
                last_peg_check: now,
                anomaly_count: 0,
                self_heal_attempts: 0,
                global_consensus_score: 100,
            }),
    {
        AIMonitorData {
            last_peg_check: now,
            anomaly_count: 0,
            self_heal_attempts: 0,
            global_consensus_score: 100,
        }
    }

    /// The anomaly score of the given readings, which must add up within
    /// 128 bits.
    pub fn anomaly_score(volume: i128, integrity: i128, threat: i128) -> (score: i128)
        requires
            i128::MIN <= 100 - integrity <= i128::MAX,
            i128::MIN <= (100 - integrity) + threat <= i128::MAX,
            i128::MIN <= spec_raw_score(volume as int, integrity as int, threat as int)
                <= i128::MAX,
        ensures
            score == spec_anomaly_score(volume as int, integrity as int, threat as int),
    {
        let raw: i128 = (100 - integrity) + threat + volume % 10;
        if raw <= 100 {
            raw
        } else {
            100
        }
    }

    /// Scores the anomalies of the moment. The outside threat is drawn from
    /// `0..100`, so the score may differ from call to call; it is the score
    /// of the monitor's readings for some threat in that range.
    pub fn ai_detect_anomalies() -> (score: i128)
        ensures
            exists|threat: int|
                0 <= threat < 100 && score == spec_anomaly_score(
                    TRANSACTION_VOLUME as int,
                    PROVENANCE_INTEGRITY as int,
                    threat,
                ),
    {
        let threat = draw_in_range(0, 100);
        Self::anomaly_score(TRANSACTION_VOLUME, PROVENANCE_INTEGRITY, threat)
    }

    /// Books one healing attempt.
    pub fn self_heal_system(data: &mut AIMonitorData)
        requires
            old(data).self_heal_attempts < u32::MAX,
        ensures
            *final(data) == (AIMonitorData {
                self_heal_attempts: (old(data).self_heal_attempts + 1) as u32,
                ..*old(data)
            }),
    {
        data.self_heal_attempts = data.self_heal_attempts + 1;
    }

    /// Whether `price` has strayed from the peg by more than the tolerance,
    /// so that it must be adjusted.
    pub fn enforce_peg_stability(price: i128) -> (adjust: bool)
        ensures
            adjust == spec_off_peg(price as int),
    {
        price > PEG_TARGET + PEG_TOLERANCE || price < PEG_TARGET - PEG_TOLERANCE
    }

    /// A reading of market sentiment, drawn from `80..100`.
    pub fn ai_global_consensus() -> (score: i128)
        ensures
            80 <= score < 100,
    {
        draw_in_range(80, 100)
    }

    /// Books a round of monitoring with the given readings and says what it
    /// asks for.
    pub fn record_round(
        data: &mut AIMonitorData,
        anomaly_score: i128,
        price: i128,
        consensus: i128,
        now: u64,
    ) -> (actions: MonitorActions)
        requires
            anomaly_score > ANOMALY_THRESHOLD ==> old(data).anomaly_count < u32::MAX,
            anomaly_score > ANOMALY_THRESHOLD ==> old(data).self_heal_attempts < u32::MAX,
        ensures
            *final(data) == spec_round(*old(data), anomaly_score as int, consensus, now),
            actions == spec_actions(anomaly_score as int, price as int, consensus as int),
    {
        let healed = anomaly_score > ANOMALY_THRESHOLD;
        if healed {
            data.anomaly_count = data.anomaly_count + 1;
            Self::self_heal_system(data);
        }
        let adjust_peg = Self::enforce_peg_stability(price);
        data.global_consensus_score = consensus;
        data.last_peg_check = now;
        MonitorActions { healed, adjust_peg, boost_adoption: consensus < CONSENSUS_THRESHOLD }
    }

    /// Whether a round of monitoring on `data` stays within the counters.
    pub fn room_for_round(data: &AIMonitorData) -> (yes: bool)
        ensures
            yes == data.has_room(),
    {
        data.anomaly_count < u32::MAX && data.self_heal_attempts < u32::MAX
    }

    /// One round of monitoring at time `now`: scores the anomalies, heals if
    /// the score is high, checks the price read from the oracle against the
    /// peg, and reads the consensus. The round is that of
    /// [`HyperAIMonitor::record_round`] for some threat in `0..100` and some
    /// consensus in `80..100`.
    pub fn monitor_and_enforce(data: &mut AIMonitorData, now: u64) -> (actions: MonitorActions)
        requires
            old(data).has_room(),
        ensures
            exists|threat: int, consensus: i128| #[trigger]
                is_round(*old(data), *final(data), actions, now, threat, consensus),
    {
        let anomaly_score = Self::ai_detect_anomalies();
        let consensus = Self::ai_global_consensus();
        let actions = Self::record_round(data, anomaly_score, PEG_TARGET, consensus, now);
        proof {
            let threat = choose|threat: int|
                0 <= threat < 100 && anomaly_score == spec_anomaly_score(
                    TRANSACTION_VOLUME as int,
                    PROVENANCE_INTEGRITY as int,
                    threat,
                );
            assert(is_round(*old(data), *data, actions, now, threat, consensus));
        }
        actions
    }
}

} // verus!
