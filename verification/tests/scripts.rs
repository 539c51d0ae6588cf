use pi_contracts::chain::Chain;
use pi_contracts::global_adoption_booster::{AdoptionData, GlobalAdoptionBooster};
use pi_contracts::hyper_ai_monitor::{AIMonitorData, HyperAIMonitor, MonitorActions};
use pi_contracts::pi_coin_final_deployer::{DeployData, PiCoinFinalDeployer};
use pi_contracts::pi_coin_self_replicator::{PiCoinSelfReplicator, ReplicationData};
use pi_contracts::pi_coin_tokenomics_ai::{PiCoinTokenomicsAI, VestingStep};
use pi_contracts::pi_coin_ultimate_enforcer::{EnforcerData, PiCoinUltimateEnforcer};

#[test]
fn chains_have_names() {
    assert_eq!(Chain::Stellar.name(), "Stellar");
    assert_eq!(Chain::Ethereum.name(), "Ethereum");
}

#[test]
fn tokenomics_start_empty_with_four_years_of_vesting() {
    let data = PiCoinTokenomicsAI::initialize();
    assert_eq!(data.total_supply, 100_000_000_000);
    assert_eq!(
        (data.allocated_mining, data.allocated_rewards, data.allocated_p2p),
        (0, 0, 0)
    );
    assert_eq!((data.allocated_admin, data.allocated_liquidity, data.allocated_reserve), (0, 0, 0));
    assert_eq!(
        data.vesting_schedule,
        vec![
            VestingStep { year: 1, amount: 2_500_000_000 },
            VestingStep { year: 2, amount: 2_500_000_000 },
            VestingStep { year: 3, amount: 2_500_000_000 },
            VestingStep { year: 4, amount: 2_500_000_000 },
        ]
    );
}

#[test]
fn a_round_of_tokenomics_allocates_every_step() {
    let mut data = PiCoinTokenomicsAI::initialize();
    PiCoinTokenomicsAI::manage_tokenomics(&mut data);
    assert_eq!(data.allocated_mining, 1_000_000_000);
    assert_eq!(data.allocated_rewards, 500_000_000);
    assert_eq!(data.allocated_admin, 2_500_000_000);
    assert_eq!(data.allocated_p2p, 200_000_000);
    assert_eq!(data.allocated_liquidity, 50_000_000);
    assert_eq!(data.allocated_reserve, 100_000_000);
    assert_eq!(data.total_supply, 100_000_000_000);
}

#[test]
fn mining_and_rewards_stop_at_their_caps() {
    let mut data = PiCoinTokenomicsAI::initialize();
    for _ in 0..45 {
        PiCoinTokenomicsAI::manage_tokenomics(&mut data);
    }
    assert_eq!(data.allocated_mining, 40_000_000_000);
    assert_eq!(data.allocated_rewards, 20_000_000_000);
    assert_eq!(data.allocated_admin, 45 * 2_500_000_000);
    assert_eq!(data.allocated_p2p, 45 * 200_000_000);
    assert_eq!(data.allocated_reserve, 45 * 100_000_000);

    data.allocated_mining = 39_000_000_001;
    PiCoinTokenomicsAI::allocate_mining_rewards(&mut data);
    assert_eq!(data.allocated_mining, 39_000_000_001);
    data.allocated_rewards = 19_500_000_000;
    PiCoinTokenomicsAI::allocate_community_rewards(&mut data);
    assert_eq!(data.allocated_rewards, 20_000_000_000);
}

#[test]
fn vesting_follows_the_schedule() {
    let mut data = PiCoinTokenomicsAI::initialize();
    assert_eq!(PiCoinTokenomicsAI::unlock_for(&data.vesting_schedule, 3), Some(2_500_000_000));
    assert_eq!(PiCoinTokenomicsAI::unlock_for(&data.vesting_schedule, 5), None);
    data.vesting_schedule = vec![VestingStep { year: 2, amount: 9 }];
    PiCoinTokenomicsAI::allocate_admin_vested(&mut data);
    assert_eq!(data.allocated_admin, 0);
    data.vesting_schedule =
        vec![VestingStep { year: 2, amount: 9 }, VestingStep { year: 1, amount: 7 }, VestingStep { year: 1, amount: 8 }];
    PiCoinTokenomicsAI::allocate_admin_vested(&mut data);
    assert_eq!(data.allocated_admin, 7);
    assert_eq!(PiCoinTokenomicsAI::ai_analyze_global_demand(), 80);
}

#[test]
fn the_steps_of_tokenomics_touch_only_their_books() {
    let mut data = PiCoinTokenomicsAI::initialize();
    PiCoinTokenomicsAI::adjust_p2p_and_liquidity(&mut data);
    PiCoinTokenomicsAI::enforce_reserve(&mut data);
    assert_eq!((data.allocated_p2p, data.allocated_liquidity, data.allocated_reserve), (200_000_000, 50_000_000, 100_000_000));
    assert_eq!((data.allocated_mining, data.allocated_rewards, data.allocated_admin), (0, 0, 0));
}

#[test]
fn the_anomaly_score_is_capped() {
    assert_eq!(HyperAIMonitor::anomaly_score(1_000_000, 95, 0), 5);
    assert_eq!(HyperAIMonitor::anomaly_score(1_000_007, 95, 40), 52);
    assert_eq!(HyperAIMonitor::anomaly_score(1_000_000, 95, 99), 100);
    assert_eq!(HyperAIMonitor::anomaly_score(9, 0, 100), 100);
    // readings below zero count with their sign
    assert_eq!(HyperAIMonitor::anomaly_score(-7, 95, 40), 38);
    assert_eq!(HyperAIMonitor::anomaly_score(-30, 200, -5), -105);
}

#[test]
fn the_peg_has_a_tolerance() {
    assert!(!HyperAIMonitor::enforce_peg_stability(314_159_000_000));
    assert!(!HyperAIMonitor::enforce_peg_stability(314_159_001_000));
    assert!(HyperAIMonitor::enforce_peg_stability(314_159_001_001));
    assert!(!HyperAIMonitor::enforce_peg_stability(314_158_999_000));
    assert!(HyperAIMonitor::enforce_peg_stability(314_158_998_999));
    assert!(HyperAIMonitor::enforce_peg_stability(i128::MIN));
    assert!(HyperAIMonitor::enforce_peg_stability(i128::MAX));
}

#[test]
fn a_round_of_monitoring_with_given_readings() {
    let mut data = HyperAIMonitor::initialize(100);
    assert_eq!(
        data,
        AIMonitorData { last_peg_check: 100, anomaly_count: 0, self_heal_attempts: 0, global_consensus_score: 100 }
    );
    let actions = HyperAIMonitor::record_round(&mut data, 51, 314_159_000_000, 95, 200);
    assert_eq!(actions, MonitorActions { healed: true, adjust_peg: false, boost_adoption: false });
    assert_eq!(
        data,
        AIMonitorData { last_peg_check: 200, anomaly_count: 1, self_heal_attempts: 1, global_consensus_score: 95 }
    );
    let actions = HyperAIMonitor::record_round(&mut data, 50, 0, 89, 300);
    assert_eq!(actions, MonitorActions { healed: false, adjust_peg: true, boost_adoption: true });
    assert_eq!(
        data,
        AIMonitorData { last_peg_check: 300, anomaly_count: 1, self_heal_attempts: 1, global_consensus_score: 89 }
    );
    HyperAIMonitor::self_heal_system(&mut data);
    assert_eq!(data.self_heal_attempts, 2);
}

#[test]
fn a_drawn_round_of_monitoring_stays_in_range() {
    let mut seen = std::collections::BTreeSet::new();
    let mut healed = 0u32;
    let mut data = HyperAIMonitor::initialize(0);
    for round in 1..=300u64 {
        let actions = HyperAIMonitor::monitor_and_enforce(&mut data, round);
        assert_eq!(data.last_peg_check, round);
        assert!((80..100).contains(&data.global_consensus_score));
        assert!(!actions.adjust_peg);
        assert_eq!(actions.boost_adoption, data.global_consensus_score < 90);
        if actions.healed {
            healed += 1;
        }
        assert_eq!(data.anomaly_count, healed);
        assert_eq!(data.self_heal_attempts, healed);
        seen.insert(data.global_consensus_score);
        let score = HyperAIMonitor::ai_detect_anomalies();
        assert!((5..=100).contains(&score));
    }
    // a draw is not its lower bound handed back
    assert!(seen.len() > 1);
}

#[test]
fn a_round_of_boosting_with_given_scores() {
    let mut data = GlobalAdoptionBooster::initialize();
    assert_eq!(
        data,
        AdoptionData { campaigns_launched: 0, bridges_completed: 0, incentives_distributed: 0, global_reach_score: 50 }
    );
    GlobalAdoptionBooster::record_boost(&mut data, 71, 88);
    assert_eq!(
        data,
        AdoptionData { campaigns_launched: 1, bridges_completed: 1, incentives_distributed: 10_000, global_reach_score: 88 }
    );
    GlobalAdoptionBooster::record_boost(&mut data, 70, 99);
    assert_eq!(
        data,
        AdoptionData { campaigns_launched: 1, bridges_completed: 2, incentives_distributed: 20_000, global_reach_score: 99 }
    );
    GlobalAdoptionBooster::launch_campaign(&mut data);
    GlobalAdoptionBooster::bridge_to_other_chains(&mut data);
    GlobalAdoptionBooster::distribute_incentives(&mut data);
    assert_eq!(
        data,
        AdoptionData { campaigns_launched: 2, bridges_completed: 3, incentives_distributed: 30_000, global_reach_score: 99 }
    );
}

#[test]
fn a_drawn_round_of_boosting_stays_in_range() {
    let mut data = GlobalAdoptionBooster::initialize();
    let mut timings = std::collections::BTreeSet::new();
    for round in 1..=300u32 {
        let before = data.campaigns_launched;
        GlobalAdoptionBooster::boost_adoption(&mut data);
        assert_eq!(data.bridges_completed, round);
        assert_eq!(data.incentives_distributed, 10_000 * round as i128);
        assert!((80..100).contains(&data.global_reach_score));
        assert!(data.campaigns_launched == before || data.campaigns_launched == before + 1);
        let timing = GlobalAdoptionBooster::ai_predict_campaign_timing();
        assert!((60..100).contains(&timing));
        timings.insert(timing);
        assert!((80..100).contains(&GlobalAdoptionBooster::ai_global_reach()));
    }
    assert!(timings.len() > 1);
    assert!(data.campaigns_launched > 0);
}

#[test]
fn a_round_of_deployment_with_given_scores() {
    let mut data = PiCoinFinalDeployer::initialize();
    assert_eq!((data.components_deployed, data.deployment_success_score, data.recovery_attempts), (0, 85, 0));
    assert!(data.chains_launched.is_empty());
    PiCoinFinalDeployer::record_deployment(&mut data, 81, true, 93);
    assert_eq!(data.components_deployed, 5);
    assert_eq!(data.chains_launched, vec![Chain::Stellar, Chain::Ethereum]);
    assert_eq!((data.recovery_attempts, data.deployment_success_score), (0, 93));
    PiCoinFinalDeployer::record_deployment(&mut data, 80, false, 90);
    assert_eq!(data.components_deployed, 5);
    assert_eq!(data.chains_launched.len(), 2);
    assert_eq!((data.recovery_attempts, data.deployment_success_score), (1, 90));
    PiCoinFinalDeployer::deploy_components(&mut data);
    PiCoinFinalDeployer::launch_to_chains(&mut data);
    PiCoinFinalDeployer::recover_deployment(&mut data);
    assert_eq!((data.components_deployed, data.chains_launched.len(), data.recovery_attempts), (10, 4, 2));
}

#[test]
fn a_drawn_round_of_deployment_stays_in_range() {
    let mut data = PiCoinFinalDeployer::initialize();
    let mut verified = 0u32;
    for _ in 0..300 {
        let before = (data.components_deployed, data.chains_launched.len(), data.recovery_attempts);
        PiCoinFinalDeployer::deploy_globally(&mut data);
        assert!((90..100).contains(&data.deployment_success_score));
        let deployed = data.components_deployed - before.0;
        assert!(deployed == 0 || deployed == 5);
        assert_eq!(data.chains_launched.len() - before.1, if deployed == 5 { 2 } else { 0 });
        assert!(data.recovery_attempts - before.2 <= 1);
        assert!((75..100).contains(&PiCoinFinalDeployer::ai_decide_deployment()));
        if PiCoinFinalDeployer::verify_deployment() {
            verified += 1;
        }
    }
    assert!(data.components_deployed > 0);
    // about 95 in a hundred check out
    assert!(verified > 150);
}

#[test]
fn a_round_of_replication_with_given_scores() {
    let mut data = PiCoinSelfReplicator::initialize();
    assert_eq!((data.replicas_created, data.self_heal_count, data.global_coverage_score), (0, 0, 70));
    PiCoinSelfReplicator::record_replication(&mut data, 76, false, 81);
    assert_eq!((data.replicas_created, data.self_heal_count, data.global_coverage_score), (1, 0, 81));
    assert_eq!(data.chains_expanded, vec![Chain::Ethereum]);
    PiCoinSelfReplicator::record_replication(&mut data, 75, true, 99);
    assert_eq!((data.replicas_created, data.self_heal_count, data.global_coverage_score), (1, 1, 99));
    assert_eq!(data.chains_expanded, vec![Chain::Ethereum, Chain::Ethereum]);
    PiCoinSelfReplicator::create_replica(&mut data);
    PiCoinSelfReplicator::expand_to_chains(&mut data);
    PiCoinSelfReplicator::self_heal(&mut data);
    assert_eq!((data.replicas_created, data.chains_expanded.len(), data.self_heal_count), (2, 3, 2));
}

#[test]
fn a_drawn_round_of_replication_stays_in_range() {
    let mut data = PiCoinSelfReplicator::initialize();
    let mut failures = 0u32;
    for round in 1..=300usize {
        let before = (data.replicas_created, data.self_heal_count);
        PiCoinSelfReplicator::replicate_and_expand(&mut data);
        assert_eq!(data.chains_expanded.len(), round);
        assert!((80..100).contains(&data.global_coverage_score));
        assert!(data.replicas_created - before.0 <= 1);
        assert!(data.self_heal_count - before.1 <= 1);
        assert!((70..100).contains(&PiCoinSelfReplicator::ai_decide_replication()));
        assert!((80..100).contains(&PiCoinSelfReplicator::ai_global_coverage()));
        if PiCoinSelfReplicator::detect_failure() {
            failures += 1;
        }
    }
    assert!(data.replicas_created > 0);
    // about ten in a hundred fail
    assert!(failures < 150);
}

#[test]
fn a_round_of_enforcement_with_given_outcomes() {
    let mut data = PiCoinUltimateEnforcer::initialize();
    assert_eq!(data, EnforcerData { systems_orchestrated: 0, failures_recovered: 0, ultimate_success_score: 90 });
    PiCoinUltimateEnforcer::record_enforcement(&mut data, true, 96);
    assert_eq!(data, EnforcerData { systems_orchestrated: 1, failures_recovered: 1, ultimate_success_score: 96 });
    PiCoinUltimateEnforcer::record_enforcement(&mut data, false, 99);
    assert_eq!(data, EnforcerData { systems_orchestrated: 2, failures_recovered: 1, ultimate_success_score: 99 });
    PiCoinUltimateEnforcer::recover_failures(&mut data);
    assert_eq!(data.failures_recovered, 2);
}

#[test]
fn a_drawn_round_of_enforcement_stays_in_range() {
    let mut data = PiCoinUltimateEnforcer::initialize();
    let mut failures = 0u32;
    for round in 1..=300u32 {
        let before = data.failures_recovered;
        PiCoinUltimateEnforcer::enforce_ultimate_success(&mut data);
        assert_eq!(data.systems_orchestrated, round);
        assert!((95..100).contains(&data.ultimate_success_score));
        assert!(data.failures_recovered - before <= 1);
        assert!((95..100).contains(&PiCoinUltimateEnforcer::ai_ultimate_success()));
        if PiCoinUltimateEnforcer::detect_system_failure() {
            failures += 1;
        }
    }
    // about five in a hundred fail
    assert!(failures < 150);
}

#[test]
fn the_agents_tell_whether_a_round_has_room() {
    let mut monitor = HyperAIMonitor::initialize(0);
    assert!(HyperAIMonitor::room_for_round(&monitor));
    monitor.anomaly_count = u32::MAX;
    assert!(!HyperAIMonitor::room_for_round(&monitor));
    monitor.anomaly_count = u32::MAX - 1;
    monitor.self_heal_attempts = u32::MAX;
    assert!(!HyperAIMonitor::room_for_round(&monitor));

    let mut adoption = GlobalAdoptionBooster::initialize();
    assert!(GlobalAdoptionBooster::room_for_round(&adoption));
    adoption.incentives_distributed = i128::MAX - 10_000;
    assert!(GlobalAdoptionBooster::room_for_round(&adoption));
    adoption.incentives_distributed = i128::MAX - 9_999;
    assert!(!GlobalAdoptionBooster::room_for_round(&adoption));
    adoption.incentives_distributed = 0;
    adoption.bridges_completed = u32::MAX;
    assert!(!GlobalAdoptionBooster::room_for_round(&adoption));
    adoption.bridges_completed = 0;
    adoption.campaigns_launched = u32::MAX;
    assert!(!GlobalAdoptionBooster::room_for_round(&adoption));

    let deploy = |components_deployed, recovery_attempts| DeployData {
        components_deployed,
        chains_launched: vec![],
        deployment_success_score: 85,
        recovery_attempts,
    };
    assert!(PiCoinFinalDeployer::room_for_round(&deploy(u32::MAX - 5, u32::MAX - 1)));
    assert!(!PiCoinFinalDeployer::room_for_round(&deploy(u32::MAX - 4, 0)));
    assert!(!PiCoinFinalDeployer::room_for_round(&deploy(0, u32::MAX)));

    let replication = |replicas_created, self_heal_count| ReplicationData {
        replicas_created,
        chains_expanded: vec![],
        self_heal_count,
        global_coverage_score: 70,
    };
    assert!(PiCoinSelfReplicator::room_for_round(&replication(u32::MAX - 1, u32::MAX - 1)));
    assert!(!PiCoinSelfReplicator::room_for_round(&replication(u32::MAX, 0)));
    assert!(!PiCoinSelfReplicator::room_for_round(&replication(0, u32::MAX)));

    let mut enforcer = PiCoinUltimateEnforcer::initialize();
    assert!(PiCoinUltimateEnforcer::room_for_round(&enforcer));
    enforcer.failures_recovered = u32::MAX;
    assert!(!PiCoinUltimateEnforcer::room_for_round(&enforcer));
    enforcer.failures_recovered = 0;
    enforcer.systems_orchestrated = u32::MAX;
    assert!(!PiCoinUltimateEnforcer::room_for_round(&enforcer));

    let mut tokenomics = PiCoinTokenomicsAI::initialize();
    assert!(PiCoinTokenomicsAI::room_for_round(&tokenomics));
    tokenomics.allocated_admin = i128::MAX - 2_500_000_000;
    assert!(PiCoinTokenomicsAI::room_for_round(&tokenomics));
    tokenomics.allocated_admin = i128::MAX - 2_499_999_999;
    assert!(!PiCoinTokenomicsAI::room_for_round(&tokenomics));
    tokenomics.vesting_schedule.clear();
    assert!(PiCoinTokenomicsAI::room_for_round(&tokenomics));
    tokenomics.allocated_reserve = i128::MAX - 99_999_999;
    assert!(!PiCoinTokenomicsAI::room_for_round(&tokenomics));
    tokenomics.allocated_reserve = 0;
    tokenomics.allocated_mining = i128::MAX;
    assert!(!PiCoinTokenomicsAI::room_for_round(&tokenomics));
}
