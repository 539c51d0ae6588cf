use pi_contracts::hyper_autonomous_ai::{
    digit_sum, generate_pi_digits, pi_boost, Action, AiDecision, HyperAutonomousAiContract, Target,
};

#[test]
fn test_make_decision() {
    let mut contract = HyperAutonomousAiContract::init();
    let decision = contract.make_decision(&"rejection_agent".to_string(), Some(10), None);
    assert_eq!(decision.action, Action::Reject);
}

#[test]
fn pi_without_decimals() {
    assert_eq!(generate_pi_digits(0), "3");
}

#[test]
fn pi_with_few_decimals_is_rounded() {
    assert_eq!(generate_pi_digits(1), "3.1");
    assert_eq!(generate_pi_digits(2), "3.14");
    assert_eq!(generate_pi_digits(3), "3.142");
    assert_eq!(generate_pi_digits(4), "3.1416");
    assert_eq!(generate_pi_digits(5), "3.14159");
    assert_eq!(generate_pi_digits(15), "3.141592653589793");
    assert_eq!(generate_pi_digits(16), "3.1415926535897931");
}

#[test]
fn pi_rounding_carries_over_nines() {
    assert_eq!(generate_pi_digits(18), "3.141592653589793116");
    assert_eq!(generate_pi_digits(19), "3.1415926535897931160");
    assert_eq!(generate_pi_digits(20), "3.14159265358979311600");
    assert_eq!(generate_pi_digits(21), "3.141592653589793115998");
}

#[test]
fn pi_rounds_a_tie_to_even() {
    assert_eq!(generate_pi_digits(46), "3.1415926535897931159979634685441851615905761719");
    assert_eq!(generate_pi_digits(47), "3.14159265358979311599796346854418516159057617188");
}

#[test]
fn pi_in_full_and_beyond() {
    assert_eq!(generate_pi_digits(48), "3.141592653589793115997963468544185161590576171875");
    assert_eq!(generate_pi_digits(50), "3.14159265358979311599796346854418516159057617187500");
    let long = generate_pi_digits(1000);
    assert_eq!(long.len(), 1002);
    assert!(long[50..].bytes().all(|b| b == b'0'));
}

#[test]
fn digit_sum_skips_what_is_no_digit() {
    assert_eq!(digit_sum("3.14159"), 23);
    assert_eq!(digit_sum(""), 0);
    assert_eq!(digit_sum("a9-9z"), 18);
    assert_eq!(digit_sum("\u{0663}7"), 7);
}

#[test]
fn the_boost_of_pi_is_three() {
    assert_eq!(pi_boost(), 3);
}

#[test]
fn init_sets_agents_weights_and_thresholds() {
    let contract = HyperAutonomousAiContract::init();
    let names: Vec<&str> = contract.agents.iter().map(|a| a.name.as_str()).collect();
    assert_eq!(names, vec!["rejection_agent", "evolution_agent", "optimization_agent"]);
    assert!(contract.agents.iter().all(|a| a.active));
    assert_eq!(contract.isolation_forest_weight, 40);
    assert_eq!(contract.bayesian_ridge_weight, 30);
    assert_eq!(contract.neural_net_weight, 30);
    assert_eq!(contract.rejection_threshold, 5);
    assert_eq!(contract.evolution_threshold, 10);
    assert!(contract.get_decision_log().is_empty());
}

#[test]
fn an_unknown_or_inactive_agent_is_not_active() {
    let mut contract = HyperAutonomousAiContract::init();
    assert!(!contract.is_active(&"idle_agent".to_string()));
    assert!(contract.is_active(&"evolution_agent".to_string()));
    contract.agents[1].active = false;
    assert!(!contract.is_active(&"evolution_agent".to_string()));
    assert!(contract.is_active(&"optimization_agent".to_string()));
    assert!(contract.is_active(&"rejection_agent".to_string()));
}

#[test]
fn a_report_must_fit_to_be_scored() {
    let mut contract = HyperAutonomousAiContract::init();
    assert!(contract.score_fits(Some(10), None));
    assert!(contract.score_fits(None, None));
    // 40 * v + 30 * 100 + 30 * 3 <= u64::MAX exactly up to v = (u64::MAX - 3090) / 40
    let edge = (u64::MAX - 3090) / 40;
    assert!(contract.score_fits(Some(edge), None));
    assert!(!contract.score_fits(Some(edge + 1), None));
    assert!(!contract.score_fits(Some(u64::MAX), Some(0)));
    assert!(!contract.score_fits(Some(0), Some(u64::MAX)));
    contract.isolation_forest_weight = 0;
    contract.bayesian_ridge_weight = 1;
    assert!(contract.score_fits(Some(u64::MAX), Some(u64::MAX - 90)));
    assert!(!contract.score_fits(Some(u64::MAX), Some(u64::MAX - 89)));
}

#[test]
fn a_report_must_fit_to_be_learned_from() {
    let mut contract = HyperAutonomousAiContract::init();
    assert!(contract.can_learn(Some(u64::MAX), Some(u64::MAX)));
    contract.isolation_forest_weight = u32::MAX - 7;
    assert!(contract.can_learn(Some(79), None));
    assert!(!contract.can_learn(Some(80), None));
    // only the lower 32 bits of a reading count
    assert!(contract.can_learn(Some((1u64 << 32) + 79), None));
    contract.isolation_forest_weight = 40;
    contract.bayesian_ridge_weight = u32::MAX;
    assert!(contract.can_learn(None, Some(9)));
    assert!(!contract.can_learn(None, None));
}

#[test]
fn a_high_score_rejects_and_is_executed() {
    let mut contract = HyperAutonomousAiContract::init();
    // (40 * 10 + 30 * 100 + 30 * 3) / 100 = 34 > 5
    let decision = contract.make_decision(&"rejection_agent".to_string(), Some(10), None);
    assert_eq!(
        decision,
        AiDecision { action: Action::Reject, target: Target::VolatileAsset, confidence: 95, executed: true }
    );
    assert_eq!(contract.get_decision_log(), &vec![decision]);
}

#[test]
fn a_low_score_optimizes_and_waits() {
    let mut contract = HyperAutonomousAiContract::init();
    // (40 * 0 + 30 * 10 + 30 * 3) / 100 = 3 <= 5
    let decision = contract.make_decision(&"optimization_agent".to_string(), None, Some(10));
    assert_eq!(
        decision,
        AiDecision { action: Action::Optimize, target: Target::Model, confidence: 80, executed: false }
    );
    // at the threshold: (40 * 0 + 30 * 17 + 90) / 100 = 6 > 5, (30 * 16 + 90) / 100 = 5
    assert_eq!(contract.make_decision(&"optimization_agent".to_string(), Some(0), Some(16)).action, Action::Optimize);
    assert_eq!(contract.make_decision(&"optimization_agent".to_string(), Some(0), Some(17)).action, Action::Reject);
    assert_eq!(contract.get_decision_log().len(), 3);
}

#[test]
fn executing_an_optimization_raises_the_neural_weight() {
    let mut contract = HyperAutonomousAiContract::init();
    let optimize = AiDecision { action: Action::Optimize, target: Target::Model, confidence: 80, executed: false };
    assert!(!contract.execute_decision(optimize));
    assert_eq!(contract.neural_net_weight, 35);
    let reject =
        AiDecision { action: Action::Reject, target: Target::VolatileAsset, confidence: 95, executed: false };
    assert!(contract.execute_decision(reject));
    assert_eq!(contract.neural_net_weight, 35);
    let evolve = AiDecision { action: Action::Evolve, target: Target::Model, confidence: 50, executed: false };
    assert!(!contract.execute_decision(evolve));
    assert_eq!(contract.neural_net_weight, 35);
}

#[test]
fn learning_raises_weights_up_to_the_cap() {
    let mut contract = HyperAutonomousAiContract::init();
    contract.learn(Some(250), Some(95));
    assert_eq!(contract.isolation_forest_weight, 65);
    assert_eq!(contract.bayesian_ridge_weight, 39);
    contract.learn(Some(1000), None);
    assert_eq!(contract.isolation_forest_weight, 100);
    assert_eq!(contract.bayesian_ridge_weight, 49);
    // only the lower 32 bits of a reading count
    contract.isolation_forest_weight = 0;
    contract.learn(Some((1u64 << 32) + 70), Some(0));
    assert_eq!(contract.isolation_forest_weight, 7);
    assert_eq!(contract.neural_net_weight, 30);
}
