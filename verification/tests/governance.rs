use pi_contracts::address::Address;
use pi_contracts::multi_sig_governance::{GovernanceError, MultiSigGovernance};

fn signer(n: u128) -> Address {
    Address::account(5, n)
}

fn outsider() -> Address {
    Address::account(6, 0)
}

fn governance(threshold: u32) -> MultiSigGovernance {
    MultiSigGovernance::initialize(
        Address::account(0, 1),
        vec![signer(1), signer(2), signer(3)],
        threshold,
        Address::contract(0, 10),
        Address::contract(0, 11),
        Address::contract(0, 12),
    )
}

fn propose(g: &mut MultiSigGovernance, by: Address) -> Result<u32, GovernanceError> {
    g.create_proposal(
        by,
        "raise_fee".to_string(),
        Address::contract(0, 11),
        "set_fee".to_string(),
        vec!["50".to_string()],
    )
}

#[test]
fn a_new_governance_has_no_proposals() {
    let g = governance(2);
    assert_eq!(g.proposal_count(), 0);
    assert!(!g.paused);
    assert_eq!(g.threshold, 2);
    assert!(g.is_signer(signer(2)));
    assert!(!g.is_signer(outsider()));
    assert_eq!(g.dex_contract, Address::contract(0, 11));
}

#[test]
fn only_signers_propose() {
    let mut g = governance(2);
    assert_eq!(propose(&mut g, outsider()), Err(GovernanceError::NotSigner));
    assert_eq!(g.proposal_count(), 0);
    assert_eq!(propose(&mut g, signer(1)), Ok(1));
    assert_eq!(propose(&mut g, signer(3)), Ok(2));
    let p = g.get_proposal(1);
    assert_eq!(p.description, "raise_fee");
    assert_eq!(p.action_contract, Address::contract(0, 11));
    assert_eq!(p.action_function, "set_fee");
    assert_eq!(p.action_params, vec!["50".to_string()]);
    assert!(p.approvals.is_empty());
    assert!(!p.executed);
}

#[test]
fn an_approval_counts_with_its_weight() {
    let mut g = governance(4);
    propose(&mut g, signer(1)).unwrap();
    propose(&mut g, signer(1)).unwrap();
    assert_eq!(g.approve_proposal(signer(2), 1, 3), Ok(()));
    assert_eq!(g.get_proposal(1).approvals, vec![signer(2), signer(2), signer(2)]);
    assert!(g.get_proposal(2).approvals.is_empty());
    assert_eq!(g.approve_proposal(signer(3), 1, 1), Ok(()));
    assert_eq!(g.get_proposal(1).approvals.len(), 4);
    assert_eq!(g.get_proposal(1).description, "raise_fee");
}

#[test]
fn nobody_approves_twice_and_outsiders_never() {
    let mut g = governance(2);
    propose(&mut g, signer(1)).unwrap();
    assert_eq!(g.approve_proposal(outsider(), 1, 2), Err(GovernanceError::NotSigner));
    // an outsider is turned away before the proposal is looked up
    assert_eq!(g.approve_proposal(outsider(), 99, 2), Err(GovernanceError::NotSigner));
    assert_eq!(g.approve_proposal(signer(2), 1, 1), Ok(()));
    assert_eq!(g.approve_proposal(signer(2), 1, 1), Err(GovernanceError::AlreadyApproved));
    assert_eq!(g.get_proposal(1).approvals, vec![signer(2)]);
}

#[test]
fn an_approval_without_weight_leaves_no_trace() {
    let mut g = governance(2);
    propose(&mut g, signer(1)).unwrap();
    assert_eq!(g.approve_proposal(signer(2), 1, 0), Ok(()));
    assert!(g.get_proposal(1).approvals.is_empty());
    assert_eq!(g.approve_proposal(signer(2), 1, 2), Ok(()));
}

#[test]
fn execution_needs_the_threshold_and_happens_once() {
    let mut g = governance(3);
    propose(&mut g, signer(1)).unwrap();
    assert_eq!(g.execute_proposal(outsider(), 1), Err(GovernanceError::CannotExecute));
    g.approve_proposal(signer(1), 1, 2).unwrap();
    assert_eq!(g.execute_proposal(outsider(), 1), Err(GovernanceError::CannotExecute));
    assert!(!g.get_proposal(1).executed);
    g.approve_proposal(signer(2), 1, 1).unwrap();
    assert_eq!(g.execute_proposal(outsider(), 1), Ok(()));
    assert!(g.get_proposal(1).executed);
    assert_eq!(g.get_proposal(1).approvals.len(), 3);
    assert_eq!(g.execute_proposal(signer(1), 1), Err(GovernanceError::CannotExecute));
}

#[test]
fn a_threshold_of_zero_needs_no_approval() {
    let mut g = governance(0);
    propose(&mut g, signer(1)).unwrap();
    assert_eq!(g.execute_proposal(signer(1), 1), Ok(()));
}

#[test]
fn the_pause_is_recorded() {
    let mut g = governance(2);
    propose(&mut g, signer(1)).unwrap();
    g.emergency_pause(signer(1));
    assert!(g.paused);
    assert_eq!(g.proposal_count(), 1);
}

#[test]
fn the_governance_tells_what_it_can_take() {
    let mut g = governance(2);
    assert!(!g.knows_proposal(0));
    assert!(!g.knows_proposal(1));
    assert!(g.can_create_proposal(signer(1)));
    assert!(g.can_create_proposal(outsider()));
    propose(&mut g, signer(1)).unwrap();
    assert!(g.knows_proposal(1));
    assert!(!g.knows_proposal(2));
    // an outsider is turned away whatever it names
    assert!(g.can_approve(outsider(), 99, u32::MAX));
    assert!(g.can_approve(signer(2), 1, u32::MAX));
    assert!(!g.can_approve(signer(2), 2, 1));
    assert!(!g.can_approve(signer(2), 0, 1));
    g.approve_proposal(signer(2), 1, 3).unwrap();
    assert!(g.can_approve(signer(2), 1, u32::MAX));
    assert!(g.can_approve(signer(3), 1, 1));
}
