//! Proposals that take the approval of several signers.
//!
//! A signer creates a proposal, signers approve it, and once the approvals
//! reach the threshold anyone may execute it, once. An approval counts with
//! a weight that the host draws and hands in.

use vstd::prelude::*;
use crate::address::Address;

verus! {

/// Why the governance refused.
#[derive(Clone, Copy, Debug, PartialEq, Eq, Structural)]
pub enum GovernanceError {
    /// The caller is not among the signers.
    NotSigner,
    /// The signer approved this proposal before.
    AlreadyApproved,
    /// The proposal was executed before, or lacks approvals.
    CannotExecute,
}

/// A proposed call of `action_function` on `action_contract`.
pub struct Proposal {
    pub description: String,
    pub action_contract: Address,
    pub action_function: String,
    pub action_params: Vec<String>,
    /// One entry per vote; an approval of weight `w` adds its signer `w`
    /// times.
    pub approvals: Vec<Address>,
    pub executed: bool,
}

/// The governance of the linked contracts.
pub struct MultiSigGovernance {
    pub admin: Address,
    pub signers: Vec<Address>,
    pub threshold: u32,
    pub stablecoin_contract: Address,
    pub dex_contract: Address,
    pub yield_contract: Address,
    /// The proposal with identifier `k` stands at index `k - 1`.
    pub proposals: Vec<Proposal>,
    pub paused: bool,
}

/// `votes` with `signer` added `weight` times.
pub open spec fn with_votes(votes: Seq<Address>, signer: Address, weight: nat) -> Seq<Address> {
    votes + Seq::new(weight, |i: int| signer)
}

impl Proposal {
    /// Whether `other` is this proposal with other approvals or another
    /// execution mark.
    pub open spec fn same_action(&self, other: &Proposal) -> bool {
        &&& self.description == other.description
        &&& self.action_contract == other.action_contract
        &&& self.action_function == other.action_function
        &&& self.action_params == other.action_params
    }
}

impl MultiSigGovernance {
    /// Whether `other` has the setup of `self`: the same administrator,
    /// signers, threshold and linked contracts.
    pub open spec fn same_setup(&self, other: &MultiSigGovernance) -> bool {
        &&& self.admin == other.admin
        &&& self.signers == other.signers
        &&& self.threshold == other.threshold
        &&& self.stablecoin_contract == other.stablecoin_contract
        &&& self.dex_contract == other.dex_contract
        &&& self.yield_contract == other.yield_contract
    }

    /// Whether `proposal_id` names a proposal.
    pub open spec fn has_proposal(&self, proposal_id: u32) -> bool {
        1 <= proposal_id <= self.proposals@.len()
    }

    /// The proposal that `proposal_id` names.
    pub open spec fn proposal(&self, proposal_id: u32) -> Proposal
        recommends
            self.has_proposal(proposal_id),
    {
        self.proposals@[proposal_id - 1]
    }

    /// Whether `signer` has approved the proposal `proposal_id`.
    pub open spec fn approved_by(&self, proposal_id: u32, signer: Address) -> bool {
        self.proposal(proposal_id).approvals@.contains(signer)
    }

    /// Whether the proposal `proposal_id` can be executed: it was not
    /// executed before, and its votes reach the threshold.
    pub open spec fn executable(&self, proposal_id: u32) -> bool {
        let proposal = self.proposal(proposal_id);
        !proposal.executed && proposal.approvals@.len() >= self.threshold
    }

    /// Whether `other` differs from `self` at most in the proposal
    /// `proposal_id`.
    pub open spec fn same_but(&self, other: &MultiSigGovernance, proposal_id: u32) -> bool {
        &&& self.same_setup(other)
        &&& self.paused == other.paused
        &&& self.proposals@.len() == other.proposals@.len()
        &&& forall|k: int|
            0 <= k < self.proposals@.len() && k != proposal_id - 1 ==> self.proposals@[k]
                == other.proposals@[k]
    }

    /// A governance without proposals.
    pub fn initialize(
        admin: Address,
        signers: Vec<Address>,
        threshold: u32,
        stablecoin_contract: Address,
        dex_contract: Address,
        yield_contract: Address,
    ) -> (governance: MultiSigGovernance)
        ensures
            governance.admin == admin,
            governance.signers == signers,
            governance.threshold == threshold,
            governance.stablecoin_contract == stablecoin_contract,
            governance.dex_contract == dex_contract,
            governance.yield_contract == yield_contract,
            governance.proposals@.len() == 0,
            !governance.paused,
    {
        MultiSigGovernance {
            admin,
            signers,
            threshold,
            stablecoin_contract,
            dex_contract,
            yield_contract,
            proposals: Vec::new(),
            paused: false,
        }
    }

    /// Whether `who` is among the signers.
    pub fn is_signer(&self, who: Address) -> (yes: bool)
        ensures
            yes == self.signers@.contains(who),
    {
        Self::holds(&self.signers, who)
    }

    fn holds(list: &Vec<Address>, who: Address) -> (yes: bool)
        ensures
            yes == list@.contains(who),
    {
        let mut i: usize = 0;
        while i < list.len()
            invariant
                i <= list.len(),
                forall|k: int| 0 <= k < i ==> list@[k] != who,
            decreases list.len() - i,
        {
            if list[i] == who {
                return true;
            }
            i = i + 1;
        }
        false
    }

    /// The number of proposals created so far, which is the identifier of
    /// the latest.
    pub fn proposal_count(&self) -> (count: usize)
        ensures
            count == self.proposals@.len(),
    {
        self.proposals.len()
    }

    /// Whether `proposal_id` names a proposal.
    pub fn knows_proposal(&self, proposal_id: u32) -> (yes: bool)
        ensures
            yes == self.has_proposal(proposal_id),
    {
        1 <= proposal_id && proposal_id as usize <= self.proposals.len()
    }

    /// Whether a proposal of `proposer` can be filed: a signer needs a free
    /// identifier, anyone else is turned away in any case.
    pub fn can_create_proposal(&self, proposer: Address) -> (yes: bool)
        ensures
            yes == (self.signers@.contains(proposer) ==> self.proposals@.len() < u32::MAX),
    {
        !self.is_signer(proposer) || self.proposals.len() < u32::MAX as usize
    }

    /// Whether an approval of `signer` for `proposal_id`, `weight` votes
    /// strong, can be taken: for a signer the proposal must exist, and its
    /// votes must have room unless the signer approved before.
    pub fn can_approve(&self, signer: Address, proposal_id: u32, weight: u32) -> (yes: bool)
        ensures
            yes == (self.signers@.contains(signer) ==> self.has_proposal(proposal_id) && (
            !self.approved_by(proposal_id, signer) ==> self.proposal(proposal_id).approvals@.len()
                + weight <= usize::MAX)),
    {
        if !self.is_signer(signer) {
            return true;
        }
        if !self.knows_proposal(proposal_id) {
            return false;
        }
        let approvals = &self.proposals[(proposal_id - 1) as usize].approvals;
        Self::holds(approvals, signer) || approvals.len() <= usize::MAX - weight as usize
    }

    /// Files a proposal of `proposer` and returns its identifier, the next
    /// in line. Only a signer may propose.
    pub fn create_proposal(
        &mut self,
        proposer: Address,
        description: String,
        action_contract: Address,
        action_function: String,
        action_params: Vec<String>,
    ) -> (r: Result<u32, GovernanceError>)
        requires
            old(self).signers@.contains(proposer) ==> old(self).proposals@.len() < u32::MAX,
        ensures
            final(self).same_setup(old(self)),
            final(self).paused == old(self).paused,
            !old(self).signers@.contains(proposer) ==> r == Err::<u32, GovernanceError>(
                GovernanceError::NotSigner,
            ) && final(self).proposals@ == old(self).proposals@,
            old(self).signers@.contains(proposer) ==> {
                &&& r == Ok::<u32, GovernanceError>((old(self).proposals@.len() + 1) as u32)
                &&& final(self).proposals@.len() == old(self).proposals@.len() + 1
                &&& final(self).proposals@.drop_last() == old(self).proposals@
                &&& final(self).proposals@.last().description == description
                &&& final(self).proposals@.last().action_contract == action_contract
                &&& final(self).proposals@.last().action_function == action_function
                &&& final(self).proposals@.last().action_params == action_params
                &&& final(self).proposals@.last().approvals@.len() == 0
                &&& !final(self).proposals@.last().executed
            },
    {
        if !self.is_signer(proposer) {
            return Err(GovernanceError::NotSigner);
        }
        let proposal = Proposal {
            description,
            action_contract,
            action_function,
            action_params,
            approvals: Vec::new(),
            executed: false,
        };
        self.proposals.push(proposal);
        assert(self.proposals@.drop_last() =~= old(self).proposals@);
        Ok(self.proposals.len() as u32)
    }

    /// Records the approval of `signer` for a proposal, `weight` votes
    /// strong. Only a signer may approve, and only once per proposal.
    pub fn approve_proposal(&mut self, signer: Address, proposal_id: u32, weight: u32) -> (r:
        Result<(), GovernanceError>)
        requires
            old(self).signers@.contains(signer) ==> old(self).has_proposal(proposal_id),
            old(self).signers@.contains(signer) && !old(self).approved_by(proposal_id, signer)
                ==> old(self).proposal(proposal_id).approvals@.len() + weight <= usize::MAX,
        ensures
            !old(self).signers@.contains(signer) ==> r == Err::<(), GovernanceError>(
                GovernanceError::NotSigner,
            ),
            old(self).signers@.contains(signer) && old(self).approved_by(proposal_id, signer)
                ==> r == Err::<(), GovernanceError>(GovernanceError::AlreadyApproved),
            old(self).signers@.contains(signer) && !old(self).approved_by(proposal_id, signer)
                ==> r == Ok::<(), GovernanceError>(()),
            r is Err ==> final(self).same_setup(old(self)) && final(self).paused == old(self).paused
                && final(self).proposals@ == old(self).proposals@,
            r is Ok ==> {
                let before = old(self).proposal(proposal_id);
                let after = final(self).proposal(proposal_id);
                &&& final(self).same_but(old(self), proposal_id)
                &&& after.same_action(&before)
                &&& after.executed == before.executed
                &&& after.approvals@ == with_votes(before.approvals@, signer, weight as nat)
            },
    {
        if !self.is_signer(signer) {
            return Err(GovernanceError::NotSigner);
        }
        let at: usize = (proposal_id - 1) as usize;
        if Self::holds(&self.proposals[at].approvals, signer) {
            return Err(GovernanceError::AlreadyApproved);
        }
        let mut proposal = self.proposals.remove(at);
        let ghost before = proposal.approvals@;
        let mut cast: u32 = 0;
        while cast < weight
            invariant
                cast <= weight,
                before.len() + weight <= usize::MAX,
                proposal.approvals@ == with_votes(before, signer, cast as nat),
                proposal.same_action(&old(self).proposal(proposal_id)),
                proposal.executed == old(self).proposal(proposal_id).executed,
            decreases weight - cast,
        {
            proposal.approvals.push(signer);
            assert(proposal.approvals@ =~= with_votes(before, signer, (cast + 1) as nat));
            cast = cast + 1;
        }
        self.proposals.insert(at, proposal);
        Ok(())
    }

    /// Marks a proposal as executed, if it was not executed before and its
    /// votes reach the threshold. Carrying out its action is the caller's.
    pub fn execute_proposal(&mut self, executor: Address, proposal_id: u32) -> (r: Result<
        (),
        GovernanceError,
    >)
        requires
            old(self).has_proposal(proposal_id),
        ensures
            !old(self).executable(proposal_id) ==> r == Err::<(), GovernanceError>(
                GovernanceError::CannotExecute,
            ),
            old(self).executable(proposal_id) ==> r == Ok::<(), GovernanceError>(()),
            r is Err ==> final(self).same_setup(old(self)) && final(self).paused == old(self).paused
                && final(self).proposals@ == old(self).proposals@,
            r is Ok ==> {
                let before = old(self).proposal(proposal_id);
                let after = final(self).proposal(proposal_id);
                &&& final(self).same_but(old(self), proposal_id)
                &&& after.same_action(&before)
                &&& after.approvals == before.approvals
                &&& after.executed
            },
    {
        let at: usize = (proposal_id - 1) as usize;
        if self.proposals[at].executed || self.proposals[at].approvals.len()
            < self.threshold as usize {
            return Err(GovernanceError::CannotExecute);
        }
        let mut proposal = self.proposals.remove(at);
        proposal.executed = true;
        self.proposals.insert(at, proposal);
        Ok(())
    }

    /// Halts the linked contracts. The administrator's consent is checked by
    /// the caller.
    pub fn emergency_pause(&mut self, pauser: Address)
        ensures
            final(self).paused,
            final(self).same_setup(old(self)),
            final(self).proposals == old(self).proposals,
    {
        self.paused = true;
    }

    /// The proposal that `proposal_id` names.
    pub fn get_proposal(&self, proposal_id: u32) -> (proposal: &Proposal)
        requires
            self.has_proposal(proposal_id),
        ensures
            *proposal == self.proposal(proposal_id),
    {
        &self.proposals[(proposal_id - 1) as usize]
    }
}

} // verus!
