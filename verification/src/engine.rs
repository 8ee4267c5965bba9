use vstd::pervasive::VecAdditionalExecFns;
use vstd::prelude::*;

use crate::account::AccountId;
use crate::errors::GovernanceError;
use crate::membership::Dao;
use crate::membership::Membership;
use crate::membership::lemma_membership_added_keeps_distinct;
use crate::membership::lemma_membership_removed_keeps_distinct;
use crate::membership::membership_added;
use crate::membership::membership_removed;
use crate::proposal::Proposal;
use crate::proposal::apply_vote;
use crate::proposal::mark_executed;
use crate::proposal::proposal_history_preserved;
use crate::proposal::saturating_add_u128;
use crate::proposal::spec_new_proposal;

verus! {

/// The governance aggregate: the proposal store, the fixed owner, and the
/// membership roll with its configuration.
///
/// Proposal ids are assigned by a counter that starts at zero and advances
/// by exactly one per successful creation, so the store is a dense list in
/// which the proposal with id `i` sits at position `i` and the counter is
/// the list's length. The owner is fixed at construction and never
/// reassigned; no operation writes it.
#[derive(Debug)]
pub struct Rwa {
    pub proposals: Vec<Proposal>,
    pub owner: AccountId,
    pub membership: Membership,
}

impl Rwa {
    /// The identity fixed at construction as the administrator.
    pub open spec fn spec_owner(self) -> AccountId {
        self.owner
    }

    /// The proposal counter: the id the next successful creation returns.
    pub open spec fn spec_counter(self) -> int {
        self.proposals@.len() as int
    }

    /// Every stored proposal, ordered by id.
    pub open spec fn spec_proposals(self) -> Seq<Proposal> {
        self.proposals@
    }

    /// Whether this instance runs the weight-based membership model.
    pub open spec fn is_weight_based(self) -> bool {
        self.membership.is_weight_based()
    }

    /// Whether `account` may vote.
    pub open spec fn spec_is_member(self, account: AccountId) -> bool {
        self.membership.spec_is_member(account)
    }

    /// The weight `account`'s ballot would carry; zero for a non-member.
    pub open spec fn spec_power_of(self, account: AccountId) -> u128 {
        self.membership.spec_power_of(account)
    }

    /// The execution quorum; zero under the member-based model.
    pub open spec fn spec_quorum(self) -> u128 {
        self.membership.spec_quorum()
    }

    /// The stored (never enforced) voting period configuration.
    pub open spec fn spec_voting_period(self) -> u128 {
        self.membership.spec_voting_period()
    }

    /// The accounts on the roll, in storage order.
    pub open spec fn spec_members(self) -> Seq<AccountId> {
        self.membership.spec_members()
    }

    /// Who may create a proposal: any caller under the member-based model,
    /// members only under the weight-based model.
    pub open spec fn may_create(self, caller: AccountId) -> bool {
        if self.is_weight_based() {
            self.spec_is_member(caller)
        } else {
            true
        }
    }

    /// Who may trigger execution: the owner under the member-based model,
    /// any member under the weight-based model.
    pub open spec fn may_execute(self, caller: AccountId) -> bool {
        if self.is_weight_based() {
            self.spec_is_member(caller)
        } else {
            caller == self.owner
        }
    }

    /// The vote threshold execution must clear: none under the member-based
    /// model; strictly more favorable weight than the quorum under the
    /// weight-based model (a tally exactly at the quorum does not pass).
    pub open spec fn execution_threshold_met(self, p: Proposal) -> bool {
        if self.is_weight_based() {
            p.for_votes > self.spec_quorum()
        } else {
            true
        }
    }

    /// A fresh weight-based instance with the standard configuration:
    /// quorum 10 and voting period 300, an empty roll, no proposals, and
    /// the constructing caller as owner.
    pub fn new(caller: AccountId) -> (r: Rwa)
        ensures
            r.spec_owner() == caller,
            r.spec_counter() == 0,
            r.membership.wf(),
            r.is_weight_based(),
            r.spec_quorum() == 10,
            r.spec_voting_period() == 300,
            r.membership matches Membership::WeightBased { dao } && dao.voting_power@ == Seq::<(
                AccountId,
                u128,
            )>::empty(),
            r.spec_members() == Seq::<AccountId>::empty(),
            forall|a: AccountId| !(#[trigger] r.spec_is_member(a)),
    {
        Self::new_weight_based(caller, 10, 300)
    }

    /// A fresh weight-based instance: an empty roll under the given quorum
    /// and voting period, no proposals, and `caller` as owner.
    pub fn new_weight_based(caller: AccountId, quorum: u128, voting_period: u128) -> (r: Rwa)
        ensures
            r.spec_owner() == caller,
            r.spec_counter() == 0,
            r.membership.wf(),
            r.is_weight_based(),
            r.spec_quorum() == quorum,
            r.spec_voting_period() == voting_period,
            r.membership matches Membership::WeightBased { dao } && dao.voting_power@ == Seq::<(
                AccountId,
                u128,
            )>::empty(),
            r.spec_members() == Seq::<AccountId>::empty(),
            forall|a: AccountId| !(#[trigger] r.spec_is_member(a)),
    {
        let r = Rwa {
            proposals: Vec::new(),
            owner: caller,
            membership: Membership::WeightBased {
                dao: Dao { voting_power: Vec::new(), quorum, voting_period },
            },
        };
        proof {
            assert(r.spec_members() =~= Seq::<AccountId>::empty());
        }
        r
    }

    /// A fresh member-based instance: an empty roll, no proposals, and
    /// `caller` as owner.
    pub fn new_member_based(caller: AccountId) -> (r: Rwa)
        ensures
            r.spec_owner() == caller,
            r.spec_counter() == 0,
            r.membership.wf(),
            !r.is_weight_based(),
            r.membership matches Membership::MemberBased { members } && members@ == Seq::<(
                AccountId,
                bool,
            )>::empty(),
            r.spec_members() == Seq::<AccountId>::empty(),
            forall|a: AccountId| !(#[trigger] r.spec_is_member(a)),
    {
        let r = Rwa {
            proposals: Vec::new(),
            owner: caller,
            membership: Membership::MemberBased { members: Vec::new() },
        };
        proof {
            assert(r.spec_members() =~= Seq::<AccountId>::empty());
        }
        r
    }

    /// Owner-gated registration of `account` on the roll.
    ///
    /// Under the member-based model `power` is ignored and the account is
    /// (re)activated idempotently; under the weight-based model a fresh
    /// entry is appended unconditionally, duplicates included. A non-owner
    /// caller is rejected and changes nothing.
    pub fn add_rwa_dao_member(&mut self, caller: AccountId, account: AccountId, power: u128) -> (r:
        Result<(), GovernanceError>)
        ensures
            final(self).owner == old(self).owner,
            final(self).proposals@ == old(self).proposals@,
            old(self).membership.wf() ==> final(self).membership.wf(),
            match r {
                Ok(()) => caller == old(self).owner && membership_added(
                    old(self).membership,
                    final(self).membership,
                    account,
                    power,
                ),
                Err(e) => {
                    &&& e == GovernanceError::Unauthorized
                    &&& caller != old(self).owner
                    &&& final(self).membership == old(self).membership
                },
            },
    {
        if caller == self.owner {
            let ghost pre = self.membership;
            self.membership.add_entry(account, power);
            proof {
                if pre.wf() {
                    lemma_membership_added_keeps_distinct(pre, self.membership, account, power);
                }
            }
            Ok(())
        } else {
            Err(GovernanceError::Unauthorized)
        }
    }

    /// Owner-gated removal of `account` from the roll.
    ///
    /// Under the member-based model the entry is deactivated in place;
    /// under the weight-based model the first matching entry is deleted. A
    /// non-owner caller, or an account that is not a member, is rejected
    /// and changes nothing.
    pub fn remove_rwa_dao_member(&mut self, caller: AccountId, account: AccountId) -> (r: Result<
        (),
        GovernanceError,
    >)
        ensures
            final(self).owner == old(self).owner,
            final(self).proposals@ == old(self).proposals@,
            old(self).membership.wf() ==> final(self).membership.wf(),
            match r {
                Ok(()) => {
                    &&& caller == old(self).owner
                    &&& old(self).spec_is_member(account)
                    &&& membership_removed(old(self).membership, final(self).membership, account)
                },
                Err(GovernanceError::Unauthorized) => {
                    &&& caller != old(self).owner
                    &&& final(self).membership == old(self).membership
                },
                Err(GovernanceError::NotAMember) => {
                    &&& caller == old(self).owner
                    &&& !old(self).spec_is_member(account)
                    &&& final(self).membership == old(self).membership
                },
                Err(_) => false,
            },
    {
        if caller == self.owner {
            let ghost pre = self.membership;
            let removed = self.membership.remove_entry(account);
            proof {
                if pre.wf() && removed {
                    lemma_membership_removed_keeps_distinct(pre, self.membership, account);
                }
            }
            if removed {
                Ok(())
            } else {
                Err(GovernanceError::NotAMember)
            }
        } else {
            Err(GovernanceError::Unauthorized)
        }
    }

    /// Create a proposal and return its id, the current counter value.
    ///
    /// The member-based model accepts any caller; the weight-based model
    /// requires the caller to be a member and a rejected attempt consumes
    /// no counter value.
    pub fn create_proposal(&mut self, caller: AccountId) -> (r: Result<u128, GovernanceError>)
        ensures
            final(self).owner == old(self).owner,
            final(self).membership == old(self).membership,
            proposal_history_preserved(old(self).proposals@, final(self).proposals@),
            match r {
                Ok(id) => {
                    &&& old(self).may_create(caller)
                    &&& id as int == old(self).spec_counter()
                    &&& final(self).proposals@ == old(self).proposals@.push(
                        spec_new_proposal(caller),
                    )
                },
                Err(e) => {
                    &&& e == GovernanceError::NotAMember
                    &&& !old(self).may_create(caller)
                    &&& final(self).proposals@ == old(self).proposals@
                },
            },
    {
        let allowed = if self.membership.is_weight_based_ex() {
            self.membership.is_member(caller)
        } else {
            true
        };
        if allowed {
            let id: u128 = self.proposals.len() as u128;
            self.proposals.push(
                Proposal { creator: caller, for_votes: 0, against_votes: 0, executed: false },
            );
            Ok(id)
        } else {
            Err(GovernanceError::NotAMember)
        }
    }

    /// Cast a ballot on proposal `proposal_id`.
    ///
    /// The caller must be a member, the proposal must exist and must not be
    /// executed yet; otherwise the matching error comes back and nothing
    /// changes. A ballot in favor adds the caller's weight to `for_votes`
    /// (one under the member-based model); a ballot against adds one to
    /// `against_votes` under the member-based model and is recorded nowhere
    /// under the weight-based model.
    pub fn vote_for_proposal(&mut self, caller: AccountId, proposal_id: u128, is_in_favor: bool) -> (r:
        Result<(), GovernanceError>)
        ensures
            final(self).owner == old(self).owner,
            final(self).membership == old(self).membership,
            final(self).proposals@.len() == old(self).proposals@.len(),
            proposal_history_preserved(old(self).proposals@, final(self).proposals@),
            match r {
                Ok(()) => {
                    &&& old(self).spec_is_member(caller)
                    &&& (proposal_id as int) < old(self).spec_counter()
                    &&& !old(self).spec_proposals()[proposal_id as int].executed
                    &&& final(self).proposals@ == old(self).proposals@.update(
                        proposal_id as int,
                        apply_vote(
                            old(self).spec_proposals()[proposal_id as int],
                            old(self).spec_power_of(caller),
                            is_in_favor,
                            old(self).is_weight_based(),
                        ),
                    )
                },
                Err(GovernanceError::NotAMember) => {
                    &&& !old(self).spec_is_member(caller)
                    &&& final(self).proposals@ == old(self).proposals@
                },
                Err(GovernanceError::ProposalNotFound) => {
                    &&& old(self).spec_is_member(caller)
                    &&& (proposal_id as int) >= old(self).spec_counter()
                    &&& final(self).proposals@ == old(self).proposals@
                },
                Err(GovernanceError::AlreadyExecuted) => {
                    &&& old(self).spec_is_member(caller)
                    &&& (proposal_id as int) < old(self).spec_counter()
                    &&& old(self).spec_proposals()[proposal_id as int].executed
                    &&& final(self).proposals@ == old(self).proposals@
                },
                Err(_) => false,
            },
    {
        let power: u128 = match self.membership.voting_power_of(caller) {
            Some(w) => w,
            None => {
                return Err(GovernanceError::NotAMember);
            },
        };
        if proposal_id >= self.proposals.len() as u128 {
            return Err(GovernanceError::ProposalNotFound);
        }
        let idx: usize = proposal_id as usize;
        let p = self.proposals[idx];
        if p.executed {
            return Err(GovernanceError::AlreadyExecuted);
        }
        let updated = if self.membership.is_weight_based_ex() {
            if is_in_favor {
                Proposal { for_votes: saturating_add_u128(p.for_votes, power), ..p }
            } else {
                p
            }
        } else {
            if is_in_favor {
                Proposal { for_votes: saturating_add_u128(p.for_votes, 1), ..p }
            } else {
                Proposal { against_votes: saturating_add_u128(p.against_votes, 1), ..p }
            }
        };
        self.proposals.set(idx, updated);
        Ok(())
    }

    /// Trigger execution of proposal `proposal_id`.
    ///
    /// The member-based model lets only the owner execute and applies no
    /// vote threshold; the weight-based model lets any member execute once
    /// `for_votes` strictly exceeds the quorum (a tally exactly at the
    /// quorum is rejected). Execution is terminal: a second attempt on the
    /// same proposal is rejected and changes nothing.
    pub fn execute_proposal(&mut self, caller: AccountId, proposal_id: u128) -> (r: Result<
        (),
        GovernanceError,
    >)
        ensures
            final(self).owner == old(self).owner,
            final(self).membership == old(self).membership,
            final(self).proposals@.len() == old(self).proposals@.len(),
            proposal_history_preserved(old(self).proposals@, final(self).proposals@),
            match r {
                Ok(()) => {
                    &&& old(self).may_execute(caller)
                    &&& (proposal_id as int) < old(self).spec_counter()
                    &&& !old(self).spec_proposals()[proposal_id as int].executed
                    &&& old(self).execution_threshold_met(
                        old(self).spec_proposals()[proposal_id as int],
                    )
                    &&& final(self).proposals@ == old(self).proposals@.update(
                        proposal_id as int,
                        mark_executed(old(self).spec_proposals()[proposal_id as int]),
                    )
                },
                Err(GovernanceError::Unauthorized) => {
                    &&& !old(self).is_weight_based()
                    &&& caller != old(self).owner
                    &&& final(self).proposals@ == old(self).proposals@
                },
                Err(GovernanceError::NotAMember) => {
                    &&& old(self).is_weight_based()
                    &&& !old(self).spec_is_member(caller)
                    &&& final(self).proposals@ == old(self).proposals@
                },
                Err(GovernanceError::ProposalNotFound) => {
                    &&& old(self).may_execute(caller)
                    &&& (proposal_id as int) >= old(self).spec_counter()
                    &&& final(self).proposals@ == old(self).proposals@
                },
                Err(GovernanceError::AlreadyExecuted) => {
                    &&& old(self).may_execute(caller)
                    &&& (proposal_id as int) < old(self).spec_counter()
                    &&& old(self).spec_proposals()[proposal_id as int].executed
                    &&& final(self).proposals@ == old(self).proposals@
                },
                Err(GovernanceError::QuorumNotMet) => {
                    &&& old(self).is_weight_based()
                    &&& old(self).may_execute(caller)
                    &&& (proposal_id as int) < old(self).spec_counter()
                    &&& !old(self).spec_proposals()[proposal_id as int].executed
                    &&& old(self).spec_proposals()[proposal_id as int].for_votes <= old(
                        self,
                    ).spec_quorum()
                    &&& final(self).proposals@ == old(self).proposals@
                },
            },
    {
        if self.membership.is_weight_based_ex() {
            if !self.membership.is_member(caller) {
                return Err(GovernanceError::NotAMember);
            }
        } else {
            if caller != self.owner {
                return Err(GovernanceError::Unauthorized);
            }
        }
        if proposal_id >= self.proposals.len() as u128 {
            return Err(GovernanceError::ProposalNotFound);
        }
        let idx: usize = proposal_id as usize;
        let p = self.proposals[idx];
        if p.executed {
            return Err(GovernanceError::AlreadyExecuted);
        }
        if self.membership.is_weight_based_ex() {
            let quorum: u128 = self.quorum();
            if p.for_votes <= quorum {
                return Err(GovernanceError::QuorumNotMet);
            }
        }
        self.proposals.set(idx, Proposal { executed: true, ..p });
        Ok(())
    }

    /// The fixed owner identity.
    pub fn get_owner(&self) -> (r: AccountId)
        ensures
            r == self.spec_owner(),
    {
        self.owner
    }

    /// The proposal counter: how many proposals were ever created, and the
    /// id the next successful creation returns.
    pub fn get_proposal_counter(&self) -> (r: u128)
        ensures
            r as int == self.spec_counter(),
    {
        self.proposals.len() as u128
    }

    /// The proposal stored under `proposal_id`, if that id was ever
    /// assigned.
    pub fn get_proposal(&self, proposal_id: u128) -> (r: Option<Proposal>)
        ensures
            match r {
                Some(p) => (proposal_id as int) < self.spec_counter() && p == self.spec_proposals()[
                    proposal_id as int
                ],
                None => (proposal_id as int) >= self.spec_counter(),
            },
    {
        if proposal_id < self.proposals.len() as u128 {
            Some(self.proposals[proposal_id as usize])
        } else {
            None
        }
    }

    /// The accounts on the roll, in storage order.
    pub fn get_dao_members(&self) -> (r: Vec<AccountId>)
        ensures
            r@ == self.spec_members(),
    {
        self.membership.members()
    }

    /// How many accounts are on the roll.
    pub fn get_dao_member_count(&self) -> (r: u128)
        ensures
            r as int == self.spec_members().len(),
    {
        self.membership.member_count() as u128
    }

    /// The execution quorum; zero under the member-based model.
    pub fn quorum(&self) -> (r: u128)
        ensures
            r == self.spec_quorum(),
    {
        match &self.membership {
            Membership::MemberBased { .. } => 0,
            Membership::WeightBased { dao } => dao.quorum,
        }
    }
}

} // verus!
