use rwa::AccountId;
use rwa::GovernanceError;
use rwa::Rwa;

#[test]
fn weight_based_full_lifecycle() {
    // quorum 10; member C with power 15 creates proposal 0, votes, and
    // executes (15 > 10). Member D with power 5 creates proposal 1, votes,
    // and fails to execute (5 > 10 is false).
    let owner = AccountId::new(10);
    let c = AccountId::new(11);
    let d = AccountId::new(12);
    let mut g = Rwa::new(owner);

    assert_eq!(g.add_rwa_dao_member(owner, c, 15), Ok(()));
    assert_eq!(g.create_proposal(c), Ok(0));
    assert_eq!(g.vote_for_proposal(c, 0, true), Ok(()));
    assert_eq!(g.get_proposal(0).unwrap().for_votes, 15);
    assert_eq!(g.execute_proposal(c, 0), Ok(()));
    assert!(g.get_proposal(0).unwrap().executed);

    assert_eq!(g.add_rwa_dao_member(owner, d, 5), Ok(()));
    assert_eq!(g.create_proposal(d), Ok(1));
    assert_eq!(g.vote_for_proposal(d, 1, true), Ok(()));
    assert_eq!(g.get_proposal(1).unwrap().for_votes, 5);
    assert_eq!(g.execute_proposal(d, 1), Err(GovernanceError::QuorumNotMet));
    assert!(!g.get_proposal(1).unwrap().executed);
}

#[test]
fn proposal_ids_start_at_zero_and_step_by_one() {
    let owner = AccountId::new(1);
    let c = AccountId::new(2);
    let outsider = AccountId::new(3);
    let mut g = Rwa::new(owner);
    assert_eq!(g.get_proposal_counter(), 0);
    assert_eq!(g.add_rwa_dao_member(owner, c, 1), Ok(()));

    assert_eq!(g.create_proposal(c), Ok(0));
    assert_eq!(g.create_proposal(c), Ok(1));

    // A rejected creation consumes no counter value.
    assert_eq!(g.create_proposal(outsider), Err(GovernanceError::NotAMember));
    assert_eq!(g.get_proposal_counter(), 2);

    assert_eq!(g.create_proposal(c), Ok(2));
    assert_eq!(g.get_proposal_counter(), 3);
}

#[test]
fn weight_based_creation_requires_membership() {
    let owner = AccountId::new(1);
    let outsider = AccountId::new(3);
    let mut g = Rwa::new(owner);
    // The owner is not automatically a member.
    assert_eq!(g.create_proposal(owner), Err(GovernanceError::NotAMember));
    assert_eq!(g.create_proposal(outsider), Err(GovernanceError::NotAMember));
    assert_eq!(g.get_proposal_counter(), 0);
}

#[test]
fn tally_exactly_at_quorum_does_not_execute() {
    let owner = AccountId::new(1);
    let c = AccountId::new(2);
    let mut g = Rwa::new_weight_based(owner, 10, 300);
    assert_eq!(g.add_rwa_dao_member(owner, c, 10), Ok(()));
    assert_eq!(g.create_proposal(c), Ok(0));
    assert_eq!(g.vote_for_proposal(c, 0, true), Ok(()));
    assert_eq!(g.get_proposal(0).unwrap().for_votes, 10);
    assert_eq!(g.execute_proposal(c, 0), Err(GovernanceError::QuorumNotMet));
    assert!(!g.get_proposal(0).unwrap().executed);
}

#[test]
fn against_votes_are_not_recorded_in_weight_based_mode() {
    let owner = AccountId::new(1);
    let c = AccountId::new(2);
    let mut g = Rwa::new(owner);
    assert_eq!(g.add_rwa_dao_member(owner, c, 7), Ok(()));
    assert_eq!(g.create_proposal(c), Ok(0));
    assert_eq!(g.vote_for_proposal(c, 0, false), Ok(()));
    let p = g.get_proposal(0).unwrap();
    assert_eq!(p.for_votes, 0);
    assert_eq!(p.against_votes, 0);
}

#[test]
fn votes_on_an_executed_proposal_are_rejected() {
    let owner = AccountId::new(1);
    let c = AccountId::new(2);
    let mut g = Rwa::new(owner);
    assert_eq!(g.add_rwa_dao_member(owner, c, 50), Ok(()));
    assert_eq!(g.create_proposal(c), Ok(0));
    assert_eq!(g.vote_for_proposal(c, 0, true), Ok(()));
    assert_eq!(g.execute_proposal(c, 0), Ok(()));
    assert_eq!(g.vote_for_proposal(c, 0, true), Err(GovernanceError::AlreadyExecuted));
    assert_eq!(g.get_proposal(0).unwrap().for_votes, 50);
}

#[test]
fn missing_proposals_are_reported() {
    let owner = AccountId::new(1);
    let c = AccountId::new(2);
    let mut g = Rwa::new(owner);
    assert_eq!(g.add_rwa_dao_member(owner, c, 1), Ok(()));
    assert!(g.get_proposal(0).is_none());
    assert_eq!(g.vote_for_proposal(c, 0, true), Err(GovernanceError::ProposalNotFound));
    assert_eq!(g.execute_proposal(c, 5), Err(GovernanceError::ProposalNotFound));
}

#[test]
fn non_owner_member_changes_have_no_effect() {
    let owner = AccountId::new(1);
    let c = AccountId::new(2);
    let eve = AccountId::new(9);
    let mut g = Rwa::new(owner);
    assert_eq!(g.add_rwa_dao_member(owner, c, 3), Ok(()));

    assert_eq!(g.add_rwa_dao_member(eve, eve, 100), Err(GovernanceError::Unauthorized));
    assert_eq!(g.remove_rwa_dao_member(eve, c), Err(GovernanceError::Unauthorized));

    assert_eq!(g.get_dao_member_count(), 1);
    assert_eq!(g.get_dao_members(), vec![c]);
    assert_eq!(g.create_proposal(eve), Err(GovernanceError::NotAMember));
}

#[test]
fn duplicate_entries_are_kept_and_the_first_one_wins() {
    let owner = AccountId::new(1);
    let c = AccountId::new(2);
    let mut g = Rwa::new(owner);
    assert_eq!(g.add_rwa_dao_member(owner, c, 15), Ok(()));
    assert_eq!(g.add_rwa_dao_member(owner, c, 5), Ok(()));
    assert_eq!(g.get_dao_member_count(), 2);
    assert_eq!(g.get_dao_members(), vec![c, c]);

    // A ballot carries the first entry's power.
    assert_eq!(g.create_proposal(c), Ok(0));
    assert_eq!(g.vote_for_proposal(c, 0, true), Ok(()));
    assert_eq!(g.get_proposal(0).unwrap().for_votes, 15);

    // Removal deletes the first matching entry only.
    assert_eq!(g.remove_rwa_dao_member(owner, c), Ok(()));
    assert_eq!(g.get_dao_member_count(), 1);
    assert_eq!(g.create_proposal(c), Ok(1));
    assert_eq!(g.vote_for_proposal(c, 1, true), Ok(()));
    assert_eq!(g.get_proposal(1).unwrap().for_votes, 5);
}

#[test]
fn removing_an_absent_account_reports_it() {
    let owner = AccountId::new(1);
    let absent = AccountId::new(4);
    let mut g = Rwa::new(owner);
    assert_eq!(g.remove_rwa_dao_member(owner, absent), Err(GovernanceError::NotAMember));
    assert_eq!(g.get_dao_member_count(), 0);
}

#[test]
fn tallies_saturate_at_the_largest_value() {
    let owner = AccountId::new(1);
    let c = AccountId::new(2);
    let mut g = Rwa::new(owner);
    assert_eq!(g.add_rwa_dao_member(owner, c, u128::MAX), Ok(()));
    assert_eq!(g.create_proposal(c), Ok(0));
    assert_eq!(g.vote_for_proposal(c, 0, true), Ok(()));
    assert_eq!(g.get_proposal(0).unwrap().for_votes, u128::MAX);
    assert_eq!(g.vote_for_proposal(c, 0, true), Ok(()));
    assert_eq!(g.get_proposal(0).unwrap().for_votes, u128::MAX);
}

#[test]
fn queries_report_the_configured_state() {
    let owner = AccountId::new(42);
    let c = AccountId::new(2);
    let d = AccountId::new(3);
    let mut g = Rwa::new_weight_based(owner, 77, 500);
    assert_eq!(g.get_owner(), owner);
    assert_eq!(g.get_proposal_counter(), 0);
    assert!(g.get_proposal(0).is_none());
    assert_eq!(g.add_rwa_dao_member(owner, c, 1), Ok(()));
    assert_eq!(g.add_rwa_dao_member(owner, d, 2), Ok(()));
    // Enumeration keeps insertion order.
    assert_eq!(g.get_dao_members(), vec![c, d]);
    assert_eq!(g.get_dao_member_count(), 2);

    assert_eq!(g.create_proposal(c), Ok(0));
    let p = g.get_proposal(0).unwrap();
    assert_eq!(p.creator, c);
    assert_eq!(p.for_votes, 0);
    assert_eq!(p.against_votes, 0);
    assert!(!p.executed);

    // A tally of 3 does not clear quorum 77, even with every member in favor.
    assert_eq!(g.vote_for_proposal(c, 0, true), Ok(()));
    assert_eq!(g.vote_for_proposal(d, 0, true), Ok(()));
    assert_eq!(g.get_proposal(0).unwrap().for_votes, 3);
    assert_eq!(g.execute_proposal(c, 0), Err(GovernanceError::QuorumNotMet));
}
