use radix_oasis::amount::Amount;
use radix_oasis::component::OASISComponent;
use radix_oasis::proposal::{GovernanceError, OASISProposal, ProposalOutcome, ProposalPhase};

fn attos(n: u64) -> Amount {
    Amount::from_limbs(n, 0, 0).unwrap()
}

fn largest() -> Amount {
    Amount::from_limbs(u64::MAX, u64::MAX, 0x7fff_ffff_ffff_ffff).unwrap()
}

fn empty() -> OASISComponent {
    OASISComponent::instantiate(Amount::zero())
}

fn text(s: &str) -> String {
    String::from(s)
}

#[test]
fn lifecycle_scenario() {
    let mut c = empty();
    let id = c.create_proposal(text("raise the cap"), 100, 10).unwrap();
    assert_eq!(id, 1);
    assert_eq!(c.proposal(id).unwrap().end_time(), 110);

    assert_eq!(c.vote_proposal(id, true, attos(30), 50), Ok(()));
    assert_eq!(c.proposal(id).unwrap().votes_for(), attos(30));
    assert_eq!(c.proposal(id).unwrap().votes_against(), attos(0));

    assert_eq!(c.vote_proposal(id, false, attos(20), 60), Ok(()));
    assert_eq!(c.proposal(id).unwrap().votes_for(), attos(30));
    assert_eq!(c.proposal(id).unwrap().votes_against(), attos(20));

    assert_eq!(c.execute_proposal(id, 111), Ok(ProposalOutcome::Approved));
    assert!(c.proposal(id).unwrap().executed());

    assert_eq!(c.execute_proposal(id, 120), Err(GovernanceError::AlreadyExecuted));
    assert!(c.proposal(id).unwrap().executed());
    assert_eq!(c.custody(), attos(50));
}

#[test]
fn a_new_proposal_has_no_votes() {
    let mut c = empty();
    let id = c.create_proposal(text("describe me"), 7, 3).unwrap();
    let p = c.proposal(id).unwrap();
    assert_eq!(p.id(), 1);
    assert_eq!(p.description(), "describe me");
    assert_eq!(p.votes_for(), Amount::zero());
    assert_eq!(p.votes_against(), Amount::zero());
    assert_eq!(p.end_time(), 10);
    assert!(!p.executed());
}

#[test]
fn identifiers_count_up_from_one() {
    let mut c = empty();
    assert_eq!(c.create_proposal(text("a"), 1, 0), Ok(1));
    assert_eq!(c.create_proposal(text("b"), 1, 0), Ok(2));
    assert_eq!(c.create_proposal(text("c"), 1, 0), Ok(3));
    assert_eq!(c.proposal(2).unwrap().description(), "b");
    assert!(c.proposal(0).is_none());
    assert!(c.proposal(4).is_none());
}

#[test]
fn a_refused_creation_uses_no_identifier() {
    let mut c = empty();
    assert_eq!(c.create_proposal(text("a"), u64::MAX, 1), Err(GovernanceError::ArithmeticOverflow));
    assert!(c.proposal(1).is_none());
    assert_eq!(c.create_proposal(text("b"), 1, 1), Ok(1));
}

#[test]
fn the_deadline_may_be_the_last_instant() {
    let mut c = empty();
    assert_eq!(c.create_proposal(text("a"), u64::MAX - 5, 5), Ok(1));
    assert_eq!(c.proposal(1).unwrap().end_time(), u64::MAX);
    assert_eq!(c.create_proposal(text("b"), 0, u64::MAX), Ok(2));
    assert_eq!(c.proposal(2).unwrap().end_time(), u64::MAX);
    assert_eq!(c.vote_proposal(1, true, attos(1), u64::MAX), Ok(()));
    assert_eq!(c.execute_proposal(1, u64::MAX), Err(GovernanceError::VotingStillOpen));
    assert_eq!(c.create_proposal(text("c"), 1, u64::MAX), Err(GovernanceError::ArithmeticOverflow));
}

#[test]
fn a_proposal_of_no_duration_closes_at_once() {
    let mut c = empty();
    assert_eq!(c.create_proposal(text("a"), 0, 10), Ok(1));
    assert_eq!(c.vote_proposal(1, true, attos(1), 10), Ok(()));
    assert_eq!(c.vote_proposal(1, true, attos(1), 11), Err(GovernanceError::VotingClosed));
    assert_eq!(c.execute_proposal(1, 11), Ok(ProposalOutcome::Approved));
}

#[test]
fn vote_at_the_deadline_is_taken() {
    let mut c = empty();
    let id = c.create_proposal(text("p"), 100, 10).unwrap();
    assert_eq!(c.vote_proposal(id, true, attos(5), 110), Ok(()));
    assert_eq!(c.proposal(id).unwrap().votes_for(), attos(5));
}

#[test]
fn vote_after_the_deadline_is_refused() {
    let mut c = empty();
    let id = c.create_proposal(text("p"), 100, 10).unwrap();
    assert_eq!(c.vote_proposal(id, true, attos(5), 111), Err(GovernanceError::VotingClosed));
    assert_eq!(c.vote_proposal(id, false, attos(5), u64::MAX), Err(GovernanceError::VotingClosed));
    let p = c.proposal(id).unwrap();
    assert_eq!(p.votes_for(), attos(0));
    assert_eq!(p.votes_against(), attos(0));
    assert_eq!(c.custody(), attos(0));
}

#[test]
fn vote_on_unknown_proposal_is_refused() {
    let mut c = empty();
    assert_eq!(c.vote_proposal(1, true, attos(5), 0), Err(GovernanceError::NotFound));
    let id = c.create_proposal(text("p"), 100, 10).unwrap();
    assert_eq!(c.vote_proposal(id + 1, true, attos(5), 20), Err(GovernanceError::NotFound));
    assert_eq!(c.vote_proposal(0, true, attos(5), 20), Err(GovernanceError::NotFound));
    assert_eq!(c.custody(), attos(0));
    assert_eq!(c.proposal(id).unwrap().votes_for(), attos(0));
}

#[test]
fn tallies_are_the_sums_of_the_votes_taken() {
    let mut c = empty();
    let id = c.create_proposal(text("p"), 100, 0).unwrap();
    let votes: [(bool, u64, u64, bool); 8] = [
        (true, 3, 1, true),
        (false, 4, 2, true),
        (true, 5, 100, true),
        (true, 6, 101, false),
        (false, 7, 50, true),
        (false, 8, 200, false),
        (true, 0, 60, true),
        (true, 9, 100, true),
    ];
    let mut expect_for = 0u64;
    let mut expect_against = 0u64;
    for (support, weight, time, taken) in votes {
        let before = c.proposal(id).unwrap();
        let result = c.vote_proposal(id, support, attos(weight), time);
        assert_eq!(result.is_ok(), taken);
        if taken {
            if support {
                expect_for += weight;
            } else {
                expect_against += weight;
            }
        } else {
            assert_eq!(result, Err(GovernanceError::VotingClosed));
        }
        let after = c.proposal(id).unwrap();
        assert!(after.votes_for().covers(before.votes_for()));
        assert!(after.votes_against().covers(before.votes_against()));
        assert_eq!(after.votes_for(), attos(expect_for));
        assert_eq!(after.votes_against(), attos(expect_against));
        assert_eq!(c.custody(), attos(expect_for + expect_against));
    }
    assert_eq!(expect_for, 17);
    assert_eq!(expect_against, 11);
}

#[test]
fn one_caller_may_vote_again_and_again() {
    let mut c = empty();
    let id = c.create_proposal(text("p"), 10, 0).unwrap();
    for _ in 0..4 {
        assert_eq!(c.vote_proposal(id, true, attos(10), 5), Ok(()));
    }
    assert_eq!(c.proposal(id).unwrap().votes_for(), attos(40));
}

#[test]
fn a_vote_of_no_weight_is_taken_and_counts_for_nothing() {
    let mut c = empty();
    let id = c.create_proposal(text("p"), 10, 0).unwrap();
    assert_eq!(c.vote_proposal(id, true, Amount::zero(), 5), Ok(()));
    assert_eq!(c.proposal(id).unwrap().votes_for(), Amount::zero());
    assert_eq!(c.custody(), Amount::zero());
}

#[test]
fn votes_go_to_their_own_proposal() {
    let mut c = empty();
    let a = c.create_proposal(text("a"), 10, 0).unwrap();
    let b = c.create_proposal(text("b"), 20, 0).unwrap();
    assert_eq!(c.vote_proposal(a, true, attos(1), 5), Ok(()));
    assert_eq!(c.vote_proposal(b, false, attos(2), 15), Ok(()));
    assert_eq!(c.vote_proposal(a, false, attos(4), 15), Err(GovernanceError::VotingClosed));
    assert_eq!(c.proposal(a).unwrap().votes_for(), attos(1));
    assert_eq!(c.proposal(a).unwrap().votes_against(), attos(0));
    assert_eq!(c.proposal(b).unwrap().votes_for(), attos(0));
    assert_eq!(c.proposal(b).unwrap().votes_against(), attos(2));
    assert_eq!(c.custody(), attos(3));
}

#[test]
fn custody_starts_with_what_it_was_given() {
    let mut c = OASISComponent::instantiate(attos(1000));
    assert_eq!(c.custody(), attos(1000));
    let id = c.create_proposal(text("p"), 10, 0).unwrap();
    assert_eq!(c.vote_proposal(id, true, attos(5), 1), Ok(()));
    assert_eq!(c.custody(), attos(1005));
    assert_eq!(c.proposal(id).unwrap().votes_for(), attos(5));
}

#[test]
fn a_vote_that_custody_cannot_count_is_refused() {
    let mut c = OASISComponent::instantiate(largest());
    let id = c.create_proposal(text("p"), 10, 0).unwrap();
    assert_eq!(c.vote_proposal(id, true, attos(1), 1), Err(GovernanceError::ArithmeticOverflow));
    assert_eq!(c.proposal(id).unwrap().votes_for(), attos(0));
    assert_eq!(c.custody(), largest());
    assert_eq!(c.vote_proposal(id, true, attos(0), 1), Ok(()));
    assert_eq!(c.vote_proposal(id + 1, true, attos(1), 1), Err(GovernanceError::NotFound));
    assert_eq!(c.vote_proposal(id, true, attos(1), 11), Err(GovernanceError::VotingClosed));
}

#[test]
fn custody_may_reach_the_largest_amount() {
    let mut c = empty();
    let id = c.create_proposal(text("p"), 10, 0).unwrap();
    assert_eq!(c.vote_proposal(id, false, largest(), 1), Ok(()));
    assert_eq!(c.custody(), largest());
    assert_eq!(c.proposal(id).unwrap().votes_against(), largest());
    assert_eq!(c.vote_proposal(id, true, attos(1), 1), Err(GovernanceError::ArithmeticOverflow));
    assert_eq!(c.proposal(id).unwrap().votes_for(), attos(0));
    assert_eq!(c.execute_proposal(id, 11), Ok(ProposalOutcome::Rejected));
}

#[test]
fn execute_at_the_deadline_is_refused() {
    let mut c = empty();
    let id = c.create_proposal(text("p"), 100, 10).unwrap();
    assert_eq!(c.execute_proposal(id, 110), Err(GovernanceError::VotingStillOpen));
    assert_eq!(c.execute_proposal(id, 0), Err(GovernanceError::VotingStillOpen));
    assert!(!c.proposal(id).unwrap().executed());
    assert_eq!(c.execute_proposal(id, 111), Ok(ProposalOutcome::Rejected));
}

#[test]
fn execute_on_unknown_proposal_is_refused() {
    let mut c = empty();
    assert_eq!(c.execute_proposal(1, 1000), Err(GovernanceError::NotFound));
    assert_eq!(c.execute_proposal(0, 1000), Err(GovernanceError::NotFound));
}

#[test]
fn execute_twice_is_refused_and_changes_nothing() {
    let mut c = empty();
    let id = c.create_proposal(text("p"), 100, 10).unwrap();
    assert_eq!(c.vote_proposal(id, true, attos(3), 20), Ok(()));
    assert_eq!(c.vote_proposal(id, false, attos(9), 20), Ok(()));
    assert_eq!(c.execute_proposal(id, 200), Ok(ProposalOutcome::Rejected));
    let first = c.proposal(id).unwrap();
    assert!(first.executed());
    assert_eq!(c.execute_proposal(id, 200), Err(GovernanceError::AlreadyExecuted));
    assert_eq!(c.execute_proposal(id, u64::MAX), Err(GovernanceError::AlreadyExecuted));
    let second = c.proposal(id).unwrap();
    assert!(second.executed());
    assert_eq!(second.votes_for(), attos(3));
    assert_eq!(second.votes_against(), attos(9));
    assert_eq!(second.votes_for(), first.votes_for());
    assert_eq!(second.votes_against(), first.votes_against());
    assert_eq!(c.custody(), attos(12));
}

#[test]
fn a_tie_rejects() {
    let mut c = empty();
    let id = c.create_proposal(text("p"), 100, 10).unwrap();
    assert_eq!(c.vote_proposal(id, true, attos(50), 20), Ok(()));
    assert_eq!(c.vote_proposal(id, false, attos(50), 20), Ok(()));
    assert_eq!(c.execute_proposal(id, 111), Ok(ProposalOutcome::Rejected));
    assert!(c.proposal(id).unwrap().executed());
}

#[test]
fn no_votes_at_all_reject() {
    let mut c = empty();
    let id = c.create_proposal(text("p"), 100, 10).unwrap();
    assert_eq!(c.execute_proposal(id, 111), Ok(ProposalOutcome::Rejected));
}

#[test]
fn one_atto_more_in_favour_approves() {
    let mut c = empty();
    let id = c.create_proposal(text("p"), 100, 10).unwrap();
    assert_eq!(c.vote_proposal(id, true, attos(51), 20), Ok(()));
    assert_eq!(c.vote_proposal(id, false, attos(50), 20), Ok(()));
    assert_eq!(c.execute_proposal(id, 111), Ok(ProposalOutcome::Approved));
}

#[test]
fn one_atto_more_against_rejects() {
    let mut c = empty();
    let id = c.create_proposal(text("p"), 100, 10).unwrap();
    assert_eq!(c.vote_proposal(id, true, attos(50), 20), Ok(()));
    assert_eq!(c.vote_proposal(id, false, attos(51), 20), Ok(()));
    assert_eq!(c.execute_proposal(id, 111), Ok(ProposalOutcome::Rejected));
}

#[test]
fn majority_is_counted_over_all_limbs() {
    let mut c = empty();
    let id = c.create_proposal(text("p"), 100, 10).unwrap();
    let big = Amount::from_limbs(0, 0, 1).unwrap();
    assert_eq!(c.vote_proposal(id, true, big, 20), Ok(()));
    assert_eq!(c.vote_proposal(id, false, attos(u64::MAX), 20), Ok(()));
    assert_eq!(c.execute_proposal(id, 111), Ok(ProposalOutcome::Approved));
}

#[test]
fn phases_follow_the_clock_and_the_execution() {
    let mut c = empty();
    let id = c.create_proposal(text("p"), 100, 10).unwrap();
    let open = c.proposal(id).unwrap();
    assert_eq!(open.phase(10), ProposalPhase::Open);
    assert_eq!(open.phase(110), ProposalPhase::Open);
    assert_eq!(open.phase(111), ProposalPhase::Closed);
    assert_eq!(c.execute_proposal(id, 111), Ok(ProposalOutcome::Rejected));
    let done = c.proposal(id).unwrap();
    assert_eq!(done.phase(111), ProposalPhase::Executed);
    assert_eq!(done.phase(u64::MAX), ProposalPhase::Executed);
}

#[test]
fn a_proposal_on_its_own_takes_votes_and_is_executed() {
    let mut p = OASISProposal::new(7, text("alone"), 50);
    assert_eq!(p.id(), 7);
    assert_eq!(p.outcome(), ProposalOutcome::Rejected);
    assert_eq!(p.vote(true, attos(2), 50), Ok(()));
    assert_eq!(p.vote(false, attos(1), 0), Ok(()));
    assert_eq!(p.vote(false, attos(5), 51), Err(GovernanceError::VotingClosed));
    assert_eq!(p.votes_for(), attos(2));
    assert_eq!(p.votes_against(), attos(1));
    assert_eq!(p.outcome(), ProposalOutcome::Approved);
    assert_eq!(p.execute(50), Err(GovernanceError::VotingStillOpen));
    assert!(!p.executed());
    assert_eq!(p.execute(51), Ok(ProposalOutcome::Approved));
    assert!(p.executed());
    assert_eq!(p.execute(52), Err(GovernanceError::AlreadyExecuted));
    let copy = p.clone();
    assert_eq!(copy.id(), 7);
    assert_eq!(copy.description(), "alone");
    assert_eq!(copy.votes_for(), attos(2));
    assert_eq!(copy.votes_against(), attos(1));
    assert_eq!(copy.end_time(), 50);
    assert!(copy.executed());
}

#[test]
fn a_tally_that_an_amount_cannot_count_is_refused() {
    let mut p = OASISProposal::new(1, text("alone"), 50);
    assert_eq!(p.vote(true, largest(), 1), Ok(()));
    assert_eq!(p.vote(true, attos(1), 1), Err(GovernanceError::ArithmeticOverflow));
    assert_eq!(p.vote(true, attos(1), 51), Err(GovernanceError::VotingClosed));
    assert_eq!(p.votes_for(), largest());
    assert_eq!(p.vote(false, largest(), 1), Ok(()));
    assert_eq!(p.votes_against(), largest());
    assert_eq!(p.outcome(), ProposalOutcome::Rejected);
}

#[test]
fn each_refusal_has_its_own_label() {
    assert_eq!(GovernanceError::NotFound.message(), "Proposal does not exist");
    assert_eq!(
        GovernanceError::VotingClosed.message(),
        "Voting period has ended for this proposal"
    );
    assert_eq!(GovernanceError::VotingStillOpen.message(), "Voting period has not ended");
    assert_eq!(
        GovernanceError::AlreadyExecuted.message(),
        "Proposal has already been executed"
    );
    assert_eq!(GovernanceError::ArithmeticOverflow.message(), "Overflow");
}
