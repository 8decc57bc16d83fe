//! What holds of the component, whatever is done with it.
//!
//! Each law is a theorem about the mathematical state of the component and
//! the functions that take it from one state to the next, the same
//! functions in which the contracts of the operations are written.

use crate::amount::max_attos;
use crate::entity::{EntityView, OASISEntityType};
use crate::model::{
    lemma_tallied_agrees, lemma_tallied_insert, tallied, ComponentView, Operation, Vote,
};
use crate::proposal::{GovernanceError, ProposalOutcome, ProposalPhase};
use vstd::prelude::*;

verus! {

/// All the weight voted on the proposals of a state.
pub open spec fn voted_in_all(state: ComponentView) -> nat {
    tallied(state.proposals, (state.next_proposal_id - 1) as nat)
}

/// Every operation keeps the invariant, whether it is accepted or refused,
/// and leaves as much value in custody beyond the weight voted as it found.
pub proof fn law_invariant_is_kept(state: ComponentView, operation: Operation)
    requires
        state.inv(),
    ensures
        state.after(operation).inv(),
        state.after(operation).custody - voted_in_all(state.after(operation)) == state.custody
            - voted_in_all(state),
{
    let next = state.after(operation);
    let upto = (state.next_proposal_id - 1) as nat;
    match operation {
        Operation::Create { entity } => {},
        Operation::Update { numeric_id, info_json, entity_type } => {},
        Operation::Delete { numeric_id } => {},
        Operation::CreateProposal { description, duration, now } => {
            if next != state {
                lemma_tallied_agrees(state.proposals, next.proposals, upto);
            }
        },
        Operation::VoteProposal { vote } => {
            if next != state {
                assert(state.proposals.contains_key(vote.proposal_id));
                lemma_tallied_insert(
                    state.proposals,
                    upto,
                    vote.proposal_id,
                    next.proposals[vote.proposal_id],
                );
            }
        },
        Operation::ExecuteProposal { proposal_id, now } => {
            if next != state {
                assert(state.proposals.contains_key(proposal_id));
                lemma_tallied_insert(
                    state.proposals,
                    upto,
                    proposal_id,
                    next.proposals[proposal_id],
                );
            }
        },
    }
}

/// Every state that a component reaches from its creation satisfies the
/// invariant.
pub proof fn law_invariant_holds_throughout(tokens: nat, operations: Seq<Operation>)
    requires
        tokens <= max_attos(),
    ensures
        ComponentView::genesis(tokens).after_all(operations).inv(),
    decreases operations.len(),
{
    if operations.len() > 0 {
        law_invariant_holds_throughout(tokens, operations.drop_last());
        law_invariant_is_kept(
            ComponentView::genesis(tokens).after_all(operations.drop_last()),
            operations.last(),
        );
    }
}

/// No identifier holds two records: once a record is created, creating
/// another under the same numeric identifier is refused and leaves the first
/// as it is.
pub proof fn law_create_is_unique(state: ComponentView, first: EntityView, second: EntityView)
    requires
        state.create(first).1,
        second.numeric_id == first.numeric_id,
    ensures
        ({
            let created = state.create(first).0;
            &&& created.get(first.numeric_id) == Some(first)
            &&& !created.create(second).1
            &&& created.create(second).0 == created
        }),
{
}

/// An update replaces the fields that it is given and no other; the other
/// records, the proposals and the custody stay as they are.
pub proof fn law_update_is_partial(
    state: ComponentView,
    numeric_id: u64,
    info_json: Option<Seq<char>>,
    entity_type: Option<OASISEntityType>,
)
    requires
        state.entities.contains_key(numeric_id),
    ensures
        ({
            let (updated, found) = state.update(numeric_id, info_json, entity_type);
            let before = state.entities[numeric_id];
            let after = updated.entities[numeric_id];
            &&& found
            &&& updated.entities.dom() == state.entities.dom()
            &&& after.numeric_id == before.numeric_id
            &&& after.guid_id == before.guid_id
            &&& info_json matches Some(text) ==> after.info_json == text
            &&& info_json is None ==> after.info_json == before.info_json
            &&& entity_type matches Some(kind) ==> after.entity_type == kind
            &&& entity_type is None ==> after.entity_type == before.entity_type
            &&& forall|k: u64|
                k != numeric_id && state.entities.contains_key(k) ==> #[trigger] updated.entities[k]
                    == state.entities[k]
            &&& updated.proposals == state.proposals
            &&& updated.custody == state.custody
            &&& updated.next_proposal_id == state.next_proposal_id
        }),
{
    let updated = state.update(numeric_id, info_json, entity_type).0;
    assert(updated.entities.dom() =~= state.entities.dom());
}

/// An update that is given no field changes nothing.
pub proof fn law_empty_update_is_void(state: ComponentView, numeric_id: u64)
    ensures
        state.update(numeric_id, None, None).0 == state,
{
    let updated = state.update(numeric_id, None, None).0;
    assert(updated.entities =~= state.entities);
}

/// No vote lowers a tally of any proposal, and a vote that is taken raises
/// the tally of its side, and the custody, by exactly its weight and nothing
/// else.
pub proof fn law_vote_adds_its_weight(state: ComponentView, vote: Vote, proposal_id: u64)
    requires
        state.proposals.contains_key(proposal_id),
    ensures
        ({
            let next = state.after_vote(vote);
            let before = state.proposals[proposal_id];
            let after = next.proposals[proposal_id];
            let (for_it, against_it): (nat, nat) = if state.accepts(vote) && vote.proposal_id
                == proposal_id {
                if vote.support {
                    (vote.weight, 0)
                } else {
                    (0, vote.weight)
                }
            } else {
                (0, 0)
            };
            &&& next.proposals.contains_key(proposal_id)
            &&& after.votes_for == before.votes_for + for_it
            &&& after.votes_against == before.votes_against + against_it
            &&& next.custody == state.custody + if state.accepts(vote) {
                vote.weight
            } else {
                0
            }
            &&& !state.accepts(vote) ==> next == state
        }),
{
}

/// After any votes, the tallies of a proposal are what they were plus the
/// weight of the votes that were taken for it, side by side.
pub proof fn law_tallies_sum_accepted_votes(
    state: ComponentView,
    votes: Seq<Vote>,
    proposal_id: u64,
)
    requires
        state.proposals.contains_key(proposal_id),
    ensures
        ({
            let end = state.after_votes(votes);
            let before = state.proposals[proposal_id];
            let after = end.proposals[proposal_id];
            &&& end.proposals.contains_key(proposal_id)
            &&& after.votes_for == before.votes_for + state.accepted_weight(
                votes,
                proposal_id,
                true,
            )
            &&& after.votes_against == before.votes_against + state.accepted_weight(
                votes,
                proposal_id,
                false,
            )
        }),
    decreases votes.len(),
{
    if votes.len() > 0 {
        law_tallies_sum_accepted_votes(state, votes.drop_last(), proposal_id);
        law_vote_adds_its_weight(state.after_votes(votes.drop_last()), votes.last(), proposal_id);
    }
}

/// Along any votes, the tallies after some of them are no more than the
/// tallies after more of them.
pub proof fn law_tallies_never_fall(
    state: ComponentView,
    votes: Seq<Vote>,
    proposal_id: u64,
    sooner: int,
    later: int,
)
    requires
        state.proposals.contains_key(proposal_id),
        0 <= sooner <= later <= votes.len(),
    ensures
        ({
            let early = state.after_votes(votes.take(sooner)).proposals[proposal_id];
            let late = state.after_votes(votes.take(later)).proposals[proposal_id];
            &&& early.votes_for <= late.votes_for
            &&& early.votes_against <= late.votes_against
        }),
    decreases later - sooner,
{
    if sooner < later {
        law_tallies_never_fall(state, votes, proposal_id, sooner, later - 1);
        assert(votes.take(later).drop_last() =~= votes.take(later - 1));
        let reached = state.after_votes(votes.take(later - 1));
        law_tallies_sum_accepted_votes(state, votes.take(later - 1), proposal_id);
        law_vote_adds_its_weight(reached, votes.take(later).last(), proposal_id);
    }
}

/// A vote at the deadline itself is taken, a vote one unit of time later is
/// refused as closed. The vote at the deadline is one whose weight the
/// custody can still count.
pub proof fn law_voting_window(state: ComponentView, proposal_id: u64, support: bool, weight: nat)
    requires
        state.proposals.contains_key(proposal_id),
        state.custody + weight <= max_attos(),
    ensures
        ({
            let deadline = state.proposals[proposal_id].end_time;
            &&& state.vote_proposal(proposal_id, support, weight, deadline).1 is Ok
            &&& deadline < u64::MAX ==> state.vote_proposal(
                proposal_id,
                support,
                weight,
                (deadline + 1) as u64,
            ) == (state, Err::<(), GovernanceError>(GovernanceError::VotingClosed))
        }),
{
}

/// A vote on a known proposal is refused as closed exactly when it comes
/// after the deadline, whatever its weight.
pub proof fn law_votes_close_after_the_deadline(
    state: ComponentView,
    proposal_id: u64,
    support: bool,
    weight: nat,
    now: u64,
)
    requires
        state.proposals.contains_key(proposal_id),
    ensures
        state.vote_proposal(proposal_id, support, weight, now).1 == Err::<(), GovernanceError>(
            GovernanceError::VotingClosed,
        ) <==> now > state.proposals[proposal_id].end_time,
{
}

/// A proposal is executed once. After an execution that succeeded, the
/// proposal is marked as executed, and a second execution is refused and
/// changes nothing, the tallies least of all. The second is refused as
/// already executed where it comes after the deadline, as the first did.
pub proof fn law_execute_once(state: ComponentView, proposal_id: u64, first: u64, second: u64)
    requires
        state.execute_proposal(proposal_id, first).1 is Ok,
    ensures
        ({
            let executed = state.execute_proposal(proposal_id, first).0;
            let again = executed.execute_proposal(proposal_id, second);
            &&& executed.proposals[proposal_id].executed
            &&& executed.proposals[proposal_id].votes_for == state.proposals[proposal_id].votes_for
            &&& executed.proposals[proposal_id].votes_against
                == state.proposals[proposal_id].votes_against
            &&& again.1 is Err
            &&& again.0 == executed
            &&& second > state.proposals[proposal_id].end_time ==> again.1 == Err::<
                ProposalOutcome,
                GovernanceError,
            >(GovernanceError::AlreadyExecuted)
            &&& second >= first ==> again.1 == Err::<ProposalOutcome, GovernanceError>(
                GovernanceError::AlreadyExecuted,
            )
        }),
{
}

/// An execution approves exactly where the weight in favour is strictly
/// more than the weight against; on a tie it rejects.
pub proof fn law_strict_majority(state: ComponentView, proposal_id: u64, now: u64)
    requires
        state.execute_proposal(proposal_id, now).1 is Ok,
    ensures
        ({
            let proposal = state.proposals[proposal_id];
            let outcome = state.execute_proposal(proposal_id, now).1->Ok_0;
            &&& outcome == ProposalOutcome::Approved <==> proposal.votes_for
                > proposal.votes_against
            &&& proposal.votes_for == proposal.votes_against ==> outcome
                == ProposalOutcome::Rejected
        }),
{
}

/// An execution is accepted on a known proposal in its closed phase, which
/// is after its deadline and before any execution, and then only; and it
/// takes the proposal to its executed phase.
pub proof fn law_execution_window(state: ComponentView, proposal_id: u64, now: u64)
    ensures
        state.execute_proposal(proposal_id, now).1 is Ok <==> state.proposals.contains_key(
            proposal_id,
        ) && now > state.proposals[proposal_id].end_time && !state.proposals[proposal_id].executed,
        state.execute_proposal(proposal_id, now).1 is Ok <==> state.proposals.contains_key(
            proposal_id,
        ) && state.proposals[proposal_id].phase(now) == ProposalPhase::Closed,
        state.execute_proposal(proposal_id, now).1 is Ok ==> forall|later: u64|
            #[trigger] state.execute_proposal(proposal_id, now).0.proposals[proposal_id].phase(
                later,
            ) == ProposalPhase::Executed,
{
}

/// A vote on a proposal in its open phase is taken, if the custody can
/// count its weight; on a proposal in its closed phase it is refused.
pub proof fn law_votes_follow_the_phase(
    state: ComponentView,
    proposal_id: u64,
    support: bool,
    weight: nat,
    now: u64,
)
    requires
        state.proposals.contains_key(proposal_id),
    ensures
        state.proposals[proposal_id].phase(now) == ProposalPhase::Open && state.custody + weight
            <= max_attos() ==> state.vote_proposal(proposal_id, support, weight, now).1 is Ok,
        state.proposals[proposal_id].phase(now) == ProposalPhase::Closed ==> state.vote_proposal(
            proposal_id,
            support,
            weight,
            now,
        ) == (state, Err::<(), GovernanceError>(GovernanceError::VotingClosed)),
{
}

/// The life of a proposal goes one way. Whatever operation comes, a proposal
/// stays, under its identifier and with its description and deadline; its
/// tallies do not fall; and once it is executed it stays executed.
pub proof fn law_proposals_only_advance(
    state: ComponentView,
    operation: Operation,
    proposal_id: u64,
)
    requires
        state.inv(),
        state.proposals.contains_key(proposal_id),
    ensures
        ({
            let before = state.proposals[proposal_id];
            let after = state.after(operation).proposals[proposal_id];
            &&& state.after(operation).proposals.contains_key(proposal_id)
            &&& after.id == before.id
            &&& after.description == before.description
            &&& after.end_time == before.end_time
            &&& after.votes_for >= before.votes_for
            &&& after.votes_against >= before.votes_against
            &&& before.executed ==> after.executed
            &&& before.executed ==> after == before || operation is VoteProposal
        }),
{
}

/// The same over any history: after any operations, a proposal is still
/// there, with tallies no lower than they were, and executed if it was.
pub proof fn law_history_only_advances(
    state: ComponentView,
    operations: Seq<Operation>,
    proposal_id: u64,
)
    requires
        state.inv(),
        state.proposals.contains_key(proposal_id),
    ensures
        ({
            let before = state.proposals[proposal_id];
            let after = state.after_all(operations).proposals[proposal_id];
            &&& state.after_all(operations).inv()
            &&& state.after_all(operations).proposals.contains_key(proposal_id)
            &&& after.id == before.id
            &&& after.description == before.description
            &&& after.end_time == before.end_time
            &&& after.votes_for >= before.votes_for
            &&& after.votes_against >= before.votes_against
            &&& before.executed ==> after.executed
        }),
    decreases operations.len(),
{
    if operations.len() > 0 {
        let earlier = state.after_all(operations.drop_last());
        law_history_only_advances(state, operations.drop_last(), proposal_id);
        law_invariant_is_kept(earlier, operations.last());
        law_proposals_only_advance(earlier, operations.last(), proposal_id);
    }
}

/// Identifiers are never reused: a proposal that is created gets an
/// identifier that no proposal had, and no operation lowers the next
/// identifier or the custody.
pub proof fn law_identifiers_are_fresh(state: ComponentView, operation: Operation)
    requires
        state.inv(),
    ensures
        state.after(operation).next_proposal_id >= state.next_proposal_id,
        state.after(operation).custody >= state.custody,
        operation matches Operation::CreateProposal { description, duration, now } ==> (
        state.create_proposal(description, duration, now).1 matches Ok(id)
            ==> !state.proposals.contains_key(id) && id == state.next_proposal_id
            && state.after(operation).next_proposal_id == id + 1),
{
}

} // verus!
