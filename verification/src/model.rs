//! The component as mathematics: its state as maps and natural numbers, and
//! each operation as a function from a state and its arguments to the next
//! state and the operation's result.
//!
//! A refused operation returns the state it was given.

use crate::amount::max_attos;
use crate::entity::{EntityView, OASISEntityType};
use crate::proposal::{GovernanceError, ProposalOutcome, ProposalView};
use vstd::prelude::*;

verus! {

/// All the weight voted on the proposals numbered `1` to `upto`.
pub open spec fn tallied(proposals: Map<u64, ProposalView>, upto: nat) -> nat
    decreases upto,
{
    if upto == 0 {
        0
    } else {
        tallied(proposals, (upto - 1) as nat) + proposals[upto as u64].voted()
    }
}

/// Whether `records` holds each record of `of` once, in whatever order.
pub open spec fn is_listing(records: Seq<EntityView>, of: Map<u64, EntityView>) -> bool {
    &&& forall|i: int|
        0 <= i < records.len() ==> of.contains_key((#[trigger] records[i]).numeric_id)
            && of[records[i].numeric_id] == records[i]
    &&& forall|i: int, j: int|
        0 <= i < j < records.len() ==> (#[trigger] records[i]).numeric_id != (
        #[trigger] records[j]).numeric_id
    &&& forall|k: u64| #[trigger]
        of.contains_key(k) ==> exists|i: int|
            0 <= i < records.len() && (#[trigger] records[i]).numeric_id == k
}

/// The state of a component.
pub ghost struct ComponentView {
    /// The value held in custody, in attos.
    pub custody: nat,
    /// The proposals, each under its identifier.
    pub proposals: Map<u64, ProposalView>,
    /// The live entity records, each under its numeric identifier.
    pub entities: Map<u64, EntityView>,
    /// The identifier that the next proposal gets.
    pub next_proposal_id: u64,
}

impl ComponentView {
    /// The state of a new component that was handed `tokens` attos.
    pub open spec fn genesis(tokens: nat) -> ComponentView {
        ComponentView {
            custody: tokens,
            proposals: Map::empty(),
            entities: Map::empty(),
            next_proposal_id: 1,
        }
    }

    /// What holds of every state that a component reaches.
    ///
    /// Each entity is stored under its own numeric identifier. The proposals
    /// are exactly those numbered from 1 up to the next identifier, each
    /// under its own. All the weight that was ever voted is in custody, and
    /// the custody is no more than an amount can count.
    pub open spec fn inv(self) -> bool {
        &&& forall|k: u64| #[trigger]
            self.entities.contains_key(k) ==> self.entities[k].numeric_id == k
        &&& self.next_proposal_id >= 1
        &&& forall|k: u64| #[trigger]
            self.proposals.contains_key(k) <==> 1 <= k < self.next_proposal_id
        &&& forall|k: u64| #[trigger]
            self.proposals.contains_key(k) ==> self.proposals[k].id == k
        &&& tallied(self.proposals, (self.next_proposal_id - 1) as nat) <= self.custody
        &&& self.custody <= max_attos()
    }

    /// `create`: the record is stored under its numeric identifier unless a
    /// record is there already.
    pub open spec fn create(self, entity: EntityView) -> (ComponentView, bool) {
        if self.entities.contains_key(entity.numeric_id) {
            (self, false)
        } else {
            (
                ComponentView {
                    entities: self.entities.insert(entity.numeric_id, entity),
                    ..self
                },
                true,
            )
        }
    }

    /// `update`: of the record under `numeric_id`, the fields that are given
    /// are replaced and the others kept.
    pub open spec fn update(
        self,
        numeric_id: u64,
        info_json: Option<Seq<char>>,
        entity_type: Option<OASISEntityType>,
    ) -> (ComponentView, bool) {
        if self.entities.contains_key(numeric_id) {
            let before = self.entities[numeric_id];
            let after = EntityView {
                info_json: match info_json {
                    Some(text) => text,
                    None => before.info_json,
                },
                entity_type: match entity_type {
                    Some(kind) => kind,
                    None => before.entity_type,
                },
                ..before
            };
            (ComponentView { entities: self.entities.insert(numeric_id, after), ..self }, true)
        } else {
            (self, false)
        }
    }

    /// `get`: the record under `numeric_id`, if there is one.
    pub open spec fn get(self, numeric_id: u64) -> Option<EntityView> {
        if self.entities.contains_key(numeric_id) {
            Some(self.entities[numeric_id])
        } else {
            None
        }
    }

    /// `delete`: the record under `numeric_id` is removed, if there is one.
    pub open spec fn delete(self, numeric_id: u64) -> (ComponentView, bool) {
        if self.entities.contains_key(numeric_id) {
            (ComponentView { entities: self.entities.remove(numeric_id), ..self }, true)
        } else {
            (self, false)
        }
    }

    /// The live records of one kind.
    pub open spec fn entities_of_type(self, entity_type: OASISEntityType) -> Map<u64, EntityView> {
        Map::new(
            |k: u64| self.entities.contains_key(k) && self.entities[k].entity_type == entity_type,
            |k: u64| self.entities[k],
        )
    }

    /// `create_proposal` at time `now`: the next identifier is assigned to a
    /// fresh proposal that is open until `now + duration`.
    pub open spec fn create_proposal(self, description: Seq<char>, duration: u64, now: u64) -> (
        ComponentView,
        Result<u64, GovernanceError>,
    ) {
        if self.next_proposal_id == u64::MAX || now + duration > u64::MAX {
            (self, Err(GovernanceError::ArithmeticOverflow))
        } else {
            let id = self.next_proposal_id;
            (
                ComponentView {
                    proposals: self.proposals.insert(
                        id,
                        ProposalView::fresh(id, description, (now + duration) as u64),
                    ),
                    next_proposal_id: (id + 1) as u64,
                    ..self
                },
                Ok(id),
            )
        }
    }

    /// `vote_proposal` at time `now`: the weight goes to the proposal's
    /// tally on the side that `support` names, and into custody.
    pub open spec fn vote_proposal(self, proposal_id: u64, support: bool, weight: nat, now: u64) -> (
        ComponentView,
        Result<(), GovernanceError>,
    ) {
        if !self.proposals.contains_key(proposal_id) {
            (self, Err(GovernanceError::NotFound))
        } else if now > self.proposals[proposal_id].end_time {
            (self, Err(GovernanceError::VotingClosed))
        } else if self.custody + weight > max_attos() {
            (self, Err(GovernanceError::ArithmeticOverflow))
        } else {
            (
                ComponentView {
                    custody: self.custody + weight,
                    proposals: self.proposals.insert(
                        proposal_id,
                        self.proposals[proposal_id].with_vote(support, weight),
                    ),
                    ..self
                },
                Ok(()),
            )
        }
    }

    /// `execute_proposal` at time `now`: the proposal is decided on its
    /// tallies and marked as executed.
    pub open spec fn execute_proposal(self, proposal_id: u64, now: u64) -> (
        ComponentView,
        Result<ProposalOutcome, GovernanceError>,
    ) {
        if !self.proposals.contains_key(proposal_id) {
            (self, Err(GovernanceError::NotFound))
        } else if now <= self.proposals[proposal_id].end_time {
            (self, Err(GovernanceError::VotingStillOpen))
        } else if self.proposals[proposal_id].executed {
            (self, Err(GovernanceError::AlreadyExecuted))
        } else {
            (
                ComponentView {
                    proposals: self.proposals.insert(
                        proposal_id,
                        self.proposals[proposal_id].with_execution(),
                    ),
                    ..self
                },
                Ok(self.proposals[proposal_id].outcome()),
            )
        }
    }
}

/// One vote, as it reaches the component.
pub ghost struct Vote {
    pub proposal_id: u64,
    pub support: bool,
    pub weight: nat,
    pub time: u64,
}

/// One call of an operation that can change the state, with its arguments.
pub ghost enum Operation {
    Create { entity: EntityView },
    Update { numeric_id: u64, info_json: Option<Seq<char>>, entity_type: Option<OASISEntityType> },
    Delete { numeric_id: u64 },
    CreateProposal { description: Seq<char>, duration: u64, now: u64 },
    VoteProposal { vote: Vote },
    ExecuteProposal { proposal_id: u64, now: u64 },
}

impl ComponentView {
    /// The state after one vote; the same state where the vote is refused.
    pub open spec fn after_vote(self, vote: Vote) -> ComponentView {
        self.vote_proposal(vote.proposal_id, vote.support, vote.weight, vote.time).0
    }

    /// Whether the vote is taken in this state.
    pub open spec fn accepts(self, vote: Vote) -> bool {
        self.vote_proposal(vote.proposal_id, vote.support, vote.weight, vote.time).1 is Ok
    }

    /// The state after the votes, cast one after the other.
    pub open spec fn after_votes(self, votes: Seq<Vote>) -> ComponentView
        decreases votes.len(),
    {
        if votes.len() == 0 {
            self
        } else {
            self.after_votes(votes.drop_last()).after_vote(votes.last())
        }
    }

    /// The weight of those of the votes, cast one after the other, that are
    /// taken for the given proposal on the given side.
    pub open spec fn accepted_weight(self, votes: Seq<Vote>, proposal_id: u64, support: bool) -> nat
        decreases votes.len(),
    {
        if votes.len() == 0 {
            0
        } else {
            let earlier = votes.drop_last();
            let vote = votes.last();
            let counted: nat = if vote.proposal_id == proposal_id && vote.support == support
                && self.after_votes(earlier).accepts(vote) {
                vote.weight
            } else {
                0
            };
            self.accepted_weight(earlier, proposal_id, support) + counted
        }
    }

    /// The state after one operation, whatever it returns.
    pub open spec fn after(self, operation: Operation) -> ComponentView {
        match operation {
            Operation::Create { entity } => self.create(entity).0,
            Operation::Update { numeric_id, info_json, entity_type } => self.update(
                numeric_id,
                info_json,
                entity_type,
            ).0,
            Operation::Delete { numeric_id } => self.delete(numeric_id).0,
            Operation::CreateProposal { description, duration, now } => self.create_proposal(
                description,
                duration,
                now,
            ).0,
            Operation::VoteProposal { vote } => self.after_vote(vote),
            Operation::ExecuteProposal { proposal_id, now } => self.execute_proposal(
                proposal_id,
                now,
            ).0,
        }
    }

    /// The state after the operations, one after the other.
    pub open spec fn after_all(self, operations: Seq<Operation>) -> ComponentView
        decreases operations.len(),
    {
        if operations.len() == 0 {
            self
        } else {
            self.after_all(operations.drop_last()).after(operations.last())
        }
    }
}

/// A proposal within the numbered range has no more weight than the range
/// has in all.
pub proof fn lemma_tallied_bounds(proposals: Map<u64, ProposalView>, upto: nat, id: u64)
    requires
        1 <= id <= upto,
    ensures
        proposals[id].voted() <= tallied(proposals, upto),
    decreases upto,
{
    if id < upto {
        lemma_tallied_bounds(proposals, (upto - 1) as nat, id);
    }
}

/// Two maps that agree on the numbered range have the same weight there.
pub proof fn lemma_tallied_agrees(
    before: Map<u64, ProposalView>,
    after: Map<u64, ProposalView>,
    upto: nat,
)
    requires
        upto <= u64::MAX,
        forall|k: u64| 1 <= k <= upto ==> before[k].voted() == after[k].voted(),
    ensures
        tallied(after, upto) == tallied(before, upto),
    decreases upto,
{
    if upto > 0 {
        lemma_tallied_agrees(before, after, (upto - 1) as nat);
    }
}

/// Replacing one proposal of the numbered range changes the weight of the
/// range by as much as the proposal's own weight changes.
pub proof fn lemma_tallied_insert(
    proposals: Map<u64, ProposalView>,
    upto: nat,
    id: u64,
    proposal: ProposalView,
)
    requires
        1 <= id <= upto <= u64::MAX,
    ensures
        tallied(proposals.insert(id, proposal), upto) + proposals[id].voted() == tallied(
            proposals,
            upto,
        ) + proposal.voted(),
    decreases upto,
{
    if id < upto {
        lemma_tallied_insert(proposals, (upto - 1) as nat, id, proposal);
    } else {
        lemma_tallied_agrees(proposals, proposals.insert(id, proposal), (upto - 1) as nat);
    }
}

} // verus!
