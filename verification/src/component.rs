//! The component: an entity registry, a ledger of proposals and the value
//! in custody, behind the operations that the host exposes.

use crate::amount::Amount;
use crate::entity::{EntityView, OASISEntity, OASISEntityType};
use crate::model::{
    is_listing, lemma_tallied_agrees, lemma_tallied_bounds, lemma_tallied_insert, tallied,
    ComponentView,
};
use crate::proposal::{GovernanceError, OASISProposal, ProposalOutcome};
use std::collections::HashMap;
use vstd::prelude::*;
use vstd::std_specs::iter::IteratorSpec;

verus! {

broadcast use vstd::std_specs::hash::group_hash_axioms;

/// The state of one component instance.
pub struct OASISComponent {
    vault: Amount,
    proposals: HashMap<u64, OASISProposal>,
    entities: HashMap<u64, OASISEntity>,
    next_proposal_id: u64,
}

impl View for OASISComponent {
    type V = ComponentView;

    closed spec fn view(&self) -> ComponentView {
        ComponentView {
            custody: self.vault@,
            proposals: self.proposals@.map_values(|p: OASISProposal| p@),
            entities: self.entities@.map_values(|e: OASISEntity| e@),
            next_proposal_id: self.next_proposal_id,
        }
    }
}

impl OASISComponent {
    /// The component is in a state that its operations reach.
    pub open spec fn wf(&self) -> bool {
        self@.inv()
    }

    /// A new component that holds `tokens` in custody and nothing else.
    pub fn instantiate(tokens: Amount) -> (component: OASISComponent)
        ensures
            component.wf(),
            component@ == ComponentView::genesis(tokens@),
    {
        proof {
            use_type_invariant(&tokens);
        }
        let component = OASISComponent {
            vault: tokens,
            entities: HashMap::new(),
            proposals: HashMap::new(),
            next_proposal_id: 1,
        };
        assert(component@.proposals =~= Map::empty());
        assert(component@.entities =~= Map::empty());
        component
    }

    /// Stores a new record under `numeric_id`. Where a record is there
    /// already, nothing changes and the result is `false`.
    pub fn create(
        &mut self,
        numeric_id: u64,
        guid_id: String,
        info_json: String,
        entity_type: OASISEntityType,
    ) -> (created: bool)
        requires
            old(self).wf(),
        ensures
            final(self).wf(),
            (final(self)@, created) == old(self)@.create(
                EntityView { numeric_id, guid_id: guid_id@, info_json: info_json@, entity_type },
            ),
    {
        let entity = OASISEntity { numeric_id, guid_id, info_json, entity_type };
        if self.entities.contains_key(&numeric_id) {
            return false;
        }
        self.entities.insert(numeric_id, entity);
        assert(self@.entities =~= old(self)@.entities.insert(numeric_id, entity@));
        true
    }

    /// Replaces, in the record under `numeric_id`, the fields that are
    /// given; the others stay as they are. Where there is no such record,
    /// nothing changes and the result is `false`.
    pub fn update(
        &mut self,
        numeric_id: u64,
        info_json: Option<String>,
        entity_type: Option<OASISEntityType>,
    ) -> (updated: bool)
        requires
            old(self).wf(),
        ensures
            final(self).wf(),
            (final(self)@, updated) == old(self)@.update(
                numeric_id,
                match info_json {
                    Some(text) => Some(text@),
                    None => None,
                },
                entity_type,
            ),
    {
        match self.entities.remove(&numeric_id) {
            Some(mut entity) => {
                if let Some(new_info_json) = info_json {
                    entity.info_json = new_info_json;
                }
                if let Some(new_entity_type) = entity_type {
                    entity.entity_type = new_entity_type;
                }
                self.entities.insert(numeric_id, entity);
                assert(self@.entities =~= old(self)@.entities.insert(numeric_id, entity@));
                true
            },
            None => {
                assert(self.entities@ =~= old(self).entities@);
                false
            },
        }
    }

    /// A copy of the record under `numeric_id`, if there is one.
    pub fn get(&self, numeric_id: u64) -> (found: Option<OASISEntity>)
        ensures
            match found {
                Some(entity) => self@.get(numeric_id) == Some(entity@),
                None => self@.get(numeric_id) is None,
            },
    {
        match self.entities.get(&numeric_id) {
            Some(entity) => Some(entity.clone()),
            None => None,
        }
    }

    /// Removes the record under `numeric_id`. Where there is none, nothing
    /// changes and the result is `false`.
    pub fn delete(&mut self, numeric_id: u64) -> (deleted: bool)
        requires
            old(self).wf(),
        ensures
            final(self).wf(),
            (final(self)@, deleted) == old(self)@.delete(numeric_id),
    {
        match self.entities.remove(&numeric_id) {
            Some(_) => {
                assert(self@.entities =~= old(self)@.entities.remove(numeric_id));
                true
            },
            None => {
                assert(self.entities@ =~= old(self).entities@);
                false
            },
        }
    }

    /// Copies of all the live records, in no particular order.
    pub fn get_all(&self) -> (all: Vec<OASISEntity>)
        requires
            self.wf(),
        ensures
            is_listing(all@.map_values(|e: OASISEntity| e@), self@.entities),
            all.len() == self@.entities.len(),
    {
        let mut all: Vec<OASISEntity> = Vec::new();
        for pair in it: self.entities.iter()
            invariant
                it.seq() == self.entities.iter().remaining(),
                it.seq().no_duplicates(),
                all.len() == it.index(),
                forall|i: int| 0 <= i < all.len() ==> all[i] == *(#[trigger] it.seq()[i]).1,
        {
            all.push(pair.1.clone());
        }
        proof {
            let stored = self.entities@;
            let pairs = self.entities.iter().remaining();
            let records = all@.map_values(|e: OASISEntity| e@);
            assert(self@.entities.dom() =~= stored.dom());
            assert forall|i: int| 0 <= i < records.len() implies self@.entities.contains_key(
                (#[trigger] records[i]).numeric_id,
            ) && self@.entities[records[i].numeric_id] == records[i] by {
                assert(stored.contains_key(*pairs[i].0));
                assert(stored[*pairs[i].0] == *pairs[i].1);
            }
            assert forall|i: int, j: int| 0 <= i < j < records.len() implies (
            #[trigger] records[i]).numeric_id != (#[trigger] records[j]).numeric_id by {
                assert(stored[*pairs[i].0] == *pairs[i].1);
                assert(stored[*pairs[j].0] == *pairs[j].1);
                assert(pairs[i] != pairs[j]);
            }
            assert forall|k: u64| #[trigger] self@.entities.contains_key(k) implies exists|i: int|
                0 <= i < records.len() && (#[trigger] records[i]).numeric_id == k by {
                assert(stored.contains_key(k));
                assert(pairs.contains((&k, &stored[k])));
                let i = choose|i: int| 0 <= i < pairs.len() && pairs[i] == (&k, &stored[k]);
                assert(records[i].numeric_id == k);
            }
        }
        all
    }

    /// Copies of the live records of one kind, in no particular order.
    pub fn get_all_by_entity_type(&self, entity_type: OASISEntityType) -> (matching: Vec<
        OASISEntity,
    >)
        requires
            self.wf(),
        ensures
            is_listing(
                matching@.map_values(|e: OASISEntity| e@),
                self@.entities_of_type(entity_type),
            ),
    {
        let mut matching: Vec<OASISEntity> = Vec::new();
        let ghost mut picked: Seq<int> = Seq::empty();
        for pair in it: self.entities.iter()
            invariant
                it.seq() == self.entities.iter().remaining(),
                it.seq().no_duplicates(),
                picked.len() == matching.len(),
                forall|j: int|
                    0 <= j < picked.len() ==> 0 <= #[trigger] picked[j] < it.index()
                        && matching[j] == *it.seq()[picked[j]].1
                        && matching[j].entity_type == entity_type,
                forall|j: int, l: int|
                    0 <= j < l < picked.len() ==> #[trigger] picked[j] < #[trigger] picked[l],
                forall|i: int|
                    0 <= i < it.index() && (#[trigger] it.seq()[i]).1.entity_type == entity_type
                        ==> picked.contains(i),
        {
            if pair.1.entity_type == entity_type {
                matching.push(pair.1.clone());
                proof {
                    let ghost at = it.index();
                    assert forall|i: int|
                        0 <= i <= at && (#[trigger] it.seq()[i]).1.entity_type
                            == entity_type implies picked.push(at).contains(i) by {
                        if i < at {
                            let j = picked.index_of(i);
                            assert(picked.push(at)[j] == i);
                        } else {
                            assert(picked.push(at)[picked.len() as int] == i);
                        }
                    }
                    picked = picked.push(at);
                    assert forall|j: int| 0 <= j < picked.len() implies 0 <= #[trigger] picked[j]
                        <= at && matching[j] == *it.seq()[picked[j]].1 && matching[j].entity_type
                        == entity_type by {
                        if j < picked.len() - 1 {
                            assert(picked[j] == picked.drop_last()[j]);
                        }
                    }
                }
            }
        }
        proof {
            let stored = self.entities@;
            let pairs = self.entities.iter().remaining();
            let records = matching@.map_values(|e: OASISEntity| e@);
            let wanted = self@.entities_of_type(entity_type);
            assert forall|j: int| 0 <= j < records.len() implies wanted.contains_key(
                (#[trigger] records[j]).numeric_id,
            ) && wanted[records[j].numeric_id] == records[j] by {
                let i = picked[j];
                assert(stored.contains_key(*pairs[i].0) && stored[*pairs[i].0] == *pairs[i].1);
                assert(self@.entities.contains_key(*pairs[i].0));
            }
            assert forall|j: int, l: int| 0 <= j < l < records.len() implies (
            #[trigger] records[j]).numeric_id != (#[trigger] records[l]).numeric_id by {
                let (a, b) = (picked[j], picked[l]);
                assert(stored.contains_key(*pairs[a].0) && stored[*pairs[a].0] == *pairs[a].1);
                assert(stored.contains_key(*pairs[b].0) && stored[*pairs[b].0] == *pairs[b].1);
                assert(self@.entities.contains_key(*pairs[a].0));
                assert(self@.entities.contains_key(*pairs[b].0));
                assert(pairs[a] != pairs[b]);
            }
            assert forall|k: u64| #[trigger] wanted.contains_key(k) implies exists|j: int|
                0 <= j < records.len() && (#[trigger] records[j]).numeric_id == k by {
                assert(stored.contains_key(k));
                assert(pairs.contains((&k, &stored[k])));
                let i = choose|i: int| 0 <= i < pairs.len() && pairs[i] == (&k, &stored[k]);
                assert(pairs[i].1.entity_type == entity_type);
                let j = picked.index_of(i);
                assert(records[j].numeric_id == k);
            }
        }
        matching
    }

    /// Opens a proposal at `current_time`, to be voted on for `duration`
    /// more units of time, and returns its identifier. Identifiers count up
    /// from 1 and none is given twice.
    pub fn create_proposal(&mut self, description: String, duration: u64, current_time: u64) -> (r:
        Result<u64, GovernanceError>)
        requires
            old(self).wf(),
        ensures
            final(self).wf(),
            (final(self)@, r) == old(self)@.create_proposal(description@, duration, current_time),
    {
        let proposal_id = self.next_proposal_id;
        if proposal_id == u64::MAX {
            return Err(GovernanceError::ArithmeticOverflow);
        }
        let end_time = match current_time.checked_add(duration) {
            Some(end_time) => end_time,
            None => {
                return Err(GovernanceError::ArithmeticOverflow);
            },
        };
        let proposal = OASISProposal::new(proposal_id, description, end_time);
        self.next_proposal_id = proposal_id + 1;
        self.proposals.insert(proposal_id, proposal);
        proof {
            assert(self@.proposals =~= old(self)@.proposals.insert(proposal_id, proposal@));
            assert(tallied(self@.proposals, (proposal_id - 1) as nat) == tallied(
                old(self)@.proposals,
                (proposal_id - 1) as nat,
            )) by {
                lemma_tallied_agrees(
                    old(self)@.proposals,
                    self@.proposals,
                    (proposal_id - 1) as nat,
                );
            }
        }
        Ok(proposal_id)
    }

    /// Casts a vote of the given weight on a proposal at `current_time`.
    /// The weight is added to the tally on the side that `support` names,
    /// and to the custody. Any caller may vote, and more than once.
    pub fn vote_proposal(
        &mut self,
        proposal_id: u64,
        support: bool,
        weight: Amount,
        current_time: u64,
    ) -> (r: Result<(), GovernanceError>)
        requires
            old(self).wf(),
        ensures
            final(self).wf(),
            (final(self)@, r) == old(self)@.vote_proposal(
                proposal_id,
                support,
                weight@,
                current_time,
            ),
    {
        let mut proposal = match self.proposals.remove(&proposal_id) {
            Some(proposal) => proposal,
            None => {
                assert(self.proposals@ =~= old(self).proposals@);
                return Err(GovernanceError::NotFound);
            },
        };
        assert(old(self)@.proposals.contains_key(proposal_id));
        assert(old(self)@.proposals[proposal_id] == proposal@);
        let outcome = if current_time > proposal.end_time() {
            Err(GovernanceError::VotingClosed)
        } else {
            match self.vault.checked_add(weight) {
                Some(custody) => {
                    proof {
                        lemma_tallied_bounds(
                            old(self)@.proposals,
                            (self.next_proposal_id - 1) as nat,
                            proposal_id,
                        );
                    }
                    let voted = proposal.vote(support, weight, current_time);
                    if voted.is_ok() {
                        self.vault = custody;
                    }
                    voted
                },
                None => Err(GovernanceError::ArithmeticOverflow),
            }
        };
        self.proposals.insert(proposal_id, proposal);
        proof {
            assert(self@.proposals =~= old(self)@.proposals.insert(proposal_id, proposal@));
            if outcome is Err {
                assert(self@.proposals =~= old(self)@.proposals);
            }
            lemma_tallied_insert(
                old(self)@.proposals,
                (self.next_proposal_id - 1) as nat,
                proposal_id,
                proposal@,
            );
        }
        outcome
    }

    /// Executes a proposal at `current_time`: once its deadline has passed,
    /// and once only, it is decided by strict majority of weight.
    pub fn execute_proposal(&mut self, proposal_id: u64, current_time: u64) -> (r: Result<
        ProposalOutcome,
        GovernanceError,
    >)
        requires
            old(self).wf(),
        ensures
            final(self).wf(),
            (final(self)@, r) == old(self)@.execute_proposal(proposal_id, current_time),
    {
        let mut proposal = match self.proposals.remove(&proposal_id) {
            Some(proposal) => proposal,
            None => {
                assert(self.proposals@ =~= old(self).proposals@);
                return Err(GovernanceError::NotFound);
            },
        };
        assert(old(self)@.proposals.contains_key(proposal_id));
        assert(old(self)@.proposals[proposal_id] == proposal@);
        let outcome = proposal.execute(current_time);
        self.proposals.insert(proposal_id, proposal);
        proof {
            assert(self@.proposals =~= old(self)@.proposals.insert(proposal_id, proposal@));
            if outcome is Err {
                assert(self@.proposals =~= old(self)@.proposals);
            }
            lemma_tallied_insert(
                old(self)@.proposals,
                (self.next_proposal_id - 1) as nat,
                proposal_id,
                proposal@,
            );
        }
        outcome
    }

    /// A copy of the proposal under `proposal_id`, if there is one.
    pub fn proposal(&self, proposal_id: u64) -> (found: Option<OASISProposal>)
        ensures
            match found {
                Some(proposal) => self@.proposals.contains_key(proposal_id)
                    && proposal@ == self@.proposals[proposal_id],
                None => !self@.proposals.contains_key(proposal_id),
            },
    {
        match self.proposals.get(&proposal_id) {
            Some(proposal) => Some(proposal.clone()),
            None => None,
        }
    }

    /// The value held in custody.
    pub fn custody(&self) -> (held: Amount)
        ensures
            held@ == self@.custody,
    {
        self.vault
    }
}

} // verus!
