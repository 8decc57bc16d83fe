//! Governance proposals: the record, its phases and how it is decided.

use crate::amount::{max_attos, Amount};
use vstd::prelude::*;

verus! {

/// Why a governance operation was refused. A refused operation changes
/// nothing.
#[derive(Clone, Copy, Debug, PartialEq, Eq, Structural)]
pub enum GovernanceError {
    /// No proposal has the given identifier.
    NotFound,
    /// The vote came after the proposal's deadline.
    VotingClosed,
    /// The execution came at or before the proposal's deadline.
    VotingStillOpen,
    /// The proposal was executed before.
    AlreadyExecuted,
    /// A deadline, an identifier or a sum of value is more than its type
    /// can count.
    ArithmeticOverflow,
}

impl GovernanceError {
    /// The label under which the refusal is reported.
    pub fn message(&self) -> (label: &'static str)
        ensures
            label@ == match *self {
                GovernanceError::NotFound => "Proposal does not exist"@,
                GovernanceError::VotingClosed => "Voting period has ended for this proposal"@,
                GovernanceError::VotingStillOpen => "Voting period has not ended"@,
                GovernanceError::AlreadyExecuted => "Proposal has already been executed"@,
                GovernanceError::ArithmeticOverflow => "Overflow"@,
            },
    {
        match self {
            GovernanceError::NotFound => "Proposal does not exist",
            GovernanceError::VotingClosed => "Voting period has ended for this proposal",
            GovernanceError::VotingStillOpen => "Voting period has not ended",
            GovernanceError::AlreadyExecuted => "Proposal has already been executed",
            GovernanceError::ArithmeticOverflow => "Overflow",
        }
    }
}

/// How an executed proposal was decided.
#[derive(Clone, Copy, Debug, PartialEq, Eq, Structural)]
pub enum ProposalOutcome {
    Approved,
    Rejected,
}

/// Where a proposal stands at a given time.
#[derive(Clone, Copy, Debug, PartialEq, Eq, Structural)]
pub enum ProposalPhase {
    /// Not executed, and the deadline has not passed: votes are taken.
    Open,
    /// Not executed, and the deadline has passed: it can be executed.
    Closed,
    /// Executed, for good.
    Executed,
}

/// A proposal and its running tallies.
#[derive(Debug)]
pub struct OASISProposal {
    id: u64,
    description: String,
    votes_for: Amount,
    votes_against: Amount,
    end_time: u64,
    executed: bool,
}

/// What an [`OASISProposal`] says: its tallies as natural numbers of attos,
/// its description as a sequence of characters.
pub ghost struct ProposalView {
    pub id: u64,
    pub description: Seq<char>,
    pub votes_for: nat,
    pub votes_against: nat,
    pub end_time: u64,
    pub executed: bool,
}

impl ProposalView {
    /// The proposal as it is created: no votes, not executed.
    pub open spec fn fresh(id: u64, description: Seq<char>, end_time: u64) -> ProposalView {
        ProposalView { id, description, votes_for: 0, votes_against: 0, end_time, executed: false }
    }

    /// The phase of the proposal at time `now`.
    pub open spec fn phase(self, now: u64) -> ProposalPhase {
        if self.executed {
            ProposalPhase::Executed
        } else if now <= self.end_time {
            ProposalPhase::Open
        } else {
            ProposalPhase::Closed
        }
    }

    /// The strict-majority rule: approved only where the weight in favour is
    /// more than the weight against, so that a tie rejects.
    pub open spec fn outcome(self) -> ProposalOutcome {
        if self.votes_for > self.votes_against {
            ProposalOutcome::Approved
        } else {
            ProposalOutcome::Rejected
        }
    }

    /// All the weight that was voted on the proposal, on either side.
    pub open spec fn voted(self) -> nat {
        self.votes_for + self.votes_against
    }

    /// The proposal after one more vote of the given weight.
    pub open spec fn with_vote(self, support: bool, weight: nat) -> ProposalView {
        if support {
            ProposalView { votes_for: self.votes_for + weight, ..self }
        } else {
            ProposalView { votes_against: self.votes_against + weight, ..self }
        }
    }

    /// The proposal after its execution.
    pub open spec fn with_execution(self) -> ProposalView {
        ProposalView { executed: true, ..self }
    }

    /// The weight already voted on the side that `support` names.
    pub open spec fn tally(self, support: bool) -> nat {
        if support {
            self.votes_for
        } else {
            self.votes_against
        }
    }

    /// A vote at time `now`: the proposal after it, and whether it was taken.
    ///
    /// It is taken up to and including the deadline, whoever casts it and
    /// however often, unless the tally would pass what an amount can count.
    pub open spec fn vote(self, support: bool, weight: nat, now: u64) -> (
        ProposalView,
        Result<(), GovernanceError>,
    ) {
        if now > self.end_time {
            (self, Err(GovernanceError::VotingClosed))
        } else if self.tally(support) + weight > max_attos() {
            (self, Err(GovernanceError::ArithmeticOverflow))
        } else {
            (self.with_vote(support, weight), Ok(()))
        }
    }

    /// An execution at time `now`: the proposal after it, and its outcome or
    /// the reason for which it was refused.
    pub open spec fn execute(self, now: u64) -> (
        ProposalView,
        Result<ProposalOutcome, GovernanceError>,
    ) {
        if now <= self.end_time {
            (self, Err(GovernanceError::VotingStillOpen))
        } else if self.executed {
            (self, Err(GovernanceError::AlreadyExecuted))
        } else {
            (self.with_execution(), Ok(self.outcome()))
        }
    }
}

impl View for OASISProposal {
    type V = ProposalView;

    closed spec fn view(&self) -> ProposalView {
        ProposalView {
            id: self.id,
            description: self.description@,
            votes_for: self.votes_for@,
            votes_against: self.votes_against@,
            end_time: self.end_time,
            executed: self.executed,
        }
    }
}

impl Clone for OASISProposal {
    fn clone(&self) -> (copy: Self)
        ensures
            copy == *self,
    {
        OASISProposal {
            id: self.id,
            description: self.description.clone(),
            votes_for: self.votes_for,
            votes_against: self.votes_against,
            end_time: self.end_time,
            executed: self.executed,
        }
    }
}

impl OASISProposal {
    /// A proposal with no votes, open until `end_time`.
    pub fn new(id: u64, description: String, end_time: u64) -> (r: OASISProposal)
        ensures
            r@ == ProposalView::fresh(id, description@, end_time),
    {
        OASISProposal {
            id,
            description,
            votes_for: Amount::zero(),
            votes_against: Amount::zero(),
            end_time,
            executed: false,
        }
    }

    /// A proposal as it was recorded: with the given tallies, executed or not.
    pub fn from_parts(
        id: u64,
        description: String,
        votes_for: Amount,
        votes_against: Amount,
        end_time: u64,
        executed: bool,
    ) -> (r: OASISProposal)
        ensures
            r@ == (ProposalView {
                id,
                description: description@,
                votes_for: votes_for@,
                votes_against: votes_against@,
                end_time,
                executed,
            }),
    {
        OASISProposal { id, description, votes_for, votes_against, end_time, executed }
    }

    /// Adds a vote of the given weight, cast at `current_time`, to the side
    /// that `support` names.
    pub fn vote(&mut self, support: bool, weight: Amount, current_time: u64) -> (r: Result<
        (),
        GovernanceError,
    >)
        ensures
            (final(self)@, r) == old(self)@.vote(support, weight@, current_time),
    {
        if current_time > self.end_time {
            return Err(GovernanceError::VotingClosed);
        }
        if support {
            match self.votes_for.checked_add(weight) {
                Some(sum) => {
                    self.votes_for = sum;
                    Ok(())
                },
                None => Err(GovernanceError::ArithmeticOverflow),
            }
        } else {
            match self.votes_against.checked_add(weight) {
                Some(sum) => {
                    self.votes_against = sum;
                    Ok(())
                },
                None => Err(GovernanceError::ArithmeticOverflow),
            }
        }
    }

    /// Executes the proposal at `current_time`: decides it on its tallies
    /// and closes it for good.
    pub fn execute(&mut self, current_time: u64) -> (r: Result<ProposalOutcome, GovernanceError>)
        ensures
            (final(self)@, r) == old(self)@.execute(current_time),
    {
        if current_time <= self.end_time {
            return Err(GovernanceError::VotingStillOpen);
        }
        if self.executed {
            return Err(GovernanceError::AlreadyExecuted);
        }
        let outcome = self.outcome();
        self.executed = true;
        Ok(outcome)
    }

    /// The identifier under which the proposal was created.
    pub fn id(&self) -> (r: u64)
        ensures
            r == self@.id,
    {
        self.id
    }

    /// What the proposal is about.
    pub fn description(&self) -> (r: &String)
        ensures
            r@ == self@.description,
    {
        &self.description
    }

    /// The weight voted in favour so far.
    pub fn votes_for(&self) -> (r: Amount)
        ensures
            r@ == self@.votes_for,
    {
        self.votes_for
    }

    /// The weight voted against so far.
    pub fn votes_against(&self) -> (r: Amount)
        ensures
            r@ == self@.votes_against,
    {
        self.votes_against
    }

    /// The last time at which a vote is taken.
    pub fn end_time(&self) -> (r: u64)
        ensures
            r == self@.end_time,
    {
        self.end_time
    }

    /// Whether the proposal was executed.
    pub fn executed(&self) -> (r: bool)
        ensures
            r == self@.executed,
    {
        self.executed
    }

    /// The phase of the proposal at time `current_time`.
    pub fn phase(&self, current_time: u64) -> (r: ProposalPhase)
        ensures
            r == self@.phase(current_time),
    {
        if self.executed {
            ProposalPhase::Executed
        } else if current_time <= self.end_time {
            ProposalPhase::Open
        } else {
            ProposalPhase::Closed
        }
    }

    /// How the proposal is decided on its tallies as they stand.
    pub fn outcome(&self) -> (r: ProposalOutcome)
        ensures
            r == self@.outcome(),
    {
        if self.votes_for.exceeds(self.votes_against) {
            ProposalOutcome::Approved
        } else {
            ProposalOutcome::Rejected
        }
    }
}

} // verus!
