//! The governor as a mathematical value: what it remembers, what holds of
//! that at all times, and how each operation changes it.

use vstd::prelude::*;
use crate::address::Address;
use crate::error::GovernorError;
use crate::proposal::{
    execution_outcome, proposal_fits, proposal_outcome, tally_with, vote_admission, vote_fits,
    Proposal, ProposalId, ProposalVote, Transfer, VoteType,
};
use crate::weight::weight_of;

verus! {

/// One call of `propose`, `vote` or `execute`, with everything that the call
/// is handed.
pub enum Operation {
    Propose { to: Address, amount: u64, duration: u64, now: u64 },
    Vote {
        proposal_id: ProposalId,
        vote: VoteType,
        caller: Address,
        now: u64,
        total_supply: u64,
        caller_balance: u64,
    },
    Execute { proposal_id: ProposalId },
}

/// Everything the governor remembers.
pub struct GovernorState {
    /// The token whose balances give votes their weight.
    pub governance_token: Address,
    /// The total weight that must be cast before a proposal can be executed.
    pub quorum: u128,
    /// The identifier that the next proposal receives.
    pub next_proposal_id: ProposalId,
    /// Every proposal ever made, by identifier.
    pub proposals: Map<ProposalId, Proposal>,
    /// Who has voted on what: a pair is in the set once that voter has voted
    /// on that proposal.
    pub votes: Set<(ProposalId, Address)>,
    /// The tally of each proposal that has received a vote.
    pub proposal_votes: Map<ProposalId, ProposalVote>,
}

impl GovernorState {
    /// The governor before any proposal.
    pub open spec fn init(governance_token: Address, quorum: u128) -> GovernorState {
        GovernorState {
            governance_token,
            quorum,
            next_proposal_id: 0,
            proposals: Map::empty(),
            votes: Set::empty(),
            proposal_votes: Map::empty(),
        }
    }

    /// The proposal with the given identifier, if there is one.
    pub open spec fn proposal(self, id: ProposalId) -> Option<Proposal> {
        if self.proposals.contains_key(id) {
            Some(self.proposals[id])
        } else {
            None
        }
    }

    /// The tally of the given proposal, if a vote has been cast on it.
    pub open spec fn tally(self, id: ProposalId) -> Option<ProposalVote> {
        if self.proposal_votes.contains_key(id) {
            Some(self.proposal_votes[id])
        } else {
            None
        }
    }

    /// Whether `voter` has voted on the proposal `id`.
    pub open spec fn has_voted(self, id: ProposalId, voter: Address) -> bool {
        self.votes.contains((id, voter))
    }

    /// Whether anyone has voted on the proposal `id`.
    pub open spec fn has_votes(self, id: ProposalId) -> bool {
        exists|voter: Address| self.votes.contains((id, voter))
    }

    /// What holds of the governor at all times.
    ///
    /// Identifiers are handed out in order and never reused; every stored
    /// proposal has a positive amount and a window of whole minutes; votes
    /// and tallies belong to stored proposals; a proposal has a tally exactly
    /// when someone has voted on it; and a proposal is marked executed only
    /// if its tally reaches the quorum with more weight for than against.
    pub open spec fn wf(self) -> bool {
        &&& forall|id: ProposalId| #[trigger]
            self.proposals.contains_key(id) <==> id < self.next_proposal_id
        &&& forall|id: ProposalId| #[trigger]
            self.proposals.contains_key(id) ==> self.proposals[id].wf()
        &&& forall|id: ProposalId, voter: Address| #[trigger]
            self.votes.contains((id, voter)) ==> self.proposal_votes.contains_key(id)
        &&& forall|id: ProposalId| #[trigger]
            self.proposal_votes.contains_key(id) ==> self.proposals.contains_key(id)
                && self.has_votes(id)
        &&& forall|id: ProposalId|
            self.proposals.contains_key(id) && (#[trigger] self.proposals[id]).executed
                ==> self.proposal_votes.contains_key(id) && self.proposal_votes[id].reaches(
                self.quorum,
            ) && self.proposal_votes[id].carries()
    }

    /// What `propose` returns.
    pub open spec fn propose_result(amount: u64, duration: u64) -> Result<(), GovernorError> {
        if amount == 0 {
            Err(GovernorError::AmountShouldNotBeZero)
        } else if duration == 0 {
            Err(GovernorError::DurationError)
        } else {
            Ok(())
        }
    }

    /// Whether `propose` can represent what it would store: the deadline must
    /// be an instant of the clock, and an identifier must be left.
    pub open spec fn propose_fits(self, amount: u64, duration: u64, now: u64) -> bool {
        &&& proposal_fits(amount, duration, now)
        &&& amount != 0 && duration != 0 ==> self.next_proposal_id < u64::MAX
    }

    /// The governor after `propose`: on success the new proposal is stored
    /// under the next identifier, which then moves on by one; on refusal
    /// nothing changes.
    pub open spec fn after_propose(self, to: Address, amount: u64, duration: u64, now: u64) -> GovernorState {
        match proposal_outcome(to, amount, duration, now) {
            Ok(proposal) => GovernorState {
                next_proposal_id: (self.next_proposal_id + 1) as u64,
                proposals: self.proposals.insert(self.next_proposal_id, proposal),
                ..self
            },
            Err(_) => self,
        }
    }

    /// What `vote` returns to `caller` at the instant `now`.
    pub open spec fn vote_result(self, id: ProposalId, caller: Address, now: u64) -> Result<
        (),
        GovernorError,
    > {
        vote_admission(self.proposal(id), self.has_voted(id, caller), now)
    }

    /// Whether `vote` can represent the tally it would store: the counter of
    /// the side voted for must be able to hold the added weight.
    pub open spec fn vote_fits(
        self,
        id: ProposalId,
        vote: VoteType,
        caller: Address,
        now: u64,
        total_supply: u64,
        caller_balance: u64,
    ) -> bool {
        self.vote_result(id, caller, now) is Ok ==> vote_fits(
            self.tally(id),
            vote,
            weight_of(caller_balance, total_supply),
        )
    }

    /// The governor after `vote`: on success the voter is recorded and the
    /// weight of the caller's balance against the supply is added to the side
    /// voted for; on refusal nothing changes.
    pub open spec fn after_vote(
        self,
        id: ProposalId,
        vote: VoteType,
        caller: Address,
        now: u64,
        total_supply: u64,
        caller_balance: u64,
    ) -> GovernorState {
        if self.vote_result(id, caller, now) is Ok {
            GovernorState {
                votes: self.votes.insert((id, caller)),
                proposal_votes: self.proposal_votes.insert(
                    id,
                    tally_with(self.tally(id), vote, weight_of(caller_balance, total_supply)),
                ),
                ..self
            }
        } else {
            self
        }
    }

    /// What `execute` returns: a refusal, `Ok(None)` where the votes for do
    /// not outweigh the votes against, or the transfer that is owed.
    pub open spec fn execute_result(self, id: ProposalId) -> Result<Option<Transfer>, GovernorError> {
        execution_outcome(self.proposal(id), self.tally(id), self.quorum)
    }

    /// The governor after `execute`: the proposal is marked executed exactly
    /// when a transfer is owed; otherwise nothing changes.
    pub open spec fn after_execute(self, id: ProposalId) -> GovernorState {
        if self.execute_result(id) matches Ok(Some(_)) {
            GovernorState {
                proposals: self.proposals.insert(id, self.proposals[id].as_executed()),
                ..self
            }
        } else {
            self
        }
    }

    /// Whether the governor can represent what the operation would store:
    /// what `propose` and `vote` ask of their callers beyond a well-formed
    /// governor.
    pub open spec fn admits(self, op: Operation) -> bool {
        match op {
            Operation::Propose { amount, duration, now, .. } => self.propose_fits(
                amount,
                duration,
                now,
            ),
            Operation::Vote { proposal_id, vote, caller, now, total_supply, caller_balance } =>
                self.vote_fits(proposal_id, vote, caller, now, total_supply, caller_balance),
            Operation::Execute { .. } => true,
        }
    }

    /// The governor after the operation.
    pub open spec fn after(self, op: Operation) -> GovernorState {
        match op {
            Operation::Propose { to, amount, duration, now } => self.after_propose(
                to,
                amount,
                duration,
                now,
            ),
            Operation::Vote { proposal_id, vote, caller, now, total_supply, caller_balance } =>
                self.after_vote(proposal_id, vote, caller, now, total_supply, caller_balance),
            Operation::Execute { proposal_id } => self.after_execute(proposal_id),
        }
    }

    /// Whether the governor admits each of the operations in turn.
    pub open spec fn admits_all(self, ops: Seq<Operation>) -> bool
        decreases ops.len(),
    {
        ops.len() == 0 || (self.admits(ops[0]) && self.after(ops[0]).admits_all(ops.drop_first()))
    }

    /// The governor after all of the operations, in order.
    pub open spec fn after_all(self, ops: Seq<Operation>) -> GovernorState
        decreases ops.len(),
    {
        if ops.len() == 0 {
            self
        } else {
            self.after(ops[0]).after_all(ops.drop_first())
        }
    }

    /// Whether this governor can have come out of `earlier`: nothing that
    /// `earlier` remembers is lost or taken back. The token and the quorum
    /// are the same; identifiers only go up; a proposal keeps its recipient,
    /// amount and window, and stays executed once it is; a recorded vote
    /// stays recorded; the counters of a tally only grow, and they stand
    /// still once the proposal is executed.
    pub open spec fn follows(self, earlier: GovernorState) -> bool {
        &&& self.governance_token == earlier.governance_token
        &&& self.quorum == earlier.quorum
        &&& earlier.next_proposal_id <= self.next_proposal_id
        &&& forall|id: ProposalId| #[trigger]
            earlier.proposals.contains_key(id) ==> self.proposals.contains_key(id) && {
                ||| self.proposals[id] == earlier.proposals[id]
                ||| (!earlier.proposals[id].executed && self.proposals[id]
                    == earlier.proposals[id].as_executed())
            }
        &&& forall|id: ProposalId, voter: Address| #[trigger]
            earlier.votes.contains((id, voter)) ==> self.votes.contains((id, voter))
        &&& forall|id: ProposalId| #[trigger]
            earlier.proposal_votes.contains_key(id) ==> self.proposal_votes.contains_key(id)
                && earlier.proposal_votes[id].for_votes <= self.proposal_votes[id].for_votes
                && earlier.proposal_votes[id].against_votes
                <= self.proposal_votes[id].against_votes
        &&& forall|id: ProposalId|
            earlier.proposals.contains_key(id) && (#[trigger] earlier.proposals[id]).executed
                ==> self.proposal_votes[id] == earlier.proposal_votes[id]
    }

    /// Whether the operation is a vote of `voter` on the proposal `id` that
    /// this governor counts.
    pub open spec fn counts_vote(self, op: Operation, id: ProposalId, voter: Address) -> bool {
        op matches Operation::Vote { proposal_id, caller, now, .. } && proposal_id == id && caller
            == voter && self.vote_result(id, voter, now) is Ok
    }

    /// Whether the operation is an `execute` of the proposal `id` for which
    /// this governor owes a transfer.
    pub open spec fn owes_transfer(self, op: Operation, id: ProposalId) -> bool {
        op == (Operation::Execute { proposal_id: id }) && self.execute_result(id) matches Ok(
            Some(_),
        )
    }

    /// How many votes of `voter` on the proposal `id` are counted when the
    /// operations are applied in order.
    pub open spec fn votes_counted(self, ops: Seq<Operation>, id: ProposalId, voter: Address) -> nat
        decreases ops.len(),
    {
        if ops.len() == 0 {
            0
        } else {
            let first: nat = if self.counts_vote(ops[0], id, voter) {
                1
            } else {
                0
            };
            first + self.after(ops[0]).votes_counted(ops.drop_first(), id, voter)
        }
    }

    /// How many transfers are owed for the proposal `id` when the operations
    /// are applied in order.
    pub open spec fn transfers_owed(self, ops: Seq<Operation>, id: ProposalId) -> nat
        decreases ops.len(),
    {
        if ops.len() == 0 {
            0
        } else {
            let first: nat = if self.owes_transfer(ops[0], id) {
                1
            } else {
                0
            };
            first + self.after(ops[0]).transfers_owed(ops.drop_first(), id)
        }
    }

    /// The weight that the operation adds to the side `side` of the tally of
    /// the proposal `id`: the weight of the vote if the operation is a vote
    /// in that direction on that proposal and is counted, and zero otherwise.
    pub open spec fn weight_added(self, op: Operation, id: ProposalId, side: VoteType) -> int {
        match op {
            Operation::Vote { proposal_id, vote, caller, now, total_supply, caller_balance } =>
                if proposal_id == id && vote == side && self.vote_result(id, caller, now) is Ok {
                    weight_of(caller_balance, total_supply)
                } else {
                    0
                },
            _ => 0,
        }
    }

    /// The weight that is added to the side `side` of the tally of the
    /// proposal `id` when the operations are applied in order.
    pub open spec fn weight_counted(self, ops: Seq<Operation>, id: ProposalId, side: VoteType) -> int
        decreases ops.len(),
    {
        if ops.len() == 0 {
            0
        } else {
            self.weight_added(ops[0], id, side) + self.after(ops[0]).weight_counted(
                ops.drop_first(),
                id,
                side,
            )
        }
    }
}

} // verus!
