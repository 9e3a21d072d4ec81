//! The governor: the state it owns and the three operations that change it.
//!
//! The governor reads no clock, knows no caller and moves no funds. Whoever
//! drives it hands in the current time, the caller's address and the token
//! figures with each call, and carries out the transfer that `execute`
//! returns.

use vstd::prelude::*;
use crate::address::Address;
use crate::error::GovernorError;
use crate::proposal::{
    check_execute, check_vote, count_vote, Proposal, ProposalId, ProposalVote, Transfer, VoteType,
};
use crate::state::GovernorState;
use crate::theorems::{
    lemma_execute_preserves_wf, lemma_propose_preserves_wf, lemma_vote_preserves_wf,
};
use crate::weight::voting_weight;

verus! {

/// The governance state of one treasury.
pub struct Governor {
    governance_token: Address,
    quorum: u128,
    next_proposal_id: ProposalId,
    /// The proposals, each at the index of its identifier.
    proposals: Vec<Proposal>,
    /// One entry for each vote cast: the proposal and the voter.
    votes: Vec<(ProposalId, Address)>,
    /// The tallies, each at the index of its proposal's identifier; `None`
    /// until the first vote on that proposal.
    proposal_votes: Vec<Option<ProposalVote>>,
}

impl View for Governor {
    type V = GovernorState;

    closed spec fn view(&self) -> GovernorState {
        GovernorState {
            governance_token: self.governance_token,
            quorum: self.quorum,
            next_proposal_id: self.next_proposal_id,
            proposals: Map::new(
                |id: ProposalId| id < self.proposals@.len(),
                |id: ProposalId| self.proposals@[id as int],
            ),
            votes: self.votes@.to_set(),
            proposal_votes: Map::new(
                |id: ProposalId| id < self.proposal_votes@.len() && self.proposal_votes@[id as int] is Some,
                |id: ProposalId| self.proposal_votes@[id as int]->0,
            ),
        }
    }
}

impl Governor {
    /// What holds of every governor that `new` returned and the operations
    /// changed: the three containers agree with the identifier counter, no
    /// vote is recorded twice, and the state is well-formed.
    pub closed spec fn wf(&self) -> bool {
        &&& self.proposals@.len() == self.next_proposal_id
        &&& self.proposal_votes@.len() == self.next_proposal_id
        &&& self.votes@.no_duplicates()
        &&& self@.wf()
    }

    /// A well-formed governor has a well-formed state.
    pub proof fn lemma_wf_state(&self)
        requires
            self.wf(),
        ensures
            self@.wf(),
    {
    }

    /// Creates a governor for the given token and quorum, with no proposals.
    pub fn new(governance_token: Address, quorum: u128) -> (governor: Governor)
        ensures
            governor.wf(),
            governor@ == GovernorState::init(governance_token, quorum),
    {
        let governor = Governor {
            governance_token,
            quorum,
            next_proposal_id: 0,
            proposals: Vec::new(),
            votes: Vec::new(),
            proposal_votes: Vec::new(),
        };
        proof {
            let init = GovernorState::init(governance_token, quorum);
            assert(governor@.proposals =~= init.proposals);
            assert(governor@.votes =~= init.votes);
            assert(governor@.proposal_votes =~= init.proposal_votes);
        }
        governor
    }

    /// The index at which a container of `len` entries holds what belongs
    /// to the proposal `proposal_id`, or `None` if it holds nothing for it.
    fn slot(proposal_id: ProposalId, len: usize) -> (slot: Option<usize>)
        ensures
            match slot {
                Some(i) => i == proposal_id && proposal_id < len,
                None => proposal_id >= len,
            },
    {
        if proposal_id < len as u64 {
            Some(proposal_id as usize)
        } else {
            None
        }
    }

    /// The identifier that the next proposal receives, which is also the
    /// number of proposals made so far.
    pub fn next_proposal_id(&self) -> (id: ProposalId)
        ensures
            id == self@.next_proposal_id,
    {
        self.next_proposal_id
    }

    /// The token whose balances give votes their weight.
    pub fn governance_token(&self) -> (token: Address)
        ensures
            token == self@.governance_token,
    {
        self.governance_token
    }

    /// The total weight that must be cast before a proposal can be executed.
    pub fn quorum(&self) -> (quorum: u128)
        ensures
            quorum == self@.quorum,
    {
        self.quorum
    }

    /// The proposal with the given identifier, or `None` if there is none.
    pub fn get_proposal(&self, proposal_id: ProposalId) -> (proposal: Option<Proposal>)
        ensures
            proposal == self@.proposal(proposal_id),
    {
        match Self::slot(proposal_id, self.proposals.len()) {
            Some(slot) => Some(self.proposals[slot]),
            None => None,
        }
    }

    /// The tally of the given proposal, or `None` if no vote has been cast on
    /// it (or there is no such proposal).
    pub fn get_proposal_votes(&self, proposal_id: ProposalId) -> (tally: Option<ProposalVote>)
        ensures
            tally == self@.tally(proposal_id),
    {
        match Self::slot(proposal_id, self.proposal_votes.len()) {
            Some(slot) => self.proposal_votes[slot],
            None => None,
        }
    }

    /// Whether `voter` has voted on the proposal `proposal_id`.
    pub fn has_voted(&self, proposal_id: ProposalId, voter: &Address) -> (voted: bool)
        ensures
            voted == self@.has_voted(proposal_id, *voter),
    {
        let mut i: usize = 0;
        while i < self.votes.len()
            invariant
                i <= self.votes@.len(),
                forall|j: int| 0 <= j < i ==> self.votes@[j] != (proposal_id, *voter),
            decreases self.votes@.len() - i,
        {
            let record = &self.votes[i];
            if record.0 == proposal_id && record.1 == *voter {
                return true;
            }
            i += 1;
        }
        false
    }

    /// Casts the vote of `caller` on the proposal `proposal_id` at the instant
    /// `now`. The caller holds `caller_balance` of the governance token out of
    /// `total_supply`, both as of this call; the vote weighs the percentage
    /// that the balance is of the supply, rounded down.
    ///
    /// The vote is refused, in this order, if there is no such proposal, if
    /// it has been executed, if `now` is at or after the end of its window,
    /// or if the caller has voted on it before. Otherwise the caller is
    /// recorded as having voted and the weight is added to the side chosen.
    pub fn vote(
        &mut self,
        proposal_id: ProposalId,
        vote: VoteType,
        caller: Address,
        now: u64,
        total_supply: u64,
        caller_balance: u64,
    ) -> (result: Result<(), GovernorError>)
        requires
            old(self).wf(),
            old(self)@.vote_fits(proposal_id, vote, caller, now, total_supply, caller_balance),
        ensures
            final(self).wf(),
            result == old(self)@.vote_result(proposal_id, caller, now),
            final(self)@ == old(self)@.after_vote(
                proposal_id,
                vote,
                caller,
                now,
                total_supply,
                caller_balance,
            ),
    {
        let proposal = self.get_proposal(proposal_id);
        let voted = self.has_voted(proposal_id, &caller);
        match check_vote(proposal, voted, now) {
            Err(refusal) => {
                return Err(refusal);
            },
            Ok(()) => {},
        }
        let weight: u128 = voting_weight(caller_balance, total_supply);
        let slot: usize = Self::slot(proposal_id, self.proposal_votes.len()).unwrap();
        let tally = count_vote(self.proposal_votes[slot], vote, weight).unwrap();
        // The voter is recorded before the tally changes.
        self.votes.push((proposal_id, caller));
        self.proposal_votes[slot] = Some(tally);
        proof {
            let before = old(self)@;
            let after = before.after_vote(
                proposal_id,
                vote,
                caller,
                now,
                total_supply,
                caller_balance,
            );
            old(self).votes@.lemma_push_to_set_commute((proposal_id, caller));
            assert(self@.proposal_votes =~= after.proposal_votes);
            lemma_vote_preserves_wf(
                before,
                proposal_id,
                vote,
                caller,
                now,
                total_supply,
                caller_balance,
            );
        }
        Ok(())
    }

    /// Executes the proposal `proposal_id` if its votes allow it.
    ///
    /// The call is refused if there is no such proposal, if it has been
    /// executed before, or if the weight cast on it, for and against, is
    /// below the quorum (in particular if no vote was cast). Otherwise, if
    /// more weight was cast for than against, the proposal is marked executed
    /// and the transfer of its amount to its recipient is returned for the
    /// caller to carry out; if not, nothing changes and `Ok(None)` is
    /// returned, and the proposal can be tried again.
    pub fn execute(&mut self, proposal_id: ProposalId) -> (result: Result<
        Option<Transfer>,
        GovernorError,
    >)
        requires
            old(self).wf(),
        ensures
            final(self).wf(),
            result == old(self)@.execute_result(proposal_id),
            final(self)@ == old(self)@.after_execute(proposal_id),
    {
        let proposal = self.get_proposal(proposal_id);
        let tally = self.get_proposal_votes(proposal_id);
        let outcome = check_execute(proposal, tally, self.quorum);
        if let Ok(Some(_)) = outcome {
            let slot: usize = Self::slot(proposal_id, self.proposals.len()).unwrap();
            let marked = self.proposals[slot].mark_executed();
            self.proposals[slot] = marked;
            proof {
                let before = old(self)@;
                let after = before.after_execute(proposal_id);
                assert(self@.proposals =~= after.proposals);
                lemma_execute_preserves_wf(before, proposal_id);
            }
        }
        outcome
    }

    /// Stores a proposal to pay `amount` to `to`, open to votes for
    /// `duration` minutes from the instant `now`.
    ///
    /// The call is refused if `amount` is zero, and otherwise if `duration`
    /// is zero. On success the proposal receives the identifier that
    /// `next_proposal_id` returned before the call.
    pub fn propose(&mut self, to: Address, amount: u64, duration: u64, now: u64) -> (result: Result<
        (),
        GovernorError,
    >)
        requires
            old(self).wf(),
            old(self)@.propose_fits(amount, duration, now),
        ensures
            final(self).wf(),
            result == GovernorState::propose_result(amount, duration),
            final(self)@ == old(self)@.after_propose(to, amount, duration, now),
    {
        let proposal = match Proposal::new(to, amount, duration, now) {
            Ok(proposal) => proposal,
            Err(refusal) => {
                return Err(refusal);
            },
        };
        let next: ProposalId = self.next_proposal_id + 1;
        self.proposals.push(proposal);
        self.proposal_votes.push(None);
        self.next_proposal_id = next;
        proof {
            let before = old(self)@;
            let after = before.after_propose(to, amount, duration, now);
            assert(self@.proposals =~= after.proposals);
            assert(self@.proposal_votes =~= after.proposal_votes);
            lemma_propose_preserves_wf(before, to, amount, duration, now);
        }
        Ok(())
    }
}

} // verus!
