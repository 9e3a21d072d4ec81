//! Proposals, votes and tallies, and the rules that decide what becomes of
//! them. Everything here works on plain values: the governor applies these
//! rules to the state it owns.

use vstd::prelude::*;
use crate::address::Address;
use crate::error::GovernorError;

verus! {

/// The identifier of a proposal: proposals are numbered from zero in the
/// order of their creation.
pub type ProposalId = u64;

/// The number of seconds in a minute: voting windows are given in minutes
/// and kept in seconds.
pub const ONE_MINUTE: u64 = 60;

/// The direction of a vote.
#[derive(Clone, Copy, Debug, PartialEq, Eq, Structural)]
pub enum VoteType {
    /// The proposal should not be carried out.
    Against,
    /// The proposal should be carried out.
    For,
}

/// A request to pay `amount` out of the treasury to `to`, open to votes from
/// `vote_start` (inclusive) to `vote_end` (exclusive).
#[derive(Clone, Copy, Debug, PartialEq, Eq)]
pub struct Proposal {
    pub to: Address,
    pub vote_start: u64,
    pub vote_end: u64,
    pub executed: bool,
    pub amount: u64,
}

/// The weight cast for and against one proposal so far.
#[derive(Clone, Copy, Debug, PartialEq, Eq, Structural)]
pub struct ProposalVote {
    pub for_votes: u128,
    pub against_votes: u128,
}

/// A payment out of the treasury that the caller of `execute` owes.
#[derive(Clone, Copy, Debug, PartialEq, Eq)]
pub struct Transfer {
    pub to: Address,
    pub amount: u64,
}

/// The instant at which a window of `duration` minutes that opens at
/// `vote_start` closes.
pub open spec fn deadline_of(vote_start: u64, duration: u64) -> int {
    vote_start + duration * ONE_MINUTE
}

/// What `propose` makes of its arguments at the instant `now`: the refusal,
/// or the proposal that is stored.
pub open spec fn proposal_outcome(to: Address, amount: u64, duration: u64, now: u64) -> Result<
    Proposal,
    GovernorError,
> {
    if amount == 0 {
        Err(GovernorError::AmountShouldNotBeZero)
    } else if duration == 0 {
        Err(GovernorError::DurationError)
    } else {
        Ok(
            Proposal {
                to,
                vote_start: now,
                vote_end: deadline_of(now, duration) as u64,
                executed: false,
                amount,
            },
        )
    }
}

/// Whether the proposal that `propose` would store can be represented: its
/// deadline must be an instant of the clock.
pub open spec fn proposal_fits(amount: u64, duration: u64, now: u64) -> bool {
    amount != 0 && duration != 0 ==> deadline_of(now, duration) <= u64::MAX
}

/// Whether a vote is admitted at the instant `now`, given the proposal that
/// was found and whether the voter has voted on it before. The checks come
/// in a fixed order, and the first that fails names the refusal.
pub open spec fn vote_admission(proposal: Option<Proposal>, has_voted: bool, now: u64) -> Result<
    (),
    GovernorError,
> {
    match proposal {
        None => Err(GovernorError::ProposalNotFound),
        Some(p) => if p.executed {
            Err(GovernorError::ProposalAlreadyExecuted)
        } else if now >= p.vote_end {
            Err(GovernorError::VotePeriodEnded)
        } else if has_voted {
            Err(GovernorError::AlreadyVoted)
        } else {
            Ok(())
        },
    }
}

/// What `execute` decides for a proposal and its tally under a quorum: a
/// refusal, nothing to do (`Ok(None)`: the proposal stays open), or the
/// transfer that is owed once the proposal is marked executed.
pub open spec fn execution_outcome(
    proposal: Option<Proposal>,
    tally: Option<ProposalVote>,
    quorum: u128,
) -> Result<Option<Transfer>, GovernorError> {
    match proposal {
        None => Err(GovernorError::ProposalNotFound),
        Some(p) => if p.executed {
            Err(GovernorError::ProposalAlreadyExecuted)
        } else {
            match tally {
                None => Err(GovernorError::QuorumNotReached),
                Some(t) => if !t.reaches(quorum) {
                    Err(GovernorError::QuorumNotReached)
                } else if t.carries() {
                    Ok(Some(Transfer { to: p.to, amount: p.amount }))
                } else {
                    Ok(None)
                },
            }
        },
    }
}

impl Proposal {
    /// What holds of every proposal that the governor stores: it moves a
    /// positive amount, and its window lasts a positive whole number of
    /// minutes.
    pub open spec fn wf(self) -> bool {
        &&& self.amount > 0
        &&& self.vote_start < self.vote_end
        &&& (self.vote_end - self.vote_start) % (ONE_MINUTE as int) == 0
    }

    /// The length of the voting window in minutes.
    pub open spec fn duration(self) -> int {
        (self.vote_end - self.vote_start) / (ONE_MINUTE as int)
    }

    /// The same proposal, marked as executed.
    pub open spec fn as_executed(self) -> Proposal {
        Proposal { executed: true, ..self }
    }

    /// Validates the arguments of `propose` and builds the proposal whose
    /// voting window opens at `now`.
    pub fn new(to: Address, amount: u64, duration: u64, now: u64) -> (outcome: Result<
        Proposal,
        GovernorError,
    >)
        requires
            proposal_fits(amount, duration, now),
        ensures
            outcome == proposal_outcome(to, amount, duration, now),
            outcome matches Ok(p) ==> p.wf() && p.duration() == duration,
    {
        if amount == 0 {
            return Err(GovernorError::AmountShouldNotBeZero);
        }
        if duration == 0 {
            return Err(GovernorError::DurationError);
        }
        let vote_end: u64 = voting_deadline(now, duration).unwrap();
        proof {
            lemma_window(now, duration);
        }
        Ok(Proposal { to, vote_start: now, vote_end, executed: false, amount })
    }

    /// The proposal marked as executed.
    pub fn mark_executed(self) -> (marked: Proposal)
        ensures
            marked == self.as_executed(),
    {
        Proposal {
            to: self.to,
            vote_start: self.vote_start,
            vote_end: self.vote_end,
            executed: true,
            amount: self.amount,
        }
    }
}

impl Default for ProposalVote {
    /// The tally before any vote: zero on both sides.
    fn default() -> (tally: ProposalVote)
        ensures
            tally == tally_or_zero(None),
    {
        ProposalVote { for_votes: 0, against_votes: 0 }
    }
}

impl ProposalVote {
    /// The total weight cast, for and against.
    pub open spec fn total(self) -> int {
        self.for_votes + self.against_votes
    }

    /// Whether the total weight cast is at least `quorum`.
    pub open spec fn reaches(self, quorum: u128) -> bool {
        self.total() >= quorum
    }

    /// Whether the weight cast for is strictly more than the weight cast
    /// against. A tie does not carry.
    pub open spec fn carries(self) -> bool {
        self.for_votes > self.against_votes
    }

    /// The counter that a vote of the given direction adds to.
    pub open spec fn counter(self, vote: VoteType) -> u128 {
        match vote {
            VoteType::For => self.for_votes,
            VoteType::Against => self.against_votes,
        }
    }
}

/// The tally before any vote, which is also the tally of a proposal that has
/// none stored.
pub open spec fn tally_or_zero(tally: Option<ProposalVote>) -> ProposalVote {
    match tally {
        Some(t) => t,
        None => ProposalVote { for_votes: 0, against_votes: 0 },
    }
}

/// Whether a vote of `weight` in the direction `vote` can be added to the
/// tally without leaving the range of its counters.
pub open spec fn vote_fits(tally: Option<ProposalVote>, vote: VoteType, weight: int) -> bool {
    tally_or_zero(tally).counter(vote) + weight <= u128::MAX
}

/// The tally after a vote of `weight` in the direction `vote`. A missing
/// tally counts as zero on both sides, so the first vote creates the tally
/// with the other counter at zero.
pub open spec fn tally_with(tally: Option<ProposalVote>, vote: VoteType, weight: int) -> ProposalVote {
    let t = tally_or_zero(tally);
    match vote {
        VoteType::For => ProposalVote {
            for_votes: (t.for_votes + weight) as u128,
            against_votes: t.against_votes,
        },
        VoteType::Against => ProposalVote {
            for_votes: t.for_votes,
            against_votes: (t.against_votes + weight) as u128,
        },
    }
}

/// A window that opens at `now` and lasts `duration >= 1` minutes closes
/// after it opens, a whole number of minutes later.
pub proof fn lemma_window(now: u64, duration: u64)
    requires
        duration > 0,
    ensures
        now < deadline_of(now, duration),
        (deadline_of(now, duration) - now) % (ONE_MINUTE as int) == 0,
        (deadline_of(now, duration) - now) / (ONE_MINUTE as int) == duration,
{
    assert((duration * 60) % 60 == 0 && (duration * 60) / 60 == duration) by (nonlinear_arith)
        requires
            duration > 0,
    ;
}

/// Computes the instant at which a window of `duration` minutes that opens
/// at `vote_start` closes, or `None` where that instant is beyond the clock.
pub fn voting_deadline(vote_start: u64, duration: u64) -> (deadline: Option<u64>)
    ensures
        deadline == (if deadline_of(vote_start, duration) <= u64::MAX {
            Some(deadline_of(vote_start, duration) as u64)
        } else {
            None
        }),
{
    match duration.checked_mul(ONE_MINUTE) {
        Some(seconds) => vote_start.checked_add(seconds),
        None => None,
    }
}

/// Decides whether a vote is admitted at the instant `now`.
pub fn check_vote(proposal: Option<Proposal>, has_voted: bool, now: u64) -> (admission: Result<
    (),
    GovernorError,
>)
    ensures
        admission == vote_admission(proposal, has_voted, now),
{
    match proposal {
        None => Err(GovernorError::ProposalNotFound),
        Some(p) => {
            if p.executed {
                Err(GovernorError::ProposalAlreadyExecuted)
            } else if p.vote_end <= now {
                Err(GovernorError::VotePeriodEnded)
            } else if has_voted {
                Err(GovernorError::AlreadyVoted)
            } else {
                Ok(())
            }
        },
    }
}

/// Adds a vote of `weight` in the direction `vote` to a tally, or returns
/// `None` where the counter cannot hold the sum.
pub fn count_vote(tally: Option<ProposalVote>, vote: VoteType, weight: u128) -> (counted: Option<
    ProposalVote,
>)
    ensures
        counted == (if vote_fits(tally, vote, weight as int) {
            Some(tally_with(tally, vote, weight as int))
        } else {
            None
        }),
{
    let current = match tally {
        Some(t) => t,
        None => ProposalVote::default(),
    };
    match vote {
        VoteType::For => match current.for_votes.checked_add(weight) {
            Some(for_votes) => Some(ProposalVote { for_votes, against_votes: current.against_votes }),
            None => None,
        },
        VoteType::Against => match current.against_votes.checked_add(weight) {
            Some(against_votes) => Some(ProposalVote { for_votes: current.for_votes, against_votes }),
            None => None,
        },
    }
}

/// Decides what `execute` does with a proposal and its tally.
pub fn check_execute(proposal: Option<Proposal>, tally: Option<ProposalVote>, quorum: u128) -> (outcome:
    Result<Option<Transfer>, GovernorError>)
    ensures
        outcome == execution_outcome(proposal, tally, quorum),
{
    match proposal {
        None => Err(GovernorError::ProposalNotFound),
        Some(p) => {
            if p.executed {
                return Err(GovernorError::ProposalAlreadyExecuted);
            }
            match tally {
                None => Err(GovernorError::QuorumNotReached),
                Some(t) => {
                    // The sum of the two counters may exceed their range, so
                    // the quorum is compared against what is still missing.
                    let reached = t.for_votes >= quorum || t.against_votes >= quorum - t.for_votes;
                    if !reached {
                        Err(GovernorError::QuorumNotReached)
                    } else if t.for_votes > t.against_votes {
                        Ok(Some(Transfer { to: p.to, amount: p.amount }))
                    } else {
                        Ok(None)
                    }
                },
            }
        },
    }
}

} // verus!
