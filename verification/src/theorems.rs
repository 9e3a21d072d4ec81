//! What holds of the governor whatever is done with it.
//!
//! Every statement here is about the state of the governor as a value and
//! about the functions that say how `propose`, `vote` and `execute` change
//! it; the operations themselves promise to follow those functions.

use vstd::prelude::*;
use crate::address::Address;
use crate::error::GovernorError;
use crate::proposal::{lemma_window, tally_or_zero, ProposalId, Transfer, VoteType};
use crate::state::{GovernorState, Operation};
use crate::weight::weight_of;

verus! {

/// A new governor is well-formed.
pub proof fn lemma_init_wf(governance_token: Address, quorum: u128)
    ensures
        GovernorState::init(governance_token, quorum).wf(),
{
}

/// `propose` keeps the governor well-formed.
pub proof fn lemma_propose_preserves_wf(
    s: GovernorState,
    to: Address,
    amount: u64,
    duration: u64,
    now: u64,
)
    requires
        s.wf(),
        s.propose_fits(amount, duration, now),
    ensures
        s.after_propose(to, amount, duration, now).wf(),
{
    let after = s.after_propose(to, amount, duration, now);
    if amount != 0 && duration != 0 {
        lemma_window(now, duration);
        assert forall|id: ProposalId| #[trigger]
            after.proposal_votes.contains_key(id) implies after.proposals.contains_key(id)
            && after.has_votes(id) by {
            assert(s.has_votes(id));
            let voter = choose|voter: Address| s.votes.contains((id, voter));
            assert(after.votes.contains((id, voter)));
        }
    }
}

/// `vote` keeps the governor well-formed.
pub proof fn lemma_vote_preserves_wf(
    s: GovernorState,
    id: ProposalId,
    vote: VoteType,
    caller: Address,
    now: u64,
    total_supply: u64,
    caller_balance: u64,
)
    requires
        s.wf(),
    ensures
        s.after_vote(id, vote, caller, now, total_supply, caller_balance).wf(),
{
    let after = s.after_vote(id, vote, caller, now, total_supply, caller_balance);
    if s.vote_result(id, caller, now) is Ok {
        assert(after.votes.contains((id, caller)));
        assert forall|other: ProposalId| #[trigger]
            after.proposal_votes.contains_key(other) implies after.proposals.contains_key(other)
            && after.has_votes(other) by {
            if other != id {
                assert(s.has_votes(other));
                let voter = choose|voter: Address| s.votes.contains((other, voter));
                assert(after.votes.contains((other, voter)));
            }
        }
    }
}

/// `execute` keeps the governor well-formed.
pub proof fn lemma_execute_preserves_wf(s: GovernorState, id: ProposalId)
    requires
        s.wf(),
    ensures
        s.after_execute(id).wf(),
{
    let after = s.after_execute(id);
    if s.execute_result(id) matches Ok(Some(_)) {
        assert forall|other: ProposalId| #[trigger]
            after.proposal_votes.contains_key(other) implies after.proposals.contains_key(other)
            && after.has_votes(other) by {
            assert(s.has_votes(other));
            let voter = choose|voter: Address| s.votes.contains((other, voter));
            assert(after.votes.contains((other, voter)));
        }
        assert forall|other: ProposalId|
            after.proposals.contains_key(other) && (#[trigger] after.proposals[other]).executed
            implies after.proposal_votes.contains_key(other) && after.proposal_votes[other].reaches(
            after.quorum,
        ) && after.proposal_votes[other].carries() by {
            if other != id {
                assert(s.proposals[other].executed);
            }
        }
    }
}

/// Every operation keeps the governor well-formed and takes nothing back:
/// the new state follows the old one.
pub proof fn lemma_step(s: GovernorState, op: Operation)
    requires
        s.wf(),
        s.admits(op),
    ensures
        s.after(op).wf(),
        s.after(op).follows(s),
{
    match op {
        Operation::Propose { to, amount, duration, now } => {
            lemma_propose_preserves_wf(s, to, amount, duration, now);
        },
        Operation::Vote { proposal_id, vote, caller, now, total_supply, caller_balance } => {
            lemma_vote_preserves_wf(
                s,
                proposal_id,
                vote,
                caller,
                now,
                total_supply,
                caller_balance,
            );
        },
        Operation::Execute { proposal_id } => {
            lemma_execute_preserves_wf(s, proposal_id);
        },
    }
}

/// What follows a state that follows another follows that one too.
pub proof fn lemma_follows_transitive(a: GovernorState, b: GovernorState, c: GovernorState)
    requires
        a.wf(),
        b.wf(),
        b.follows(a),
        c.follows(b),
    ensures
        c.follows(a),
{
}

/// Whatever is done with a well-formed governor, it stays well-formed and
/// takes nothing back.
pub proof fn lemma_run(s: GovernorState, ops: Seq<Operation>)
    requires
        s.wf(),
        s.admits_all(ops),
    ensures
        s.after_all(ops).wf(),
        s.after_all(ops).follows(s),
    decreases ops.len(),
{
    if ops.len() > 0 {
        let next = s.after(ops[0]);
        lemma_step(s, ops[0]);
        lemma_run(next, ops.drop_first());
        lemma_follows_transitive(s, next, next.after_all(ops.drop_first()));
    }
}

/// `propose` refuses a zero amount and then a zero duration, and nothing
/// else. What it accepts it stores under the next identifier, unexecuted,
/// with a window that opens at `now` and closes `duration * 60` seconds
/// later; what it refuses leaves the governor as it was.
pub proof fn lemma_propose(s: GovernorState, to: Address, amount: u64, duration: u64, now: u64)
    requires
        s.wf(),
        s.propose_fits(amount, duration, now),
    ensures
        GovernorState::propose_result(amount, duration) is Ok <==> amount > 0 && duration > 0,
        GovernorState::propose_result(amount, duration) is Err ==> s.after_propose(
            to,
            amount,
            duration,
            now,
        ) == s,
        GovernorState::propose_result(amount, duration) is Ok ==> ({
            let after = s.after_propose(to, amount, duration, now);
            let stored = after.proposals[s.next_proposal_id];
            &&& !s.proposals.contains_key(s.next_proposal_id)
            &&& after.proposals.contains_key(s.next_proposal_id)
            &&& after.next_proposal_id == s.next_proposal_id + 1
            &&& stored.to == to
            &&& stored.amount == amount
            &&& stored.vote_start == now
            &&& stored.vote_end == now + duration * 60
            &&& !stored.executed
            &&& after.tally(s.next_proposal_id) is None
        }),
{
}

/// The window of every stored proposal closes a positive whole number of
/// minutes after it opens: the duration that `propose` accepted for it.
pub proof fn lemma_stored_window(s: GovernorState, id: ProposalId)
    requires
        s.wf(),
        s.proposals.contains_key(id),
    ensures
        s.proposals[id].duration() > 0,
        s.proposals[id].vote_end == s.proposals[id].vote_start + s.proposals[id].duration() * 60,
        s.proposals[id].amount > 0,
{
    let p = s.proposals[id];
    let length: int = p.vote_end - p.vote_start;
    assert(length > 0 && length % 60 == 0 ==> length / 60 > 0 && (length / 60) * 60 == length)
        by (nonlinear_arith);
}

/// On a proposal that exists and has not been executed, whether a vote comes
/// in time is decided by the clock alone: at or after the end of the window
/// it is refused as too late, whoever casts it; before the end it is counted
/// unless the caller has voted before, and is never refused as too late.
pub proof fn lemma_vote_window(s: GovernorState, id: ProposalId, caller: Address, now: u64)
    requires
        s.wf(),
        s.proposals.contains_key(id),
        !s.proposals[id].executed,
    ensures
        now >= s.proposals[id].vote_end ==> s.vote_result(id, caller, now) == Err::<
            (),
            GovernorError,
        >(GovernorError::VotePeriodEnded),
        now < s.proposals[id].vote_end && !s.has_voted(id, caller) ==> s.vote_result(
            id,
            caller,
            now,
        ) is Ok,
        now < s.proposals[id].vote_end && s.has_voted(id, caller) ==> s.vote_result(id, caller, now)
            == Err::<(), GovernorError>(GovernorError::AlreadyVoted),
{
}

/// A vote that is counted records its voter, adds its weight to the side
/// voted for and leaves the other side alone; the first vote on a proposal
/// starts from zero on both sides.
pub proof fn lemma_vote_counts(
    s: GovernorState,
    id: ProposalId,
    vote: VoteType,
    caller: Address,
    now: u64,
    total_supply: u64,
    caller_balance: u64,
)
    requires
        s.wf(),
        s.vote_result(id, caller, now) is Ok,
        s.vote_fits(id, vote, caller, now, total_supply, caller_balance),
    ensures
        ({
            let after = s.after_vote(id, vote, caller, now, total_supply, caller_balance);
            let before = tally_or_zero(s.tally(id));
            let weight = weight_of(caller_balance, total_supply);
            &&& after.has_voted(id, caller)
            &&& after.tally(id) is Some
            &&& vote == VoteType::For ==> after.proposal_votes[id].for_votes == before.for_votes
                + weight && after.proposal_votes[id].against_votes == before.against_votes
            &&& vote == VoteType::Against ==> after.proposal_votes[id].against_votes
                == before.against_votes + weight && after.proposal_votes[id].for_votes
                == before.for_votes
            &&& after.proposals == s.proposals
            &&& after.next_proposal_id == s.next_proposal_id
        }),
{
}

/// A vote that is refused changes nothing.
pub proof fn lemma_refused_vote_changes_nothing(
    s: GovernorState,
    id: ProposalId,
    vote: VoteType,
    caller: Address,
    now: u64,
    total_supply: u64,
    caller_balance: u64,
)
    requires
        s.vote_result(id, caller, now) is Err,
    ensures
        s.after_vote(id, vote, caller, now, total_supply, caller_balance) == s,
{
}

/// No operation removes a proposal or a recorded vote: whatever is done with
/// the governor, every identifier in use stays in use and every voter stays
/// recorded.
pub proof fn lemma_nothing_is_removed(s: GovernorState, ops: Seq<Operation>)
    ensures
        forall|id: ProposalId| #[trigger]
            s.proposals.contains_key(id) ==> s.after_all(ops).proposals.contains_key(id),
        forall|id: ProposalId, voter: Address| #[trigger]
            s.votes.contains((id, voter)) ==> s.after_all(ops).votes.contains((id, voter)),
    decreases ops.len(),
{
    if ops.len() > 0 {
        let next = s.after(ops[0]);
        lemma_nothing_is_removed(next, ops.drop_first());
        assert forall|id: ProposalId| #[trigger] s.proposals.contains_key(id) implies s.after_all(
            ops,
        ).proposals.contains_key(id) by {
            assert(next.proposals.contains_key(id));
        }
        assert forall|id: ProposalId, voter: Address| #[trigger]
            s.votes.contains((id, voter)) implies s.after_all(ops).votes.contains((id, voter)) by {
            assert(next.votes.contains((id, voter)));
        }
    }
}

/// Once a voter has voted on a proposal, every later vote of that voter on
/// that proposal is refused and changes nothing, whatever its direction, its
/// weight and the instant, and whatever was done with the governor in
/// between. The refusal is `AlreadyVoted` as long as the proposal is
/// unexecuted and its window is open; after that, the refusal that comes
/// first in the order of the checks is reported.
pub proof fn lemma_vote_at_most_once(
    s: GovernorState,
    id: ProposalId,
    first: VoteType,
    caller: Address,
    now: u64,
    total_supply: u64,
    caller_balance: u64,
    between: Seq<Operation>,
    later: u64,
)
    requires
        s.vote_result(id, caller, now) is Ok,
    ensures
        ({
            let then = s.after_vote(
                id,
                first,
                caller,
                now,
                total_supply,
                caller_balance,
            ).after_all(between);
            &&& then.has_voted(id, caller)
            &&& then.proposals.contains_key(id)
            &&& then.vote_result(id, caller, later) is Err
            &&& !then.proposals[id].executed && later < then.proposals[id].vote_end
                ==> then.vote_result(id, caller, later) == Err::<(), GovernorError>(
                GovernorError::AlreadyVoted,
            )
            &&& forall|second: VoteType, supply: u64, balance: u64|
                then.after_vote(id, second, caller, later, supply, balance) == then
        }),
{
    let voted = s.after_vote(id, first, caller, now, total_supply, caller_balance);
    assert(voted.votes.contains((id, caller)));
    assert(voted.proposals.contains_key(id));
    lemma_nothing_is_removed(voted, between);
}

/// Once a proposal is marked executed, every later `execute` of it is refused
/// with `ProposalAlreadyExecuted`, owes no transfer and changes nothing,
/// whatever was done with the governor in between.
pub proof fn lemma_execute_at_most_once(s: GovernorState, id: ProposalId, between: Seq<Operation>)
    requires
        s.wf(),
        s.proposals.contains_key(id),
        s.proposals[id].executed,
        s.admits_all(between),
    ensures
        ({
            let then = s.after_all(between);
            &&& then.proposals.contains_key(id)
            &&& then.proposals[id].executed
            &&& then.execute_result(id) == Err::<Option<Transfer>, GovernorError>(
                GovernorError::ProposalAlreadyExecuted,
            )
            &&& then.after_execute(id) == then
            &&& then.tally(id) == s.tally(id)
        }),
{
    lemma_run(s, between);
    let then = s.after_all(between);
    assert(s.proposals[id].executed ==> then.proposal_votes[id] == s.proposal_votes[id]);
}

/// An `execute` that owes a transfer marks the proposal executed, so that the
/// transfer is owed once.
pub proof fn lemma_execute_marks(s: GovernorState, id: ProposalId)
    requires
        s.wf(),
        s.execute_result(id) matches Ok(Some(_)),
    ensures
        s.after_execute(id).proposals[id].executed,
        s.after_execute(id).execute_result(id) == Err::<Option<Transfer>, GovernorError>(
            GovernorError::ProposalAlreadyExecuted,
        ),
{
}

/// `execute` owes a transfer exactly when the proposal exists, has not been
/// executed, and its tally reaches the quorum with more weight for than
/// against; the transfer is then the proposal's amount to its recipient. In
/// every other case the governor stays as it was.
pub proof fn lemma_transfer_needs_quorum_and_majority(s: GovernorState, id: ProposalId)
    ensures
        s.execute_result(id) matches Ok(Some(transfer)) ==> {
            &&& s.proposals.contains_key(id)
            &&& !s.proposals[id].executed
            &&& s.proposal_votes.contains_key(id)
            &&& s.proposal_votes[id].for_votes > s.proposal_votes[id].against_votes
            &&& s.proposal_votes[id].for_votes + s.proposal_votes[id].against_votes >= s.quorum
            &&& transfer.to == s.proposals[id].to
            &&& transfer.amount == s.proposals[id].amount
        },
        s.proposals.contains_key(id) && !s.proposals[id].executed && s.proposal_votes.contains_key(
            id,
        ) && s.proposal_votes[id].for_votes > s.proposal_votes[id].against_votes
            && s.proposal_votes[id].for_votes + s.proposal_votes[id].against_votes >= s.quorum
            ==> s.execute_result(id) matches Ok(Some(_)),
        !(s.execute_result(id) matches Ok(Some(_))) ==> s.after_execute(id) == s,
{
}

/// Every proposal that is marked executed has a tally that reaches the
/// quorum with more weight for than against.
pub proof fn lemma_executed_had_quorum_and_majority(s: GovernorState, id: ProposalId)
    requires
        s.wf(),
        s.proposals.contains_key(id),
        s.proposals[id].executed,
    ensures
        s.proposal_votes.contains_key(id),
        s.proposal_votes[id].for_votes > s.proposal_votes[id].against_votes,
        s.proposal_votes[id].for_votes + s.proposal_votes[id].against_votes >= s.quorum,
{
}

/// A proposal on which nobody has voted has no tally, and `execute` refuses
/// it for want of a quorum.
pub proof fn lemma_no_votes_no_quorum(s: GovernorState, id: ProposalId)
    requires
        s.wf(),
        s.proposals.contains_key(id),
        !s.has_votes(id),
    ensures
        s.tally(id) is None,
        s.execute_result(id) == Err::<Option<Transfer>, GovernorError>(
            GovernorError::QuorumNotReached,
        ),
{
}

/// What each operation leaves alone. `propose` touches no vote, no tally and
/// no proposal made before; `vote` touches no proposal and hands out no
/// identifier; `execute` touches no vote and no tally, hands out no
/// identifier, and changes no proposal but the one it is called for. The
/// `executed` mark of a proposal is set by `execute` alone.
pub proof fn lemma_frame(s: GovernorState, op: Operation)
    requires
        s.wf(),
        s.admits(op),
    ensures
        op is Propose ==> s.after(op).votes == s.votes && s.after(op).proposal_votes
            == s.proposal_votes,
        op is Vote ==> s.after(op).proposals == s.proposals && s.after(op).next_proposal_id
            == s.next_proposal_id,
        op is Execute ==> s.after(op).votes == s.votes && s.after(op).proposal_votes
            == s.proposal_votes && s.after(op).next_proposal_id == s.next_proposal_id,
        forall|id: ProposalId| #[trigger]
            s.proposals.contains_key(id) && s.after(op).proposals[id] != s.proposals[id] ==> (op
                == Operation::Execute { proposal_id: id }),
{
}

/// A tally changes only by a vote on its proposal that comes while the
/// proposal is unexecuted and its window is open.
pub proof fn lemma_tally_changes_only_in_window(s: GovernorState, op: Operation, id: ProposalId)
    requires
        s.wf(),
        s.admits(op),
        s.after(op).tally(id) != s.tally(id),
    ensures
        op matches Operation::Vote { proposal_id, now, .. } && proposal_id == id
            && s.proposals.contains_key(id) && !s.proposals[id].executed && now
            < s.proposals[id].vote_end,
{
}

/// Each operation has its own refusals and no others. `propose` refuses for
/// the amount or the duration; `vote` for a missing or executed proposal, a
/// closed window or a repeated vote; `execute` for a missing or executed
/// proposal or a missed quorum. No operation returns `InsufficientBalance`.
pub proof fn lemma_refusals(
    s: GovernorState,
    id: ProposalId,
    caller: Address,
    now: u64,
    amount: u64,
    duration: u64,
)
    ensures
        GovernorState::propose_result(amount, duration) matches Err(e) ==> e
            == GovernorError::AmountShouldNotBeZero || e == GovernorError::DurationError,
        s.vote_result(id, caller, now) matches Err(e) ==> e == GovernorError::ProposalNotFound || e
            == GovernorError::ProposalAlreadyExecuted || e == GovernorError::VotePeriodEnded || e
            == GovernorError::AlreadyVoted,
        s.execute_result(id) matches Err(e) ==> e == GovernorError::ProposalNotFound || e
            == GovernorError::ProposalAlreadyExecuted || e == GovernorError::QuorumNotReached,
{
}

/// However often a voter votes on a proposal, at most one of those votes is
/// counted, and none if the voter had voted before.
pub proof fn lemma_one_vote_per_voter(
    s: GovernorState,
    ops: Seq<Operation>,
    id: ProposalId,
    voter: Address,
)
    ensures
        s.votes_counted(ops, id, voter) <= 1,
        s.has_voted(id, voter) ==> s.votes_counted(ops, id, voter) == 0,
    decreases ops.len(),
{
    if ops.len() > 0 {
        let next = s.after(ops[0]);
        lemma_one_vote_per_voter(next, ops.drop_first(), id, voter);
        if s.has_voted(id, voter) || s.counts_vote(ops[0], id, voter) {
            assert(next.votes.contains((id, voter)));
        }
    }
}

/// However often a proposal is executed, a transfer is owed for it at most
/// once, and never if it was marked executed before.
pub proof fn lemma_one_transfer_per_proposal(s: GovernorState, ops: Seq<Operation>, id: ProposalId)
    requires
        s.wf(),
        s.admits_all(ops),
    ensures
        s.transfers_owed(ops, id) <= 1,
        s.proposals.contains_key(id) && s.proposals[id].executed ==> s.transfers_owed(ops, id)
            == 0,
    decreases ops.len(),
{
    if ops.len() > 0 {
        let next = s.after(ops[0]);
        lemma_step(s, ops[0]);
        lemma_one_transfer_per_proposal(next, ops.drop_first(), id);
    }
}

/// Each side of a tally is the sum of the weights of the votes counted for
/// that side: whatever is done with the governor, a counter grows by exactly
/// the weight of every vote in its direction that is counted, and by nothing
/// else.
pub proof fn lemma_tally_is_sum_of_weights(
    s: GovernorState,
    ops: Seq<Operation>,
    id: ProposalId,
    side: VoteType,
)
    requires
        s.wf(),
        s.admits_all(ops),
    ensures
        tally_or_zero(s.after_all(ops).tally(id)).counter(side) == tally_or_zero(
            s.tally(id),
        ).counter(side) + s.weight_counted(ops, id, side),
    decreases ops.len(),
{
    if ops.len() > 0 {
        let next = s.after(ops[0]);
        lemma_step(s, ops[0]);
        lemma_tally_is_sum_of_weights(next, ops.drop_first(), id, side);
        assert(tally_or_zero(next.tally(id)).counter(side) == tally_or_zero(s.tally(id)).counter(
            side,
        ) + s.weight_added(ops[0], id, side));
    }
}

} // verus!
