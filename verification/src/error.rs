//! The reasons for which the governor turns a call down.

use vstd::prelude::*;

verus! {

/// Why `propose`, `vote` or `execute` was refused. A refused call leaves the
/// governor exactly as it was.
#[derive(Clone, Copy, Debug, PartialEq, Eq, Structural)]
pub enum GovernorError {
    /// A proposal must move a positive amount.
    AmountShouldNotBeZero,
    /// A proposal must be open to votes for at least one minute.
    DurationError,
    /// The vote came at or after the end of the voting window.
    VotePeriodEnded,
    /// The voter has already voted on this proposal.
    AlreadyVoted,
    /// The proposal has been executed; nothing more happens to it.
    ProposalAlreadyExecuted,
    /// No proposal has this identifier.
    ProposalNotFound,
    /// Kept for a balance check before the transfer; no operation returns it.
    InsufficientBalance,
    /// The votes cast do not add up to the quorum.
    QuorumNotReached,
}

/// The refusals that concern a proposal and its votes alone, without the
/// outcome of the tally.
#[derive(Clone, Copy, Debug, PartialEq, Eq, Structural)]
pub enum DaoError {
    /// A proposal must move a positive amount.
    AmountShouldNotBeZero,
    /// A proposal must be open to votes for at least one minute.
    DurationError,
    /// The vote came at or after the end of the voting window.
    VotePeriodEnded,
    /// The voter has already voted on this proposal.
    AlreadyVoted,
    /// The proposal has been executed; nothing more happens to it.
    ProposalAlreadyExecuted,
    /// No proposal has this identifier.
    ProposalNotFound,
    /// Kept for a balance check before the transfer.
    InsufficientBalance,
}

} // verus!
