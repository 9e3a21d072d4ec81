use dao::{Address, Governor, GovernorError, ProposalVote, Transfer, VoteType};

fn member(tag: u8) -> Address {
    Address::new([tag; 32])
}

fn recipient() -> Address {
    Address::new([0x04; 32])
}

/// A governor with quorum 50 and one proposal of 100 to the recipient, open
/// for one minute from instant 0.
fn governor_with_open_proposal() -> Governor {
    let mut governor = Governor::new(member(1), 50);
    assert_eq!(governor.propose(recipient(), 100, 1, 0), Ok(()));
    governor
}

#[test]
fn execute_missing_proposal_is_not_found() {
    let mut governor = Governor::new(member(1), 50);
    assert_eq!(governor.execute(0), Err(GovernorError::ProposalNotFound));
    let mut governor = governor_with_open_proposal();
    assert_eq!(governor.execute(1), Err(GovernorError::ProposalNotFound));
    assert_eq!(governor.execute(u64::MAX), Err(GovernorError::ProposalNotFound));
}

#[test]
fn execute_without_votes_is_quorum_not_reached() {
    let mut governor = governor_with_open_proposal();
    assert_eq!(governor.execute(0), Err(GovernorError::QuorumNotReached));
    assert!(!governor.get_proposal(0).unwrap().executed);
}

#[test]
fn execute_below_quorum_is_refused() {
    let mut governor = governor_with_open_proposal();
    assert_eq!(governor.vote(0, VoteType::For, member(2), 10, 100, 25), Ok(()));
    assert_eq!(governor.vote(0, VoteType::Against, member(3), 10, 100, 24), Ok(()));
    assert_eq!(
        governor.get_proposal_votes(0),
        Some(ProposalVote { for_votes: 25, against_votes: 24 })
    );
    assert_eq!(governor.execute(0), Err(GovernorError::QuorumNotReached));
    assert!(!governor.get_proposal(0).unwrap().executed);
}

#[test]
fn two_voters_reach_quorum_and_the_transfer_is_owed_once() {
    let mut treasury: u128 = 1000;
    let mut paid: u128 = 0;
    let mut governor = governor_with_open_proposal();
    assert_eq!(governor.vote(0, VoteType::For, member(2), 10, 100, 25), Ok(()));
    assert_eq!(governor.vote(0, VoteType::For, member(3), 20, 100, 25), Ok(()));
    let owed = governor.execute(0);
    assert_eq!(owed, Ok(Some(Transfer { to: recipient(), amount: 100 })));
    if let Ok(Some(transfer)) = owed {
        treasury -= transfer.amount as u128;
        paid += transfer.amount as u128;
    }
    assert!(governor.get_proposal(0).unwrap().executed);
    assert_eq!(governor.execute(0), Err(GovernorError::ProposalAlreadyExecuted));
    assert_eq!(governor.execute(0), Err(GovernorError::ProposalAlreadyExecuted));
    assert_eq!(treasury, 900);
    assert_eq!(paid, 100);
}

#[test]
fn quorum_is_met_exactly() {
    let mut governor = governor_with_open_proposal();
    assert_eq!(governor.vote(0, VoteType::For, member(2), 10, 100, 26), Ok(()));
    assert_eq!(governor.vote(0, VoteType::Against, member(3), 10, 100, 24), Ok(()));
    assert_eq!(governor.execute(0), Ok(Some(Transfer { to: recipient(), amount: 100 })));
}

#[test]
fn tie_leaves_the_proposal_open() {
    let mut governor = governor_with_open_proposal();
    assert_eq!(governor.vote(0, VoteType::For, member(2), 10, 100, 25), Ok(()));
    assert_eq!(governor.vote(0, VoteType::Against, member(3), 10, 100, 25), Ok(()));
    assert_eq!(governor.execute(0), Ok(None));
    assert!(!governor.get_proposal(0).unwrap().executed);
    // Nothing is closed: a later vote in time can still tip the balance.
    assert_eq!(governor.vote(0, VoteType::For, member(5), 30, 100, 1), Ok(()));
    assert_eq!(governor.execute(0), Ok(Some(Transfer { to: recipient(), amount: 100 })));
    assert!(governor.get_proposal(0).unwrap().executed);
}

#[test]
fn majority_against_leaves_the_proposal_open() {
    let mut governor = governor_with_open_proposal();
    assert_eq!(governor.vote(0, VoteType::For, member(2), 10, 100, 20), Ok(()));
    assert_eq!(governor.vote(0, VoteType::Against, member(3), 10, 100, 40), Ok(()));
    assert_eq!(governor.execute(0), Ok(None));
    assert_eq!(governor.execute(0), Ok(None));
    assert!(!governor.get_proposal(0).unwrap().executed);
}

#[test]
fn execute_may_come_before_the_window_closes() {
    let mut governor = governor_with_open_proposal();
    assert_eq!(governor.vote(0, VoteType::For, member(2), 0, 100, 50), Ok(()));
    assert_eq!(governor.execute(0), Ok(Some(Transfer { to: recipient(), amount: 100 })));
}

#[test]
fn execution_keeps_votes_and_other_proposals() {
    let mut governor = governor_with_open_proposal();
    assert_eq!(governor.propose(member(9), 7, 2, 5), Ok(()));
    assert_eq!(governor.vote(0, VoteType::For, member(2), 10, 100, 80), Ok(()));
    assert_eq!(governor.vote(1, VoteType::For, member(2), 10, 100, 10), Ok(()));
    let other = governor.get_proposal(1);
    assert_eq!(governor.execute(0), Ok(Some(Transfer { to: recipient(), amount: 100 })));
    assert_eq!(governor.get_proposal(1), other);
    assert_eq!(
        governor.get_proposal_votes(0),
        Some(ProposalVote { for_votes: 80, against_votes: 0 })
    );
    assert_eq!(
        governor.get_proposal_votes(1),
        Some(ProposalVote { for_votes: 10, against_votes: 0 })
    );
    assert!(governor.has_voted(0, &member(2)));
    assert_eq!(governor.execute(1), Err(GovernorError::QuorumNotReached));
    assert_eq!(governor.next_proposal_id(), 2);
}

#[test]
fn zero_quorum_still_needs_a_vote() {
    let mut governor = Governor::new(member(1), 0);
    assert_eq!(governor.propose(recipient(), 100, 1, 0), Ok(()));
    assert_eq!(governor.execute(0), Err(GovernorError::QuorumNotReached));
    assert_eq!(governor.vote(0, VoteType::For, member(2), 10, 100, 0), Ok(()));
    // A tally exists and meets the quorum of zero, but zero does not outweigh zero.
    assert_eq!(governor.execute(0), Ok(None));
    assert_eq!(governor.vote(0, VoteType::For, member(3), 10, 100, 1), Ok(()));
    assert_eq!(governor.execute(0), Ok(Some(Transfer { to: recipient(), amount: 100 })));
}
