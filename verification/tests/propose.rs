use dao::address::Address;
use dao::error::GovernorError;
use dao::governor::Governor;
use dao::proposal::{Proposal, ProposalVote, Transfer, ONE_MINUTE};

/// The surroundings of a governor under test: a clock and a treasury.
struct Chain {
    now: u64,
    treasury: u128,
}

fn alice() -> Address {
    Address::new([0x01; 32])
}

fn django() -> Address {
    Address::new([0x04; 32])
}

fn create_contract(initial_balance: u128) -> (Governor, Chain) {
    let chain = Chain { now: 0, treasury: initial_balance };
    (Governor::new(Address::new([0x01; 32]), 50), chain)
}

#[test]
fn propose_works() {
    let (mut governor, chain) = create_contract(1000);
    assert_eq!(
        governor.propose(django(), 0, 1, chain.now),
        Err(GovernorError::AmountShouldNotBeZero)
    );
    assert_eq!(
        governor.propose(django(), 100, 0, chain.now),
        Err(GovernorError::DurationError)
    );
    let result = governor.propose(django(), 100, 1, chain.now);
    assert_eq!(result, Ok(()));
    let proposal = governor.get_proposal(0).unwrap();
    let now = chain.now;
    assert_eq!(
        proposal,
        Proposal {
            to: django(),
            amount: 100,
            vote_start: 0,
            vote_end: now + 1 * ONE_MINUTE,
            executed: false,
        }
    );
    assert_eq!(governor.next_proposal_id(), 1);
    assert_eq!(chain.treasury, 1000);
}

#[test]
fn quorum_not_reached() {
    let (mut governor, chain) = create_contract(1000);
    let result = governor.propose(Address::new([0x02; 32]), 100, 1, chain.now);
    assert_eq!(result, Ok(()));
    let execute = governor.execute(0);
    assert_eq!(execute, Err(GovernorError::QuorumNotReached));
}

#[test]
fn new_governor_is_empty() {
    let governor = Governor::new(alice(), 50);
    assert_eq!(governor.next_proposal_id(), 0);
    assert_eq!(governor.quorum(), 50);
    assert_eq!(governor.governance_token(), alice());
    assert_eq!(governor.get_proposal(0), None);
    assert_eq!(governor.get_proposal_votes(0), None);
    assert!(!governor.has_voted(0, &alice()));
}

#[test]
fn zero_amount_is_reported_before_zero_duration() {
    let mut governor = Governor::new(alice(), 50);
    assert_eq!(
        governor.propose(django(), 0, 0, 7),
        Err(GovernorError::AmountShouldNotBeZero)
    );
}

#[test]
fn refused_proposal_changes_nothing() {
    let mut governor = Governor::new(alice(), 50);
    assert_eq!(
        governor.propose(django(), 0, 1, 7),
        Err(GovernorError::AmountShouldNotBeZero)
    );
    assert_eq!(
        governor.propose(django(), 1, 0, 7),
        Err(GovernorError::DurationError)
    );
    assert_eq!(governor.next_proposal_id(), 0);
    assert_eq!(governor.get_proposal(0), None);
}

#[test]
fn window_is_duration_times_sixty_seconds() {
    let mut governor = Governor::new(alice(), 50);
    assert_eq!(governor.propose(django(), 5, 3, 1_000), Ok(()));
    let proposal = governor.get_proposal(0).unwrap();
    assert_eq!(proposal.vote_start, 1_000);
    assert_eq!(proposal.vote_end, 1_180);
    assert!(!proposal.executed);
}

#[test]
fn identifiers_count_up_from_zero() {
    let mut governor = Governor::new(alice(), 50);
    for expected in 0..5u64 {
        assert_eq!(governor.next_proposal_id(), expected);
        assert_eq!(governor.propose(django(), expected + 1, 2, 10 * expected), Ok(()));
        let stored = governor.get_proposal(expected).unwrap();
        assert_eq!(stored.amount, expected + 1);
        assert_eq!(stored.vote_start, 10 * expected);
        assert_eq!(stored.vote_end, 10 * expected + 120);
    }
    assert_eq!(governor.next_proposal_id(), 5);
    assert_eq!(governor.get_proposal(5), None);
    assert_eq!(governor.get_proposal(u64::MAX), None);
    // Earlier proposals are untouched by later ones.
    assert_eq!(governor.get_proposal(0).unwrap().amount, 1);
}

#[test]
fn largest_window_that_fits() {
    let mut governor = Governor::new(alice(), 50);
    let duration = u64::MAX / 60;
    let now = u64::MAX - duration * 60;
    assert_eq!(governor.propose(django(), u64::MAX, duration, now), Ok(()));
    let stored = governor.get_proposal(0).unwrap();
    assert_eq!(stored.vote_end, u64::MAX);
    assert_eq!(stored.amount, u64::MAX);
}

#[test]
fn proposal_new_builds_the_stored_value() {
    assert_eq!(
        Proposal::new(django(), 100, 1, 0),
        Ok(Proposal { to: django(), vote_start: 0, vote_end: 60, executed: false, amount: 100 })
    );
    assert_eq!(
        Proposal::new(django(), 0, 1, 0),
        Err(GovernorError::AmountShouldNotBeZero)
    );
    assert_eq!(Proposal::new(django(), 100, 0, 0), Err(GovernorError::DurationError));
}

#[test]
fn mark_executed_sets_only_the_flag() {
    let open = Proposal { to: django(), vote_start: 3, vote_end: 63, executed: false, amount: 9 };
    let marked = open.mark_executed();
    assert_eq!(
        marked,
        Proposal { to: django(), vote_start: 3, vote_end: 63, executed: true, amount: 9 }
    );
    assert_eq!(marked.mark_executed(), marked);
}

#[test]
fn fresh_proposal_has_no_tally_and_no_voters() {
    let mut governor = Governor::new(alice(), 50);
    assert_eq!(governor.propose(django(), 100, 1, 0), Ok(()));
    assert_eq!(governor.get_proposal_votes(0), None);
    assert!(!governor.has_voted(0, &alice()));
    assert!(!governor.has_voted(0, &django()));
}

#[test]
fn default_tally_is_zero() {
    assert_eq!(ProposalVote::default(), ProposalVote { for_votes: 0, against_votes: 0 });
}

#[test]
fn transfer_compares_by_fields() {
    let a = Transfer { to: django(), amount: 1 };
    assert_eq!(a, Transfer { to: django(), amount: 1 });
    assert_ne!(a, Transfer { to: alice(), amount: 1 });
    assert_ne!(a, Transfer { to: django(), amount: 2 });
}
