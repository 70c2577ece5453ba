use carbonchain::base::Origin;
use carbonchain::governance;
use carbonchain::governance::ProposalStatus;
use carbonchain::token;

const VOTING_PERIOD: u64 = 100;

fn world() -> (governance::Pallet, token::Pallet) {
    let gov = governance::Pallet::new(governance::Config {
        voting_period: VOTING_PERIOD,
        min_proposal_deposit: 10,
    });
    let mut tok = token::Pallet::new(token::Config { mint_rate_per_kwh: 10 });
    tok.mint(Origin::Root, 1, 100).unwrap();
    tok.mint(Origin::Root, 2, 40).unwrap();
    (gov, tok)
}

fn propose(gov: &mut governance::Pallet, tok: &token::Pallet, now: u64) {
    gov.create_proposal(
        tok,
        Origin::Signed(1),
        b"raise quorum".to_vec(),
        b"increase the oracle minimum".to_vec(),
        now,
    )
    .unwrap();
}

#[test]
fn create_requires_minimum_balance() {
    let (mut gov, tok) = world();
    let r = gov.create_proposal(&tok, Origin::Signed(3), Vec::new(), Vec::new(), 5);
    assert_eq!(r, Err(governance::Error::InsufficientBalance));
    propose(&mut gov, &tok, 5);
    assert_eq!(gov.proposal_count, 1);
    let p = gov.proposal(0).unwrap();
    assert_eq!(p.proposer, 1);
    assert_eq!(p.status, ProposalStatus::Active);
    assert_eq!(p.votes_for, 0);
    assert_eq!(p.votes_against, 0);
    assert_eq!(p.created_at, 5);
    assert_eq!(p.voting_ends, 5 + VOTING_PERIOD);
}

#[test]
fn proposal_ids_are_monotonic() {
    let (mut gov, tok) = world();
    propose(&mut gov, &tok, 5);
    propose(&mut gov, &tok, 6);
    assert_eq!(gov.proposal_count, 2);
    assert!(gov.proposal(0).is_some());
    assert!(gov.proposal(1).is_some());
    assert!(gov.proposal(2).is_none());
}

#[test]
fn votes_are_weighted_by_balance_at_vote_time() {
    let (mut gov, tok) = world();
    propose(&mut gov, &tok, 5);
    assert_eq!(gov.vote(&tok, Origin::Signed(1), 0, true, 10), Ok(()));
    assert_eq!(gov.vote(&tok, Origin::Signed(2), 0, false, 11), Ok(()));
    let p = gov.proposal(0).unwrap();
    assert_eq!(p.votes_for, 100);
    assert_eq!(p.votes_against, 40);
    assert_eq!(gov.vote_record(0, 1), Some(&(true, 100)));
    assert_eq!(gov.vote_record(0, 2), Some(&(true, 40)));
}

#[test]
fn second_vote_from_same_account_fails() {
    let (mut gov, tok) = world();
    propose(&mut gov, &tok, 5);
    gov.vote(&tok, Origin::Signed(1), 0, true, 10).unwrap();
    let r = gov.vote(&tok, Origin::Signed(1), 0, false, 11);
    assert_eq!(r, Err(governance::Error::AlreadyVoted));
    let p = gov.proposal(0).unwrap();
    assert_eq!(p.votes_for, 100);
    assert_eq!(p.votes_against, 0);
    assert_eq!(gov.vote_record(0, 1), Some(&(true, 100)));
}

#[test]
fn vote_after_window_fails() {
    let (mut gov, tok) = world();
    propose(&mut gov, &tok, 5);
    let r = gov.vote(&tok, Origin::Signed(1), 0, true, 5 + VOTING_PERIOD);
    assert_eq!(r, Err(governance::Error::VotingEnded));
}

#[test]
fn vote_on_unknown_proposal_fails() {
    let (mut gov, tok) = world();
    assert_eq!(gov.vote(&tok, Origin::Signed(1), 0, true, 5), Err(governance::Error::ProposalNotFound));
}

#[test]
fn majority_for_resolves_to_executed() {
    let (mut gov, tok) = world();
    propose(&mut gov, &tok, 5);
    gov.vote(&tok, Origin::Signed(1), 0, true, 10).unwrap();
    gov.vote(&tok, Origin::Signed(2), 0, false, 11).unwrap();
    assert_eq!(gov.execute_proposal(Origin::Signed(7), 0, 5 + VOTING_PERIOD), Ok(()));
    assert_eq!(gov.proposal(0).unwrap().status, ProposalStatus::Executed);
    assert!(matches!(
        gov.events.last(),
        Some(governance::Event::ProposalExecuted { proposal_id: 0 })
    ));
}

#[test]
fn majority_against_resolves_to_rejected() {
    let (mut gov, tok) = world();
    propose(&mut gov, &tok, 5);
    gov.vote(&tok, Origin::Signed(1), 0, false, 10).unwrap();
    gov.vote(&tok, Origin::Signed(2), 0, true, 11).unwrap();
    assert_eq!(gov.execute_proposal(Origin::Signed(7), 0, 5 + VOTING_PERIOD), Ok(()));
    assert_eq!(gov.proposal(0).unwrap().status, ProposalStatus::Rejected);
    assert!(matches!(
        gov.events.last(),
        Some(governance::Event::ProposalRejected { proposal_id: 0 })
    ));
}

#[test]
fn tie_resolves_to_rejected() {
    let (mut gov, mut tok) = world();
    tok.mint(Origin::Root, 2, 60).unwrap();  // both voters now hold 100
    propose(&mut gov, &tok, 5);
    gov.vote(&tok, Origin::Signed(1), 0, true, 10).unwrap();
    gov.vote(&tok, Origin::Signed(2), 0, false, 11).unwrap();
    let p = gov.proposal(0).unwrap();
    assert_eq!(p.votes_for, p.votes_against);
    assert_eq!(gov.execute_proposal(Origin::Signed(7), 0, 5 + VOTING_PERIOD), Ok(()));
    assert_eq!(gov.proposal(0).unwrap().status, ProposalStatus::Rejected);
}

#[test]
fn execute_before_window_closes_fails() {
    let (mut gov, tok) = world();
    propose(&mut gov, &tok, 5);
    let r = gov.execute_proposal(Origin::Signed(7), 0, 5 + VOTING_PERIOD - 1);
    assert_eq!(r, Err(governance::Error::VotingNotEnded));
    assert_eq!(gov.proposal(0).unwrap().status, ProposalStatus::Active);
}

#[test]
fn decided_proposal_cannot_be_executed_again() {
    let (mut gov, tok) = world();
    propose(&mut gov, &tok, 5);
    gov.vote(&tok, Origin::Signed(1), 0, true, 10).unwrap();
    gov.execute_proposal(Origin::Signed(7), 0, 5 + VOTING_PERIOD).unwrap();
    assert_eq!(gov.proposal(0).unwrap().status, ProposalStatus::Executed);
    let events_before = gov.events.len();
    let r = gov.execute_proposal(Origin::Signed(7), 0, 6 + VOTING_PERIOD);
    assert_eq!(r, Err(governance::Error::AlreadyDecided));
    assert_eq!(gov.proposal(0).unwrap().status, ProposalStatus::Executed);
    assert_eq!(gov.events.len(), events_before);
}

#[test]
fn create_with_overflowing_window_fails() {
    let (mut gov, tok) = world();
    let r = gov.create_proposal(&tok, Origin::Signed(1), Vec::new(), Vec::new(), u64::MAX);
    assert_eq!(r, Err(governance::Error::Overflow));
    assert_eq!(gov.proposal_count, 0);
}

#[test]
fn execute_unknown_proposal_fails() {
    let (mut gov, _tok) = world();
    assert_eq!(
        gov.execute_proposal(Origin::Signed(7), 3, 500),
        Err(governance::Error::ProposalNotFound)
    );
}
