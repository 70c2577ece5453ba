use carbonchain::base::Origin;
use carbonchain::token::Config;
use carbonchain::token::Error;
use carbonchain::token::Event;
use carbonchain::token::Pallet;

fn fresh() -> Pallet {
    Pallet::new(Config { mint_rate_per_kwh: 10 })
}

#[test]
fn mint_increases_balance_and_supply() {
    let mut tok = fresh();
    assert_eq!(tok.mint(Origin::Root, 1, 100), Ok(()));
    assert_eq!(tok.balance_of(1), 100);
    assert_eq!(tok.total_supply, 100);
    assert!(matches!(tok.events.last(), Some(Event::TokensMinted { to: 1, amount: 100 })));
}

#[test]
fn mint_requires_root() {
    let mut tok = fresh();
    assert_eq!(tok.mint(Origin::Signed(1), 1, 100), Err(Error::BadOrigin));
    assert_eq!(tok.balance_of(1), 0);
    assert_eq!(tok.total_supply, 0);
}

#[test]
fn mint_overflow_reported() {
    let mut tok = fresh();
    assert_eq!(tok.mint(Origin::Root, 1, u128::MAX), Ok(()));
    assert_eq!(tok.mint(Origin::Root, 2, 1), Err(Error::Overflow));
    assert_eq!(tok.balance_of(2), 0);
    assert_eq!(tok.total_supply, u128::MAX);
}

#[test]
fn transfer_moves_funds() {
    let mut tok = fresh();
    tok.mint(Origin::Root, 1, 100).unwrap();
    assert_eq!(tok.transfer(Origin::Signed(1), 2, 40), Ok(()));
    assert_eq!(tok.balance_of(1), 60);
    assert_eq!(tok.balance_of(2), 40);
    assert_eq!(tok.total_supply, 100);
    assert!(matches!(tok.events.last(), Some(Event::Transfer { from: 1, to: 2, amount: 40 })));
}

#[test]
fn transfer_insufficient_funds() {
    let mut tok = fresh();
    tok.mint(Origin::Root, 1, 100).unwrap();
    assert_eq!(tok.transfer(Origin::Signed(1), 2, 101), Err(Error::InsufficientBalance));
    assert_eq!(tok.balance_of(1), 100);
    assert_eq!(tok.balance_of(2), 0);
}

#[test]
fn transfer_to_self_changes_nothing() {
    let mut tok = fresh();
    tok.mint(Origin::Root, 1, 100).unwrap();
    assert_eq!(tok.transfer(Origin::Signed(1), 1, 30), Ok(()));
    assert_eq!(tok.balance_of(1), 100);
    assert_eq!(tok.total_supply, 100);
}

#[test]
fn burn_reduces_balance_and_supply() {
    let mut tok = fresh();
    tok.mint(Origin::Root, 1, 100).unwrap();
    assert_eq!(tok.burn(Origin::Signed(1), 30), Ok(()));
    assert_eq!(tok.balance_of(1), 70);
    assert_eq!(tok.total_supply, 70);
    assert_eq!(tok.burn(Origin::Signed(1), 71), Err(Error::InsufficientBalance));
    assert_eq!(tok.balance_of(1), 70);
}

#[test]
fn approve_overwrites_allowance() {
    let mut tok = fresh();
    assert_eq!(tok.approve(Origin::Signed(1), 2, 55), Ok(()));
    assert_eq!(tok.allowance_of(1, 2), 55);
    assert_eq!(tok.approve(Origin::Signed(1), 2, 10), Ok(()));
    assert_eq!(tok.allowance_of(1, 2), 10);
    assert_eq!(tok.allowance_of(2, 1), 0);
}

#[test]
fn claim_with_nothing_pending_fails() {
    let mut tok = fresh();
    assert_eq!(tok.claim_rewards(Origin::Signed(1)), Err(Error::NothingToClaim));
}

#[test]
fn claim_moves_pending_into_balance() {
    let mut tok = fresh();
    tok.mint(Origin::Root, 1, 5).unwrap();
    tok.add_pending_reward(1, 50);
    assert_eq!(tok.pending_of(1), 50);
    assert_eq!(tok.claim_rewards(Origin::Signed(1)), Ok(()));
    assert_eq!(tok.pending_of(1), 0);
    assert_eq!(tok.balance_of(1), 55);
    assert_eq!(tok.total_supply, 55);
    assert!(matches!(tok.events.last(), Some(Event::RewardsClaimed { account: 1, amount: 50 })));
}

#[test]
fn conservation_holds_across_operations() {
    let mut tok = fresh();
    tok.mint(Origin::Root, 1, 100).unwrap();
    tok.mint(Origin::Root, 2, 40).unwrap();
    tok.transfer(Origin::Signed(1), 3, 25).unwrap();
    tok.burn(Origin::Signed(2), 10).unwrap();
    tok.add_pending_reward(3, 7);
    tok.claim_rewards(Origin::Signed(3)).unwrap();
    let sum = tok.balance_of(1) + tok.balance_of(2) + tok.balance_of(3);
    assert_eq!(tok.total_supply, sum);
    assert_eq!(sum, 100 + 40 - 10 + 7);
}

#[test]
fn reward_is_whole_kilowatt_hours_times_rate() {
    let tok = fresh();
    assert_eq!(tok.calculate_reward(5000), 50);
    assert_eq!(tok.calculate_reward(999), 0);
    assert_eq!(tok.calculate_reward(1999), 10);
    assert_eq!(tok.calculate_reward(0), 0);
}

#[test]
fn reward_saturates_at_max_amount() {
    let tok = carbonchain::token::Pallet::new(Config { mint_rate_per_kwh: u128::MAX });
    assert_eq!(tok.calculate_reward(2000), u128::MAX);
    assert_eq!(tok.calculate_reward(999), 0);
}

#[test]
fn pending_reward_saturates() {
    let mut tok = fresh();
    tok.add_pending_reward(1, u128::MAX);
    tok.add_pending_reward(1, 10);
    assert_eq!(tok.pending_of(1), u128::MAX);
}
