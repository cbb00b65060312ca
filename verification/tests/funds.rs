use bounty_board::errors::BountyError;
use bounty_board::funds::transfer;

#[test]
fn transfer_moves_the_amount() {
    let mut from: u64 = 10;
    let mut to: u64 = 5;
    assert_eq!(transfer(&mut from, &mut to, 4), Ok(()));
    assert_eq!((from, to), (6, 9));
}

#[test]
fn transfer_of_everything() {
    let mut from: u64 = 10;
    let mut to: u64 = 0;
    assert_eq!(transfer(&mut from, &mut to, 10), Ok(()));
    assert_eq!((from, to), (0, 10));
}

#[test]
fn transfer_of_nothing() {
    let mut from: u64 = 0;
    let mut to: u64 = u64::MAX;
    assert_eq!(transfer(&mut from, &mut to, 0), Ok(()));
    assert_eq!((from, to), (0, u64::MAX));
}

#[test]
fn transfer_beyond_the_balance_changes_nothing() {
    let mut from: u64 = 10;
    let mut to: u64 = 5;
    assert_eq!(transfer(&mut from, &mut to, 11), Err(BountyError::InsufficientFunds));
    assert_eq!((from, to), (10, 5));
}

#[test]
fn transfer_beyond_the_balance_is_refused_whatever_the_receiver_holds() {
    let mut from: u64 = 10;
    let mut to: u64 = u64::MAX;
    assert_eq!(transfer(&mut from, &mut to, 11), Err(BountyError::InsufficientFunds));
    assert_eq!((from, to), (10, u64::MAX));
}
