//! The fungible-token ledger: construction, direct moves, allowances,
//! and delegated moves.

use kitty_ledger::erc20::{Approval, Erc20, Error, Transfer};

#[test]
fn default_works() {
    let (token, minted) = Erc20::default(1);
    assert_eq!(token.total_supply(), 0);
    assert_eq!(token.balance_of(1), 0);
    assert_eq!(minted, Transfer { from: Some(1), to: Some(1), value: 0 });
}

#[test]
fn it_works() {
    let (mut token, minted) = Erc20::new(1, 1000);
    assert_eq!(minted, Transfer { from: Some(1), to: Some(1), value: 1000 });
    assert_eq!(token.total_supply(), 1000);
    assert_eq!(token.balance_of(1), 1000);
    assert_eq!(token.balance_of(2), 0);

    let moved = token.transfer(1, 2, 300).unwrap();
    assert_eq!(moved, Transfer { from: Some(1), to: Some(2), value: 300 });
    assert_eq!(token.balance_of(1), 700);
    assert_eq!(token.balance_of(2), 300);
    assert_eq!(token.total_supply(), 1000);
}

#[test]
fn transfer_rejects_overdraw() {
    let (mut token, _) = Erc20::new(1, 10);
    assert_eq!(token.transfer(1, 2, 11), Err(Error::InsufficientBalance));
    assert_eq!(token.balance_of(1), 10);
    assert_eq!(token.balance_of(2), 0);
}

#[test]
fn transfer_to_self_changes_nothing() {
    let (mut token, _) = Erc20::new(1, 10);
    let moved = token.transfer(1, 1, 7).unwrap();
    assert_eq!(moved, Transfer { from: Some(1), to: Some(1), value: 7 });
    assert_eq!(token.balance_of(1), 10);
}

#[test]
fn approve_then_transfer_from() {
    let (mut token, _) = Erc20::new(1, 100);

    let granted = token.approve(1, 2, 40).unwrap();
    assert_eq!(granted, Approval { owner: 1, spender: 2, value: 40 });
    assert_eq!(token.allowance(1, 2), 40);
    assert_eq!(token.allowance(2, 1), 0);

    let moved = token.transfer_from(2, 1, 3, 15).unwrap();
    assert_eq!(moved, Transfer { from: Some(1), to: Some(3), value: 15 });
    assert_eq!(token.balance_of(1), 85);
    assert_eq!(token.balance_of(3), 15);
    assert_eq!(token.allowance(1, 2), 25);
}

#[test]
fn transfer_from_rejects_excess() {
    let (mut token, _) = Erc20::new(1, 100);
    token.approve(1, 2, 40).unwrap();

    assert_eq!(token.transfer_from(2, 1, 3, 41), Err(Error::InsufficientApproval));

    token.approve(1, 2, 200).unwrap();
    assert_eq!(token.transfer_from(2, 1, 3, 150), Err(Error::InsufficientBalance));

    assert_eq!(token.balance_of(1), 100);
    assert_eq!(token.balance_of(3), 0);
    assert_eq!(token.allowance(1, 2), 200);
}
