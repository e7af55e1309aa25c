//! The five ledger operations, exercised end to end against a funded
//! currency ledger: three accounts, each holding 100000, with an
//! existential deposit of zero.

use kitty_ledger::balances::Balances;
use kitty_ledger::ledger::{Error, Event, Pallet};

fn new_test_ext() -> (Pallet, Balances) {
    let mut balances = Balances::new(0);
    balances.set_free_balance(1, 100000);
    balances.set_free_balance(2, 100000);
    balances.set_free_balance(3, 100000);
    (Pallet::new(), balances)
}

fn dna(fill: u8) -> [u8; 16] {
    [fill; 16]
}

#[test]
fn test_create() {
    let (mut pallet, mut balances) = new_test_ext();

    let result = pallet.create(1, dna(1), &mut balances);
    assert!(result.is_ok());
    assert_eq!(result.unwrap(), Event::Created(1, 1));
}

#[test]
fn test_breed() {
    let (mut pallet, mut balances) = new_test_ext();

    let last_event = pallet.create(1, dna(1), &mut balances).unwrap();
    assert_eq!(last_event, Event::Created(1, 1));

    let last_event = pallet.create(1, dna(2), &mut balances).unwrap();
    assert_eq!(last_event, Event::Created(1, 2));

    assert_eq!(pallet.breed(1, 9, 10, dna(3)), Err(Error::InvalidKittyId));

    let last_event = pallet.breed(1, 1, 2, dna(3)).unwrap();
    assert_eq!(last_event, Event::Created(1, 3));
}

#[test]
fn test_transfer() {
    let (mut pallet, mut balances) = new_test_ext();

    let last_event = pallet.create(1, dna(1), &mut balances).unwrap();
    assert_eq!(last_event, Event::Created(1, 1));

    assert_eq!(pallet.transfer(2, 3, 1), Err(Error::RequireOwner));

    let last_event = pallet.transfer(1, 2, 1).unwrap();
    assert_eq!(last_event, Event::Transferred(1, 2, 1));
}

#[test]
fn test_ask() {
    let (mut pallet, mut balances) = new_test_ext();

    let last_event = pallet.create(1, dna(1), &mut balances).unwrap();
    assert_eq!(last_event, Event::Created(1, 1));

    assert_eq!(pallet.ask(2, 1, Some(1)), Err(Error::RequireOwner));

    let last_event = pallet.ask(1, 1, Some(1)).unwrap();
    assert_eq!(last_event, Event::Ask(1, 1, Some(1)));
}

#[test]
fn test_buy() {
    let (mut pallet, mut balances) = new_test_ext();

    let last_event = pallet.create(1, dna(1), &mut balances).unwrap();
    assert_eq!(last_event, Event::Created(1, 1));

    let last_event = pallet.create(1, dna(2), &mut balances).unwrap();
    assert_eq!(last_event, Event::Created(1, 2));

    let last_event = pallet.ask(1, 1, Some(2)).unwrap();
    assert_eq!(last_event, Event::Ask(1, 1, Some(2)));

    assert_eq!(pallet.buy(2, 9, 2, &mut balances), Err(Error::InvalidKittyId));

    assert_eq!(pallet.buy(2, 2, 2, &mut balances), Err(Error::NotForSale));

    assert_eq!(pallet.buy(2, 1, 1, &mut balances), Err(Error::PriceTooLow));

    let last_event = pallet.buy(2, 1, 2, &mut balances).unwrap();
    assert_eq!(last_event, Event::Sold(1, 2, 1, 2));
}
