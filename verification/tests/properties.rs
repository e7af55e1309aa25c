//! Behavioural checks beyond the basic operation tests: identifier
//! allocation and exhaustion, the recombination formula, ownership
//! gating, marketplace settlement, strict breeding, and the currency
//! failure modes.

use std::collections::HashMap;

use kitty_ledger::balances::{Balances, CurrencyError};
use kitty_ledger::dna::combine_dna;
use kitty_ledger::ledger::{Error, Event, Kitty, Pallet};

fn new_test_ext() -> (Pallet, Balances) {
    let mut balances = Balances::new(0);
    balances.set_free_balance(1, 100000);
    balances.set_free_balance(2, 100000);
    balances.set_free_balance(3, 100000);
    (Pallet::new(), balances)
}

fn dna(fill: u8) -> [u8; 16] {
    [fill; 16]
}

#[test]
fn identifiers_count_up_from_one() {
    let (mut pallet, mut balances) = new_test_ext();
    assert_eq!(pallet.kitties_count(), None);
    for n in 1u32..=5 {
        let ev = pallet.create(1, dna(n as u8), &mut balances).unwrap();
        assert_eq!(ev, Event::Created(1, n));
        assert_eq!(pallet.kitties_count(), Some(n + 1));
    }
}

#[test]
fn allocation_exhaustion_create() {
    let mut balances = Balances::new(0);
    balances.set_free_balance(1, 100000);
    let mut pallet = Pallet {
        kitties_count: Some(u32::MAX),
        kitties: HashMap::new(),
        owners: HashMap::new(),
        kitty_prices: HashMap::new(),
        strict_breeding: false,
    };
    assert_eq!(pallet.create(1, dna(1), &mut balances), Err(Error::KittiesCountOverflow));
    assert_eq!(pallet.kitties_count(), Some(u32::MAX));
    assert_eq!(balances.free_balance(1), 100000);
    assert_eq!(balances.reserved_balance(1), 0);
}

#[test]
fn allocation_exhaustion_breed() {
    let mut kitties = HashMap::new();
    kitties.insert(1u32, Kitty(dna(1)));
    let mut owners = HashMap::new();
    owners.insert(1u32, 1u64);
    let mut pallet = Pallet {
        kitties_count: Some(u32::MAX),
        kitties,
        owners,
        kitty_prices: HashMap::new(),
        strict_breeding: false,
    };
    assert_eq!(pallet.breed(1, 1, 1, dna(9)), Err(Error::KittiesCountOverflow));
    assert_eq!(pallet.kitties_count(), Some(u32::MAX));
}

#[test]
fn combine_dna_formula() {
    assert_eq!(combine_dna(0b1010_1010, 0b0101_0101, 0b1100_0011), 0b1001_0110);
    assert_eq!(combine_dna(0x12, 0x34, 0xff), 0x12);
    assert_eq!(combine_dna(0x12, 0x34, 0x00), 0x34);
    for p1 in [0u8, 1, 0x5a, 0xa5, 0xff] {
        for p2 in [0u8, 3, 0x3c, 0xc3, 0xff] {
            for s in [0u8, 0x0f, 0xf0, 0x77, 0xff] {
                assert_eq!(combine_dna(p1, p2, s), (s & p1) | (!s & p2));
            }
        }
    }
}

#[test]
fn breeding_same_selector_is_deterministic() {
    let (mut pallet, mut balances) = new_test_ext();
    pallet.create(1, dna(0x5a), &mut balances).unwrap();
    pallet.create(1, dna(0xc3), &mut balances).unwrap();
    let selector: [u8; 16] = [0x0f; 16];
    pallet.breed(1, 1, 2, selector).unwrap();
    pallet.breed(1, 1, 2, selector).unwrap();
    assert_eq!(pallet.kitties(3).unwrap().0, pallet.kitties(4).unwrap().0);
}

#[test]
fn scenario_create_create_breed() {
    let (mut pallet, mut balances) = new_test_ext();

    let ev = pallet.create(1, dna(0x12), &mut balances).unwrap();
    assert_eq!(ev, Event::Created(1, 1));
    assert_eq!(pallet.owner(1), Some(1));

    let ev = pallet.create(1, dna(0x34), &mut balances).unwrap();
    assert_eq!(ev, Event::Created(1, 2));

    let mut selector: [u8; 16] = [0; 16];
    for (i, b) in selector.iter_mut().enumerate() {
        *b = i as u8 * 17;
    }
    let ev = pallet.breed(1, 1, 2, selector).unwrap();
    assert_eq!(ev, Event::Created(1, 3));
    assert_eq!(pallet.owner(3), Some(1));

    let child = pallet.kitties(3).unwrap().0;
    for i in 0..16usize {
        assert_eq!(child[i], (selector[i] & 0x12) | (!selector[i] & 0x34));
    }
}

#[test]
fn scenario_transfer_ownership() {
    let (mut pallet, mut balances) = new_test_ext();
    pallet.create(1, dna(1), &mut balances).unwrap();

    assert_eq!(pallet.transfer(2, 3, 1), Err(Error::RequireOwner));
    assert_eq!(pallet.owner(1), Some(1));

    let ev = pallet.transfer(1, 2, 1).unwrap();
    assert_eq!(ev, Event::Transferred(1, 2, 1));
    assert_eq!(pallet.owner(1), Some(2));
}

#[test]
fn scenario_list_and_buy_settles_listed_price() {
    let (mut pallet, mut balances) = new_test_ext();
    pallet.create(1, dna(1), &mut balances).unwrap();
    pallet.ask(1, 1, Some(2)).unwrap();

    assert_eq!(pallet.buy(2, 1, 1, &mut balances), Err(Error::PriceTooLow));

    let seller_before = balances.free_balance(1);
    let buyer_before = balances.free_balance(2);
    let ev = pallet.buy(2, 1, 2, &mut balances).unwrap();
    assert_eq!(ev, Event::Sold(1, 2, 1, 2));
    assert_eq!(pallet.kitty_price(1), None);
    assert_eq!(pallet.owner(1), Some(2));
    assert_eq!(balances.free_balance(2), buyer_before - 2);
    assert_eq!(balances.free_balance(1), seller_before + 2);
}

#[test]
fn buy_settles_listed_price_not_offer() {
    let (mut pallet, mut balances) = new_test_ext();
    pallet.create(1, dna(1), &mut balances).unwrap();
    pallet.ask(1, 1, Some(10)).unwrap();

    let seller_before = balances.free_balance(1);
    let buyer_before = balances.free_balance(2);
    pallet.buy(2, 1, 25, &mut balances).unwrap();
    assert_eq!(balances.free_balance(2), buyer_before - 10);
    assert_eq!(balances.free_balance(1), seller_before + 10);
}

#[test]
fn failed_gating_leaves_registries_untouched() {
    let (mut pallet, mut balances) = new_test_ext();
    pallet.create(1, dna(1), &mut balances).unwrap();
    pallet.ask(1, 1, Some(7)).unwrap();

    assert_eq!(pallet.transfer(3, 2, 1), Err(Error::RequireOwner));
    assert_eq!(pallet.ask(3, 1, Some(1)), Err(Error::RequireOwner));
    assert_eq!(pallet.ask(3, 1, None), Err(Error::RequireOwner));

    assert_eq!(pallet.owner(1), Some(1));
    assert_eq!(pallet.kitty_price(1), Some(7));
    assert_eq!(pallet.kitties_count(), Some(2));
}

#[test]
fn ask_clears_listing_with_no_price() {
    let (mut pallet, mut balances) = new_test_ext();
    pallet.create(1, dna(1), &mut balances).unwrap();
    pallet.ask(1, 1, Some(3)).unwrap();
    assert_eq!(pallet.kitty_price(1), Some(3));

    let ev = pallet.ask(1, 1, None).unwrap();
    assert_eq!(ev, Event::Ask(1, 1, None));
    assert_eq!(pallet.kitty_price(1), None);
    assert_eq!(pallet.buy(2, 1, 100, &mut balances), Err(Error::NotForSale));
}

#[test]
fn strict_breeding_checks() {
    let (mut pallet, mut balances) = new_test_ext();
    pallet.strict_breeding = true;
    pallet.create(1, dna(1), &mut balances).unwrap();
    pallet.create(1, dna(2), &mut balances).unwrap();
    pallet.create(2, dna(3), &mut balances).unwrap();

    assert_eq!(pallet.breed(1, 1, 3, dna(9)), Err(Error::RequireOwner));
    assert_eq!(pallet.breed(2, 3, 1, dna(9)), Err(Error::RequireOwner));
    assert_eq!(pallet.breed(1, 1, 1, dna(9)), Err(Error::RequireDifferentParent));
    let ev = pallet.breed(1, 1, 2, dna(9)).unwrap();
    assert_eq!(ev, Event::Created(1, 4));
}

#[test]
fn lax_breeding_allows_one_parent_twice() {
    let (mut pallet, mut balances) = new_test_ext();
    pallet.create(1, dna(0xf0), &mut balances).unwrap();

    let ev = pallet.breed(2, 1, 1, dna(0x0f)).unwrap();
    assert_eq!(ev, Event::Created(2, 2));
    assert_eq!(pallet.owner(2), Some(2));
    assert_eq!(pallet.kitties(2).unwrap().0, dna(0xf0));
}

#[test]
fn create_fails_without_deposit() {
    let (mut pallet, mut balances) = new_test_ext();
    assert_eq!(
        pallet.create(9, dna(1), &mut balances),
        Err(Error::Currency(CurrencyError::InsufficientFunds))
    );
    assert_eq!(pallet.kitties_count(), None);
    assert_eq!(pallet.kitties(1), None);
}

#[test]
fn buy_fails_when_buyer_cannot_pay() {
    let (mut pallet, mut balances) = new_test_ext();
    pallet.create(1, dna(1), &mut balances).unwrap();
    pallet.ask(1, 1, Some(50)).unwrap();
    balances.set_free_balance(4, 30);

    assert_eq!(
        pallet.buy(4, 1, 50, &mut balances),
        Err(Error::Currency(CurrencyError::InsufficientFunds))
    );
    assert_eq!(pallet.owner(1), Some(1));
    assert_eq!(pallet.kitty_price(1), Some(50));
    assert_eq!(balances.free_balance(4), 30);
}

#[test]
fn buy_fails_when_payment_would_kill_buyer() {
    let mut balances = Balances::new(5);
    balances.set_free_balance(1, 100);
    balances.set_free_balance(2, 6);
    let mut pallet = Pallet::new();
    pallet.create(1, dna(1), &mut balances).unwrap();
    pallet.ask(1, 1, Some(2)).unwrap();

    assert_eq!(
        pallet.buy(2, 1, 2, &mut balances),
        Err(Error::Currency(CurrencyError::KeepAlive))
    );
    assert_eq!(balances.free_balance(2), 6);
    assert_eq!(pallet.owner(1), Some(1));
}

#[test]
fn reserve_and_transfer_overflow_are_rejected() {
    let mut balances = Balances::new(0);
    balances.set_free_balance(9, u128::MAX);
    assert_eq!(balances.reserve(9, u128::MAX), Ok(()));
    balances.set_free_balance(9, 5);
    assert_eq!(balances.reserve(9, 1), Err(CurrencyError::Overflow));
    assert_eq!(balances.free_balance(9), 5);

    balances.set_free_balance(8, u128::MAX);
    assert_eq!(balances.transfer(9, 8, 1, true), Err(CurrencyError::Overflow));
    assert_eq!(balances.free_balance(8), u128::MAX);
    assert_eq!(balances.free_balance(9), 5);
}
