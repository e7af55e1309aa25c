//! The collectible-asset ledger.
//!
//! [`Pallet`] holds the identifier allocator, the asset store, the
//! ownership registry and the listing registry, and offers the five
//! operations that mutate them: `create`, `breed`, `transfer`, `ask`
//! and `buy`.  Each operation is one atomic state transition: it either
//! passes every check, commits, and returns the one [`Event`] describing
//! the change, or it fails with an [`Error`] and leaves the ledger — and
//! the currency ledger it was handed — exactly as they were.
//!
//! The surrounding execution environment authenticates the caller and
//! supplies the random bytes (`create`'s genome, `breed`'s selector);
//! the ledger itself draws no randomness.

use vstd::prelude::*;
use std::collections::HashMap;
use crate::balances::{Balances, CurrencyError, reserved_into, transferred};
use crate::dna::{combine_genome, spec_combine_genome};

verus! {

/// A collectible asset: an immutable 16-byte genome.
#[derive(Clone, Copy, Debug, PartialEq, Eq)]
pub struct Kitty(pub [u8; 16]);

/// Deposit the currency collaborator reserves from a creator's balance
/// when an asset is created.
pub const CREATION_DEPOSIT: u128 = 1;

/// Why an operation was rejected.  A rejected operation changes nothing.
#[derive(Clone, Copy, Debug, PartialEq, Eq)]
pub enum Error {
    /// The identifier space is exhausted; no further asset can be created.
    KittiesCountOverflow,
    /// The referenced asset does not exist.
    InvalidKittyId,
    /// Breeding demanded two distinct parents, but one asset was given twice.
    RequireDifferentParent,
    /// The caller does not own the referenced asset.
    RequireOwner,
    /// No listing exists for the referenced asset.
    NotForSale,
    /// The offered price is below the listed price.
    PriceTooLow,
    /// The currency collaborator rejected the payment; its error is
    /// passed on unchanged.
    Currency(CurrencyError),
}

/// What a successful operation did: the one observable record each
/// committed state transition reports.
#[derive(Clone, Copy, Debug, PartialEq, Eq)]
pub enum Event {
    /// An asset was created: (owner, asset id).
    Created(u64, u32),
    /// An asset changed owner: (from, to, asset id).
    Transferred(u64, u64, u32),
    /// An asset was listed or delisted: (owner, asset id, price).
    Ask(u64, u32, Option<u128>),
    /// An asset was sold: (previous owner, buyer, asset id, settled price).
    Sold(u64, u64, u32, u128),
}

/// The asset ledger's state.
///
/// Identifiers are handed out strictly increasingly starting from 1;
/// zero is reserved to mean "no asset".  `kitties_count`, when set, is
/// the identifier the next created asset will get.
pub struct Pallet {
    /// The next identifier to hand out; `None` before the first allocation.
    pub kitties_count: Option<u32>,
    /// Genome of every existing asset, by identifier.
    pub kitties: HashMap<u32, Kitty>,
    /// Current owner of every existing asset, by identifier.
    pub owners: HashMap<u32, u64>,
    /// Listed sale price of each asset currently offered for sale.
    pub kitty_prices: HashMap<u32, u128>,
    /// When set, `breed` also demands that the caller own both parents
    /// and that the parents differ.  Unset by default: the lenient mode
    /// accepts any two existing parents, even one asset twice or assets
    /// the caller does not own.  Whether breeding ought to be gated is
    /// left open, so both behaviours are offered.
    pub strict_breeding: bool,
}

impl Pallet {
    /// Whether the allocator can still hand out an identifier.
    pub open spec fn has_next_id(self) -> bool {
        self.kitties_count != Some(u32::MAX)
    }

    /// The identifier the next created asset gets (meaningful only while
    /// `has_next_id()` holds).
    pub open spec fn next_id_val(self) -> u32 {
        match self.kitties_count {
            None => 1u32,
            Some(c) => c,
        }
    }

    /// How many assets have been allocated so far.
    pub open spec fn spec_allocated(self) -> int {
        self.next_id_val() - 1
    }

    /// Genome of asset `kitty_id`, if it exists.
    pub open spec fn spec_kitty(self, kitty_id: u32) -> Option<Kitty> {
        if self.kitties@.contains_key(kitty_id) {
            Some(self.kitties@[kitty_id])
        } else {
            None
        }
    }

    /// Owner of asset `kitty_id`, if it exists.
    pub open spec fn spec_owner(self, kitty_id: u32) -> Option<u64> {
        if self.owners@.contains_key(kitty_id) {
            Some(self.owners@[kitty_id])
        } else {
            None
        }
    }

    /// Listed price of asset `kitty_id`, if it is for sale.
    pub open spec fn spec_price(self, kitty_id: u32) -> Option<u128> {
        if self.kitty_prices@.contains_key(kitty_id) {
            Some(self.kitty_prices@[kitty_id])
        } else {
            None
        }
    }

    /// Well-formedness: every asset has exactly one owner; only existing
    /// assets are listed; every identifier in use is at least 1 and below
    /// the allocator's next value.
    pub open spec fn wf(self) -> bool {
        &&& forall|id: u32| #![auto]
            self.kitties@.contains_key(id) <==> self.owners@.contains_key(id)
        &&& forall|id: u32| #![auto]
            self.kitty_prices@.contains_key(id) ==> self.kitties@.contains_key(id)
        &&& forall|id: u32| #![auto]
            self.kitties@.contains_key(id) ==> 1 <= id && id < self.next_id_val()
        &&& match self.kitties_count {
            None => true,
            Some(c) => c >= 1,
        }
    }

    /// An empty ledger: no assets, no listings, no identifier handed out,
    /// breeding in its lenient mode.
    pub fn new() -> (r: Pallet)
        ensures
            r.wf(),
            r.kitties_count is None,
            r.kitties@ == Map::<u32, Kitty>::empty(),
            r.owners@ == Map::<u32, u64>::empty(),
            r.kitty_prices@ == Map::<u32, u128>::empty(),
            !r.strict_breeding,
            r.spec_allocated() == 0,
    {
        Pallet {
            kitties_count: None,
            kitties: HashMap::new(),
            owners: HashMap::new(),
            kitty_prices: HashMap::new(),
            strict_breeding: false,
        }
    }

    /// The allocator's next value, if any.
    pub fn kitties_count(&self) -> (r: Option<u32>)
        ensures
            r == self.kitties_count,
    {
        self.kitties_count
    }

    /// Genome of asset `kitty_id`, if it exists.
    pub fn kitties(&self, kitty_id: u32) -> (r: Option<Kitty>)
        ensures
            r == self.spec_kitty(kitty_id),
    {
        match self.kitties.get(&kitty_id) {
            Some(k) => Some(*k),
            None => None,
        }
    }

    /// Owner of asset `kitty_id`, if it exists.
    pub fn owner(&self, kitty_id: u32) -> (r: Option<u64>)
        ensures
            r == self.spec_owner(kitty_id),
    {
        match self.owners.get(&kitty_id) {
            Some(o) => Some(*o),
            None => None,
        }
    }

    /// Listed price of asset `kitty_id`, if it is for sale.
    pub fn kitty_price(&self, kitty_id: u32) -> (r: Option<u128>)
        ensures
            r == self.spec_price(kitty_id),
    {
        match self.kitty_prices.get(&kitty_id) {
            Some(p) => Some(*p),
            None => None,
        }
    }

    /// The identifier to assign to the next created asset.  Fails with
    /// `KittiesCountOverflow` — and only then — when the identifier space
    /// is exhausted; never wraps.
    fn next_kitty_id(&self) -> (r: Result<u32, Error>)
        ensures
            match r {
                Ok(id) => self.has_next_id() && id == self.next_id_val(),
                Err(e) => e == Error::KittiesCountOverflow && !self.has_next_id(),
            },
    {
        match self.kitties_count {
            Some(id) => {
                if id == u32::MAX {
                    Err(Error::KittiesCountOverflow)
                } else {
                    Ok(id)
                }
            },
            None => Ok(1),
        }
    }

    /// Records `owner` as the current owner of `kitty_id`.
    fn insert_owned_kitty(&mut self, owner: u64, kitty_id: u32)
        ensures
            final(self).owners@ == old(self).owners@.insert(kitty_id, owner),
            final(self).kitties == old(self).kitties,
            final(self).kitty_prices == old(self).kitty_prices,
            final(self).kitties_count == old(self).kitties_count,
            final(self).strict_breeding == old(self).strict_breeding,
    {
        self.owners.insert(kitty_id, owner);
    }

    /// Stores a freshly allocated asset with its owner and advances the
    /// allocator to `kitty_id + 1`.
    fn insert_kitty(&mut self, owner: u64, kitty_id: u32, kitty: Kitty)
        requires
            old(self).has_next_id(),
            kitty_id == old(self).next_id_val(),
        ensures
            final(self).kitties@ == old(self).kitties@.insert(kitty_id, kitty),
            final(self).owners@ == old(self).owners@.insert(kitty_id, owner),
            final(self).kitty_prices == old(self).kitty_prices,
            final(self).kitties_count == Some((kitty_id + 1) as u32),
            final(self).strict_breeding == old(self).strict_breeding,
    {
        self.kitties.insert(kitty_id, kitty);
        self.kitties_count = Some(kitty_id + 1);
        self.insert_owned_kitty(owner, kitty_id);
    }

    /// Reassigns ownership of `kitty_id` from `from` to `to`.
    #[allow(unused_variables)]
    fn do_transfer(&mut self, from: u64, to: u64, kitty_id: u32)
        ensures
            final(self).owners@ == old(self).owners@.insert(kitty_id, to),
            final(self).kitties == old(self).kitties,
            final(self).kitty_prices == old(self).kitty_prices,
            final(self).kitties_count == old(self).kitties_count,
            final(self).strict_breeding == old(self).strict_breeding,
    {
        self.insert_owned_kitty(to, kitty_id);
    }

    /// Creates an asset with the given genome for `sender`, who must have
    /// the creation deposit reserved from their balance with `currency`.
    ///
    /// Succeeds exactly when an identifier is still available and the
    /// deposit can be reserved; then the new asset gets the next
    /// identifier, `sender` becomes its owner, and `Created` is reported.
    /// Any failure leaves both ledgers unchanged.
    pub fn create(&mut self, sender: u64, dna: [u8; 16], currency: &mut Balances) -> (r: Result<
        Event,
        Error,
    >)
        requires
            old(self).wf(),
        ensures
            final(self).wf(),
            final(self).strict_breeding == old(self).strict_breeding,
            match r {
                Ok(ev) => {
                    let id = old(self).next_id_val();
                    &&& old(self).has_next_id()
                    &&& old(currency).reserve_outcome(sender, CREATION_DEPOSIT) is None
                    &&& ev == Event::Created(sender, id)
                    &&& id == old(self).spec_allocated() + 1
                    &&& !old(self).kitties@.contains_key(id)
                    &&& final(self).kitties@ == old(self).kitties@.insert(id, Kitty(dna))
                    &&& final(self).owners@ == old(self).owners@.insert(id, sender)
                    &&& final(self).kitty_prices == old(self).kitty_prices
                    &&& final(self).kitties_count == Some((id + 1) as u32)
                    &&& final(self).spec_allocated() == old(self).spec_allocated() + 1
                    &&& reserved_into(*old(currency), *final(currency), sender, CREATION_DEPOSIT)
                },
                Err(e) => {
                    &&& *final(self) == *old(self)
                    &&& *final(currency) == *old(currency)
                    &&& match e {
                        Error::KittiesCountOverflow => !old(self).has_next_id(),
                        Error::Currency(ce) => old(self).has_next_id() && old(
                            currency,
                        ).reserve_outcome(sender, CREATION_DEPOSIT) == Some(ce),
                        _ => false,
                    }
                },
            },
    {
        let kitty_id = match self.next_kitty_id() {
            Ok(id) => id,
            Err(e) => {
                return Err(e);
            },
        };
        match currency.reserve(sender, CREATION_DEPOSIT) {
            Err(ce) => Err(Error::Currency(ce)),
            Ok(()) => {
                self.insert_kitty(sender, kitty_id, Kitty(dna));
                Ok(Event::Created(sender, kitty_id))
            },
        }
    }

    /// Breeds a new asset for `sender` from two existing parents under the
    /// given selector mask: each child genome bit comes from the first
    /// parent where the selector bit is 1 and from the second otherwise.
    ///
    /// Fails with `InvalidKittyId` when either parent is missing, and with
    /// `KittiesCountOverflow` when the identifier space is exhausted.
    /// With `strict_breeding` set it also demands, in between, that
    /// `sender` own both parents (`RequireOwner`) and that the parents
    /// differ (`RequireDifferentParent`).  Any failure leaves the ledger
    /// unchanged.
    pub fn breed(&mut self, sender: u64, kitty_id_1: u32, kitty_id_2: u32, selector: [u8; 16]) -> (r:
        Result<Event, Error>)
        requires
            old(self).wf(),
        ensures
            final(self).wf(),
            final(self).strict_breeding == old(self).strict_breeding,
            match r {
                Ok(ev) => {
                    let id = old(self).next_id_val();
                    &&& old(self).kitties@.contains_key(kitty_id_1)
                    &&& old(self).kitties@.contains_key(kitty_id_2)
                    &&& (old(self).strict_breeding ==> old(self).spec_owner(kitty_id_1) == Some(
                        sender,
                    ) && old(self).spec_owner(kitty_id_2) == Some(sender) && kitty_id_1
                        != kitty_id_2)
                    &&& old(self).has_next_id()
                    &&& ev == Event::Created(sender, id)
                    &&& id == old(self).spec_allocated() + 1
                    &&& !old(self).kitties@.contains_key(id)
                    &&& final(self).kitties@.contains_key(id)
                    &&& final(self).kitties@[id].0@ == spec_combine_genome(
                        old(self).kitties@[kitty_id_1].0@,
                        old(self).kitties@[kitty_id_2].0@,
                        selector@,
                    )
                    &&& final(self).kitties@ == old(self).kitties@.insert(
                        id,
                        final(self).kitties@[id],
                    )
                    &&& final(self).owners@ == old(self).owners@.insert(id, sender)
                    &&& final(self).kitty_prices == old(self).kitty_prices
                    &&& final(self).kitties_count == Some((id + 1) as u32)
                    &&& final(self).spec_allocated() == old(self).spec_allocated() + 1
                },
                Err(e) => {
                    &&& *final(self) == *old(self)
                    &&& match e {
                        Error::InvalidKittyId => !old(self).kitties@.contains_key(kitty_id_1)
                            || !old(self).kitties@.contains_key(kitty_id_2),
                        Error::RequireOwner => old(self).strict_breeding && old(
                            self,
                        ).kitties@.contains_key(kitty_id_1) && old(self).kitties@.contains_key(
                            kitty_id_2,
                        ) && (old(self).spec_owner(kitty_id_1) != Some(sender) || old(
                            self,
                        ).spec_owner(kitty_id_2) != Some(sender)),
                        Error::RequireDifferentParent => old(self).strict_breeding && old(
                            self,
                        ).kitties@.contains_key(kitty_id_1) && old(self).kitties@.contains_key(
                            kitty_id_2,
                        ) && old(self).spec_owner(kitty_id_1) == Some(sender) && old(
                            self,
                        ).spec_owner(kitty_id_2) == Some(sender) && kitty_id_1 == kitty_id_2,
                        Error::KittiesCountOverflow => old(self).kitties@.contains_key(kitty_id_1)
                            && old(self).kitties@.contains_key(kitty_id_2) && (old(
                            self,
                        ).strict_breeding ==> old(self).spec_owner(kitty_id_1) == Some(sender)
                            && old(self).spec_owner(kitty_id_2) == Some(sender) && kitty_id_1
                            != kitty_id_2) && !old(self).has_next_id(),
                        _ => false,
                    }
                },
            },
    {
        let new_kitty_id = match self.do_breed(sender, kitty_id_1, kitty_id_2, selector) {
            Ok(id) => id,
            Err(e) => {
                return Err(e);
            },
        };
        Ok(Event::Created(sender, new_kitty_id))
    }

    /// The body of `breed`: validates, allocates, combines the genomes,
    /// and stores the child.  Returns the child's identifier.
    fn do_breed(&mut self, sender: u64, kitty_id_1: u32, kitty_id_2: u32, selector: [u8; 16]) -> (r:
        Result<u32, Error>)
        requires
            old(self).wf(),
        ensures
            final(self).wf(),
            final(self).strict_breeding == old(self).strict_breeding,
            match r {
                Ok(id) => {
                    &&& old(self).kitties@.contains_key(kitty_id_1)
                    &&& old(self).kitties@.contains_key(kitty_id_2)
                    &&& (old(self).strict_breeding ==> old(self).spec_owner(kitty_id_1) == Some(
                        sender,
                    ) && old(self).spec_owner(kitty_id_2) == Some(sender) && kitty_id_1
                        != kitty_id_2)
                    &&& old(self).has_next_id()
                    &&& id == old(self).next_id_val()
                    &&& id == old(self).spec_allocated() + 1
                    &&& !old(self).kitties@.contains_key(id)
                    &&& final(self).kitties@.contains_key(id)
                    &&& final(self).kitties@[id].0@ == spec_combine_genome(
                        old(self).kitties@[kitty_id_1].0@,
                        old(self).kitties@[kitty_id_2].0@,
                        selector@,
                    )
                    &&& final(self).kitties@ == old(self).kitties@.insert(
                        id,
                        final(self).kitties@[id],
                    )
                    &&& final(self).owners@ == old(self).owners@.insert(id, sender)
                    &&& final(self).kitty_prices == old(self).kitty_prices
                    &&& final(self).kitties_count == Some((id + 1) as u32)
                    &&& final(self).spec_allocated() == old(self).spec_allocated() + 1
                },
                Err(e) => {
                    &&& *final(self) == *old(self)
                    &&& match e {
                        Error::InvalidKittyId => !old(self).kitties@.contains_key(kitty_id_1)
                            || !old(self).kitties@.contains_key(kitty_id_2),
                        Error::RequireOwner => old(self).strict_breeding && old(
                            self,
                        ).kitties@.contains_key(kitty_id_1) && old(self).kitties@.contains_key(
                            kitty_id_2,
                        ) && (old(self).spec_owner(kitty_id_1) != Some(sender) || old(
                            self,
                        ).spec_owner(kitty_id_2) != Some(sender)),
                        Error::RequireDifferentParent => old(self).strict_breeding && old(
                            self,
                        ).kitties@.contains_key(kitty_id_1) && old(self).kitties@.contains_key(
                            kitty_id_2,
                        ) && old(self).spec_owner(kitty_id_1) == Some(sender) && old(
                            self,
                        ).spec_owner(kitty_id_2) == Some(sender) && kitty_id_1 == kitty_id_2,
                        Error::KittiesCountOverflow => old(self).kitties@.contains_key(kitty_id_1)
                            && old(self).kitties@.contains_key(kitty_id_2) && (old(
                            self,
                        ).strict_breeding ==> old(self).spec_owner(kitty_id_1) == Some(sender)
                            && old(self).spec_owner(kitty_id_2) == Some(sender) && kitty_id_1
                            != kitty_id_2) && !old(self).has_next_id(),
                        _ => false,
                    }
                },
            },
    {
        let kitty1 = match self.kitties(kitty_id_1) {
            Some(k) => k,
            None => {
                return Err(Error::InvalidKittyId);
            },
        };
        let kitty2 = match self.kitties(kitty_id_2) {
            Some(k) => k,
            None => {
                return Err(Error::InvalidKittyId);
            },
        };

        if self.strict_breeding {
            let owns_1 = match self.owner(kitty_id_1) {
                Some(o) => o == sender,
                None => false,
            };
            if !owns_1 {
                return Err(Error::RequireOwner);
            }
            let owns_2 = match self.owner(kitty_id_2) {
                Some(o) => o == sender,
                None => false,
            };
            if !owns_2 {
                return Err(Error::RequireOwner);
            }
            if kitty_id_1 == kitty_id_2 {
                return Err(Error::RequireDifferentParent);
            }
        }

        let kitty_id = match self.next_kitty_id() {
            Ok(id) => id,
            Err(e) => {
                return Err(e);
            },
        };

        let new_dna = combine_genome(&kitty1.0, &kitty2.0, &selector);
        self.insert_kitty(sender, kitty_id, Kitty(new_dna));

        Ok(kitty_id)
    }

    /// Reassigns ownership of `kitty_id` from `sender` to `to`.
    ///
    /// Fails with `RequireOwner` — and only then — when `sender` is not
    /// the current owner (an asset with no owner record is equally
    /// rejected), and then changes nothing.  A listing set by the previous
    /// owner, if any, stays in place — a new owner who does not wish to
    /// sell must clear it with `ask`; whether it ought to be cleared here
    /// instead is left open.
    pub fn transfer(&mut self, sender: u64, to: u64, kitty_id: u32) -> (r: Result<Event, Error>)
        requires
            old(self).wf(),
        ensures
            final(self).wf(),
            match r {
                Ok(ev) => {
                    &&& old(self).spec_owner(kitty_id) == Some(sender)
                    &&& ev == Event::Transferred(sender, to, kitty_id)
                    &&& final(self).owners@ == old(self).owners@.insert(kitty_id, to)
                    &&& final(self).kitties == old(self).kitties
                    &&& final(self).kitty_prices == old(self).kitty_prices
                    &&& final(self).kitties_count == old(self).kitties_count
                    &&& final(self).strict_breeding == old(self).strict_breeding
                },
                Err(e) => {
                    &&& e == Error::RequireOwner
                    &&& old(self).spec_owner(kitty_id) != Some(sender)
                    &&& *final(self) == *old(self)
                },
            },
    {
        let owned = match self.owner(kitty_id) {
            Some(o) => o == sender,
            None => false,
        };
        if !owned {
            return Err(Error::RequireOwner);
        }
        self.do_transfer(sender, to, kitty_id);
        Ok(Event::Transferred(sender, to, kitty_id))
    }

    /// Lists `kitty_id` for sale at `new_price`, or delists it when
    /// `new_price` is absent.
    ///
    /// Fails with `RequireOwner` — and only then — when `sender` is not
    /// the current owner, and then changes nothing.
    pub fn ask(&mut self, sender: u64, kitty_id: u32, new_price: Option<u128>) -> (r: Result<
        Event,
        Error,
    >)
        requires
            old(self).wf(),
        ensures
            final(self).wf(),
            match r {
                Ok(ev) => {
                    &&& old(self).spec_owner(kitty_id) == Some(sender)
                    &&& ev == Event::Ask(sender, kitty_id, new_price)
                    &&& match new_price {
                        Some(p) => final(self).kitty_prices@ == old(self).kitty_prices@.insert(
                            kitty_id,
                            p,
                        ),
                        None => final(self).kitty_prices@ == old(self).kitty_prices@.remove(
                            kitty_id,
                        ),
                    }
                    &&& final(self).kitties == old(self).kitties
                    &&& final(self).owners == old(self).owners
                    &&& final(self).kitties_count == old(self).kitties_count
                    &&& final(self).strict_breeding == old(self).strict_breeding
                },
                Err(e) => {
                    &&& e == Error::RequireOwner
                    &&& old(self).spec_owner(kitty_id) != Some(sender)
                    &&& *final(self) == *old(self)
                },
            },
    {
        let owned = match self.owner(kitty_id) {
            Some(o) => o == sender,
            None => false,
        };
        if !owned {
            return Err(Error::RequireOwner);
        }
        match new_price {
            Some(p) => {
                self.kitty_prices.insert(kitty_id, p);
            },
            None => {
                self.kitty_prices.remove(&kitty_id);
            },
        }
        Ok(Event::Ask(sender, kitty_id, new_price))
    }

    /// Buys `kitty_id` for `sender` at its listed price, offering `price`.
    ///
    /// Fails with `InvalidKittyId` when the asset has no owner, with
    /// `NotForSale` when it carries no listing, with `PriceTooLow` when
    /// the offer is below the listed price, and with the collaborator's
    /// error when payment fails.  On success the *listed* price — not the
    /// offer — moves from `sender` to the previous owner, the listing is
    /// cleared, and `sender` becomes the owner.  Payment settles before
    /// ownership changes: any failure leaves both ledgers unchanged.
    pub fn buy(&mut self, sender: u64, kitty_id: u32, price: u128, currency: &mut Balances) -> (r:
        Result<Event, Error>)
        requires
            old(self).wf(),
        ensures
            final(self).wf(),
            match r {
                Ok(ev) => {
                    let owner = old(self).owners@[kitty_id];
                    let kitty_price = old(self).kitty_prices@[kitty_id];
                    &&& old(self).owners@.contains_key(kitty_id)
                    &&& old(self).kitty_prices@.contains_key(kitty_id)
                    &&& price >= kitty_price
                    &&& old(currency).transfer_outcome(sender, owner, kitty_price, true) is None
                    &&& ev == Event::Sold(owner, sender, kitty_id, kitty_price)
                    &&& final(self).kitty_prices@ == old(self).kitty_prices@.remove(kitty_id)
                    &&& final(self).owners@ == old(self).owners@.insert(kitty_id, sender)
                    &&& final(self).kitties == old(self).kitties
                    &&& final(self).kitties_count == old(self).kitties_count
                    &&& final(self).strict_breeding == old(self).strict_breeding
                    &&& transferred(*old(currency), *final(currency), sender, owner, kitty_price)
                },
                Err(e) => {
                    let owner = old(self).owners@[kitty_id];
                    let kitty_price = old(self).kitty_prices@[kitty_id];
                    &&& *final(self) == *old(self)
                    &&& *final(currency) == *old(currency)
                    &&& match e {
                        Error::InvalidKittyId => !old(self).owners@.contains_key(kitty_id),
                        Error::NotForSale => old(self).owners@.contains_key(kitty_id) && !old(
                            self,
                        ).kitty_prices@.contains_key(kitty_id),
                        Error::PriceTooLow => old(self).owners@.contains_key(kitty_id) && old(
                            self,
                        ).kitty_prices@.contains_key(kitty_id) && price < kitty_price,
                        Error::Currency(ce) => old(self).owners@.contains_key(kitty_id) && old(
                            self,
                        ).kitty_prices@.contains_key(kitty_id) && price >= kitty_price && old(
                            currency,
                        ).transfer_outcome(sender, owner, kitty_price, true) == Some(ce),
                        _ => false,
                    }
                },
            },
    {
        let owner = match self.owner(kitty_id) {
            Some(o) => o,
            None => {
                return Err(Error::InvalidKittyId);
            },
        };
        let kitty_price = match self.kitty_price(kitty_id) {
            Some(p) => p,
            None => {
                return Err(Error::NotForSale);
            },
        };
        if price < kitty_price {
            return Err(Error::PriceTooLow);
        }
        match currency.transfer(sender, owner, kitty_price, true) {
            Err(ce) => Err(Error::Currency(ce)),
            Ok(()) => {
                self.kitty_prices.remove(&kitty_id);
                self.do_transfer(owner, sender, kitty_id);
                Ok(Event::Sold(owner, sender, kitty_id, kitty_price))
            },
        }
    }
}

/// Law: identifiers are unique.  Whenever the allocator can still hand
/// out an identifier, that identifier belongs to no existing asset — so
/// no two assets ever share one — and it is exactly one past the number
/// of assets allocated so far: from an empty ledger, the n-th successful
/// allocation yields n.
pub proof fn lemma_next_id_fresh(s: Pallet)
    requires
        s.wf(),
        s.has_next_id(),
    ensures
        !s.kitties@.contains_key(s.next_id_val()),
        !s.owners@.contains_key(s.next_id_val()),
        s.next_id_val() == s.spec_allocated() + 1,
{
}

} // verus!
