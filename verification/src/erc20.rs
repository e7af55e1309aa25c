//! A small fungible-token ledger.
//!
//! [`Erc20`] keeps a fixed total supply, a balance per account, and an
//! allowance per (owner, spender) pair.  Token moves either succeed and
//! report the corresponding event record, or fail and change nothing.
//! The surrounding environment authenticates callers; every operation
//! takes the already-authenticated calling account as its first argument.

use vstd::prelude::*;
use std::collections::HashMap;

verus! {

/// Scale factor that packs an (owner, spender) account pair into one
/// allowance key: the owner in the high 64 bits, the spender in the low.
pub const PAIR_KEY_BASE: u128 = 0x1_0000_0000_0000_0000;

/// The allowance key for an (owner, spender) pair.
pub open spec fn spec_pair_key(owner: u64, spender: u64) -> u128 {
    ((owner as int) * (PAIR_KEY_BASE as int) + (spender as int)) as u128
}

/// Law: distinct (owner, spender) pairs get distinct allowance keys, so
/// an allowance update for one pair can touch no other pair's entry.
pub proof fn lemma_pair_key_injective(o1: u64, s1: u64, o2: u64, s2: u64)
    requires
        spec_pair_key(o1, s1) == spec_pair_key(o2, s2),
    ensures
        o1 == o2,
        s1 == s2,
{
    assert((o1 as int) * (PAIR_KEY_BASE as int) + (s1 as int) == (o2 as int) * (
    PAIR_KEY_BASE as int) + (s2 as int));
}

/// Record of a token move.  In the wider pattern an absent end marks a
/// mint or a burn; the moves recorded here always name both ends.
#[derive(Clone, Copy, Debug, PartialEq, Eq)]
pub struct Transfer {
    pub from: Option<u64>,
    pub to: Option<u64>,
    pub value: u128,
}

/// Record of an allowance being set.
#[derive(Clone, Copy, Debug, PartialEq, Eq)]
pub struct Approval {
    pub owner: u64,
    pub spender: u64,
    pub value: u128,
}

/// Why a token move was rejected.  A rejected move changes nothing.
#[derive(Clone, Copy, Debug, PartialEq, Eq)]
pub enum Error {
    /// The paying account holds fewer tokens than the move needs.
    InsufficientBalance,
    /// The caller's allowance from the owner is below the move.
    InsufficientApproval,
}

/// The token ledger's state.
pub struct Erc20 {
    /// Number of tokens in existence; fixed at construction.
    pub total_supply: u128,
    /// Token balance per account; an absent account holds zero.
    pub balances: HashMap<u64, u128>,
    /// Allowances, keyed by packed (owner, spender) pair.
    pub allowances: HashMap<u128, u128>,
}

/// Relates two ledger states across a successful move of `value` tokens
/// from `from` to `to`: exact balance updates, everything else untouched.
/// A move to oneself re-records the unchanged balance.
pub open spec fn balances_moved(pre: Erc20, post: Erc20, from: u64, to: u64, value: u128) -> bool {
    if from == to {
        post.balances@ == pre.balances@.insert(from, pre.spec_balance_of(from))
    } else {
        post.balances@ == pre.balances@.insert(
            from,
            (pre.spec_balance_of(from) - value) as u128,
        ).insert(to, (pre.spec_balance_of(to) + value) as u128)
    }
}

impl Erc20 {
    /// Token balance of `who`; zero for an account with no record.
    pub open spec fn spec_balance_of(self, who: u64) -> u128 {
        if self.balances@.contains_key(who) {
            self.balances@[who]
        } else {
            0
        }
    }

    /// Allowance granted by `owner` to `spender`; zero when none was set.
    pub open spec fn spec_allowance(self, owner: u64, spender: u64) -> u128 {
        if self.allowances@.contains_key(spec_pair_key(owner, spender)) {
            self.allowances@[spec_pair_key(owner, spender)]
        } else {
            0
        }
    }

    /// A fresh ledger whose whole supply sits with `caller`; reports the
    /// minting move.
    pub fn new(caller: u64, supply: u128) -> (r: (Erc20, Transfer))
        ensures
            r.0.total_supply == supply,
            r.0.balances@ == Map::<u64, u128>::empty().insert(caller, supply),
            r.0.allowances@ == Map::<u128, u128>::empty(),
            r.1 == (Transfer { from: Some(caller), to: Some(caller), value: supply }),
    {
        let mut balances: HashMap<u64, u128> = HashMap::new();
        balances.insert(caller, supply);
        let token = Erc20 { total_supply: supply, balances: balances, allowances: HashMap::new() };
        (token, Transfer { from: Some(caller), to: Some(caller), value: supply })
    }

    /// A fresh ledger with zero supply.
    pub fn default(caller: u64) -> (r: (Erc20, Transfer))
        ensures
            r.0.total_supply == 0,
            r.0.balances@ == Map::<u64, u128>::empty().insert(caller, 0),
            r.0.allowances@ == Map::<u128, u128>::empty(),
            r.1 == (Transfer { from: Some(caller), to: Some(caller), value: 0 }),
    {
        Erc20::new(caller, 0)
    }

    /// Number of tokens in existence.
    pub fn total_supply(&self) -> (r: u128)
        ensures
            r == self.total_supply,
    {
        self.total_supply
    }

    /// Token balance of `who`.
    pub fn balance_of(&self, who: u64) -> (r: u128)
        ensures
            r == self.spec_balance_of(who),
    {
        match self.balances.get(&who) {
            Some(b) => *b,
            None => 0,
        }
    }

    /// Allowance granted by `owner` to `spender`.
    pub fn allowance(&self, owner: u64, spender: u64) -> (r: u128)
        ensures
            r == self.spec_allowance(owner, spender),
    {
        let key = pair_key(owner, spender);
        match self.allowances.get(&key) {
            Some(a) => *a,
            None => 0,
        }
    }

    /// Moves `value` tokens from `caller` to `to`.
    ///
    /// The receiving balance must fit the balance type; the surrounding
    /// environment aborts the whole call otherwise, so that case is left
    /// out here.
    pub fn transfer(&mut self, caller: u64, to: u64, value: u128) -> (r: Result<Transfer, Error>)
        requires
            caller != to ==> old(self).spec_balance_of(to) + value <= u128::MAX,
        ensures
            final(self).total_supply == old(self).total_supply,
            final(self).allowances == old(self).allowances,
            match r {
                Ok(ev) => {
                    &&& old(self).spec_balance_of(caller) >= value
                    &&& ev == (Transfer { from: Some(caller), to: Some(to), value: value })
                    &&& balances_moved(*old(self), *final(self), caller, to, value)
                },
                Err(e) => {
                    &&& e == Error::InsufficientBalance
                    &&& old(self).spec_balance_of(caller) < value
                    &&& *final(self) == *old(self)
                },
            },
    {
        self.inner_transfer(caller, to, value)
    }

    /// Sets the allowance `caller` grants `to`, replacing any earlier one;
    /// reports the approval.  Never fails.
    pub fn approve(&mut self, caller: u64, to: u64, value: u128) -> (r: Result<Approval, Error>)
        ensures
            final(self).total_supply == old(self).total_supply,
            final(self).balances == old(self).balances,
            final(self).allowances@ == old(self).allowances@.insert(
                spec_pair_key(caller, to),
                value,
            ),
            r == Ok::<Approval, Error>(Approval { owner: caller, spender: to, value: value }),
    {
        let key = pair_key(caller, to);
        self.allowances.insert(key, value);
        Ok(Approval { owner: caller, spender: to, value: value })
    }

    /// Moves `value` tokens from `from` to `to` on `caller`'s behalf,
    /// consuming that much of `caller`'s allowance from `from`.
    ///
    /// Fails with `InsufficientApproval` when the allowance is below
    /// `value`, then with `InsufficientBalance` when `from`'s balance is;
    /// a failed call changes nothing.
    pub fn transfer_from(&mut self, caller: u64, from: u64, to: u64, value: u128) -> (r: Result<
        Transfer,
        Error,
    >)
        requires
            from != to ==> old(self).spec_balance_of(to) + value <= u128::MAX,
        ensures
            final(self).total_supply == old(self).total_supply,
            match r {
                Ok(ev) => {
                    &&& old(self).spec_allowance(from, caller) >= value
                    &&& old(self).spec_balance_of(from) >= value
                    &&& ev == (Transfer { from: Some(from), to: Some(to), value: value })
                    &&& balances_moved(*old(self), *final(self), from, to, value)
                    &&& final(self).allowances@ == old(self).allowances@.insert(
                        spec_pair_key(from, caller),
                        (old(self).spec_allowance(from, caller) - value) as u128,
                    )
                },
                Err(e) => {
                    &&& *final(self) == *old(self)
                    &&& match e {
                        Error::InsufficientApproval => old(self).spec_allowance(from, caller)
                            < value,
                        Error::InsufficientBalance => old(self).spec_allowance(from, caller)
                            >= value && old(self).spec_balance_of(from) < value,
                    }
                },
            },
    {
        let granted = self.allowance(from, caller);
        if granted < value {
            return Err(Error::InsufficientApproval);
        }
        let moved = match self.inner_transfer(from, to, value) {
            Ok(ev) => ev,
            Err(e) => {
                return Err(e);
            },
        };
        let key = pair_key(from, caller);
        self.allowances.insert(key, granted - value);
        Ok(moved)
    }

    /// Moves `value` tokens from `from` to `to` without consulting any
    /// allowance; the building block of `transfer` and `transfer_from`.
    pub fn inner_transfer(&mut self, from: u64, to: u64, value: u128) -> (r: Result<
        Transfer,
        Error,
    >)
        requires
            from != to ==> old(self).spec_balance_of(to) + value <= u128::MAX,
        ensures
            final(self).total_supply == old(self).total_supply,
            final(self).allowances == old(self).allowances,
            match r {
                Ok(ev) => {
                    &&& old(self).spec_balance_of(from) >= value
                    &&& ev == (Transfer { from: Some(from), to: Some(to), value: value })
                    &&& balances_moved(*old(self), *final(self), from, to, value)
                },
                Err(e) => {
                    &&& e == Error::InsufficientBalance
                    &&& old(self).spec_balance_of(from) < value
                    &&& *final(self) == *old(self)
                },
            },
    {
        let from_balance = self.balance_of(from);
        if from_balance < value {
            return Err(Error::InsufficientBalance);
        }
        self.balances.insert(from, from_balance - value);
        let to_balance = self.balance_of(to);
        self.balances.insert(to, to_balance + value);
        proof {
            if from == to {
                assert(self.balances@ =~= old(self).balances@.insert(
                    from,
                    old(self).spec_balance_of(from),
                ));
            }
        }
        Ok(Transfer { from: Some(from), to: Some(to), value: value })
    }
}

/// The allowance key for an (owner, spender) pair.
fn pair_key(owner: u64, spender: u64) -> (r: u128)
    ensures
        r == spec_pair_key(owner, spender),
{
    (owner as u128) * PAIR_KEY_BASE + (spender as u128)
}

} // verus!
