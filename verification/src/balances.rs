//! A model of the external currency collaborator.
//!
//! The asset ledger never stores account balances itself: creation deposits
//! and purchase settlement go through a currency ledger owned by the
//! surrounding execution environment.  [`Balances`] models that collaborator
//! as plain data — a free and a reserved balance per account, and an
//! existential deposit below which a paying account may not fall — so that
//! the operations composed with it can be verified end to end.
//!
//! Accounts are identified by unsigned integers; an account with no record
//! holds zero.

use vstd::prelude::*;
use std::collections::HashMap;

verus! {

/// Failure reported by the currency collaborator.  These are surfaced to
/// the caller of a ledger operation unchanged.
#[derive(Clone, Copy, Debug, PartialEq, Eq)]
pub enum CurrencyError {
    /// The paying account's free balance is below the requested amount.
    InsufficientFunds,
    /// The payment would leave the paying account below the existential
    /// deposit, which the operation does not allow.
    KeepAlive,
    /// The receiving side's balance would exceed the representable maximum.
    Overflow,
}

/// The currency collaborator's state: free and reserved balance per account.
pub struct Balances {
    /// Spendable balance per account; an absent account holds zero.
    pub free: HashMap<u64, u128>,
    /// Reserved (held-back) balance per account; an absent account holds zero.
    pub reserved: HashMap<u64, u128>,
    /// Minimum free balance a paying account must keep to stay alive.
    pub existential_deposit: u128,
}

/// Relates two currency states across a successful `reserve`: `amount`
/// moves from `who`'s free balance into its reserved balance, and nothing
/// else changes.
pub open spec fn reserved_into(pre: Balances, post: Balances, who: u64, amount: u128) -> bool {
    &&& post.free@ == pre.free@.insert(who, (pre.spec_free(who) - amount) as u128)
    &&& post.reserved@ == pre.reserved@.insert(who, (pre.spec_reserved(who) + amount) as u128)
    &&& post.existential_deposit == pre.existential_deposit
}

/// Relates two currency states across a successful `transfer`: exactly
/// `amount` moves from `from`'s free balance to `to`'s free balance, and
/// nothing else changes.  A transfer to oneself changes nothing.
pub open spec fn transferred(pre: Balances, post: Balances, from: u64, to: u64, amount: u128) -> bool {
    if from == to {
        post == pre
    } else {
        &&& post.free@ == pre.free@.insert(from, (pre.spec_free(from) - amount) as u128).insert(
            to,
            (pre.spec_free(to) + amount) as u128,
        )
        &&& post.reserved@ == pre.reserved@
        &&& post.existential_deposit == pre.existential_deposit
    }
}

/// Law: a successful transfer moves exactly `amount` and nothing more —
/// the two accounts' combined free balance is conserved, and every other
/// account's balances are untouched.
pub proof fn lemma_transfer_conserves(
    pre: Balances,
    post: Balances,
    from: u64,
    to: u64,
    amount: u128,
)
    requires
        transferred(pre, post, from, to, amount),
        amount <= pre.spec_free(from),
        from != to ==> pre.spec_free(to) + amount <= u128::MAX,
    ensures
        post.spec_free(from) + post.spec_free(to) == pre.spec_free(from) + pre.spec_free(to),
        forall|a: u64| a != from && a != to ==> post.spec_free(a) == pre.spec_free(a),
        forall|a: u64| post.spec_reserved(a) == pre.spec_reserved(a),
{
}

impl Balances {
    /// Free balance of `who`; zero for an account with no record.
    pub open spec fn spec_free(self, who: u64) -> u128 {
        if self.free@.contains_key(who) {
            self.free@[who]
        } else {
            0
        }
    }

    /// Reserved balance of `who`; zero for an account with no record.
    pub open spec fn spec_reserved(self, who: u64) -> u128 {
        if self.reserved@.contains_key(who) {
            self.reserved@[who]
        } else {
            0
        }
    }

    /// The error, if any, that `reserve` reports for this request.
    pub open spec fn reserve_outcome(self, who: u64, amount: u128) -> Option<CurrencyError> {
        if self.spec_free(who) < amount {
            Some(CurrencyError::InsufficientFunds)
        } else if self.spec_reserved(who) + amount > u128::MAX {
            Some(CurrencyError::Overflow)
        } else {
            None
        }
    }

    /// The error, if any, that `transfer` reports for this request.
    pub open spec fn transfer_outcome(
        self,
        from: u64,
        to: u64,
        amount: u128,
        keep_alive: bool,
    ) -> Option<CurrencyError> {
        if self.spec_free(from) < amount {
            Some(CurrencyError::InsufficientFunds)
        } else if keep_alive && self.spec_free(from) - amount < self.existential_deposit {
            Some(CurrencyError::KeepAlive)
        } else if from != to && self.spec_free(to) + amount > u128::MAX {
            Some(CurrencyError::Overflow)
        } else {
            None
        }
    }

    /// An empty currency ledger with the given existential deposit.
    pub fn new(existential_deposit: u128) -> (r: Balances)
        ensures
            r.free@ == Map::<u64, u128>::empty(),
            r.reserved@ == Map::<u64, u128>::empty(),
            r.existential_deposit == existential_deposit,
    {
        Balances {
            free: HashMap::new(),
            reserved: HashMap::new(),
            existential_deposit: existential_deposit,
        }
    }

    /// Free balance of `who`.
    pub fn free_balance(&self, who: u64) -> (r: u128)
        ensures
            r == self.spec_free(who),
    {
        match self.free.get(&who) {
            Some(b) => *b,
            None => 0,
        }
    }

    /// Reserved balance of `who`.
    pub fn reserved_balance(&self, who: u64) -> (r: u128)
        ensures
            r == self.spec_reserved(who),
    {
        match self.reserved.get(&who) {
            Some(b) => *b,
            None => 0,
        }
    }

    /// Endows `who` with a free balance, as the environment's genesis
    /// configuration does.
    pub fn set_free_balance(&mut self, who: u64, amount: u128)
        ensures
            final(self).free@ == old(self).free@.insert(who, amount),
            final(self).reserved == old(self).reserved,
            final(self).existential_deposit == old(self).existential_deposit,
    {
        self.free.insert(who, amount);
    }

    /// Moves `amount` of `who`'s free balance into reserve.  Fails with
    /// `InsufficientFunds` when the free balance is below `amount`, and
    /// with `Overflow` when the reserved balance cannot take it; a failed
    /// call changes nothing.
    pub fn reserve(&mut self, who: u64, amount: u128) -> (r: Result<(), CurrencyError>)
        ensures
            match r {
                Ok(()) => {
                    &&& old(self).reserve_outcome(who, amount) is None
                    &&& reserved_into(*old(self), *final(self), who, amount)
                },
                Err(e) => {
                    &&& old(self).reserve_outcome(who, amount) == Some(e)
                    &&& *final(self) == *old(self)
                },
            },
    {
        let free = self.free_balance(who);
        if free < amount {
            return Err(CurrencyError::InsufficientFunds);
        }
        let reserved = self.reserved_balance(who);
        if amount > u128::MAX - reserved {
            return Err(CurrencyError::Overflow);
        }
        self.free.insert(who, free - amount);
        self.reserved.insert(who, reserved + amount);
        Ok(())
    }

    /// Moves `amount` from `from`'s free balance to `to`'s.  With
    /// `keep_alive` set, fails rather than leave `from` below the
    /// existential deposit.  A failed call changes nothing.
    pub fn transfer(&mut self, from: u64, to: u64, amount: u128, keep_alive: bool) -> (r: Result<
        (),
        CurrencyError,
    >)
        ensures
            match r {
                Ok(()) => {
                    &&& old(self).transfer_outcome(from, to, amount, keep_alive) is None
                    &&& transferred(*old(self), *final(self), from, to, amount)
                },
                Err(e) => {
                    &&& old(self).transfer_outcome(from, to, amount, keep_alive) == Some(e)
                    &&& *final(self) == *old(self)
                },
            },
    {
        let from_free = self.free_balance(from);
        if from_free < amount {
            return Err(CurrencyError::InsufficientFunds);
        }
        if keep_alive && from_free - amount < self.existential_deposit {
            return Err(CurrencyError::KeepAlive);
        }
        if from == to {
            return Ok(());
        }
        let to_free = self.free_balance(to);
        if amount > u128::MAX - to_free {
            return Err(CurrencyError::Overflow);
        }
        self.free.insert(from, from_free - amount);
        self.free.insert(to, to_free + amount);
        Ok(())
    }
}

} // verus!
