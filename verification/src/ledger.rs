//! The fund-reservation interface and an in-memory ledger.

use vstd::prelude::*;
use std::collections::HashMap;

verus! {

broadcast use vstd::std_specs::hash::group_hash_axioms;

/// The external ledger could not earmark the requested amount.
#[derive(Clone, Copy, Debug, PartialEq, Eq, Structural)]
pub struct InsufficientFunds;

/// The enclosing ledger's account system, seen through the one capability
/// the voting engine needs: atomically earmarking funds.  A reservation
/// either reserves exactly the requested amount from exactly the named
/// account, or fails and leaves every account untouched.
pub trait Ledger: Sized {
    /// The implementation's own well-formedness condition.
    spec fn wf(&self) -> bool;

    /// How much is currently reserved from `account`.
    spec fn reserved_total(&self, account: u64) -> int;

    fn reserve(&mut self, account: u64, amount: u64) -> (r: Result<(), InsufficientFunds>)
        requires
            old(self).wf(),
        ensures
            final(self).wf(),
            r is Ok ==> forall|a: u64|
                #[trigger] final(self).reserved_total(a) == old(self).reserved_total(a) + if a
                    == account {
                    amount as int
                } else {
                    0int
                },
            r is Err ==> forall|a: u64|
                #[trigger] final(self).reserved_total(a) == old(self).reserved_total(a),
    ;
}

/// A self-contained ledger keeping free and reserved balances per
/// account, suitable for tests and for hosts without their own ledger.
pub struct InMemoryLedger {
    pub free: HashMap<u64, u64>,
    pub reserved: HashMap<u64, u64>,
}

impl InMemoryLedger {
    /// The free (not yet reserved) balance of `account`.
    pub open spec fn free_of(&self, account: u64) -> int {
        if self.free@.contains_key(account) {
            self.free@[account] as int
        } else {
            0
        }
    }

    pub fn new() -> (l: InMemoryLedger)
        ensures
            l.wf(),
            forall|a: u64| #[trigger] l.reserved_total(a) == 0,
            forall|a: u64| #[trigger] l.free_of(a) == 0,
    {
        InMemoryLedger { free: HashMap::new(), reserved: HashMap::new() }
    }

    /// Credits `amount` to the free balance of `account`.
    pub fn fund(&mut self, account: u64, amount: u64)
        requires
            old(self).wf(),
            old(self).free_of(account) + old(self).reserved_total(account) + amount
                <= u64::MAX as int,
        ensures
            final(self).wf(),
            final(self).free_of(account) == old(self).free_of(account) + amount,
            forall|a: u64|
                a != account ==> #[trigger] final(self).free_of(a) == old(self).free_of(a),
            forall|a: u64| #[trigger] final(self).reserved_total(a) == old(self).reserved_total(a),
    {
        let cur: u64 = match self.free.get(&account) {
            Some(v) => *v,
            None => 0,
        };
        self.free.insert(account, cur + amount);
        proof {
            assert forall|a: u64|
                self.free_of(a) + #[trigger] self.reserved_total(a) <= u64::MAX as int by {
                assert(old(self).free_of(a) + old(self).reserved_total(a) <= u64::MAX as int);
                if a != account {
                    assert(self.free_of(a) == old(self).free_of(a));
                }
                assert(self.reserved_total(a) == old(self).reserved_total(a));
            };
        }
    }

    pub fn free_balance(&self, account: u64) -> (r: u64)
        ensures
            r as int == self.free_of(account),
    {
        match self.free.get(&account) {
            Some(v) => *v,
            None => 0,
        }
    }

    pub fn reserved_balance(&self, account: u64) -> (r: u64)
        ensures
            r as int == self.reserved_total(account),
    {
        match self.reserved.get(&account) {
            Some(v) => *v,
            None => 0,
        }
    }
}

impl Ledger for InMemoryLedger {
    /// Balances never overflow: free plus reserved fits in the balance type.
    open spec fn wf(&self) -> bool {
        forall|a: u64| self.free_of(a) + #[trigger] self.reserved_total(a) <= u64::MAX as int
    }

    open spec fn reserved_total(&self, account: u64) -> int {
        if self.reserved@.contains_key(account) {
            self.reserved@[account] as int
        } else {
            0
        }
    }

    fn reserve(&mut self, account: u64, amount: u64) -> (r: Result<(), InsufficientFunds>)
        ensures
            r is Ok <==> old(self).free_of(account) >= amount,
            r is Ok ==> final(self).free_of(account) == old(self).free_of(account) - amount,
            r is Err ==> *final(self) == *old(self),
    {
        let cur_free: u64 = match self.free.get(&account) {
            Some(v) => *v,
            None => 0,
        };
        if cur_free < amount {
            return Err(InsufficientFunds);
        }
        let cur_res: u64 = match self.reserved.get(&account) {
            Some(v) => *v,
            None => 0,
        };
        proof {
            assert(old(self).free_of(account) + old(self).reserved_total(account)
                <= u64::MAX as int);
        }
        self.free.insert(account, cur_free - amount);
        self.reserved.insert(account, cur_res + amount);
        proof {
            assert forall|a: u64|
                self.free_of(a) + #[trigger] self.reserved_total(a) <= u64::MAX as int by {
                assert(old(self).free_of(a) + old(self).reserved_total(a) <= u64::MAX as int);
                if a != account {
                    assert(self.free_of(a) == old(self).free_of(a));
                    assert(self.reserved_total(a) == old(self).reserved_total(a));
                }
            };
        }
        Ok(())
    }
}

} // verus!
