//! The account ledger that holds free balances and the betting lock.

use vstd::prelude::*;
use std::collections::HashMap;
use std::collections::HashSet;

verus! {

/// Free balances of accounts, and which accounts the betting lock holds.
pub struct Balances {
    /// Free balance of each account; an account that is absent holds nothing.
    pub free: HashMap<u64, u64>,
    /// The accounts whose funds are locked by the betting system.
    pub locks: HashSet<u64>,
}

impl Balances {
    /// Free balance of `who`.
    pub open spec fn free_of(&self, who: u64) -> u64 {
        if self.free@.contains_key(who) {
            self.free@[who]
        } else {
            0
        }
    }

    /// Whether the betting lock holds the funds of `who`.
    pub open spec fn locked(&self, who: u64) -> bool {
        self.locks@.contains(who)
    }

    /// A ledger with no funds and no locks.
    pub fn new() -> (r: Balances)
        ensures
            forall|a: u64| r.free_of(a) == 0 && !r.locked(a),
    {
        Balances { free: HashMap::new(), locks: HashSet::new() }
    }

    /// The free balance of `who`.
    pub fn free_balance(&self, who: u64) -> (r: u64)
        ensures
            r == self.free_of(who),
    {
        match self.free.get(&who) {
            Some(v) => *v,
            None => 0,
        }
    }

    /// Sets the free balance of `who` to `amount`.
    pub fn make_free_balance_be(&mut self, who: u64, amount: u64)
        ensures
            final(self).free_of(who) == amount,
            forall|a: u64| a != who ==> final(self).free_of(a) == old(self).free_of(a),
            final(self).locks@ == old(self).locks@,
    {
        self.free.insert(who, amount);
    }

    /// Credits `value` to `who`.
    pub fn deposit_creating(&mut self, who: u64, value: u64)
        requires
            old(self).free_of(who) + value <= u64::MAX,
        ensures
            final(self).free_of(who) == old(self).free_of(who) + value,
            forall|a: u64| a != who ==> final(self).free_of(a) == old(self).free_of(a),
            final(self).locks@ == old(self).locks@,
    {
        let current = self.free_balance(who);
        self.make_free_balance_be(who, current + value);
    }

    /// Takes up to `value` from `who`, and returns how much was taken.
    pub fn slash(&mut self, who: u64, value: u64) -> (r: u64)
        ensures
            r == if value <= old(self).free_of(who) {
                value
            } else {
                old(self).free_of(who)
            },
            final(self).free_of(who) == old(self).free_of(who) - r,
            forall|a: u64| a != who ==> final(self).free_of(a) == old(self).free_of(a),
            final(self).locks@ == old(self).locks@,
    {
        let current = self.free_balance(who);
        let taken = if value <= current {
            value
        } else {
            current
        };
        self.make_free_balance_be(who, current - taken);
        taken
    }

    /// Locks the funds of `who`.
    pub fn set_lock(&mut self, who: u64)
        ensures
            final(self).locks@ == old(self).locks@.insert(who),
            final(self).free@ == old(self).free@,
    {
        self.locks.insert(who);
    }

    /// Releases the lock on the funds of `who`.
    pub fn remove_lock(&mut self, who: u64)
        ensures
            final(self).locks@ == old(self).locks@.remove(who),
            final(self).free@ == old(self).free@,
    {
        self.locks.remove(&who);
    }

    /// Whether the funds of `who` are free of the betting lock.
    pub fn is_liquid(&self, who: u64) -> (r: bool)
        ensures
            r == !self.locked(who),
    {
        !self.locks.contains(&who)
    }
}

} // verus!
