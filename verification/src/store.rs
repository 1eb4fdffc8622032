//! The faucet's only persistent state: the block of each account's last
//! grant.

use std::collections::HashMap;
use vstd::prelude::*;

verus! {

broadcast use vstd::std_specs::hash::group_hash_axioms;

/// The record of an account in a map of last grants: its block, or nothing
/// where the account was never granted or its record was pruned.
pub open spec fn record(store: Map<u64, u64>, who: u64) -> Option<u64> {
    if store.contains_key(who) {
        Some(store[who])
    } else {
        None
    }
}

/// A map from account to the block of its last grant, with at most one
/// entry per account.
pub struct LastMint {
    entries: HashMap<u64, u64>,
}

impl View for LastMint {
    type V = Map<u64, u64>;

    closed spec fn view(&self) -> Map<u64, u64> {
        self.entries@
    }
}

impl LastMint {
    /// A store without any record.
    pub fn new() -> (s: LastMint)
        ensures
            s@ == Map::<u64, u64>::empty(),
    {
        LastMint { entries: HashMap::new() }
    }

    /// The block of the account's last grant, if it has a record.
    pub fn get(&self, who: u64) -> (r: Option<u64>)
        ensures
            r == record(self@, who),
    {
        match self.entries.get(&who) {
            Some(block) => Some(*block),
            None => None,
        }
    }

    /// Sets the account's record to `block`, in place of an earlier one.
    pub fn insert(&mut self, who: u64, block: u64)
        ensures
            final(self)@ == old(self)@.insert(who, block),
    {
        self.entries.insert(who, block);
    }

    /// Deletes the account's record. Without one, nothing changes.
    pub fn remove(&mut self, who: u64)
        ensures
            final(self)@ == old(self)@.remove(who),
    {
        self.entries.remove(&who);
    }
}

} // verus!
