//! The faucet: its configuration, its store, and the two entry points that
//! the host calls.

use crate::store::{record, LastMint};
use crate::types::{ensure_signed, signer, Config, DispatchError, Event, Origin};
use vstd::prelude::*;

verus! {

/// What a mint request comes to, given the records so far, the current
/// block and the free balance of the account that the origin resolves to.
/// An origin that is no signed account is rejected whatever the rest holds.
pub open spec fn outcome(
    config: Config,
    store: Map<u64, u64>,
    origin: Origin,
    now: u64,
    balance: u128,
) -> Result<Event, DispatchError> {
    match signer(origin) {
        Some(who) => match config.grant_spec(record(store, who), now, balance) {
            Ok(amount) => Ok(Event::Minted { who, amount }),
            Err(e) => Err(DispatchError::Module(e)),
        },
        None => Err(DispatchError::BadOrigin),
    }
}

/// The records after a request at block `now` that came to `result`: a
/// grant sets the account's record to `now`, a rejection leaves all as it
/// was.
pub open spec fn store_after(store: Map<u64, u64>, now: u64, result: Result<Event, DispatchError>) -> Map<
    u64,
    u64,
> {
    match result {
        Ok(Event::Minted { who, .. }) => store.insert(who, now),
        Err(_) => store,
    }
}

/// A faucet with its fixed configuration and the record of last grants.
pub struct Pallet {
    config: Config,
    last_mint: LastMint,
}

impl View for Pallet {
    type V = Map<u64, u64>;

    /// The block of the last grant of each account that has a record.
    closed spec fn view(&self) -> Map<u64, u64> {
        self.last_mint@
    }
}

impl Pallet {
    /// The configuration that the faucet was made with.
    pub closed spec fn config_spec(&self) -> Config {
        self.config
    }

    /// A faucet that has granted nothing yet.
    pub fn new(config: Config) -> (p: Pallet)
        ensures
            p.config_spec() == config,
            p@ == Map::<u64, u64>::empty(),
    {
        Pallet { config, last_mint: LastMint::new() }
    }

    /// The faucet's configuration.
    pub fn config(&self) -> (c: Config)
        ensures
            c == self.config_spec(),
    {
        self.config
    }

    /// The block of the account's last grant, if it has a record.
    pub fn last_mint(&self, who: u64) -> (r: Option<u64>)
        ensures
            r == record(self@, who),
    {
        self.last_mint.get(who)
    }

    /// Handles one mint request. `current_block` is the host's block number
    /// and `free_balance` the free balance of the account that `origin`
    /// resolves to; neither is looked at where it resolves to none.
    ///
    /// On success the returned event tells the host whom to credit and with
    /// how much, and the account's record is set to `current_block`. On a
    /// rejection nothing is recorded.
    pub fn mint(&mut self, origin: Origin, current_block: u64, free_balance: u128) -> (r: Result<
        Event,
        DispatchError,
    >)
        ensures
            r == outcome(old(self).config_spec(), old(self)@, origin, current_block, free_balance),
            final(self)@ == store_after(old(self)@, current_block, r),
            final(self).config_spec() == old(self).config_spec(),
    {
        let who = match ensure_signed(origin) {
            Ok(who) => who,
            Err(e) => {
                return Err(e);
            },
        };
        let last = self.last_mint.get(who);
        match self.config.grant(last, current_block, free_balance) {
            Ok(amount) => {
                self.last_mint.insert(who, current_block);
                Ok(Event::Minted { who, amount })
            },
            Err(e) => Err(DispatchError::Module(e)),
        }
    }

    /// To be called by the host when it destroys an account: deletes the
    /// account's record, so that none outlives its account.
    pub fn on_killed_account(&mut self, who: &u64)
        ensures
            final(self)@ == old(self)@.remove(*who),
            !final(self)@.contains_key(*who),
            final(self).config_spec() == old(self).config_spec(),
    {
        self.last_mint.remove(*who);
    }
}

} // verus!
