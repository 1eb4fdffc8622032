//! What holds of the faucet together with a host that does as it is told:
//! a host that reads the free balance of the signing account, hands it to
//! the faucet, and on a grant credits the account with newly issued funds
//! and logs the event.

use crate::pallet::{outcome, store_after};
use crate::store::record;
use crate::types::{signer, Config, DispatchError, Error, Event, Origin};
use vstd::prelude::*;

verus! {

/// Everything that a mint request can read or change: the faucet's records
/// and, on the host's side, the free balances, the total issuance and the
/// event log.
pub struct Ledger {
    pub last_mint: Map<u64, u64>,
    pub balances: Map<u64, u128>,
    pub issuance: nat,
    pub events: Seq<Event>,
}

impl Ledger {
    /// The free balance of an account; an account that the ledger does not
    /// know holds nothing.
    pub open spec fn balance_of(&self, who: u64) -> u128 {
        if self.balances.contains_key(who) {
            self.balances[who]
        } else {
            0
        }
    }

    /// What a request from `origin` at block `now` comes to on this ledger.
    pub open spec fn request(&self, config: Config, origin: Origin, now: u64) -> Result<
        Event,
        DispatchError,
    > {
        let balance = match signer(origin) {
            Some(who) => self.balance_of(who),
            None => 0,
        };
        outcome(config, self.last_mint, origin, now, balance)
    }

    /// The ledger after a request from `origin` at block `now`: on a grant
    /// the account is credited, the issuance grows by the same amount, the
    /// record is set and the event is logged; on a rejection it is the same
    /// ledger.
    pub open spec fn step(&self, config: Config, origin: Origin, now: u64) -> Ledger {
        let result = self.request(config, origin, now);
        match result {
            Ok(Event::Minted { who, amount }) => Ledger {
                last_mint: store_after(self.last_mint, now, result),
                balances: self.balances.insert(who, (self.balance_of(who) + amount) as u128),
                issuance: (self.issuance + amount) as nat,
                events: self.events.push(Event::Minted { who, amount }),
            },
            Err(_) => *self,
        }
    }

    /// The ledger after a sequence of requests, each given by its origin
    /// and the block at which it is made.
    pub open spec fn run(&self, config: Config, requests: Seq<(Origin, u64)>) -> Ledger
        decreases requests.len(),
    {
        if requests.len() == 0 {
            *self
        } else {
            let before = self.run(config, requests.drop_last());
            before.step(config, requests.last().0, requests.last().1)
        }
    }

    /// Whether each request of the sequence is rejected when its turn
    /// comes.
    pub open spec fn all_rejected(&self, config: Config, requests: Seq<(Origin, u64)>) -> bool {
        forall|i: int|
            0 <= i < requests.len() ==> (#[trigger] self.run(config, requests.take(i))).request(
                config,
                requests[i].0,
                requests[i].1,
            ) is Err
    }
}

/// A signed request from an account below the ceiling, with no record or
/// with the cooldown passed, is granted. The amount is the ceiling less the
/// balance before. Afterwards the balance is the ceiling, the record is the
/// current block, the issuance has grown by the amount and the event with
/// that amount is the last one logged. No other account is touched.
pub proof fn lemma_due_request_is_granted(config: Config, ledger: Ledger, who: u64, now: u64)
    requires
        ledger.balance_of(who) < config.max_balance,
        config.cooled_down(record(ledger.last_mint, who), now),
    ensures
        ledger.request(config, Origin::Signed(who), now) == Ok::<Event, DispatchError>(
            Event::Minted { who, amount: (config.max_balance - ledger.balance_of(who)) as u128 },
        ),
        ledger.step(config, Origin::Signed(who), now).balance_of(who) == config.max_balance,
        record(ledger.step(config, Origin::Signed(who), now).last_mint, who) == Some(now),
        ledger.step(config, Origin::Signed(who), now).issuance == ledger.issuance
            + config.max_balance - ledger.balance_of(who),
        ledger.step(config, Origin::Signed(who), now).events == ledger.events.push(
            Event::Minted { who, amount: (config.max_balance - ledger.balance_of(who)) as u128 },
        ),
        forall|other: u64|
            other != who ==> {
                &&& #[trigger] ledger.step(config, Origin::Signed(who), now).balance_of(other)
                    == ledger.balance_of(other)
                &&& record(ledger.step(config, Origin::Signed(who), now).last_mint, other)
                    == record(ledger.last_mint, other)
            },
{
}

/// A request is granted only to a signed account below the ceiling whose
/// cooldown has passed, and the amount granted is positive: the ceiling
/// less the balance.
pub proof fn lemma_grant_only_when_due(
    config: Config,
    store: Map<u64, u64>,
    origin: Origin,
    now: u64,
    balance: u128,
)
    requires
        outcome(config, store, origin, now, balance) is Ok,
    ensures
        signer(origin) is Some,
        balance < config.max_balance,
        config.cooled_down(record(store, signer(origin)->0), now),
        outcome(config, store, origin, now, balance) == Ok::<Event, DispatchError>(
            Event::Minted {
                who: signer(origin)->0,
                amount: (config.max_balance - balance) as u128,
            },
        ),
        config.max_balance - balance > 0,
{
}

/// A signed request from an account at or above the ceiling is rejected and
/// changes nothing: no balance, record, issuance or event. Where the
/// account's cooldown has passed, or it has no record, the reason is
/// `HighBalance`.
pub proof fn lemma_high_balance_is_rejected(config: Config, ledger: Ledger, who: u64, now: u64)
    requires
        ledger.balance_of(who) >= config.max_balance,
    ensures
        ledger.request(config, Origin::Signed(who), now) is Err,
        config.cooled_down(record(ledger.last_mint, who), now) ==> ledger.request(
            config,
            Origin::Signed(who),
            now,
        ) == Err::<Event, DispatchError>(DispatchError::Module(Error::HighBalance)),
        ledger.step(config, Origin::Signed(who), now) == ledger,
{
}

/// A signed request made before the account's last grant plus the interval
/// is rejected with `RecentlyMinted`, whatever the balance, and changes
/// nothing.
pub proof fn lemma_early_request_is_rejected(config: Config, ledger: Ledger, who: u64, now: u64)
    requires
        ledger.last_mint.contains_key(who),
        now < ledger.last_mint[who] + config.min_interval,
    ensures
        ledger.request(config, Origin::Signed(who), now) == Err::<Event, DispatchError>(
            DispatchError::Module(Error::RecentlyMinted),
        ),
        ledger.step(config, Origin::Signed(who), now) == ledger,
{
}

/// A request whose origin is no signed account is rejected with
/// `BadOrigin`. The verdict depends on no record, block or balance, and
/// nothing changes.
pub proof fn lemma_unsigned_request_is_rejected(
    config: Config,
    ledger: Ledger,
    origin: Origin,
    now: u64,
)
    requires
        signer(origin) is None,
    ensures
        forall|store: Map<u64, u64>, block: u64, balance: u128| #[trigger]
            outcome(config, store, origin, block, balance) == Err::<Event, DispatchError>(
                DispatchError::BadOrigin,
            ),
        ledger.request(config, origin, now) == Err::<Event, DispatchError>(
            DispatchError::BadOrigin,
        ),
        ledger.step(config, origin, now) == ledger,
{
}

/// A rejected request changes nothing, whatever the reason.
pub proof fn lemma_rejection_changes_nothing(
    config: Config,
    ledger: Ledger,
    origin: Origin,
    now: u64,
)
    requires
        ledger.request(config, origin, now) is Err,
    ensures
        ledger.step(config, origin, now) == ledger,
        store_after(ledger.last_mint, now, ledger.request(config, origin, now))
            == ledger.last_mint,
{
}

/// However many requests are rejected in a row, the ledger after them is
/// the ledger before them.
pub proof fn lemma_rejections_change_nothing(
    config: Config,
    ledger: Ledger,
    requests: Seq<(Origin, u64)>,
)
    requires
        ledger.all_rejected(config, requests),
    ensures
        ledger.run(config, requests) == ledger,
    decreases requests.len(),
{
    if requests.len() > 0 {
        let earlier = requests.drop_last();
        assert forall|i: int| 0 <= i < earlier.len() implies (#[trigger] ledger.run(
            config,
            earlier.take(i),
        )).request(config, earlier[i].0, earlier[i].1) is Err by {
            assert(earlier.take(i) =~= requests.take(i));
        }
        lemma_rejections_change_nothing(config, ledger, earlier);
        let last = requests.len() - 1;
        assert(requests.take(last) =~= earlier);
        assert(ledger.run(config, requests.take(last)).request(
            config,
            requests[last].0,
            requests[last].1,
        ) is Err);
    }
}

/// Once an account's record is removed, the account has none, whatever the
/// records held before; removing it again changes nothing.
pub proof fn lemma_removed_record_is_absent(store: Map<u64, u64>, who: u64)
    ensures
        record(store.remove(who), who) == None::<u64>,
        store.remove(who).remove(who) == store.remove(who),
        forall|other: u64|
            other != who ==> #[trigger] record(store.remove(who), other) == record(store, other),
{
    assert(store.remove(who).remove(who) =~= store.remove(who));
}

} // verus!
