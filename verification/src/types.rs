//! The values that cross the faucet's boundary: configuration, origins,
//! events and rejections.

use vstd::prelude::*;

verus! {

/// Where a request comes from, as the host has verified it.
#[derive(Clone, Copy, Debug, PartialEq, Eq, Structural)]
pub enum Origin {
    /// The administrative origin; it stands for no account.
    Root,
    /// A request signed by the given account.
    Signed(u64),
    /// An unsigned request.
    Unsigned,
}

/// A successful grant, for the host's event log.
#[derive(Clone, Copy, Debug, PartialEq, Eq, Structural)]
pub enum Event {
    /// `amount` of newly issued funds is to be credited to `who`.
    Minted { who: u64, amount: u128 },
}

/// Why the faucet itself turned a request down.
#[derive(Clone, Copy, Debug, PartialEq, Eq, Structural)]
pub enum Error {
    /// The balance has already reached the ceiling.
    HighBalance,
    /// The cooldown since the account's last grant has not passed.
    RecentlyMinted,
}

/// Why a request was rejected.
#[derive(Clone, Copy, Debug, PartialEq, Eq, Structural)]
pub enum DispatchError {
    /// The origin is not a single signed account.
    BadOrigin,
    /// The faucet turned the request down.
    Module(Error),
}

/// The fixed parameters of a deployment.
#[derive(Clone, Copy, Debug, PartialEq, Eq, Structural)]
pub struct Config {
    /// The balance that a grant tops an account up to.
    pub max_balance: u128,
    /// The least number of blocks between two grants to one account.
    pub min_interval: u64,
}

/// The account that an origin resolves to, if it is a signed one.
pub open spec fn signer(origin: Origin) -> Option<u64> {
    match origin {
        Origin::Signed(who) => Some(who),
        _ => None,
    }
}

/// Resolves an origin to the account that signed it. Every other origin is
/// rejected with `BadOrigin`.
pub fn ensure_signed(origin: Origin) -> (r: Result<u64, DispatchError>)
    ensures
        r == (match signer(origin) {
            Some(who) => Ok::<u64, DispatchError>(who),
            None => Err(DispatchError::BadOrigin),
        }),
{
    match origin {
        Origin::Signed(who) => Ok(who),
        _ => Err(DispatchError::BadOrigin),
    }
}

impl Config {
    /// Whether an account whose last grant is `last` may be granted again at
    /// block `now`: it has no record, or the whole interval has passed.
    pub open spec fn cooled_down(&self, last: Option<u64>, now: u64) -> bool {
        match last {
            Some(minted_at) => now as int >= minted_at as int + self.min_interval as int,
            None => true,
        }
    }

    /// The decision on one request: the amount to credit, or the reason for
    /// refusing. The cooldown is judged before the balance.
    pub open spec fn grant_spec(&self, last: Option<u64>, now: u64, balance: u128) -> Result<
        u128,
        Error,
    > {
        if !self.cooled_down(last, now) {
            Err(Error::RecentlyMinted)
        } else if balance >= self.max_balance {
            Err(Error::HighBalance)
        } else {
            Ok((self.max_balance - balance) as u128)
        }
    }

    /// Decides one request from the account's last grant, the current block
    /// and its free balance. The sum of the last grant's block and the
    /// interval is taken without wrapping: a sum beyond every block number
    /// is never reached.
    pub fn grant(&self, last: Option<u64>, now: u64, balance: u128) -> (r: Result<u128, Error>)
        ensures
            r == self.grant_spec(last, now, balance),
    {
        if let Some(minted_at) = last {
            let ready = match minted_at.checked_add(self.min_interval) {
                Some(earliest) => now >= earliest,
                None => false,
            };
            if !ready {
                return Err(Error::RecentlyMinted);
            }
        }
        if balance >= self.max_balance {
            return Err(Error::HighBalance);
        }
        Ok(self.max_balance - balance)
    }
}

} // verus!
