//! A token faucet for test and development ledgers.
//!
//! Any account may ask the faucet to top its balance up to a fixed ceiling,
//! at most once per cooldown period measured in blocks. The crate holds the
//! decision itself and the record of each account's last grant. The host
//! ledger supplies the current block and the account's free balance, and
//! carries out the credit and the event that a successful call returns.

pub mod laws;
pub mod pallet;
pub mod store;
pub mod types;

pub use pallet::{outcome, store_after, Pallet};
pub use store::{record, LastMint};
pub use types::{ensure_signed, signer, Config, DispatchError, Error, Event, Origin};
