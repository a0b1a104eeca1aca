//! A fungible-token ledger with role-gated administration, a bridge-out
//! escrow and a redemption gateway.
//!
//! A [`ledger::Ledger`] holds every record of one token: balances,
//! allowances, the total supply, badges, fees, and the requests to release
//! tokens on another chain. Its operations are functions that take the ledger
//! and the identity of the caller. Each either goes through, and returns the
//! events to record, or is refused with a [`error::Cep18Error`] and leaves
//! the ledger as it was.
//!
//! The contracts speak of a ledger through its state, [`ledger::LedgerView`],
//! in which amounts are natural numbers and tables are maps. Every operation
//! keeps the ledger well formed, and in a well-formed ledger the balances add
//! up to the total supply: see [`laws`].
//!
//! - [`token`]: transfers, allowances, minting and burning.
//! - [`access`]: badges, and who may do what.
//! - [`bridge`]: locking tokens for another chain, and settling the requests.
//! - [`redeem`]: taking in balances burned on another ledger.
//! - [`init`]: setting a ledger up.
//! - [`snapshot`]: taking a ledger apart for storage, and putting it together.
//! - [`uint`], [`address`], [`table`], [`hextext`]: amounts, identities,
//!   keyed tables and hexadecimal texts.
pub mod access;
pub mod address;
pub mod balances;
pub mod bridge;
pub mod error;
pub mod events;
pub mod flags;
pub mod hextext;
pub mod init;
pub mod laws;
pub mod ledger;
pub mod redeem;
pub mod security;
pub mod snapshot;
pub mod store;
pub mod table;
pub mod token;
pub mod uint;
