//! A ledger of opaque, server-encrypted balances with an at-most-once
//! request/fulfillment protocol for deposits and transfers.

pub mod bytes;
pub mod table;
pub mod digest;
pub mod records;
pub mod ledger;
pub mod laws;

pub use bytes::Address;
pub use ledger::{EncryptedTokenContract, LedgerModel};
