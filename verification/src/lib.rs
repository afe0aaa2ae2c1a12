//! Transfer-with-fee processor: a single-invocation program that parses a
//! gross amount from an 8-byte little-endian payload, validates the four
//! participant accounts handed over by the host, computes a 1% fee split,
//! and requests the debit/credit operations against the ledger entries.

pub mod account;
pub mod codec;
pub mod error;
pub mod fee;
pub mod laws;
pub mod ledger;
pub mod process;
