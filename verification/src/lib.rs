//! A small personal-ledger engine: checksum-valid account numbers, PIN-gated
//! balance mutations, and a SQLite-backed row store behind a narrow
//! interface. Every operation's behaviour is stated in its contract and
//! proved; the row store and the randomness source stand behind small
//! trusted wrappers.

pub mod amount;
pub mod checksum;
pub mod digits;
pub mod errors;
pub mod generator;
pub mod ledger;
pub mod store;
pub mod text;
