//! Signing-hash preimages and spending-condition scripts for UTXO transactions.
//!
//! The byte layouts are stated as specification functions over sequences of
//! bytes, and every executable function is proved to produce exactly those
//! bytes. Hash functions and elliptic-curve operations are taken from the
//! `bitcoin` and `secp256k1` crates and appear in contracts by name only.

pub mod error;
pub mod encode;
pub mod hashing;
pub mod sighash;
pub mod transaction;
pub mod transaction_hashing;
pub mod taproot1_sighash;
pub mod keys;
pub mod script;
pub mod brc20;
pub mod output_builder;
pub mod witness0_sighash;
pub mod legacy_sighash;
pub mod laws;
pub mod signing;
