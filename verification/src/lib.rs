//! Confidential-record ("note") primitive of a privacy-preserving ledger.
//!
//! A [`record::Record`] binds an owner, a value, an opaque payload, and a
//! program identifier into a binding commitment and a ciphertext that only
//! the owner (or a delegated viewer) can open, and derives an
//! owner-authenticated serial number that marks a record as spent.
//!
//! The commitment scheme, encryption scheme, and pseudorandom function are
//! capability interfaces ([`ports`]); [`schemes`] provides verified
//! instantiations suitable for tests and reference networks.

pub mod account;
pub mod binary;
pub mod bytes;
pub mod codec;
mod entropy;
pub mod errors;
pub mod laws;
pub mod network;
pub mod payload;
pub mod ports;
pub mod record;
pub mod schemes;
pub mod text;
