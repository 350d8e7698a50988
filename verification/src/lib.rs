//! Security materials for a low-power wireless mesh node.
//!
//! The crate holds the cryptographic key material a mesh node uses to
//! authenticate and decrypt traffic: network keys with their derived
//! identifiers and sub-keys, application keys, and the device key. It models
//! the Key Refresh Procedure's phase state machine, resolves 7-bit NID and
//! 6-bit AID identifier collisions into ordered candidate lists for the
//! decrypt pipeline, and carries a small catalog of standardized LE
//! controller opcodes with validated round-trip conversion.

pub mod hci;
pub mod keys;
pub mod maps;
pub mod matching;
pub mod materials;
