//! Anchoring and validation engine for a tamper-evident repository audit trail.
//!
//! The library derives a signing identity from a configured secret, builds and
//! signs ledger transactions, encodes and decodes contract call payloads,
//! interprets transaction receipts, reconciles the on-chain commit set against
//! the local revision history, and merges layered configuration. Ledger
//! transport, the version-control storage engine and the command line live
//! outside the library and hand it plain values.

pub mod abi;
pub mod bytes;
pub mod codec;
pub mod hex;
pub mod keys;
pub mod reconcile;
pub mod render;
pub mod settings;
pub mod transaction;
pub mod workflow;

